//! The root registry: the single external ledger cell that holds the current
//! root identifier of a namespace, advanced only by compare-and-swap.
//!
//! The in-memory registry is linearizable by construction — each call is one
//! atomic step — and it can be told to fail its next transaction with a
//! given fault description, which is how backend faults during the root
//! advance are exercised; the description travels with the outcome, as the
//! protocol propagates backend faults with their originating error.

use vstd::prelude::*;

use crate::content_id::ContentId;

verus! {

/// A credential able to authorize a registry transaction. The registry does
/// not interpret it; it is carried so that callers pass one, as the ledger
/// requires.
pub struct Signer {
    pub key: Vec<u8>,
}

/// Outcome of a compare-and-swap on the registry.
#[derive(Debug)]
pub enum CasOutcome {
    /// The current root matched the expected one and was advanced.
    Committed,
    /// The current root differed from the expected one; nothing changed.
    Conflicted,
    /// The backend failed before deciding; nothing changed. Carries the
    /// backend's fault description.
    Faulted(String),
}

/// Mathematical value of a [`CasOutcome`].
pub enum CasOutcomeV {
    Committed,
    Conflicted,
    Faulted(Seq<char>),
}

impl View for CasOutcome {
    type V = CasOutcomeV;

    open spec fn view(&self) -> CasOutcomeV {
        match self {
            CasOutcome::Committed => CasOutcomeV::Committed,
            CasOutcome::Conflicted => CasOutcomeV::Conflicted,
            CasOutcome::Faulted(m) => CasOutcomeV::Faulted(m@),
        }
    }
}

/// Mathematical value of a [`MemoryRootRegistry`]: the current root, and the
/// description of the injected fault if the next transaction is to fail.
#[verifier::ext_equal]
pub struct RegistryV {
    pub root: Seq<u8>,
    pub fail_next: Option<Seq<char>>,
}

/// In-memory root registry for one namespace.
pub struct MemoryRootRegistry {
    root: ContentId,
    fail_next: Option<String>,
}

impl View for MemoryRootRegistry {
    type V = RegistryV;

    closed spec fn view(&self) -> RegistryV {
        RegistryV {
            root: self.root@,
            fail_next: match self.fail_next {
                Some(m) => Some(m@),
                None => None,
            },
        }
    }
}

impl MemoryRootRegistry {
    /// A registry whose current root is `root`.
    pub fn new(root: ContentId) -> (r: MemoryRootRegistry)
        ensures
            r@.root == root@,
            r@.fail_next is None,
    {
        MemoryRootRegistry { root, fail_next: None }
    }

    /// Make the next transaction fail with a backend fault carrying
    /// `message`.
    pub fn inject_fault(&mut self, message: String)
        ensures
            final(self)@.root == old(self)@.root,
            final(self)@.fail_next == Some(message@),
    {
        self.fail_next = Some(message);
    }

    /// Read the current root.
    pub fn current_root(&self) -> (r: ContentId)
        ensures
            r@ == self@.root,
    {
        self.root.clone()
    }

    /// Atomically set the root to `new` iff the current root equals
    /// `expected`; a concurrent writer that advanced the root first is seen
    /// as a conflict, never as a lost update. A previously injected fault
    /// fails this one transaction instead, reporting its description.
    pub fn compare_and_swap(
        &mut self,
        expected: &ContentId,
        new: &ContentId,
        _signer: &Signer,
    ) -> (r: CasOutcome)
        ensures
            r@ == spec_cas(old(self)@, expected@, new@).1,
            final(self)@ == spec_cas(old(self)@, expected@, new@).0,
    {
        let fault = match &self.fail_next {
            Some(m) => Some(m.clone()),
            None => None,
        };
        match fault {
            Some(m) => {
                self.fail_next = None;
                CasOutcome::Faulted(m)
            },
            None => {
                if self.root.same_as(expected) {
                    self.root = new.clone();
                    CasOutcome::Committed
                } else {
                    CasOutcome::Conflicted
                }
            },
        }
    }
}

/// What one compare-and-swap call does to a registry: the registry
/// afterwards, and the reported outcome.
pub open spec fn spec_cas(reg: RegistryV, expected: Seq<u8>, new: Seq<u8>) -> (
    RegistryV,
    CasOutcomeV,
) {
    match reg.fail_next {
        Some(m) => (
            RegistryV { root: reg.root, fail_next: None },
            CasOutcomeV::Faulted(m),
        ),
        None => if reg.root == expected {
            (RegistryV { root: new, fail_next: None }, CasOutcomeV::Committed)
        } else {
            (reg, CasOutcomeV::Conflicted)
        },
    }
}

} // verus!
