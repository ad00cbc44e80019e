//! The push protocol: bring the remote content store into a state consistent
//! with the local manifest, publish the manifest as a new root object, and
//! advance the registry's root pointer by compare-and-swap — persisting
//! locally only after the registry has confirmed.
//!
//! [`push`] is the orchestrator, specified functionally by [`spec_push`]:
//! every effect on the local state, the store and the registry is pinned
//! down, for every input. The interpreter functions below it make the same
//! decisions the orchestrator's remote-facing driver needs when it talks to
//! a real service: classifying an existence probe, and checking a returned
//! identifier against the recorded one.

use vstd::prelude::*;

use crate::content_id::{cid_canonical, cid_text_ok, ContentId};
use crate::ipfs::IpfsRemote;
use crate::manifest::{encode_manifest, EntryV, Manifest, ManifestV};
use crate::registry::{spec_cas, CasOutcome, CasOutcomeV, MemoryRootRegistry, RegistryV, Signer};
use crate::store::{store_cid_of, MemoryContentStore, StoreV};

verus! {

/// The remote endpoint of the external ledger that holds the root pointer.
pub struct EthRemote {
    pub url: String,
}

/// What a push needs configured before it touches anything: both remote
/// endpoints, and a signer for the ledger transaction.
pub struct PushConfig {
    pub ipfs_remote: Option<IpfsRemote>,
    pub eth_remote: Option<EthRemote>,
    pub signer: Option<Signer>,
}

/// Everything a pusher keeps in local durable state: the last root it knows
/// the registry confirmed, and the manifest published under that root.
pub struct LocalState {
    pub root: ContentId,
    pub manifest: Manifest,
}

/// Mathematical value of a [`LocalState`].
#[verifier::ext_equal]
pub struct LocalStateV {
    pub root: Seq<u8>,
    pub manifest: ManifestV,
}

impl View for LocalState {
    type V = LocalStateV;

    open spec fn view(&self) -> LocalStateV {
        LocalStateV { root: self.root@, manifest: self.manifest@ }
    }
}

/// A content-store failure that is not "not found", as the probe surfaced
/// it: the service's own error answer with its code and message, or a
/// transport failure with no answer at all.
#[derive(Debug)]
pub enum StoreFault {
    /// The service answered with an API error.
    Api { code: i64, message: String },
    /// The transport failed before any answer arrived.
    Transport,
}

/// Mathematical value of a [`StoreFault`].
pub enum StoreFaultV {
    Api { code: int, message: Seq<char> },
    Transport,
}

impl View for StoreFault {
    type V = StoreFaultV;

    open spec fn view(&self) -> StoreFaultV {
        match self {
            StoreFault::Api { code, message } => StoreFaultV::Api {
                code: *code as int,
                message: message@,
            },
            StoreFault::Transport => StoreFaultV::Transport,
        }
    }
}

/// Why a push failed. Each failure carries its originating context: no
/// backend error is reduced to a bare tag.
#[derive(Debug)]
pub enum PushError {
    /// The signer could not be obtained from the configuration.
    Config,
    /// An identifier returned by the remote store could not be parsed;
    /// carries the offending text.
    Cid(String),
    /// The remote computed a different identifier for uploaded content than
    /// the one recorded locally: the returned one, then the recorded one.
    CidMismatch(ContentId, ContentId),
    /// The content store failed for a reason other than "not found";
    /// carries the originating fault.
    IpfsBackend(StoreFault),
    /// The registry failed before deciding the transaction; carries the
    /// backend's fault description.
    EthBackend(String),
    /// The registry's current root differed from the expected one: a
    /// concurrent writer advanced it first.
    Conflict,
    /// No content store endpoint is configured.
    MissingIpfsRemote,
    /// No registry endpoint is configured.
    MissingEthRemote,
}

/// Mathematical value of a [`PushError`].
pub enum PushErrorV {
    Config,
    Cid(Seq<char>),
    CidMismatch(Seq<u8>, Seq<u8>),
    IpfsBackend(StoreFaultV),
    EthBackend(Seq<char>),
    Conflict,
    MissingIpfsRemote,
    MissingEthRemote,
}

impl View for PushError {
    type V = PushErrorV;

    open spec fn view(&self) -> PushErrorV {
        match self {
            PushError::Config => PushErrorV::Config,
            PushError::Cid(text) => PushErrorV::Cid(text@),
            PushError::CidMismatch(returned, expected) => PushErrorV::CidMismatch(
                returned@,
                expected@,
            ),
            PushError::IpfsBackend(fault) => PushErrorV::IpfsBackend(fault@),
            PushError::EthBackend(message) => PushErrorV::EthBackend(message@),
            PushError::Conflict => PushErrorV::Conflict,
            PushError::MissingIpfsRemote => PushErrorV::MissingIpfsRemote,
            PushError::MissingEthRemote => PushErrorV::MissingEthRemote,
        }
    }
}

/// The value of a push's result.
pub open spec fn result_view(r: Result<ContentId, PushError>) -> Result<Seq<u8>, PushErrorV> {
    match r {
        Ok(c) => Ok(c@),
        Err(e) => Err(e@),
    }
}

/// The values of the files a push reads, aligned with the manifest entries.
pub open spec fn files_view(files: Seq<Vec<u8>>) -> Seq<Seq<u8>> {
    Seq::new(files.len(), |i: int| files[i]@)
}

/// One object's synchronization step: skip it if the store holds it, else
/// upload it and compare the store-computed identifier with the recorded
/// one. A disagreement is a verification failure; the uploaded block stays
/// in the store either way.
pub open spec fn sync_step(store: StoreV, e: EntryV, data: Seq<u8>) -> (StoreV, Option<
    PushErrorV,
>) {
    if store.blocks.contains(e.cid) {
        (store, None::<PushErrorV>)
    } else {
        let rc = store_cid_of(data);
        let stored = StoreV { blocks: store.blocks.push(rc), uploads: store.uploads.push(rc) };
        if rc == e.cid {
            (stored, None::<PushErrorV>)
        } else {
            (stored, Some(PushErrorV::CidMismatch(rc, e.cid)))
        }
    }
}

/// The store after synchronizing the first `n` entries, together with the
/// first verification failure if one occurred; synchronization stops at the
/// failure.
pub open spec fn sync_upto(
    entries: Seq<EntryV>,
    files: Seq<Seq<u8>>,
    store: StoreV,
    n: int,
) -> (StoreV, Option<PushErrorV>)
    decreases n,
{
    if n <= 0 {
        (store, None::<PushErrorV>)
    } else {
        let prev = sync_upto(entries, files, store, n - 1);
        if prev.1 is Some {
            prev
        } else {
            sync_step(prev.0, entries[n - 1], files[n - 1])
        }
    }
}

/// A failed step ends the synchronization: later steps change nothing.
pub proof fn lemma_sync_error_sticky(
    entries: Seq<EntryV>,
    files: Seq<Seq<u8>>,
    store: StoreV,
    k: int,
    n: int,
)
    requires
        0 <= k <= n,
        sync_upto(entries, files, store, k).1 is Some,
    ensures
        sync_upto(entries, files, store, n) == sync_upto(entries, files, store, k),
    decreases n - k,
{
    if n > k {
        lemma_sync_error_sticky(entries, files, store, k, n - 1);
    }
}

/// A configuration that lets a push start at all: both endpoints and a
/// signer are present.
pub open spec fn config_complete(config: PushConfig) -> bool {
    &&& config.ipfs_remote is Some
    &&& config.eth_remote is Some
    &&& config.signer is Some
}

/// Everything one push attempt leaves behind.
#[verifier::ext_equal]
pub struct PushOutcome {
    pub result: Result<Seq<u8>, PushErrorV>,
    pub local: LocalStateV,
    pub store: StoreV,
    pub registry: RegistryV,
}

/// What [`push`] computes and changes, for every input.
///
/// The ordering the protocol owes its callers is visible here: the registry
/// is consulted only after every object is verifiably present, and the local
/// state changes only in the branch where the registry committed.
pub open spec fn spec_push(
    config: PushConfig,
    local: LocalStateV,
    files: Seq<Seq<u8>>,
    store: StoreV,
    registry: RegistryV,
) -> PushOutcome {
    if config.ipfs_remote is None {
        PushOutcome { result: Err(PushErrorV::MissingIpfsRemote), local, store, registry }
    } else if config.eth_remote is None {
        PushOutcome { result: Err(PushErrorV::MissingEthRemote), local, store, registry }
    } else if config.signer is None {
        PushOutcome { result: Err(PushErrorV::Config), local, store, registry }
    } else {
        let sync = sync_upto(local.manifest.entries, files, store, local.manifest.entries.len() as int);
        if sync.1 is Some {
            PushOutcome { result: Err(sync.1.unwrap()), local, store: sync.0, registry }
        } else {
            let published = ManifestV {
                entries: local.manifest.entries,
                previous_root: Some(local.root),
            };
            let new_root = store_cid_of(encode_manifest(published));
            let stored = StoreV {
                blocks: sync.0.blocks.push(new_root),
                uploads: sync.0.uploads.push(new_root),
            };
            let cas = spec_cas(registry, local.root, new_root);
            match cas.1 {
                CasOutcomeV::Committed => PushOutcome {
                    result: Ok(new_root),
                    local: LocalStateV { root: new_root, manifest: published },
                    store: stored,
                    registry: cas.0,
                },
                CasOutcomeV::Conflicted => PushOutcome {
                    result: Err(PushErrorV::Conflict),
                    local,
                    store: stored,
                    registry: cas.0,
                },
                CasOutcomeV::Faulted(m) => PushOutcome {
                    result: Err(PushErrorV::EthBackend(m)),
                    local,
                    store: stored,
                    registry: cas.0,
                },
            }
        }
    }
}

/// Synchronize every manifest entry with the store: probe, upload what is
/// absent, and verify each store-computed identifier against the recorded
/// one. Stops at the first verification failure; the registry is never
/// involved.
fn sync_objects(manifest: &Manifest, files: &Vec<Vec<u8>>, store: &mut MemoryContentStore) -> (r:
    Result<(), PushError>)
    requires
        files@.len() == manifest@.entries.len(),
    ensures
        ({
            let sync = sync_upto(
                manifest@.entries,
                files_view(files@),
                old(store)@,
                manifest@.entries.len() as int,
            );
            &&& final(store)@ == sync.0
            &&& (match r {
                Ok(u) => sync.1 is None,
                Err(e) => sync.1 == Some(e@),
            })
        }),
{
    let ghost entries = manifest@.entries;
    let ghost fv = files_view(files@);
    let ghost store0 = old(store)@;

    let n = manifest.entries.len();
    let mut i: usize = 0;
    while i < n
        invariant
            i <= n,
            n == manifest.entries@.len(),
            entries == manifest@.entries,
            fv == files_view(files@),
            fv.len() == entries.len(),
            store0 == old(store)@,
            sync_upto(entries, fv, store0, i as int).1 is None,
            store@ == sync_upto(entries, fv, store0, i as int).0,
        decreases n - i,
    {
        let recorded = &manifest.entries[i].cid;
        if !store.contains_block(recorded) {
            let returned = store.upload(&files[i]);
            proof {
                assert(sync_upto(entries, fv, store0, i as int + 1).0 =~= store@);
            }
            if !returned.same_as(recorded) {
                let expected = recorded.clone();
                proof {
                    lemma_sync_error_sticky(
                        entries,
                        fv,
                        store0,
                        i as int + 1,
                        entries.len() as int,
                    );
                }
                return Err(PushError::CidMismatch(returned, expected));
            }
        }
        i = i + 1;
    }
    Ok(())
}

/// Push the local manifest: make every recorded object verifiably present
/// on the content store, publish the manifest chained to the current local
/// root, advance the registry from that root to the published manifest's
/// identifier, and only then persist the new root and manifest locally.
///
/// `files[i]` holds the content of the file recorded by entry `i`.
pub fn push(
    config: &PushConfig,
    local: &mut LocalState,
    files: &Vec<Vec<u8>>,
    store: &mut MemoryContentStore,
    registry: &mut MemoryRootRegistry,
) -> (r: Result<ContentId, PushError>)
    requires
        files@.len() == old(local)@.manifest.entries.len(),
    ensures
        ({
            let o = spec_push(
                *config,
                old(local)@,
                files_view(files@),
                old(store)@,
                old(registry)@,
            );
            &&& result_view(r) == o.result
            &&& final(local)@ == o.local
            &&& final(store)@ == o.store
            &&& final(registry)@ == o.registry
        }),
{
    if config.ipfs_remote.is_none() {
        return Err(PushError::MissingIpfsRemote);
    }
    if config.eth_remote.is_none() {
        return Err(PushError::MissingEthRemote);
    }
    let signer = match &config.signer {
        Some(s) => s,
        None => {
            return Err(PushError::Config);
        },
    };

    let ghost entries = old(local)@.manifest.entries;
    let ghost fv = files_view(files@);
    let ghost store0 = old(store)@;

    match sync_objects(&local.manifest, files, store) {
        Ok(()) => {},
        Err(e) => {
            return Err(e);
        },
    }

    let mut published = local.manifest.clone();
    published.set_previous_root(local.root.clone());
    proof {
        assert(published@ =~= (ManifestV {
            entries,
            previous_root: Some(old(local)@.root),
        }));
    }
    let bytes = published.encode();
    let new_root = store.upload(&bytes);
    proof {
        let sync = sync_upto(entries, fv, store0, entries.len() as int);
        assert(store@ =~= (StoreV {
            blocks: sync.0.blocks.push(new_root@),
            uploads: sync.0.uploads.push(new_root@),
        }));
    }

    let outcome = registry.compare_and_swap(&local.root, &new_root, signer);
    match interpret_cas(outcome) {
        Ok(()) => {
            let r = new_root.clone();
            local.root = new_root;
            local.manifest = published;
            Ok(r)
        },
        Err(e) => Err(e),
    }
}

/// The push's verdict on a compare-and-swap outcome: a commit lets local
/// persistence proceed; a conflict and a backend fault end the attempt, the
/// fault keeping its description.
pub fn interpret_cas(outcome: CasOutcome) -> (r: Result<(), PushError>)
    ensures
        outcome@ is Committed <==> r is Ok,
        outcome@ is Conflicted ==> r == Err::<(), PushError>(PushError::Conflict),
        outcome@ matches CasOutcomeV::Faulted(m) ==> (r matches Err(e) && e@
            == PushErrorV::EthBackend(m)),
{
    match outcome {
        CasOutcome::Committed => Ok(()),
        CasOutcome::Conflicted => Err(PushError::Conflict),
        CasOutcome::Faulted(m) => Err(PushError::EthBackend(m)),
    }
}

/// Result of an existence probe on the remote store, reduced to the plain
/// values its response carries.
pub enum StatOutcome {
    /// The service answered: the block is there.
    Found,
    /// The service answered with an API error, carrying its code and
    /// message.
    ApiError { code: i64, message: String },
    /// The transport failed before any answer arrived.
    Transport,
}

/// The one API error that means "not found" rather than a fault.
pub open spec fn not_found_message() -> Seq<char> {
    "blockservice: key not found"@
}

/// The message text of [`not_found_message`].
pub fn not_found_text() -> (r: String)
    ensures
        r@ == not_found_message(),
{
    "blockservice: key not found".to_owned()
}

/// Classify an existence probe's outcome: a "key not found" API answer is a
/// normal absence that drives the upload path; every other failure is a
/// backend fault, never conflated with absence.
pub fn block_exists(outcome: &StatOutcome) -> (r: Result<bool, PushError>)
    ensures
        outcome is Found ==> r == Ok::<bool, PushError>(true),
        (outcome matches StatOutcome::ApiError { code, message } && code == 0
            && message@ == not_found_message()) ==> r == Ok::<bool, PushError>(false),
        outcome matches StatOutcome::ApiError { code, message } ==> (!(code == 0
            && message@ == not_found_message()) ==> (r matches Err(e) && e@
            == PushErrorV::IpfsBackend(
            StoreFaultV::Api { code: code as int, message: message@ },
        ))),
        outcome is Transport ==> (r matches Err(e) && e@ == PushErrorV::IpfsBackend(
            StoreFaultV::Transport,
        )),
{
    match outcome {
        StatOutcome::Found => Ok(true),
        StatOutcome::ApiError { code, message } => {
            let not_found = not_found_text();
            if *code == 0 && message.eq(&not_found) {
                Ok(false)
            } else {
                Err(PushError::IpfsBackend(StoreFault::Api {
                    code: *code,
                    message: message.clone(),
                }))
            }
        },
        StatOutcome::Transport => Err(PushError::IpfsBackend(StoreFault::Transport)),
    }
}

/// Check the identifier text the remote returned for an uploaded object
/// against the locally recorded identifier. A well-formed, matching answer
/// yields the parsed identifier; a well-formed, differing answer is a
/// verification failure carrying both sides; an unparsable answer is an
/// identifier error.
pub fn verify_returned_cid(returned_text: &str, expected: &ContentId) -> (r: Result<
    ContentId,
    PushError,
>)
    ensures
        !cid_text_ok(returned_text@) ==> (r matches Err(e) && e@ == PushErrorV::Cid(
            returned_text@,
        )),
        (cid_text_ok(returned_text@) && cid_canonical(returned_text@) == expected@) ==> (
        r matches Ok(c) && c@ == expected@),
        (cid_text_ok(returned_text@) && cid_canonical(returned_text@) != expected@) ==> (
        r matches Err(e) && e@ == PushErrorV::CidMismatch(
            cid_canonical(returned_text@),
            expected@,
        )),
{
    match crate::content_id::parse_cid_text(returned_text) {
        None => Err(PushError::Cid(returned_text.to_owned())),
        Some(c) => {
            if c.same_as(expected) {
                Ok(c)
            } else {
                Err(PushError::CidMismatch(c, expected.clone()))
            }
        },
    }
}

/// Parse the identifier text the remote returned for the uploaded manifest:
/// the new root. There is nothing to compare it against — it names state
/// that exists first on the remote.
pub fn parse_returned_root(text: &str) -> (r: Result<ContentId, PushError>)
    ensures
        !cid_text_ok(text@) ==> (r matches Err(e) && e@ == PushErrorV::Cid(text@)),
        cid_text_ok(text@) ==> (r matches Ok(c) && c@ == cid_canonical(text@)),
{
    match crate::content_id::parse_cid_text(text) {
        None => Err(PushError::Cid(text.to_owned())),
        Some(c) => Ok(c),
    }
}

} // verus!
