//! The local manifest: an ordered record of path-to-object mappings plus the
//! link to the previously published root, and its deterministic encoding.
//!
//! Each push publishes the manifest as a content object of its own. The
//! encoding below is canonical: a manifest value has exactly one encoding, so
//! the content identifier of the encoded bytes identifies the manifest state.

use vstd::prelude::*;

use crate::content_id::ContentId;

verus! {

/// One manifest entry: a relative path and the content identifier recorded
/// for the object stored at that path.
pub struct Entry {
    pub path: Vec<u8>,
    pub cid: ContentId,
}

/// Mathematical value of an [`Entry`].
#[verifier::ext_equal]
pub struct EntryV {
    pub path: Seq<u8>,
    pub cid: Seq<u8>,
}

impl View for Entry {
    type V = EntryV;

    open spec fn view(&self) -> EntryV {
        EntryV { path: self.path@, cid: self.cid@ }
    }
}

impl Clone for Entry {
    fn clone(&self) -> (r: Self)
        ensures
            r@ == self@,
    {
        Entry { path: self.path.clone(), cid: self.cid.clone() }
    }
}

/// The local manifest: ordered entries plus the previous-root link that
/// chains each publication to the one before it.
pub struct Manifest {
    pub entries: Vec<Entry>,
    pub previous_root: Option<ContentId>,
}

/// Mathematical value of a [`Manifest`].
#[verifier::ext_equal]
pub struct ManifestV {
    pub entries: Seq<EntryV>,
    pub previous_root: Option<Seq<u8>>,
}

impl View for Manifest {
    type V = ManifestV;

    open spec fn view(&self) -> ManifestV {
        ManifestV {
            entries: Seq::new(self.entries@.len(), |i: int| self.entries@[i]@),
            previous_root: match self.previous_root {
                Some(r) => Some(r@),
                None => None,
            },
        }
    }
}

impl Manifest {
    /// A manifest with no entries and no history.
    pub fn new() -> (r: Manifest)
        ensures
            r@.entries.len() == 0,
            r@.previous_root is None,
    {
        Manifest { entries: Vec::new(), previous_root: None }
    }

    /// Append an entry for `path` with recorded identifier `cid`.
    pub fn add_entry(&mut self, path: Vec<u8>, cid: ContentId)
        ensures
            final(self)@.entries =~= old(self)@.entries.push(
                EntryV { path: path@, cid: cid@ },
            ),
            final(self)@.previous_root == old(self)@.previous_root,
    {
        self.entries.push(Entry { path, cid });
    }

    /// Chain this manifest to its predecessor: record `root` as the root the
    /// publication grows out of.
    pub fn set_previous_root(&mut self, root: ContentId)
        ensures
            final(self)@.entries =~= old(self)@.entries,
            final(self)@.previous_root == Some(root@),
    {
        self.previous_root = Some(root);
    }

    /// Encode this manifest canonically.
    pub fn encode(&self) -> (r: Vec<u8>)
        ensures
            r@ == encode_manifest(self@),
    {
        let mut out: Vec<u8> = Vec::new();
        push_len(&mut out, self.entries.len() as u64);
        let ghost entries = self@.entries;
        proof {
            assert(out@ =~= encode_len(entries.len()) + encode_entries(entries.take(0)));
        }
        let mut i: usize = 0;
        while i < self.entries.len()
            invariant
                i <= self.entries.len(),
                entries == self@.entries,
                entries.len() == self.entries@.len(),
                out@ == encode_len(entries.len()) + encode_entries(entries.take(i as int)),
            decreases self.entries.len() - i,
        {
            let e = &self.entries[i];
            push_bytes_field(&mut out, &e.path);
            push_bytes_field(&mut out, e.cid.as_bytes());
            proof {
                lemma_encode_entries_take_step(entries, i as int);
                assert(out@ =~= encode_len(entries.len())
                    + encode_entries(entries.take(i as int + 1)));
            }
            i = i + 1;
        }
        proof {
            assert(entries.take(entries.len() as int) =~= entries);
        }
        match &self.previous_root {
            None => {
                out.push(0u8);
                proof {
                    assert(out@ =~= encode_manifest(self@));
                }
            },
            Some(r) => {
                out.push(1u8);
                push_bytes_field(&mut out, r.as_bytes());
                proof {
                    assert(out@ =~= encode_manifest(self@));
                }
            },
        }
        out
    }
}

impl Clone for Manifest {
    fn clone(&self) -> (r: Self)
        ensures
            r@ == self@,
    {
        let mut entries: Vec<Entry> = Vec::new();
        let mut i: usize = 0;
        while i < self.entries.len()
            invariant
                i <= self.entries.len(),
                entries@.len() == i,
                forall|j: int| 0 <= j < i ==> entries@[j]@ == self.entries@[j]@,
            decreases self.entries.len() - i,
        {
            entries.push(self.entries[i].clone());
            i = i + 1;
        }
        let previous_root = match &self.previous_root {
            Some(r) => Some(r.clone()),
            None => None,
        };
        let r = Manifest { entries, previous_root };
        proof {
            assert(r@.entries =~= self@.entries);
            assert(r@ =~= self@);
        }
        r
    }
}

/// Little-endian fixed-width encoding of a length.
pub open spec fn encode_len(n: nat) -> Seq<u8> {
    seq![
        (n % 256) as u8,
        ((n / 256) % 256) as u8,
        ((n / 65536) % 256) as u8,
        ((n / 16777216) % 256) as u8,
        ((n / 4294967296) % 256) as u8,
        ((n / 1099511627776) % 256) as u8,
        ((n / 281474976710656) % 256) as u8,
        ((n / 72057594037927936) % 256) as u8,
    ]
}

/// A length-prefixed byte field.
pub open spec fn encode_bytes(b: Seq<u8>) -> Seq<u8> {
    encode_len(b.len()) + b
}

/// One entry: its path field, then its identifier field.
pub open spec fn encode_entry(e: EntryV) -> Seq<u8> {
    encode_bytes(e.path) + encode_bytes(e.cid)
}

/// All entries, in manifest order.
pub open spec fn encode_entries(es: Seq<EntryV>) -> Seq<u8>
    decreases es.len(),
{
    if es.len() == 0 {
        Seq::<u8>::empty()
    } else {
        encode_entry(es[0]) + encode_entries(es.drop_first())
    }
}

/// The previous-root link: a presence tag, then the root if there is one.
pub open spec fn encode_previous_root(prev: Option<Seq<u8>>) -> Seq<u8> {
    match prev {
        None => seq![0u8],
        Some(r) => seq![1u8] + encode_bytes(r),
    }
}

/// The canonical encoding of a whole manifest: the entry count, each entry in
/// order, then the previous-root link.
pub open spec fn encode_manifest(m: ManifestV) -> Seq<u8> {
    encode_len(m.entries.len()) + encode_entries(m.entries) + encode_previous_root(
        m.previous_root,
    )
}

/// Splitting the last entry off an encoding.
pub proof fn lemma_encode_entries_snoc(es: Seq<EntryV>)
    requires
        es.len() > 0,
    ensures
        encode_entries(es) == encode_entries(es.drop_last()) + encode_entry(es.last()),
    decreases es.len(),
{
    if es.len() == 1 {
        assert(es.drop_last() =~= Seq::<EntryV>::empty());
        assert(es.drop_first() =~= Seq::<EntryV>::empty());
        assert(encode_entries(es) =~= encode_entries(es.drop_last()) + encode_entry(es.last()));
    } else {
        let tail = es.drop_first();
        lemma_encode_entries_snoc(tail);
        assert(tail.drop_last() =~= es.drop_last().drop_first());
        assert(tail.last() == es.last());
        assert(es.drop_last()[0] == es[0]);
        assert(encode_entries(es.drop_last()) == encode_entry(es[0]) + encode_entries(
            es.drop_last().drop_first(),
        ));
        assert(encode_entries(es) =~= encode_entries(es.drop_last()) + encode_entry(es.last()));
    }
}

/// Extending an encoded prefix by one entry.
pub proof fn lemma_encode_entries_take_step(es: Seq<EntryV>, i: int)
    requires
        0 <= i < es.len(),
    ensures
        encode_entries(es.take(i + 1)) == encode_entries(es.take(i)) + encode_entry(es[i]),
{
    let front = es.take(i + 1);
    assert(front.drop_last() =~= es.take(i));
    assert(front.last() == es[i]);
    lemma_encode_entries_snoc(front);
}

/// Append `src` to `out`.
pub fn push_bytes(out: &mut Vec<u8>, src: &[u8])
    ensures
        final(out)@ == old(out)@ + src@,
{
    let mut j: usize = 0;
    while j < src.len()
        invariant
            j <= src@.len(),
            out@ == old(out)@ + src@.take(j as int),
        decreases src@.len() - j,
    {
        out.push(src[j]);
        proof {
            assert(old(out)@ + src@.take(j as int + 1) =~= (old(out)@ + src@.take(j as int)).push(
                src@[j as int],
            ));
        }
        j = j + 1;
    }
    proof {
        assert(src@.take(src@.len() as int) =~= src@);
    }
}

/// Append the little-endian encoding of `n` to `out`.
pub fn push_len(out: &mut Vec<u8>, n: u64)
    ensures
        final(out)@ == old(out)@ + encode_len(n as nat),
{
    out.push((n % 256) as u8);
    out.push(((n / 256) % 256) as u8);
    out.push(((n / 65536) % 256) as u8);
    out.push(((n / 16777216) % 256) as u8);
    out.push(((n / 4294967296) % 256) as u8);
    out.push(((n / 1099511627776) % 256) as u8);
    out.push(((n / 281474976710656) % 256) as u8);
    out.push(((n / 72057594037927936) % 256) as u8);
    proof {
        assert(out@ =~= old(out)@ + encode_len(n as nat));
    }
}

/// Append a length-prefixed byte field to `out`.
pub fn push_bytes_field(out: &mut Vec<u8>, b: &Vec<u8>)
    ensures
        final(out)@ == old(out)@ + encode_bytes(b@),
{
    push_len(out, b.len() as u64);
    push_bytes(out, b.as_slice());
    proof {
        assert(out@ =~= old(out)@ + encode_bytes(b@));
    }
}

} // verus!
