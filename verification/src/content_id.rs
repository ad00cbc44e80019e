//! Content identifiers: opaque, self-describing hashes of byte content,
//! compared for equality byte for byte.

use vstd::prelude::*;

verus! {

/// A content identifier (CID) in its textual form.
///
/// The protocol never looks inside a CID: it only carries CIDs around,
/// compares them for equality, and records them. Two CIDs denote the same
/// content exactly when their textual forms are identical.
#[derive(Debug)]
pub struct ContentId {
    bytes: Vec<u8>,
}

impl View for ContentId {
    type V = Seq<u8>;

    closed spec fn view(&self) -> Seq<u8> {
        self.bytes@
    }
}

impl Clone for ContentId {
    fn clone(&self) -> (r: Self)
        ensures
            r@ == self@,
    {
        ContentId { bytes: self.bytes.clone() }
    }
}

/// Whether a text is a well-formed content identifier.
pub uninterp spec fn cid_text_ok(s: Seq<char>) -> bool;

/// The canonical textual form of the content identifier a text denotes.
pub uninterp spec fn cid_canonical(s: Seq<char>) -> Seq<u8>;

/// Relies on the cid crate: `Cid::try_from(&str)` decides whether a text is
/// a well-formed CID (multibase decoding plus version and multihash
/// validation), and `Display` re-encodes the parsed value in its canonical
/// base. Both results depend on the text alone.
#[verifier::external_body]
pub(crate) fn parse_cid_text(s: &str) -> (r: Option<ContentId>)
    ensures
        r is Some <==> cid_text_ok(s@),
        r matches Some(c) ==> c@ == cid_canonical(s@),
{
    match cid::Cid::try_from(s) {
        Ok(c) => Some(ContentId { bytes: c.to_string().into_bytes() }),
        Err(_) => None,
    }
}

impl ContentId {
    /// Wrap an already-validated textual CID.
    pub fn from_bytes(bytes: Vec<u8>) -> (r: ContentId)
        ensures
            r@ == bytes@,
    {
        ContentId { bytes }
    }

    /// The textual form of this CID.
    pub fn as_bytes(&self) -> (r: &Vec<u8>)
        ensures
            r@ == self@,
    {
        &self.bytes
    }

    /// Equality of CIDs: identical textual forms.
    pub fn same_as(&self, other: &ContentId) -> (r: bool)
        ensures
            r == (self@ == other@),
    {
        let r = self.bytes == other.bytes;
        proof {
            if r {
                assert(self@ =~= other@);
            }
        }
        r
    }
}

} // verus!
