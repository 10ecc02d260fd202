//! Hashing of serialized values: a SHA-256 digest over a borsh-framed list of
//! byte blobs. This is how the applied-receipts commitment and the merkle tree
//! leaves and nodes are computed.

use vstd::prelude::*;

use crate::bytes::u32_le_spec;

verus! {

/// The SHA-256 digest of a byte string. The digest is a function of the bytes
/// alone; its value is not stated here.
pub uninterp spec fn sha256_of(data: Seq<u8>) -> Seq<u8>;

/// Relies on sha2::Sha256::digest: the digest depends on the input bytes
/// alone, and is always 32 bytes long.
#[verifier::external_body]
pub(crate) fn sha256(data: &Vec<u8>) -> (r: Vec<u8>)
    ensures
        r@ == sha256_of(data@),
        r@.len() == 32,
{
    <sha2::Sha256 as sha2::Digest>::digest(data.as_slice()).to_vec()
}

/// The borsh framing of the items of a list of byte blobs, without the
/// leading count: each blob is its 32-bit little-endian length, then its bytes.
pub open spec fn borsh_blob_items_spec(items: Seq<Seq<u8>>) -> Seq<u8>
    decreases items.len(),
{
    if items.len() == 0 {
        Seq::empty()
    } else {
        u32_le_spec(items[0].len() as u32) + items[0] + borsh_blob_items_spec(items.drop_first())
    }
}

/// The borsh serialization of a list of byte blobs: the 32-bit little-endian
/// count of blobs, then each blob framed by its own length.
pub open spec fn borsh_blob_list_spec(items: Seq<Seq<u8>>) -> Seq<u8> {
    u32_le_spec(items.len() as u32) + borsh_blob_items_spec(items)
}

/// The contents of a list of byte vectors, as a sequence of byte sequences.
pub open spec fn blobs_view(items: Seq<Vec<u8>>) -> Seq<Seq<u8>> {
    items.map_values(|b: Vec<u8>| b@)
}

/// Relies on borsh::to_vec on a Vec of byte vectors: the outer Vec is written
/// as a u32 little-endian count followed by its elements, and each inner
/// Vec<u8> as a u32 little-endian length followed by its bytes. Lengths that
/// do not fit in u32 make borsh fail, and are excluded here.
#[verifier::external_body]
pub(crate) fn borsh_blob_list(items: &Vec<Vec<u8>>) -> (r: Vec<u8>)
    requires
        items@.len() < 0x1_0000_0000,
        forall|i: int| 0 <= i < items@.len() ==> #[trigger] items@[i]@.len() < 0x1_0000_0000,
    ensures
        r@ == borsh_blob_list_spec(blobs_view(items@)),
{
    borsh::to_vec(items).unwrap()
}

/// Compares two lists of byte blobs for equality of their contents.
pub fn blobs_eq(a: &Vec<Vec<u8>>, b: &Vec<Vec<u8>>) -> (r: bool)
    ensures
        r == (blobs_view(a@) == blobs_view(b@)),
{
    if a.len() != b.len() {
        return false;
    }
    let mut i: usize = 0;
    while i < a.len()
        invariant
            i <= a.len(),
            a@.len() == b@.len(),
            forall|j: int| 0 <= j < i ==> #[trigger] a@[j]@ == b@[j]@,
        decreases a.len() - i,
    {
        if !crate::bytes::bytes_eq(&a[i], &b[i]) {
            assert(blobs_view(a@)[i as int] != blobs_view(b@)[i as int]);
            return false;
        }
        i += 1;
    }
    assert(blobs_view(a@) =~= blobs_view(b@));
    true
}

/// The hash that commits to an ordered list of byte blobs: the SHA-256 digest
/// of their borsh serialization.
pub open spec fn blob_list_hash_spec(items: Seq<Seq<u8>>) -> Seq<u8> {
    sha256_of(borsh_blob_list_spec(items))
}

/// Computes the commitment hash of an ordered list of byte blobs.
pub fn blob_list_hash(items: &Vec<Vec<u8>>) -> (r: Vec<u8>)
    requires
        items@.len() < 0x1_0000_0000,
        forall|i: int| 0 <= i < items@.len() ==> #[trigger] items@[i]@.len() < 0x1_0000_0000,
    ensures
        r@ == blob_list_hash_spec(blobs_view(items@)),
        r@.len() == 32,
{
    let bytes = borsh_blob_list(items);
    sha256(&bytes)
}

} // verus!
