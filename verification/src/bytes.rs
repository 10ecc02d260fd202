//! Plain byte-vector helpers: equality, little-endian encodings, the zero hash.

use vstd::prelude::*;

verus! {

/// The length, in bytes, of every cryptographic hash in this crate.
pub const HASH_LEN: usize = 32;

/// The all-zero hash, which marks the genesis boundary.
pub open spec fn zero_hash_spec() -> Seq<u8> {
    Seq::new(HASH_LEN as nat, |i: int| 0u8)
}

/// Little-endian encoding of a 32-bit integer.
pub open spec fn u32_le_spec(n: u32) -> Seq<u8> {
    seq![
        (n & 0xff) as u8,
        ((n >> 8) & 0xff) as u8,
        ((n >> 16) & 0xff) as u8,
        ((n >> 24) & 0xff) as u8,
    ]
}

/// Little-endian encoding of a 64-bit integer.
pub open spec fn u64_le_spec(n: u64) -> Seq<u8> {
    seq![
        (n & 0xff) as u8,
        ((n >> 8) & 0xff) as u8,
        ((n >> 16) & 0xff) as u8,
        ((n >> 24) & 0xff) as u8,
        ((n >> 32) & 0xff) as u8,
        ((n >> 40) & 0xff) as u8,
        ((n >> 48) & 0xff) as u8,
        ((n >> 56) & 0xff) as u8,
    ]
}

/// Compares two byte vectors for equality of their contents.
pub fn bytes_eq(a: &Vec<u8>, b: &Vec<u8>) -> (r: bool)
    ensures
        r == (a@ == b@),
{
    if a.len() != b.len() {
        assert(a@ != b@);
        return false;
    }
    let mut i: usize = 0;
    while i < a.len()
        invariant
            i <= a.len(),
            a@.len() == b@.len(),
            forall|j: int| 0 <= j < i ==> a@[j] == b@[j],
        decreases a.len() - i,
    {
        if a[i] != b[i] {
            assert(a@ != b@);
            return false;
        }
        i += 1;
    }
    assert(a@ =~= b@);
    true
}

/// Returns the all-zero hash value.
pub fn zero_hash() -> (r: Vec<u8>)
    ensures
        r@ == zero_hash_spec(),
{
    let mut v: Vec<u8> = Vec::new();
    let mut i: usize = 0;
    while i < HASH_LEN
        invariant
            i <= HASH_LEN,
            v@.len() == i,
            forall|j: int| 0 <= j < i ==> v@[j] == 0u8,
        decreases HASH_LEN - i,
    {
        v.push(0u8);
        i += 1;
    }
    assert(v@ =~= zero_hash_spec());
    v
}

/// Tells whether a hash is the all-zero (genesis) hash.
pub fn is_zero_hash(h: &Vec<u8>) -> (r: bool)
    ensures
        r == (h@ == zero_hash_spec()),
{
    let z = zero_hash();
    bytes_eq(h, &z)
}

/// Appends the contents of `src` to `dst`.
pub fn push_bytes(dst: &mut Vec<u8>, src: &Vec<u8>)
    ensures
        final(dst)@ == old(dst)@ + src@,
{
    let mut i: usize = 0;
    while i < src.len()
        invariant
            i <= src.len(),
            dst@ == old(dst)@ + src@.take(i as int),
        decreases src.len() - i,
    {
        dst.push(src[i]);
        assert(dst@ =~= old(dst)@ + src@.take(i + 1));
        i += 1;
    }
    assert(dst@ =~= old(dst)@ + src@);
}

/// Returns a copy of a byte vector with the same contents.
pub fn copy_bytes(v: &Vec<u8>) -> (r: Vec<u8>)
    ensures
        r@ == v@,
{
    let mut r: Vec<u8> = Vec::new();
    push_bytes(&mut r, v);
    assert(r@ =~= v@);
    r
}

/// Appends the little-endian encoding of a 64-bit integer to `dst`.
pub fn push_u64_le(dst: &mut Vec<u8>, n: u64)
    ensures
        final(dst)@ == old(dst)@ + u64_le_spec(n),
{
    dst.push((n & 0xff) as u8);
    dst.push(((n >> 8) & 0xff) as u8);
    dst.push(((n >> 16) & 0xff) as u8);
    dst.push(((n >> 24) & 0xff) as u8);
    dst.push(((n >> 32) & 0xff) as u8);
    dst.push(((n >> 40) & 0xff) as u8);
    dst.push(((n >> 48) & 0xff) as u8);
    dst.push(((n >> 56) & 0xff) as u8);
    assert(dst@ =~= old(dst)@ + u64_le_spec(n));
}

} // verus!
