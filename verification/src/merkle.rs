//! A binary merkle tree over byte blobs. Leaves are the SHA-256 digests of
//! the blobs; inner nodes are the digest of the concatenation of their two
//! children; an odd node at the end of a level is promoted unchanged. The
//! root of an empty list is the all-zero hash.

use vstd::prelude::*;

use crate::bytes::{copy_bytes, push_bytes, zero_hash_spec};
use crate::hash::{blobs_view, sha256, sha256_of};

verus! {

/// The hash of an inner node from its two children.
pub open spec fn combine_spec(l: Seq<u8>, r: Seq<u8>) -> Seq<u8> {
    sha256_of(l + r)
}

/// One level of the tree: adjacent hashes are combined pairwise; a final
/// unpaired hash is kept as it is.
pub open spec fn pair_up_spec(s: Seq<Seq<u8>>) -> Seq<Seq<u8>>
    decreases s.len(),
{
    if s.len() >= 2 {
        seq![combine_spec(s[0], s[1])] + pair_up_spec(s.skip(2))
    } else {
        s
    }
}

/// A level has at least one hash fewer than the level below it, and never
/// becomes empty, as long as the level below holds two or more hashes.
pub proof fn lemma_pair_up_len(s: Seq<Seq<u8>>)
    ensures
        s.len() >= 2 ==> 1 <= pair_up_spec(s).len() < s.len(),
        s.len() < 2 ==> pair_up_spec(s) == s,
    decreases s.len(),
{
    if s.len() >= 2 {
        lemma_pair_up_len(s.skip(2));
    }
}

/// The root of a level of hashes: combine levels until one hash is left.
pub open spec fn root_of_hashes_spec(s: Seq<Seq<u8>>) -> Seq<u8>
    decreases s.len(),
        via root_of_hashes_decreases
{
    if s.len() == 0 {
        zero_hash_spec()
    } else if s.len() == 1 {
        s[0]
    } else {
        root_of_hashes_spec(pair_up_spec(s))
    }
}

#[via_fn]
proof fn root_of_hashes_decreases(s: Seq<Seq<u8>>) {
    lemma_pair_up_len(s);
}

/// The leaf hashes of a list of blobs.
pub open spec fn leaf_hashes_spec(blobs: Seq<Seq<u8>>) -> Seq<Seq<u8>> {
    blobs.map_values(|b: Seq<u8>| sha256_of(b))
}

/// The merkle root of an ordered list of byte blobs.
pub open spec fn merkle_root_spec(blobs: Seq<Seq<u8>>) -> Seq<u8> {
    root_of_hashes_spec(leaf_hashes_spec(blobs))
}

/// Appending a vector to a list appends its contents to the list's view.
proof fn lemma_blobs_view_push(s: Seq<Vec<u8>>, v: Vec<u8>)
    ensures
        blobs_view(s.push(v)) =~= blobs_view(s) + seq![v@],
{
    assert forall|j: int| 0 <= j < s.len() + 1 implies blobs_view(s.push(v))[j] == (blobs_view(s)
        + seq![v@])[j] by {
        if j < s.len() {
            assert(s.push(v)[j] == s[j]);
        } else {
            assert(s.push(v)[j] == v);
        }
    }
}

/// Computes the hash of an inner node from its two children.
fn combine(l: &Vec<u8>, r: &Vec<u8>) -> (c: Vec<u8>)
    ensures
        c@ == combine_spec(l@, r@),
        c@.len() == 32,
{
    let mut cat: Vec<u8> = Vec::new();
    push_bytes(&mut cat, l);
    push_bytes(&mut cat, r);
    assert(cat@ =~= l@ + r@);
    sha256(&cat)
}

/// Computes one level of the tree above the given level.
fn pair_up(h: &Vec<Vec<u8>>) -> (r: Vec<Vec<u8>>)
    ensures
        blobs_view(r@) == pair_up_spec(blobs_view(h@)),
{
    let ghost v = blobs_view(h@);
    let mut next: Vec<Vec<u8>> = Vec::new();
    let mut i: usize = 0;
    proof {
        assert(v.skip(0) =~= v);
        assert(blobs_view(next@) + pair_up_spec(v.skip(0)) =~= pair_up_spec(v));
    }
    while i < h.len()
        invariant
            i <= h@.len(),
            v == blobs_view(h@),
            pair_up_spec(v) == blobs_view(next@) + pair_up_spec(v.skip(i as int)),
        decreases h@.len() - i,
    {
        let ghost next0 = next@;
        if i + 1 < h.len() {
            let c = combine(&h[i], &h[i + 1]);
            next.push(c);
            proof {
                lemma_blobs_view_push(next0, c);
                assert(v.skip(i as int).len() >= 2);
                assert(v.skip(i as int)[0] == v[i as int]);
                assert(v.skip(i as int)[1] == v[i as int + 1]);
                assert(v.skip(i as int).skip(2) =~= v.skip(i as int + 2));
                assert(c@ == combine_spec(v[i as int], v[i as int + 1]));
                assert(pair_up_spec(v) =~= blobs_view(next@) + pair_up_spec(v.skip(i as int + 2)));
            }
            i += 2;
        } else {
            let last = copy_bytes(&h[i]);
            next.push(last);
            proof {
                lemma_blobs_view_push(next0, last);
                assert(v.skip(i as int) =~= seq![v[i as int]]);
                assert(v.skip(i as int + 1) =~= Seq::<Seq<u8>>::empty());
                assert(pair_up_spec(v) =~= blobs_view(next@) + pair_up_spec(v.skip(i as int + 1)));
            }
            i += 1;
        }
    }
    proof {
        assert(v.skip(h@.len() as int) =~= Seq::<Seq<u8>>::empty());
        assert(blobs_view(next@) =~= pair_up_spec(v));
    }
    next
}

/// Combines a level of hashes up to the root.
fn root_of_hashes(h: Vec<Vec<u8>>) -> (r: Vec<u8>)
    ensures
        r@ == root_of_hashes_spec(blobs_view(h@)),
{
    let ghost orig = blobs_view(h@);
    if h.len() == 0 {
        return crate::bytes::zero_hash();
    }
    let mut level = h;
    while level.len() >= 2
        invariant
            level@.len() >= 1,
            root_of_hashes_spec(blobs_view(level@)) == root_of_hashes_spec(orig),
        decreases level@.len(),
    {
        proof {
            lemma_pair_up_len(blobs_view(level@));
        }
        level = pair_up(&level);
    }
    let r = copy_bytes(&level[0]);
    assert(blobs_view(level@)[0] == level@[0]@);
    r
}

/// Computes the merkle root of an ordered list of byte blobs.
pub fn merkle_root(blobs: &Vec<Vec<u8>>) -> (r: Vec<u8>)
    ensures
        r@ == merkle_root_spec(blobs_view(blobs@)),
{
    let ghost bv = blobs_view(blobs@);
    let mut leaves: Vec<Vec<u8>> = Vec::new();
    let mut i: usize = 0;
    while i < blobs.len()
        invariant
            i <= blobs@.len(),
            bv == blobs_view(blobs@),
            blobs_view(leaves@) == leaf_hashes_spec(bv.take(i as int)),
        decreases blobs@.len() - i,
    {
        let ghost leaves0 = leaves@;
        let leaf = sha256(&blobs[i]);
        leaves.push(leaf);
        proof {
            lemma_blobs_view_push(leaves0, leaf);
            assert(bv.take(i as int + 1) =~= bv.take(i as int) + seq![bv[i as int]]);
            assert(bv[i as int] == blobs@[i as int]@);
            assert forall|j: int| 0 <= j < i + 1 implies leaf_hashes_spec(bv.take(i as int + 1))[j]
                == blobs_view(leaves@)[j] by {
                if j < i {
                    assert(leaf_hashes_spec(bv.take(i as int))[j] == blobs_view(leaves0)[j]);
                }
            }
            assert(blobs_view(leaves@) =~= leaf_hashes_spec(bv.take(i as int + 1)));
        }
        i += 1;
    }
    assert(bv.take(blobs@.len() as int) =~= bv);
    root_of_hashes(leaves)
}

} // verus!
