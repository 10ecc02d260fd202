//! Receipt serialization and the two receipt commitments: the
//! applied-receipts hash of the main transition, and the outgoing-receipts
//! root of a replayed chunk, grouped by receiver shard.

use vstd::prelude::*;

use crate::bytes::{push_bytes, push_u64_le, u64_le_spec};
use crate::hash::{blob_list_hash, blob_list_hash_spec, blobs_view, borsh_blob_list_spec, sha256,
    sha256_of};
use crate::merkle::{merkle_root, merkle_root_spec};
use crate::types::{Receipt, ReceiptView, ShardLayout, ShardLayoutView, receipts_view};

verus! {

/// The serialization of one receipt: its receiver, little-endian, then its
/// payload.
pub open spec fn encode_receipt_spec(r: ReceiptView) -> Seq<u8> {
    u64_le_spec(r.receiver) + r.payload
}

/// The serializations of a list of receipts.
pub open spec fn encoded_receipts_spec(rs: Seq<ReceiptView>) -> Seq<Seq<u8>> {
    rs.map_values(|r: ReceiptView| encode_receipt_spec(r))
}

/// The hash that commits to the ordered list of receipts applied in a
/// transition.
pub open spec fn applied_receipts_hash_spec(rs: Seq<ReceiptView>) -> Seq<u8> {
    blob_list_hash_spec(encoded_receipts_spec(rs))
}

/// Every receipt's serialization fits the 32-bit borsh length frame.
pub open spec fn receipt_sizes_ok(rs: Seq<ReceiptView>) -> bool {
    forall|i: int| 0 <= i < rs.len() ==> (#[trigger] rs[i].payload.len()) + 8 < 0x1_0000_0000
}

/// Serializes one receipt.
pub fn encode_receipt(r: &Receipt) -> (out: Vec<u8>)
    ensures
        out@ == encode_receipt_spec(r@),
{
    let mut out: Vec<u8> = Vec::new();
    push_u64_le(&mut out, r.receiver);
    push_bytes(&mut out, &r.payload);
    out
}

/// Serializes each receipt of a list.
pub fn encode_receipts(rs: &Vec<Receipt>) -> (out: Vec<Vec<u8>>)
    ensures
        blobs_view(out@) == encoded_receipts_spec(receipts_view(rs@)),
        out@.len() == rs@.len(),
        forall|i: int| 0 <= i < rs@.len() ==> #[trigger] out@[i]@ == encode_receipt_spec(rs@[i]@),
{
    let mut out: Vec<Vec<u8>> = Vec::new();
    let mut i: usize = 0;
    while i < rs.len()
        invariant
            i <= rs@.len(),
            out@.len() == i,
            forall|j: int| 0 <= j < i ==> #[trigger] out@[j]@ == encode_receipt_spec(rs@[j]@),
        decreases rs@.len() - i,
    {
        out.push(encode_receipt(&rs[i]));
        i += 1;
    }
    assert(blobs_view(out@) =~= encoded_receipts_spec(receipts_view(rs@)));
    out
}

/// Computes the hash that commits to the ordered list of applied receipts.
pub fn compute_applied_receipts_hash(rs: &Vec<Receipt>) -> (r: Vec<u8>)
    requires
        rs@.len() < 0x1_0000_0000,
        receipt_sizes_ok(receipts_view(rs@)),
    ensures
        r@ == applied_receipts_hash_spec(receipts_view(rs@)),
        r@.len() == 32,
{
    let encoded = encode_receipts(rs);
    assert forall|i: int| 0 <= i < encoded@.len() implies #[trigger] encoded@[i]@.len()
        < 0x1_0000_0000 by {
        assert(receipts_view(rs@)[i] == rs@[i]@);
    }
    blob_list_hash(&encoded)
}

/// Tells whether every receipt of a list fits the 32-bit borsh length frame.
pub fn check_receipt_sizes(rs: &Vec<Receipt>) -> (r: bool)
    ensures
        r == receipt_sizes_ok(receipts_view(rs@)),
{
    let mut i: usize = 0;
    while i < rs.len()
        invariant
            i <= rs@.len(),
            forall|j: int| 0 <= j < i ==> (#[trigger] receipts_view(rs@)[j].payload.len()) + 8
                < 0x1_0000_0000,
        decreases rs@.len() - i,
    {
        if rs[i].payload.len() as u64 >= 0xFFFF_FFF8u64 {
            assert(receipts_view(rs@)[i as int].payload.len() + 8 >= 0x1_0000_0000);
            return false;
        }
        assert(receipts_view(rs@)[i as int] == rs@[i as int]@);
        i += 1;
    }
    true
}

/// How many boundary accounts lie at or below the given account.
pub open spec fn count_le_spec(bs: Seq<u64>, account: u64) -> int
    decreases bs.len(),
{
    if bs.len() == 0 {
        0
    } else {
        (if bs[0] <= account {
            1int
        } else {
            0int
        }) + count_le_spec(bs.drop_first(), account)
    }
}

/// The shard an account belongs to under a layout.
pub open spec fn account_shard_spec(layout: ShardLayoutView, account: u64) -> int {
    count_le_spec(layout.boundary_accounts, account)
}

/// Computes the shard an account belongs to.
pub fn account_shard(layout: &ShardLayout, account: u64) -> (r: usize)
    ensures
        r as int == account_shard_spec(layout@, account),
        r <= layout.boundary_accounts@.len(),
{
    let mut count: usize = 0;
    let mut i: usize = 0;
    proof {
        assert(layout@.boundary_accounts.skip(0) =~= layout@.boundary_accounts);
    }
    while i < layout.boundary_accounts.len()
        invariant
            i <= layout.boundary_accounts@.len(),
            count <= i,
            account_shard_spec(layout@, account) == count + count_le_spec(
                layout@.boundary_accounts.skip(i as int),
                account,
            ),
        decreases layout.boundary_accounts@.len() - i,
    {
        proof {
            assert(layout@.boundary_accounts.skip(i as int)[0]
                == layout.boundary_accounts@[i as int]);
            assert(layout@.boundary_accounts.skip(i as int).drop_first()
                =~= layout@.boundary_accounts.skip(i as int + 1));
        }
        if layout.boundary_accounts[i] <= account {
            count += 1;
        }
        i += 1;
    }
    proof {
        assert(layout@.boundary_accounts.skip(layout.boundary_accounts@.len() as int) =~= Seq::<
            u64,
        >::empty());
    }
    count
}

/// The receipts of a list whose receiver belongs to the given shard, in
/// their original order.
pub open spec fn receipts_for_shard_spec(
    rs: Seq<ReceiptView>,
    layout: ShardLayoutView,
    shard: int,
) -> Seq<ReceiptView>
    decreases rs.len(),
{
    if rs.len() == 0 {
        Seq::empty()
    } else {
        (if account_shard_spec(layout, rs[0].receiver) == shard {
            seq![rs[0]]
        } else {
            Seq::empty()
        }) + receipts_for_shard_spec(rs.drop_first(), layout, shard)
    }
}

/// The commitment of one shard's group of outgoing receipts: the digest of
/// the shard id followed by the group's serialization.
pub open spec fn shard_group_hash_spec(shard: u64, group: Seq<ReceiptView>) -> Seq<u8> {
    sha256_of(u64_le_spec(shard) + borsh_blob_list_spec(encoded_receipts_spec(group)))
}

/// The per-shard commitments of a list of outgoing receipts under a layout.
pub open spec fn receipts_hashes_spec(rs: Seq<ReceiptView>, layout: ShardLayoutView) -> Seq<
    Seq<u8>,
> {
    Seq::new(
        (layout.boundary_accounts.len() + 1) as nat,
        |s: int| shard_group_hash_spec(s as u64, receipts_for_shard_spec(rs, layout, s)),
    )
}

/// The root that commits to a chunk's outgoing receipts, grouped by receiver
/// shard.
pub open spec fn outgoing_receipts_root_spec(rs: Seq<ReceiptView>, layout: ShardLayoutView) -> Seq<
    u8,
> {
    merkle_root_spec(receipts_hashes_spec(rs, layout))
}

/// Collects the receipts of a list whose receiver belongs to the given
/// shard.
fn receipts_for_shard(rs: &Vec<Receipt>, layout: &ShardLayout, shard: usize) -> (out: Vec<Receipt>)
    ensures
        receipts_view(out@) == receipts_for_shard_spec(receipts_view(rs@), layout@, shard as int),
{
    let mut out: Vec<Receipt> = Vec::new();
    let mut i: usize = 0;
    let ghost rv = receipts_view(rs@);
    proof {
        assert(rv.skip(0) =~= rv);
        assert(receipts_view(out@) =~= Seq::<ReceiptView>::empty());
    }
    while i < rs.len()
        invariant
            i <= rs@.len(),
            rv == receipts_view(rs@),
            receipts_for_shard_spec(rv, layout@, shard as int) == receipts_view(out@)
                + receipts_for_shard_spec(rv.skip(i as int), layout@, shard as int),
        decreases rs@.len() - i,
    {
        let ghost out0 = receipts_view(out@);
        proof {
            assert(rv.skip(i as int)[0] == rs@[i as int]@);
            assert(rv.skip(i as int).drop_first() =~= rv.skip(i as int + 1));
        }
        if account_shard(layout, rs[i].receiver) == shard {
            out.push(rs[i].clone_receipt());
            proof {
                assert(receipts_view(out@) =~= out0 + seq![rs@[i as int]@]);
            }
        }
        i += 1;
    }
    proof {
        assert(rv.skip(rs@.len() as int) =~= Seq::<ReceiptView>::empty());
    }
    out
}

/// Computes the commitment of one shard's group of outgoing receipts.
fn shard_group_hash(shard: u64, group: &Vec<Receipt>) -> (r: Vec<u8>)
    requires
        group@.len() < 0x1_0000_0000,
        receipt_sizes_ok(receipts_view(group@)),
    ensures
        r@ == shard_group_hash_spec(shard, receipts_view(group@)),
{
    let encoded = encode_receipts(group);
    assert forall|i: int| 0 <= i < encoded@.len() implies #[trigger] encoded@[i]@.len()
        < 0x1_0000_0000 by {
        assert(receipts_view(group@)[i] == group@[i]@);
    }
    let framed = crate::hash::borsh_blob_list(&encoded);
    let mut data: Vec<u8> = Vec::new();
    push_u64_le(&mut data, shard);
    push_bytes(&mut data, &framed);
    assert(data@ =~= u64_le_spec(shard) + borsh_blob_list_spec(encoded_receipts_spec(
        receipts_view(group@),
    )));
    sha256(&data)
}

/// Computes the root that commits to a chunk's outgoing receipts, grouped by
/// receiver shard.
pub fn compute_outgoing_receipts_root(rs: &Vec<Receipt>, layout: &ShardLayout) -> (r: Vec<u8>)
    requires
        rs@.len() < 0x1_0000_0000,
        receipt_sizes_ok(receipts_view(rs@)),
        layout.boundary_accounts@.len() < usize::MAX,
    ensures
        r@ == outgoing_receipts_root_spec(receipts_view(rs@), layout@),
{
    let num_shards = layout.boundary_accounts.len() + 1;
    let mut hashes: Vec<Vec<u8>> = Vec::new();
    let mut s: usize = 0;
    while s < num_shards
        invariant
            s <= num_shards,
            num_shards == layout@.boundary_accounts.len() + 1,
            rs@.len() < 0x1_0000_0000,
            receipt_sizes_ok(receipts_view(rs@)),
            hashes@.len() == s,
            forall|t: int| 0 <= t < s ==> #[trigger] hashes@[t]@ == receipts_hashes_spec(
                receipts_view(rs@),
                layout@,
            )[t],
        decreases num_shards - s,
    {
        let group = receipts_for_shard(rs, layout, s);
        proof {
            lemma_receipts_for_shard_sub(receipts_view(rs@), layout@, s as int);
        }
        let h = shard_group_hash(s as u64, &group);
        hashes.push(h);
        s += 1;
    }
    assert(crate::hash::blobs_view(hashes@) =~= receipts_hashes_spec(receipts_view(rs@), layout@));
    merkle_root(&hashes)
}

/// A shard's group is no longer than the receipt list, and its sizes stay
/// within the borsh frame.
proof fn lemma_receipts_for_shard_sub(rs: Seq<ReceiptView>, layout: ShardLayoutView, shard: int)
    ensures
        receipts_for_shard_spec(rs, layout, shard).len() <= rs.len(),
        receipt_sizes_ok(rs) ==> receipt_sizes_ok(receipts_for_shard_spec(rs, layout, shard)),
    decreases rs.len(),
{
    if rs.len() > 0 {
        lemma_receipts_for_shard_sub(rs.drop_first(), layout, shard);
        if receipt_sizes_ok(rs) {
            assert forall|i: int| 0 <= i < rs.drop_first().len() implies (#[trigger] rs.drop_first(
            )[i].payload.len()) + 8 < 0x1_0000_0000 by {
                assert(rs.drop_first()[i] == rs[i + 1]);
            }
        }
    }
}

} // verus!
