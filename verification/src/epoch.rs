//! The epoch-manager model: the per-epoch data the core consults. The real
//! epoch manager is an external collaborator; what the core reads of it —
//! the protocol version, the shard layout, shard uids, chunk-validator
//! assignments and block producers — is held here as plain values.

use vstd::prelude::*;

use crate::types::{ShardLayout, ShardLayoutView};

verus! {

/// The first protocol version in which chunk validation is active.
pub const CHUNK_VALIDATION_PROTOCOL_VERSION: u64 = 84;

/// Whether the chunk-validation feature is active at a protocol version.
pub open spec fn chunk_validation_enabled_spec(protocol_version: u64) -> bool {
    protocol_version >= CHUNK_VALIDATION_PROTOCOL_VERSION
}

/// The per-epoch data the core reads from the epoch manager.
pub struct EpochInfo {
    pub protocol_version: u64,
    pub shard_layout: ShardLayout,
    /// The shard uid of each shard id, indexed by shard id.
    pub shard_uids: Vec<u64>,
    /// The chunk-validator committees, keyed by shard id and height.
    pub chunk_validators: Vec<(u64, u64, Vec<u64>)>,
    /// The block producers, keyed by height.
    pub block_producers: Vec<(u64, u64)>,
}

#[verifier::ext_equal]
pub struct EpochInfoView {
    pub protocol_version: u64,
    pub shard_layout: ShardLayoutView,
    pub shard_uids: Seq<u64>,
    pub chunk_validators: Seq<(u64, u64, Seq<u64>)>,
    pub block_producers: Seq<(u64, u64)>,
}

impl View for EpochInfo {
    type V = EpochInfoView;

    open spec fn view(&self) -> EpochInfoView {
        EpochInfoView {
            protocol_version: self.protocol_version,
            shard_layout: self.shard_layout@,
            shard_uids: self.shard_uids@,
            chunk_validators: self.chunk_validators@.map_values(
                |e: (u64, u64, Vec<u64>)| (e.0, e.1, e.2@),
            ),
            block_producers: self.block_producers@,
        }
    }
}

/// The committee assigned to the shard at the height, if one is recorded.
pub open spec fn find_chunk_validators_spec(
    entries: Seq<(u64, u64, Seq<u64>)>,
    shard_id: u64,
    height: u64,
) -> Option<Seq<u64>>
    decreases entries.len(),
{
    if entries.len() == 0 {
        None
    } else if entries[0].0 == shard_id && entries[0].1 == height {
        Some(entries[0].2)
    } else {
        find_chunk_validators_spec(entries.drop_first(), shard_id, height)
    }
}

/// The block producer recorded for the height, if any.
pub open spec fn find_block_producer_spec(entries: Seq<(u64, u64)>, height: u64) -> Option<u64>
    decreases entries.len(),
{
    if entries.len() == 0 {
        None
    } else if entries[0].0 == height {
        Some(entries[0].1)
    } else {
        find_block_producer_spec(entries.drop_first(), height)
    }
}

/// Returns a copy of a list of account ids.
pub fn copy_accounts(v: &Vec<u64>) -> (r: Vec<u64>)
    ensures
        r@ == v@,
{
    let mut r: Vec<u64> = Vec::new();
    let mut i: usize = 0;
    while i < v.len()
        invariant
            i <= v@.len(),
            r@ == v@.take(i as int),
        decreases v@.len() - i,
    {
        r.push(v[i]);
        assert(r@ =~= v@.take(i + 1));
        i += 1;
    }
    assert(r@ =~= v@);
    r
}

impl EpochInfo {
    /// Whether the chunk-validation feature is active in this epoch.
    pub fn chunk_validation_enabled(&self) -> (r: bool)
        ensures
            r == chunk_validation_enabled_spec(self@.protocol_version),
    {
        self.protocol_version >= CHUNK_VALIDATION_PROTOCOL_VERSION
    }

    /// The committee assigned to the shard at the height, if one is
    /// recorded.
    pub fn get_chunk_validators(&self, shard_id: u64, height: u64) -> (r: Option<Vec<u64>>)
        ensures
            match r {
                Some(v) => find_chunk_validators_spec(self@.chunk_validators, shard_id, height)
                    == Some(v@),
                None => find_chunk_validators_spec(
                    self@.chunk_validators,
                    shard_id,
                    height,
                ) is None,
            },
    {
        let mut i: usize = 0;
        proof {
            assert(self@.chunk_validators.skip(0) =~= self@.chunk_validators);
        }
        while i < self.chunk_validators.len()
            invariant
                i <= self.chunk_validators@.len(),
                find_chunk_validators_spec(self@.chunk_validators, shard_id, height)
                    == find_chunk_validators_spec(
                    self@.chunk_validators.skip(i as int),
                    shard_id,
                    height,
                ),
            decreases self.chunk_validators@.len() - i,
        {
            proof {
                assert(self@.chunk_validators.skip(i as int)[0] == (
                    self.chunk_validators@[i as int].0,
                    self.chunk_validators@[i as int].1,
                    self.chunk_validators@[i as int].2@,
                ));
                assert(self@.chunk_validators.skip(i as int).drop_first()
                    =~= self@.chunk_validators.skip(i as int + 1));
            }
            if self.chunk_validators[i].0 == shard_id && self.chunk_validators[i].1 == height {
                return Some(copy_accounts(&self.chunk_validators[i].2));
            }
            i += 1;
        }
        proof {
            assert(self@.chunk_validators.skip(self.chunk_validators@.len() as int) =~= Seq::<
                (u64, u64, Seq<u64>),
            >::empty());
        }
        None
    }

    /// The block producer recorded for the height, if any.
    pub fn get_block_producer(&self, height: u64) -> (r: Option<u64>)
        ensures
            r == find_block_producer_spec(self@.block_producers, height),
    {
        let mut i: usize = 0;
        proof {
            assert(self@.block_producers.skip(0) =~= self@.block_producers);
        }
        while i < self.block_producers.len()
            invariant
                i <= self.block_producers@.len(),
                find_block_producer_spec(self@.block_producers, height) == find_block_producer_spec(
                    self@.block_producers.skip(i as int),
                    height,
                ),
            decreases self.block_producers@.len() - i,
        {
            proof {
                assert(self@.block_producers.skip(i as int)[0] == self.block_producers@[i as int]);
                assert(self@.block_producers.skip(i as int).drop_first()
                    =~= self@.block_producers.skip(i as int + 1));
            }
            if self.block_producers[i].0 == height {
                return Some(self.block_producers[i].1);
            }
            i += 1;
        }
        proof {
            assert(self@.block_producers.skip(self.block_producers@.len() as int) =~= Seq::<
                (u64, u64),
            >::empty());
        }
        None
    }

    /// The shard uid of a shard id, if the epoch knows the shard.
    pub fn shard_id_to_uid(&self, shard_id: u64) -> (r: Option<u64>)
        ensures
            shard_id < self@.shard_uids.len() ==> r == Some(self@.shard_uids[shard_id as int]),
            shard_id >= self@.shard_uids.len() ==> r is None,
    {
        if shard_id < self.shard_uids.len() as u64 {
            Some(self.shard_uids[shard_id as usize])
        } else {
            None
        }
    }
}

/// Whether an account stands in a committee list.
pub open spec fn contains_account_spec(accounts: Seq<u64>, account: u64) -> bool {
    exists|i: int| 0 <= i < accounts.len() && accounts[i] == account
}

/// Tells whether an account stands in a committee list.
pub fn contains_account(accounts: &Vec<u64>, account: u64) -> (r: bool)
    ensures
        r == contains_account_spec(accounts@, account),
{
    let mut i: usize = 0;
    while i < accounts.len()
        invariant
            i <= accounts@.len(),
            forall|j: int| 0 <= j < i ==> accounts@[j] != account,
        decreases accounts@.len() - i,
    {
        if accounts[i] == account {
            return true;
        }
        i += 1;
    }
    false
}

} // verus!
