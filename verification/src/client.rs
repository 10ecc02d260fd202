//! The client of one node: the producer side that gathers stored state
//! transitions into a chunk state witness for the chunk validators, and the
//! entry points that accept witnesses and endorsements from the network.

use vstd::prelude::*;

use crate::bytes::{copy_bytes, is_zero_hash, zero_hash_spec};
use crate::epoch::{chunk_validation_enabled_spec, find_chunk_validators_spec, EpochInfo,
    EpochInfoView};
use crate::hash::blobs_view;
use crate::store::{blocks_until_height_spec, ChainStore, ChainStoreView, find_chunk_extra_spec,
    find_chunk_spec, find_transition_data_spec, lemma_blocks_until_nonempty, store_wf};
use crate::types::{clone_blobs, ChunkHeader, ChunkHeaderView, ChunkStateTransition,
    ChunkStateTransitionView, ChunkStateWitness, ChunkStateWitnessView, Error, ShardChunk,
    ShardChunkView};
use crate::validator::{start_validating_spec, ChunkValidator, PendingValidation,
    PendingValidationView};

verus! {

/// The client: the chunk validator of this node, the chain store, and the
/// epoch data. The network adapter that carries witnesses and endorsements
/// is a collaborator of the surrounding node.
pub struct Client {
    pub chunk_validator: ChunkValidator,
    pub chain_store: ChainStore,
    pub epoch_info: EpochInfo,
}

/// The implicit transitions gathered for the given block hashes, oldest
/// first: each needs its stored state-transition row and its local chunk
/// extra.
pub open spec fn implicit_list_spec(
    s: ChainStoreView,
    hashes: Seq<Seq<u8>>,
    shard_id: u64,
    shard_uid: u64,
) -> Result<Seq<ChunkStateTransitionView>, Error>
    decreases hashes.len(),
{
    if hashes.len() == 0 {
        Ok(Seq::empty())
    } else {
        match find_transition_data_spec(s.transition_data, hashes[0], shard_id) {
            None => Err(Error::MissingStateProof),
            Some(td) => match find_chunk_extra_spec(s.chunk_extras, hashes[0], shard_uid) {
                None => Err(Error::ChainAccess),
                Some(extra) => {
                    let t = ChunkStateTransitionView {
                        block_hash: hashes[0],
                        base_state: td.base_state,
                        post_state_root: extra.state_root,
                    };
                    match implicit_list_spec(s, hashes.drop_first(), shard_id, shard_uid) {
                        Err(e) => Err(e),
                        Ok(rest) => Ok(seq![t] + rest),
                    }
                },
            },
        }
    }
}

/// What `collect_state_transition_data` gathers for a chunk: the main
/// transition that produced the previous chunk, the implicit transitions
/// since, and the stored hash of the receipts the main transition applied.
pub open spec fn collect_transitions_spec(
    s: ChainStoreView,
    e: EpochInfoView,
    chunk: ChunkHeaderView,
    prev_chunk: ChunkHeaderView,
) -> Result<(ChunkStateTransitionView, Seq<ChunkStateTransitionView>, Seq<u8>), Error> {
    let shard_id = chunk.shard_id;
    if shard_id >= e.shard_uids.len() {
        Err(Error::ChainAccess)
    } else {
        let shard_uid = e.shard_uids[shard_id as int];
        match blocks_until_height_spec(s, chunk.prev_block_hash, prev_chunk.height_included) {
            Err(_) => Err(Error::ChainAccess),
            Ok(hashes) => {
                let ordered = hashes.reverse();
                let main_hash = ordered[0];
                match find_transition_data_spec(s.transition_data, main_hash, shard_id) {
                    None => Err(Error::MissingStateProof),
                    Some(td) => match find_chunk_extra_spec(s.chunk_extras, main_hash, shard_uid) {
                        None => Err(Error::ChainAccess),
                        Some(extra) => {
                            let main_t = ChunkStateTransitionView {
                                block_hash: main_hash,
                                base_state: td.base_state,
                                post_state_root: extra.state_root,
                            };
                            match implicit_list_spec(s, ordered.drop_first(), shard_id, shard_uid) {
                                Err(err) => Err(err),
                                Ok(imps) => Ok((main_t, imps, td.receipts_hash)),
                            }
                        },
                    },
                }
            },
        }
    }
}

/// What `send_chunk_state_witness_to_chunk_validators` produces: nothing
/// when the feature is off or the previous chunk borders genesis; otherwise
/// the witness and the committee to send it to, or the error that stopped
/// the gathering.
pub open spec fn build_witness_spec(
    s: ChainStoreView,
    e: EpochInfoView,
    prev_chunk: ChunkHeaderView,
    chunk: ShardChunkView,
) -> Result<Option<(ChunkStateWitnessView, Seq<u64>)>, Error> {
    if !chunk_validation_enabled_spec(e.protocol_version) {
        Ok(None)
    } else if prev_chunk.prev_block_hash == zero_hash_spec() {
        Ok(None)
    } else {
        let chunk_header = chunk.header;
        match find_chunk_validators_spec(
            e.chunk_validators,
            chunk_header.shard_id,
            chunk_header.height_created,
        ) {
            None => Err(Error::ChainAccess),
            Some(validators) => match find_chunk_spec(s.chunks, prev_chunk.chunk_hash) {
                None => Err(Error::ChainAccess),
                Some(prev_chunk_body) => match collect_transitions_spec(
                    s,
                    e,
                    chunk_header,
                    prev_chunk,
                ) {
                    Err(err) => Err(err),
                    Ok((main_t, imps, receipts_hash)) => Ok(
                        Some(
                            (
                                ChunkStateWitnessView {
                                    chunk_header: chunk_header,
                                    main_state_transition: main_t,
                                    implicit_transitions: imps,
                                    applied_receipts_hash: receipts_hash,
                                    transactions: prev_chunk_body.transactions,
                                    new_transactions: chunk.transactions,
                                },
                                validators,
                            ),
                        ),
                    ),
                },
            },
        }
    }
}

impl Client {
    /// Responds to a network request to verify a chunk state witness, sent
    /// by a chunk producer after it produced a chunk.
    pub fn process_chunk_state_witness(&self, witness: ChunkStateWitness) -> (r: Result<
        PendingValidation,
        Error,
    >)
        requires
            store_wf(self.chain_store@),
        ensures
            match r {
                Ok(p) => start_validating_spec(self.chunk_validator@, witness@, self.chain_store@)
                    == Ok::<_, Error>(p@),
                Err(e) => start_validating_spec(
                    self.chunk_validator@,
                    witness@,
                    self.chain_store@,
                ) == Err::<PendingValidationView, _>(e),
            },
    {
        self.chunk_validator.start_validating_chunk(witness, &self.chain_store)
    }

    /// Accepts an incoming chunk endorsement. Accumulating endorsements for
    /// block production is out of scope; the endorsement is read and
    /// dropped.
    pub fn process_chunk_endorsement(&self, _endorsement: crate::types::ChunkEndorsement) -> (r:
        Result<(), Error>)
        ensures
            r == Ok::<(), Error>(()),
    {
        Ok(())
    }

    /// Gathers the state-transition data needed to produce a state witness
    /// for `chunk_header`: the blocks since the previous chunk's inclusion,
    /// each one's stored transition row, and each one's local chunk extra.
    #[verifier::loop_isolation(false)]
    pub fn collect_state_transition_data(
        &self,
        chunk_header: &ChunkHeader,
        prev_chunk_header: &ChunkHeader,
    ) -> (r: Result<(ChunkStateTransition, Vec<ChunkStateTransition>, Vec<u8>), Error>)
        requires
            store_wf(self.chain_store@),
        ensures
            match r {
                Ok(out) => collect_transitions_spec(
                    self.chain_store@,
                    self.epoch_info@,
                    chunk_header@,
                    prev_chunk_header@,
                ) == Ok::<_, Error>(
                    (out.0@, out.1@.map_values(|t: ChunkStateTransition| t@), out.2@),
                ),
                Err(e) => collect_transitions_spec(
                    self.chain_store@,
                    self.epoch_info@,
                    chunk_header@,
                    prev_chunk_header@,
                ) == Err::<(ChunkStateTransitionView, Seq<ChunkStateTransitionView>, Seq<u8>), _>(
                    e,
                ),
            },
    {
        let shard_id = chunk_header.shard_id;
        let shard_uid = match self.epoch_info.shard_id_to_uid(shard_id) {
            None => {
                return Err(Error::ChainAccess);
            },
            Some(uid) => uid,
        };
        let hashes = match self.chain_store.get_blocks_until_height(
            &chunk_header.prev_block_hash,
            prev_chunk_header.height_included,
        ) {
            Err(_) => {
                return Err(Error::ChainAccess);
            },
            Ok(hs) => hs,
        };
        let ghost hv = blobs_view(hashes@);
        let ghost ordered = hv.reverse();
        proof {
            lemma_blocks_until_nonempty(
                self.chain_store@,
                chunk_header.prev_block_hash@,
                prev_chunk_header.height_included,
            );
        }
        let main_hash = &hashes[hashes.len() - 1];
        assert(main_hash@ == ordered[0]);
        let td_idx = match self.chain_store.find_transition_data_idx(main_hash, shard_id) {
            None => {
                return Err(Error::MissingStateProof);
            },
            Some(i) => i,
        };
        let extra_idx = match self.chain_store.find_chunk_extra_idx(main_hash, shard_uid) {
            None => {
                return Err(Error::ChainAccess);
            },
            Some(i) => i,
        };
        let main_transition = ChunkStateTransition {
            block_hash: copy_bytes(main_hash),
            base_state: clone_blobs(&self.chain_store.transition_data[td_idx].2.base_state),
            post_state_root: copy_bytes(&self.chain_store.chunk_extras[extra_idx].2.state_root),
        };
        let ghost imp_hashes = ordered.drop_first();
        let mut implicit_transitions: Vec<ChunkStateTransition> = Vec::new();
        let mut t: usize = 0;
        proof {
            assert(imp_hashes.skip(0) =~= imp_hashes);
        }
        while t < hashes.len() - 1
            invariant
                t <= hashes@.len() - 1,
                implicit_transitions@.len() == t,
                match implicit_list_spec(
                    self.chain_store@,
                    imp_hashes.skip(t as int),
                    shard_id,
                    shard_uid,
                ) {
                    Ok(rest) => implicit_list_spec(
                        self.chain_store@,
                        imp_hashes,
                        shard_id,
                        shard_uid,
                    ) == Ok::<_, Error>(
                        implicit_transitions@.map_values(|tr: ChunkStateTransition| tr@) + rest,
                    ),
                    Err(e) => implicit_list_spec(
                        self.chain_store@,
                        imp_hashes,
                        shard_id,
                        shard_uid,
                    ) == Err::<Seq<ChunkStateTransitionView>, _>(e),
                },
            decreases hashes@.len() - 1 - t,
        {
            let h_t = &hashes[hashes.len() - 2 - t];
            proof {
                assert(imp_hashes.skip(t as int)[0] == ordered[t + 1]);
                assert(ordered[t + 1] == hv[hv.len() - 2 - t]);
                assert(imp_hashes.skip(t as int).drop_first() =~= imp_hashes.skip(t as int + 1));
            }
            let td_i = match self.chain_store.find_transition_data_idx(h_t, shard_id) {
                None => {
                    return Err(Error::MissingStateProof);
                },
                Some(i) => i,
            };
            let ex_i = match self.chain_store.find_chunk_extra_idx(h_t, shard_uid) {
                None => {
                    return Err(Error::ChainAccess);
                },
                Some(i) => i,
            };
            let ghost acc0 = implicit_transitions@.map_values(|tr: ChunkStateTransition| tr@);
            let tr = ChunkStateTransition {
                block_hash: copy_bytes(h_t),
                base_state: clone_blobs(&self.chain_store.transition_data[td_i].2.base_state),
                post_state_root: copy_bytes(&self.chain_store.chunk_extras[ex_i].2.state_root),
            };
            proof {
                assert(tr@ =~= (ChunkStateTransitionView {
                    block_hash: imp_hashes.skip(t as int)[0],
                    base_state: find_transition_data_spec(
                        self.chain_store@.transition_data,
                        imp_hashes.skip(t as int)[0],
                        shard_id,
                    )->Some_0.base_state,
                    post_state_root: find_chunk_extra_spec(
                        self.chain_store@.chunk_extras,
                        imp_hashes.skip(t as int)[0],
                        shard_uid,
                    )->Some_0.state_root,
                }));
            }
            implicit_transitions.push(tr);
            proof {
                assert(implicit_transitions@.map_values(|x: ChunkStateTransition| x@) =~= acc0
                    + seq![tr@]);
                assert(acc0 + (seq![tr@] + implicit_list_spec(
                    self.chain_store@,
                    imp_hashes.skip(t as int + 1),
                    shard_id,
                    shard_uid,
                )->Ok_0) =~= (acc0 + seq![tr@]) + implicit_list_spec(
                    self.chain_store@,
                    imp_hashes.skip(t as int + 1),
                    shard_id,
                    shard_uid,
                )->Ok_0);
            }
            t += 1;
        }
        proof {
            assert(imp_hashes.skip(hashes@.len() - 1) =~= Seq::<Seq<u8>>::empty());
            assert(implicit_transitions@.map_values(|x: ChunkStateTransition| x@) + Seq::<
                ChunkStateTransitionView,
            >::empty() =~= implicit_transitions@.map_values(|x: ChunkStateTransition| x@));
            assert(main_transition@ =~= collect_transitions_spec(
                self.chain_store@,
                self.epoch_info@,
                chunk_header@,
                prev_chunk_header@,
            )->Ok_0.0);
        }
        Ok((
            main_transition,
            implicit_transitions,
            copy_bytes(&self.chain_store.transition_data[td_idx].2.receipts_hash),
        ))
    }

    /// Builds the chunk state witness for a just-produced chunk and names
    /// the chunk validators it must reach; the surrounding node sends it.
    /// Nothing is produced before the feature activates, or when the
    /// previous chunk borders genesis.
    pub fn send_chunk_state_witness_to_chunk_validators(
        &self,
        prev_chunk_header: &ChunkHeader,
        chunk: &ShardChunk,
    ) -> (r: Result<Option<(ChunkStateWitness, Vec<u64>)>, Error>)
        requires
            store_wf(self.chain_store@),
        ensures
            match r {
                Ok(Some(p)) => build_witness_spec(
                    self.chain_store@,
                    self.epoch_info@,
                    prev_chunk_header@,
                    chunk@,
                ) == Ok::<_, Error>(Some((p.0@, p.1@))),
                Ok(None) => build_witness_spec(
                    self.chain_store@,
                    self.epoch_info@,
                    prev_chunk_header@,
                    chunk@,
                ) == Ok::<Option<(ChunkStateWitnessView, Seq<u64>)>, Error>(None),
                Err(e) => build_witness_spec(
                    self.chain_store@,
                    self.epoch_info@,
                    prev_chunk_header@,
                    chunk@,
                ) == Err::<Option<(ChunkStateWitnessView, Seq<u64>)>, _>(e),
            },
    {
        if !self.epoch_info.chunk_validation_enabled() {
            return Ok(None);
        }
        if is_zero_hash(&prev_chunk_header.prev_block_hash) {
            return Ok(None);
        }
        let chunk_header = &chunk.header;
        let chunk_validators = match self.epoch_info.get_chunk_validators(
            chunk_header.shard_id,
            chunk_header.height_created,
        ) {
            None => {
                return Err(Error::ChainAccess);
            },
            Some(v) => v,
        };
        let prev_chunk_idx = match self.chain_store.find_chunk_idx(&prev_chunk_header.chunk_hash) {
            None => {
                return Err(Error::ChainAccess);
            },
            Some(i) => i,
        };
        let (main_state_transition, implicit_transitions, applied_receipts_hash) = match self
            .collect_state_transition_data(chunk_header, prev_chunk_header) {
            Err(e) => {
                return Err(e);
            },
            Ok(out) => out,
        };
        let witness = ChunkStateWitness {
            chunk_header: chunk_header.clone_header(),
            main_state_transition,
            implicit_transitions,
            source_receipt_proofs: Vec::new(),
            applied_receipts_hash,
            transactions: clone_blobs(&self.chain_store.chunks[prev_chunk_idx].1.transactions),
            new_transactions: clone_blobs(&chunk.transactions),
            new_transactions_validation_state: Vec::new(),
        };
        proof {
            assert(witness@ =~= build_witness_spec(
                self.chain_store@,
                self.epoch_info@,
                prev_chunk_header@,
                chunk@,
            )->Ok_0->Some_0.0);
        }
        Ok(Some((witness, chunk_validators)))
    }
}

} // verus!
