//! The laws of the chunk-validation core: what holds of honest witnesses,
//! of perturbed witnesses, and of the boundary cases, proved from the
//! contracts of the builder, the pre-validator and the replayer.

use vstd::prelude::*;

use crate::bytes::zero_hash_spec;
use crate::client::{build_witness_spec, collect_transitions_spec, implicit_list_spec};
use crate::epoch::{chunk_validation_enabled_spec, contains_account_spec, EpochInfoView,
    find_block_producer_spec, find_chunk_validators_spec};
use crate::merkle::merkle_root_spec;
use crate::receipts::{applied_receipts_hash_spec, outgoing_receipts_root_spec, receipt_sizes_ok};
use crate::store::{blocks_until_height_spec, ChainStoreView, collect_incoming_chain_spec,
    find_block_spec, find_chunk_spec, find_transition_data_spec, height_measure,
    lemma_find_block_is_element, lemma_walk_ok_shape, lemma_walk_step_decreases, store_wf,
    walk_last_chunks_spec};
use crate::types::{ApplyChunkResultView, BlockView, ChunkExtraView, ChunkHeaderView,
    ChunkStateTransitionView, ChunkStateWitnessView, Error, ShardChunkView, ShardLayoutView,
    WitnessFault};
use crate::validator::{apply_result_to_chunk_extra_spec, chunk_extra_matches_header_spec,
    implicit_steps_spec, pre_validate_spec, PreValidationOutputView, start_validating_spec,
    validate_spec};

verus! {

/// Once the first new chunk has been seen, the walk adds nothing more to the
/// first segment.
proof fn lemma_walk_seen_first_empty(s: ChainStoreView, shard_id: u64, h: Seq<u8>)
    requires
        store_wf(s),
        walk_last_chunks_spec(s, shard_id, h, true) is Ok,
    ensures
        walk_last_chunks_spec(s, shard_id, h, true)->Ok_0.0 =~= Seq::<BlockView>::empty(),
    decreases height_measure(s, h),
{
    let b = find_block_spec(s.blocks, h)->Some_0;
    if !b.is_new_chunk(shard_id) {
        lemma_walk_step_decreases(s, h);
        lemma_walk_seen_first_empty(s, shard_id, b.prev_hash);
    }
}

/// The pre-validator's walk and the builder's walk agree: the blocks before
/// and including the last new chunk are exactly the blocks down to that
/// chunk's inclusion height.
proof fn lemma_walks_agree(s: ChainStoreView, shard_id: u64, h: Seq<u8>)
    requires
        store_wf(s),
        walk_last_chunks_spec(s, shard_id, h, false) is Ok,
    ensures
        ({
            let a = walk_last_chunks_spec(s, shard_id, h, false)->Ok_0.0;
            &&& a.len() >= 1
            &&& a[0] == find_block_spec(s.blocks, h)->Some_0
            &&& a[0].hash == h
            &&& a.last().height <= a[0].height
            &&& blocks_until_height_spec(s, h, a.last().height) == Ok::<_, crate::store::WalkStop>(
                a.map_values(|b: BlockView| b.hash),
            )
        }),
    decreases height_measure(s, h),
{
    lemma_find_block_is_element(s.blocks, h);
    let b = find_block_spec(s.blocks, h)->Some_0;
    let a = walk_last_chunks_spec(s, shard_id, h, false)->Ok_0.0;
    if b.is_new_chunk(shard_id) {
        lemma_walk_step_decreases(s, h);
        lemma_walk_seen_first_empty(s, shard_id, b.prev_hash);
        assert(a =~= seq![b]);
        assert(a.map_values(|x: BlockView| x.hash) =~= seq![h]);
    } else {
        lemma_walk_step_decreases(s, h);
        lemma_walks_agree(s, shard_id, b.prev_hash);
        let a2 = walk_last_chunks_spec(s, shard_id, b.prev_hash, false)->Ok_0.0;
        assert(a == seq![b] + a2);
        assert(a.last() == a2.last());
        assert(a2[0] == find_block_spec(s.blocks, b.prev_hash)->Some_0);
        assert(b.height > a2[0].height);
        assert(b.height > a.last().height);
        assert(a.map_values(|x: BlockView| x.hash) =~= seq![h] + a2.map_values(
            |x: BlockView| x.hash,
        ));
    }
}

/// An honest round trip: a witness the builder produced from a well-formed,
/// consistent chain history passes pre-validation at a validator reading the
/// same history. Consistency says the store's stored receipts hash matches
/// the receipts reconstructed from history, and the stored previous chunk
/// body matches the transaction root its header committed.
pub proof fn lemma_witness_round_trip(
    s: ChainStoreView,
    e: EpochInfoView,
    prev_chunk: ChunkHeaderView,
    chunk: ShardChunkView,
)
    requires
        store_wf(s),
        build_witness_spec(s, e, prev_chunk, chunk) matches Ok(Some(p)),
        walk_last_chunks_spec(s, chunk.header.shard_id, chunk.header.prev_block_hash, false) is Ok,
        ({
            let (a, a2) = walk_last_chunks_spec(
                s,
                chunk.header.shard_id,
                chunk.header.prev_block_hash,
                false,
            )->Ok_0;
            let receipts = collect_incoming_chain_spec(
                s,
                chunk.header.shard_id,
                a.last().hash,
                a2.last().height,
            );
            &&& prev_chunk.height_included == a.last().height
            &&& receipts is Ok
            &&& receipts->Ok_0.len() < 0x1_0000_0000
            &&& receipt_sizes_ok(receipts->Ok_0)
            &&& find_transition_data_spec(
                s.transition_data,
                a.last().hash,
                chunk.header.shard_id,
            ) matches Some(td) && td.receipts_hash == applied_receipts_hash_spec(receipts->Ok_0)
            &&& merkle_root_spec(
                find_chunk_spec(s.chunks, prev_chunk.chunk_hash)->Some_0.transactions,
            ) == a.last().chunks[chunk.header.shard_id as int].tx_root
        }),
    ensures
        ({
            let w = build_witness_spec(s, e, prev_chunk, chunk)->Ok_0->Some_0.0;
            pre_validate_spec(s, w) is Ok
        }),
{
    let shard_id = chunk.header.shard_id;
    let h = chunk.header.prev_block_hash;
    let (a, a2) = walk_last_chunks_spec(s, shard_id, h, false)->Ok_0;
    lemma_walks_agree(s, shard_id, h);
    lemma_walk_ok_shape(s, shard_id, h, false);
    let w = build_witness_spec(s, e, prev_chunk, chunk)->Ok_0->Some_0.0;
    let hashes = blocks_until_height_spec(s, h, prev_chunk.height_included)->Ok_0;
    assert(hashes == a.map_values(|b: BlockView| b.hash));
    let ordered = hashes.reverse();
    assert(ordered[0] == hashes[hashes.len() - 1]);
    assert(hashes[hashes.len() - 1] == a.last().hash);
    let td = find_transition_data_spec(s.transition_data, a.last().hash, shard_id)->Some_0;
    assert(w.applied_receipts_hash == td.receipts_hash);
    assert(w.transactions == find_chunk_spec(s.chunks, prev_chunk.chunk_hash)->Some_0.transactions);
    let receipts = collect_incoming_chain_spec(s, shard_id, a.last().hash, a2.last().height)->Ok_0;
    assert(applied_receipts_hash_spec(receipts) == w.applied_receipts_hash);
    assert(merkle_root_spec(w.transactions) == a.last().chunks[shard_id as int].tx_root);
}

/// A successful gathering yields one implicit transition per block hash.
proof fn lemma_implicit_list_len(
    s: ChainStoreView,
    hashes: Seq<Seq<u8>>,
    shard_id: u64,
    shard_uid: u64,
)
    requires
        implicit_list_spec(s, hashes, shard_id, shard_uid) is Ok,
    ensures
        implicit_list_spec(s, hashes, shard_id, shard_uid)->Ok_0.len() == hashes.len(),
    decreases hashes.len(),
{
    if hashes.len() > 0 {
        lemma_implicit_list_len(s, hashes.drop_first(), shard_id, shard_uid);
    }
}

/// The implicit window is exactly the blocks between the last new chunk,
/// exclusive, and the chunk's parent, inclusive: a built witness carries one
/// implicit transition for each block the pre-validator walks before the
/// last new chunk.
pub proof fn lemma_implicit_window_length(
    s: ChainStoreView,
    e: EpochInfoView,
    prev_chunk: ChunkHeaderView,
    chunk: ShardChunkView,
)
    requires
        store_wf(s),
        build_witness_spec(s, e, prev_chunk, chunk) matches Ok(Some(p)),
        walk_last_chunks_spec(s, chunk.header.shard_id, chunk.header.prev_block_hash, false) is Ok,
        prev_chunk.height_included == walk_last_chunks_spec(
            s,
            chunk.header.shard_id,
            chunk.header.prev_block_hash,
            false,
        )->Ok_0.0.last().height,
    ensures
        ({
            let w = build_witness_spec(s, e, prev_chunk, chunk)->Ok_0->Some_0.0;
            let a = walk_last_chunks_spec(
                s,
                chunk.header.shard_id,
                chunk.header.prev_block_hash,
                false,
            )->Ok_0.0;
            w.implicit_transitions.len() == a.len() - 1
        }),
{
    let shard_id = chunk.header.shard_id;
    let h = chunk.header.prev_block_hash;
    let a = walk_last_chunks_spec(s, shard_id, h, false)->Ok_0.0;
    lemma_walks_agree(s, shard_id, h);
    let hashes = blocks_until_height_spec(s, h, prev_chunk.height_included)->Ok_0;
    assert(hashes.len() == a.len());
    let shard_uid = e.shard_uids[shard_id as int];
    lemma_implicit_list_len(s, hashes.reverse().drop_first(), shard_id, shard_uid);
}

/// A committee member with a signer that receives a witness passing
/// pre-validation accepts it, and the accepted task binds that witness, the
/// signer, and the block producer the endorsement must reach.
pub proof fn lemma_committee_member_accepts(
    cv: crate::validator::ChunkValidatorView,
    w: ChunkStateWitnessView,
    s: ChainStoreView,
    me: u64,
)
    requires
        cv.my_signer == Some(me),
        find_chunk_validators_spec(
            cv.epoch_info.chunk_validators,
            w.chunk_header.shard_id,
            w.chunk_header.height_created,
        ) matches Some(committee) && contains_account_spec(committee, me),
        pre_validate_spec(s, w) is Ok,
        find_block_producer_spec(
            cv.epoch_info.block_producers,
            w.chunk_header.height_created,
        ) is Some,
    ensures
        start_validating_spec(cv, w, s) matches Ok(p) && p.state_witness == w && p.signer_account
            == me && p.block_producer == find_block_producer_spec(
            cv.epoch_info.block_producers,
            w.chunk_header.height_created,
        )->Some_0,
{
}

/// A node outside the committee, or one facing an empty committee, refuses
/// the witness before any work is spawned; a node without a signer refuses
/// it earlier still.
pub proof fn lemma_non_committee_rejected(
    cv: crate::validator::ChunkValidatorView,
    w: ChunkStateWitnessView,
    s: ChainStoreView,
)
    ensures
        cv.my_signer is None ==> start_validating_spec(cv, w, s) == Err::<
            crate::validator::PendingValidationView,
            Error,
        >(Error::NotAValidator),
        cv.my_signer matches Some(me) && !contains_account_spec(
            match find_chunk_validators_spec(
                cv.epoch_info.chunk_validators,
                w.chunk_header.shard_id,
                w.chunk_header.height_created,
            ) {
                Some(committee) => committee,
                None => Seq::empty(),
            },
            me,
        ) ==> start_validating_spec(cv, w, s) == Err::<
            crate::validator::PendingValidationView,
            Error,
        >(Error::NotAChunkValidator),
{
}

/// A witness whose applied-receipts hash does not match the receipts
/// reconstructed from chain history is rejected for exactly that reason.
pub proof fn lemma_wrong_receipts_hash_rejected(s: ChainStoreView, w: ChunkStateWitnessView)
    requires
        walk_last_chunks_spec(s, w.chunk_header.shard_id, w.chunk_header.prev_block_hash, false)
            is Ok,
        ({
            let (a, a2) = walk_last_chunks_spec(
                s,
                w.chunk_header.shard_id,
                w.chunk_header.prev_block_hash,
                false,
            )->Ok_0;
            let receipts = collect_incoming_chain_spec(
                s,
                w.chunk_header.shard_id,
                a.last().hash,
                a2.last().height,
            );
            &&& receipts is Ok
            &&& receipts->Ok_0.len() < 0x1_0000_0000
            &&& receipt_sizes_ok(receipts->Ok_0)
            &&& w.applied_receipts_hash != applied_receipts_hash_spec(receipts->Ok_0)
        }),
    ensures
        pre_validate_spec(s, w) == Err::<PreValidationOutputView, Error>(
            Error::InvalidChunkStateWitness(WitnessFault::ReceiptsHash),
        ),
{
}

/// A witness whose transactions do not merkle to the last new chunk's
/// committed transaction root is rejected for exactly that reason.
pub proof fn lemma_wrong_tx_root_rejected(s: ChainStoreView, w: ChunkStateWitnessView)
    requires
        walk_last_chunks_spec(s, w.chunk_header.shard_id, w.chunk_header.prev_block_hash, false)
            is Ok,
        ({
            let (a, a2) = walk_last_chunks_spec(
                s,
                w.chunk_header.shard_id,
                w.chunk_header.prev_block_hash,
                false,
            )->Ok_0;
            let receipts = collect_incoming_chain_spec(
                s,
                w.chunk_header.shard_id,
                a.last().hash,
                a2.last().height,
            );
            &&& receipts is Ok
            &&& receipts->Ok_0.len() < 0x1_0000_0000
            &&& receipt_sizes_ok(receipts->Ok_0)
            &&& w.applied_receipts_hash == applied_receipts_hash_spec(receipts->Ok_0)
            &&& merkle_root_spec(w.transactions) != a.last().chunks[
                w.chunk_header.shard_id as int
            ].tx_root
        }),
    ensures
        pre_validate_spec(s, w) == Err::<PreValidationOutputView, Error>(
            Error::InvalidChunkStateWitness(WitnessFault::TxRoot),
        ),
{
}

/// A successful run of the implicit steps pins every declared root to the
/// runtime's root and ends on the last runtime root.
proof fn lemma_implicit_steps_ok(
    extra: ChunkExtraView,
    transitions: Seq<ChunkStateTransitionView>,
    roots: Seq<Seq<u8>>,
    k: int,
    i: int,
)
    requires
        0 <= i <= k,
        implicit_steps_spec(extra, transitions, roots, k, i) is Ok,
    ensures
        forall|j: int| i <= j < k ==> #[trigger] roots[j] == transitions[j].post_state_root,
        implicit_steps_spec(extra, transitions, roots, k, i)->Ok_0 == if i < k {
            ChunkExtraView { state_root: roots[k - 1], ..extra }
        } else {
            extra
        },
    decreases k - i,
{
    if i < k {
        let stepped = ChunkExtraView { state_root: roots[i], ..extra };
        lemma_implicit_steps_ok(stepped, transitions, roots, k, i + 1);
        if i + 1 < k {
            assert(implicit_steps_spec(stepped, transitions, roots, k, i + 1)->Ok_0
                =~= (ChunkExtraView { state_root: roots[k - 1], ..extra }));
        }
    }
}

/// A verdict of the replayer is either acceptance or an invalid-witness
/// rejection; no other error leaves it.
pub proof fn lemma_validate_verdicts(
    w: ChunkStateWitnessView,
    pre: PreValidationOutputView,
    main_res: ApplyChunkResultView,
    implicit_roots: Seq<Seq<u8>>,
    layout: ShardLayoutView,
)
    ensures
        match validate_spec(w, pre, main_res, implicit_roots, layout) {
            Ok(u) => u == (),
            Err(e) => e matches Error::InvalidChunkStateWitness(_),
        },
{
    let extra0 = apply_result_to_chunk_extra_spec(
        main_res,
        pre.main_transition_params.chunk_header.gas_limit,
    );
    let k = vstd::math::min(
        pre.implicit_transition_params.len() as int,
        w.implicit_transitions.len() as int,
    );
    lemma_implicit_steps_verdicts(extra0, w.implicit_transitions, implicit_roots, k, 0);
}

/// Every rejection of the implicit steps is an invalid-witness rejection.
proof fn lemma_implicit_steps_verdicts(
    extra: ChunkExtraView,
    transitions: Seq<ChunkStateTransitionView>,
    roots: Seq<Seq<u8>>,
    k: int,
    i: int,
)
    ensures
        implicit_steps_spec(extra, transitions, roots, k, i) matches Err(e) ==> e matches
            Error::InvalidChunkStateWitness(_),
    decreases
            if k - i >= 0 {
                k - i
            } else {
                0
            },
{
    if i < k {
        let stepped = ChunkExtraView { state_root: roots[i], ..extra };
        lemma_implicit_steps_verdicts(stepped, transitions, roots, k, i + 1);
    }
}

/// No silent divergence: when the replayer accepts, the producing and the
/// validating node agree on the whole state evolution — the main root, every
/// implicit root, the final state root committed in the header, and the
/// outgoing-receipts root. Contrapositively, a disagreement at any point is
/// rejected.
pub proof fn lemma_no_silent_divergence(
    w: ChunkStateWitnessView,
    pre: PreValidationOutputView,
    main_res: ApplyChunkResultView,
    implicit_roots: Seq<Seq<u8>>,
    layout: ShardLayoutView,
)
    requires
        validate_spec(w, pre, main_res, implicit_roots, layout) is Ok,
    ensures
        main_res.new_root == w.main_state_transition.post_state_root,
        ({
            let k = vstd::math::min(
                pre.implicit_transition_params.len() as int,
                w.implicit_transitions.len() as int,
            );
            &&& forall|j: int|
                0 <= j < k ==> #[trigger] implicit_roots[j] == w.implicit_transitions[j].post_state_root
            &&& w.chunk_header.prev_state_root == (if k > 0 {
                implicit_roots[k - 1]
            } else {
                main_res.new_root
            })
            &&& w.chunk_header.prev_outgoing_receipts_root == outgoing_receipts_root_spec(
                main_res.outgoing_receipts,
                layout,
            )
        }),
{
    let extra0 = apply_result_to_chunk_extra_spec(
        main_res,
        pre.main_transition_params.chunk_header.gas_limit,
    );
    let k = vstd::math::min(
        pre.implicit_transition_params.len() as int,
        w.implicit_transitions.len() as int,
    );
    lemma_implicit_steps_ok(extra0, w.implicit_transitions, implicit_roots, k, 0);
}

/// When every declared root matches, the implicit steps accept and end on
/// the last runtime root.
proof fn lemma_implicit_steps_all_match(
    extra: ChunkExtraView,
    transitions: Seq<ChunkStateTransitionView>,
    roots: Seq<Seq<u8>>,
    k: int,
    i: int,
)
    requires
        0 <= i <= k,
        forall|j: int| i <= j < k ==> #[trigger] roots[j] == transitions[j].post_state_root,
    ensures
        implicit_steps_spec(extra, transitions, roots, k, i) == Ok::<ChunkExtraView, Error>(
            if i < k {
                ChunkExtraView { state_root: roots[k - 1], ..extra }
            } else {
                extra
            },
        ),
    decreases k - i,
{
    if i < k {
        let stepped = ChunkExtraView { state_root: roots[i], ..extra };
        lemma_implicit_steps_all_match(stepped, transitions, roots, k, i + 1);
        if i + 1 < k {
            assert((ChunkExtraView { state_root: roots[k - 1], ..stepped })
                =~= (ChunkExtraView { state_root: roots[k - 1], ..extra }));
        }
    }
}

/// An honest replay is accepted: when the runtime reproduces the main root,
/// every implicit root the witness declared, and everything the proposed
/// header commits to, the replayer endorses.
pub proof fn lemma_agreeing_replay_accepted(
    w: ChunkStateWitnessView,
    pre: PreValidationOutputView,
    main_res: ApplyChunkResultView,
    implicit_roots: Seq<Seq<u8>>,
    layout: ShardLayoutView,
)
    requires
        main_res.new_root == w.main_state_transition.post_state_root,
        ({
            let k = vstd::math::min(
                pre.implicit_transition_params.len() as int,
                w.implicit_transitions.len() as int,
            );
            let extra0 = apply_result_to_chunk_extra_spec(
                main_res,
                pre.main_transition_params.chunk_header.gas_limit,
            );
            let final_extra = if k > 0 {
                ChunkExtraView { state_root: implicit_roots[k - 1], ..extra0 }
            } else {
                extra0
            };
            &&& forall|j: int|
                0 <= j < k ==> #[trigger] implicit_roots[j] == w.implicit_transitions[j].post_state_root
            &&& chunk_extra_matches_header_spec(
                final_extra,
                w.chunk_header,
                outgoing_receipts_root_spec(main_res.outgoing_receipts, layout),
            )
        }),
    ensures
        validate_spec(w, pre, main_res, implicit_roots, layout) == Ok::<(), Error>(()),
{
    let extra0 = apply_result_to_chunk_extra_spec(
        main_res,
        pre.main_transition_params.chunk_header.gas_limit,
    );
    let k = vstd::math::min(
        pre.implicit_transition_params.len() as int,
        w.implicit_transitions.len() as int,
    );
    lemma_implicit_steps_all_match(extra0, w.implicit_transitions, implicit_roots, k, 0);
}

/// Replaying the same witness with the same runtime results any number of
/// times yields the same chunk extra and the same verdict.
pub proof fn lemma_replay_deterministic(
    w1: ChunkStateWitnessView,
    w2: ChunkStateWitnessView,
    pre1: PreValidationOutputView,
    pre2: PreValidationOutputView,
    res1: ApplyChunkResultView,
    res2: ApplyChunkResultView,
    roots1: Seq<Seq<u8>>,
    roots2: Seq<Seq<u8>>,
    layout1: ShardLayoutView,
    layout2: ShardLayoutView,
)
    requires
        w1 == w2,
        pre1 == pre2,
        res1 == res2,
        roots1 == roots2,
        layout1 == layout2,
    ensures
        validate_spec(w1, pre1, res1, roots1, layout1) == validate_spec(
            w2,
            pre2,
            res2,
            roots2,
            layout2,
        ),
        apply_result_to_chunk_extra_spec(res1, pre1.main_transition_params.chunk_header.gas_limit)
            == apply_result_to_chunk_extra_spec(
            res2,
            pre2.main_transition_params.chunk_header.gas_limit,
        ),
{
}

/// Genesis boundary: a previous chunk anchored at the zero hash yields
/// success with nothing dispatched.
pub proof fn lemma_genesis_boundary(
    s: ChainStoreView,
    e: EpochInfoView,
    prev_chunk: ChunkHeaderView,
    chunk: ShardChunkView,
)
    requires
        prev_chunk.prev_block_hash == zero_hash_spec(),
    ensures
        build_witness_spec(s, e, prev_chunk, chunk) == Ok::<
            Option<(ChunkStateWitnessView, Seq<u64>)>,
            Error,
        >(None),
{
}

/// Feature gate: before the chunk-validation protocol version, the producer
/// dispatches nothing.
pub proof fn lemma_feature_disabled_no_witness(
    s: ChainStoreView,
    e: EpochInfoView,
    prev_chunk: ChunkHeaderView,
    chunk: ShardChunkView,
)
    requires
        !chunk_validation_enabled_spec(e.protocol_version),
    ensures
        build_witness_spec(s, e, prev_chunk, chunk) == Ok::<
            Option<(ChunkStateWitnessView, Seq<u64>)>,
            Error,
        >(None),
{
}

/// Empty implicit window: when the chunk's parent already stands at or below
/// the previous chunk's inclusion height — the chunk follows another new
/// chunk directly — the built witness carries no implicit transitions.
pub proof fn lemma_empty_implicit_window(
    s: ChainStoreView,
    e: EpochInfoView,
    prev_chunk: ChunkHeaderView,
    chunk: ShardChunkView,
)
    requires
        store_wf(s),
        build_witness_spec(s, e, prev_chunk, chunk) matches Ok(Some(p)),
        find_block_spec(s.blocks, chunk.header.prev_block_hash) matches Some(b) && b.height
            <= prev_chunk.height_included,
    ensures
        build_witness_spec(s, e, prev_chunk, chunk)->Ok_0->Some_0.0.implicit_transitions.len()
            == 0,
{
    let hashes = blocks_until_height_spec(
        s,
        chunk.header.prev_block_hash,
        prev_chunk.height_included,
    )->Ok_0;
    assert(hashes == seq![chunk.header.prev_block_hash]);
    assert(hashes.reverse() =~= hashes);
    assert(hashes.reverse().drop_first() =~= Seq::<Seq<u8>>::empty());
}

} // verus!
