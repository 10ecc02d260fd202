//! The validator side: pre-validating an incoming chunk state witness
//! against local chain history, replaying its transitions from the runtime
//! collaborator's results, and cross-checking the outcome against the
//! proposed chunk header. The CPU-heavy replay and the endorsement dispatch
//! run outside the event loop; this module hands the caller a self-contained
//! pending task.

use vstd::prelude::*;

use crate::bytes::{bytes_eq, copy_bytes};
use crate::epoch::{contains_account_spec, contains_account, EpochInfo, EpochInfoView,
    find_block_producer_spec, find_chunk_validators_spec};
use crate::hash::{blobs_eq, blobs_view};
use crate::merkle::{merkle_root, merkle_root_spec};
use crate::receipts::{applied_receipts_hash_spec, check_receipt_sizes,
    compute_applied_receipts_hash, compute_outgoing_receipts_root, outgoing_receipts_root_spec,
    receipt_sizes_ok};
use crate::store::{ChainStore, ChainStoreView, collect_incoming_chain_spec, lemma_walk_ok_shape,
    store_wf, walk_last_chunks_spec, WalkStop};
use crate::types::{clone_blobs, ApplyChunkResult, ApplyChunkResultView, ChunkEndorsement,
    ChunkEndorsementInner, ChunkExtra, ChunkExtraView, ChunkHeader, ChunkHeaderView,
    ChunkStateTransitionView, ChunkStateWitness, ChunkStateWitnessView, Error, Receipt,
    ReceiptView, receipts_view, ShardLayout, ShardLayoutView, WitnessFault};

verus! {

/// The parameters of the main transition's replay: the last new chunk's
/// header, the transactions and receipts it applied, and the block it was
/// included in.
pub struct NewChunkData {
    pub chunk_header: ChunkHeader,
    pub transactions: Vec<Vec<u8>>,
    pub receipts: Vec<Receipt>,
    pub block_hash: Vec<u8>,
}

#[verifier::ext_equal]
pub struct NewChunkDataView {
    pub chunk_header: ChunkHeaderView,
    pub transactions: Seq<Seq<u8>>,
    pub receipts: Seq<ReceiptView>,
    pub block_hash: Seq<u8>,
}

impl View for NewChunkData {
    type V = NewChunkDataView;

    open spec fn view(&self) -> NewChunkDataView {
        NewChunkDataView {
            chunk_header: self.chunk_header@,
            transactions: blobs_view(self.transactions@),
            receipts: receipts_view(self.receipts@),
            block_hash: self.block_hash@,
        }
    }
}

/// What pre-validation hands to the replay: the main transition's
/// parameters and the block hashes of the implicit transitions, oldest
/// first.
pub struct PreValidationOutput {
    pub main_transition_params: NewChunkData,
    pub implicit_transition_params: Vec<Vec<u8>>,
}

#[verifier::ext_equal]
pub struct PreValidationOutputView {
    pub main_transition_params: NewChunkDataView,
    pub implicit_transition_params: Seq<Seq<u8>>,
}

impl View for PreValidationOutput {
    type V = PreValidationOutputView;

    open spec fn view(&self) -> PreValidationOutputView {
        PreValidationOutputView {
            main_transition_params: self.main_transition_params@,
            implicit_transition_params: blobs_view(self.implicit_transition_params@),
        }
    }
}

/// What `pre_validate_chunk_state_witness` returns for a witness against a
/// store: the replay parameters, or the error the witness earns.
pub open spec fn pre_validate_spec(s: ChainStoreView, w: ChunkStateWitnessView) -> Result<
    PreValidationOutputView,
    Error,
> {
    let shard_id = w.chunk_header.shard_id;
    match walk_last_chunks_spec(s, shard_id, w.chunk_header.prev_block_hash, false) {
        Err(WalkStop::MissingBlock) => Err(Error::ChainAccess),
        Err(WalkStop::MissingShard) => Err(
            Error::InvalidChunkStateWitness(WitnessFault::MissingShard),
        ),
        Ok((after_last, after_last_last)) => {
            let last_chunk_block = after_last.last();
            let lower_height = after_last_last.last().height;
            match collect_incoming_chain_spec(s, shard_id, last_chunk_block.hash, lower_height) {
                Err(_) => Err(Error::ChainAccess),
                Ok(receipts) => {
                    if receipts.len() >= 0x1_0000_0000 || !receipt_sizes_ok(receipts) {
                        Err(Error::ChainAccess)
                    } else if applied_receipts_hash_spec(receipts) != w.applied_receipts_hash {
                        Err(Error::InvalidChunkStateWitness(WitnessFault::ReceiptsHash))
                    } else if merkle_root_spec(w.transactions) != last_chunk_block.chunks[
                        shard_id as int
                    ].tx_root {
                        Err(Error::InvalidChunkStateWitness(WitnessFault::TxRoot))
                    } else {
                        Ok(
                            PreValidationOutputView {
                                main_transition_params: NewChunkDataView {
                                    chunk_header: last_chunk_block.chunks[shard_id as int],
                                    transactions: w.transactions,
                                    receipts: receipts,
                                    block_hash: last_chunk_block.hash,
                                },
                                implicit_transition_params: after_last.drop_last().reverse()
                                    .map_values(|b: crate::types::BlockView| b.hash),
                            },
                        )
                    }
                },
            }
        },
    }
}

/// Pre-validates the witness's receipts and transactions against the chain:
/// walks back to the last two new chunks for the shard, reconstructs the
/// applied receipts and checks their hash, and checks the transaction root
/// against the last new chunk. Cheap enough for the caller's thread; no
/// transition is executed here.
pub fn pre_validate_chunk_state_witness(state_witness: &ChunkStateWitness, store: &ChainStore) -> (r:
    Result<PreValidationOutput, Error>)
    requires
        store_wf(store@),
    ensures
        match r {
            Ok(out) => pre_validate_spec(store@, state_witness@) == Ok::<_, Error>(out@),
            Err(e) => pre_validate_spec(store@, state_witness@) == Err::<PreValidationOutputView,
                _,
            >(e),
        },
{
    let shard_id = state_witness.chunk_header.shard_id;
    let (after_last, after_last_last) = match store.walk_last_chunks(
        shard_id,
        &state_witness.chunk_header.prev_block_hash,
        false,
    ) {
        Err(WalkStop::MissingBlock) => {
            return Err(Error::ChainAccess);
        },
        Err(WalkStop::MissingShard) => {
            return Err(Error::InvalidChunkStateWitness(WitnessFault::MissingShard));
        },
        Ok(p) => p,
    };
    let ghost sa = crate::store::blocks_seq_view(after_last@);
    let ghost sa2 = crate::store::blocks_seq_view(after_last_last@);
    proof {
        lemma_walk_ok_shape(store@, shard_id, state_witness.chunk_header.prev_block_hash@, false);
        assert(sa.last() == after_last@[after_last@.len() - 1]@);
        assert(sa2.last() == after_last_last@[after_last_last@.len() - 1]@);
    }
    let last_chunk_block = &after_last[after_last.len() - 1];
    let lower_height = after_last_last[after_last_last.len() - 1].height;
    let receipts = match store.get_incoming_receipts_for_shard(
        shard_id,
        &last_chunk_block.hash,
        lower_height,
    ) {
        Err(_) => {
            return Err(Error::ChainAccess);
        },
        Ok(rs) => rs,
    };
    if receipts.len() as u64 >= 0x1_0000_0000u64 {
        return Err(Error::ChainAccess);
    }
    if !check_receipt_sizes(&receipts) {
        return Err(Error::ChainAccess);
    }
    let computed_receipts_hash = compute_applied_receipts_hash(&receipts);
    if !bytes_eq(&computed_receipts_hash, &state_witness.applied_receipts_hash) {
        return Err(Error::InvalidChunkStateWitness(WitnessFault::ReceiptsHash));
    }
    let tx_root = merkle_root(&state_witness.transactions);
    proof {
        assert(sa[after_last@.len() - 1].chunks[shard_id as int] == last_chunk_block.chunks@[
            shard_id as int
        ]@);
    }
    let last_chunk_header = &last_chunk_block.chunks[shard_id as usize];
    if !bytes_eq(&tx_root, &last_chunk_header.tx_root) {
        return Err(Error::InvalidChunkStateWitness(WitnessFault::TxRoot));
    }
    let mut implicit_transition_params: Vec<Vec<u8>> = Vec::new();
    let mut j: usize = after_last.len() - 1;
    while j > 0
        invariant
            j <= after_last@.len() - 1,
            sa == crate::store::blocks_seq_view(after_last@),
            implicit_transition_params@.len() == (after_last@.len() - 1) - j,
            forall|t: int|
                0 <= t < implicit_transition_params@.len()
                    ==> #[trigger] implicit_transition_params@[t]@ == sa[after_last@.len() - 2
                    - t].hash,
        decreases j,
    {
        j -= 1;
        implicit_transition_params.push(copy_bytes(&after_last[j].hash));
    }
    let out = PreValidationOutput {
        main_transition_params: NewChunkData {
            chunk_header: last_chunk_header.clone_header(),
            transactions: clone_blobs(&state_witness.transactions),
            receipts,
            block_hash: copy_bytes(&last_chunk_block.hash),
        },
        implicit_transition_params,
    };
    proof {
        let spec_imps = sa.drop_last().reverse().map_values(|b: crate::types::BlockView| b.hash);
        assert forall|t: int| 0 <= t < spec_imps.len() implies spec_imps[t] == blobs_view(
            out.implicit_transition_params@,
        )[t] by {
            assert(sa.drop_last().reverse()[t] == sa.drop_last()[sa.len() - 2 - t]);
            assert(sa.drop_last()[sa.len() - 2 - t] == sa[sa.len() - 2 - t]);
        }
        assert(blobs_view(out.implicit_transition_params@) =~= spec_imps);
        assert(out.main_transition_params@ =~= pre_validate_spec(
            store@,
            state_witness@,
        )->Ok_0.main_transition_params);
        assert(out@ =~= pre_validate_spec(store@, state_witness@)->Ok_0);
    }
    Ok(out)
}

/// The chunk extra derived from a runtime apply result and the gas limit of
/// the chunk header it answers for.
pub open spec fn apply_result_to_chunk_extra_spec(
    ar: ApplyChunkResultView,
    gas_limit: u64,
) -> ChunkExtraView {
    ChunkExtraView {
        state_root: ar.new_root,
        outcome_root: merkle_root_spec(ar.outcomes),
        validator_proposals: ar.validator_proposals,
        gas_used: ar.total_gas_burnt,
        gas_limit: gas_limit,
        balance_burnt: ar.total_balance_burnt,
    }
}

/// Derives the chunk extra of one chunk application: the outcome root is the
/// merkle root of the outcomes; the gas limit comes from the chunk header.
pub fn apply_result_to_chunk_extra(apply_result: ApplyChunkResult, chunk: &ChunkHeader) -> (r:
    ChunkExtra)
    ensures
        r@ == apply_result_to_chunk_extra_spec(apply_result@, chunk@.gas_limit),
{
    let outcome_root = merkle_root(&apply_result.outcomes);
    let r = ChunkExtra {
        state_root: apply_result.new_root,
        outcome_root,
        validator_proposals: apply_result.validator_proposals,
        gas_used: apply_result.total_gas_burnt,
        gas_limit: chunk.gas_limit,
        balance_burnt: apply_result.total_balance_burnt,
    };
    assert(r@ =~= apply_result_to_chunk_extra_spec(apply_result@, chunk@.gas_limit));
    r
}

/// Whether a recomputed chunk extra and outgoing-receipts root agree with
/// everything the proposed chunk header commits to.
pub open spec fn chunk_extra_matches_header_spec(
    extra: ChunkExtraView,
    header: ChunkHeaderView,
    outgoing_receipts_root: Seq<u8>,
) -> bool {
    &&& header.prev_state_root == extra.state_root
    &&& header.prev_outcome_root == extra.outcome_root
    &&& header.prev_validator_proposals == extra.validator_proposals
    &&& header.prev_gas_used == extra.gas_used
    &&& header.gas_limit == extra.gas_limit
    &&& header.prev_balance_burnt == extra.balance_burnt
    &&& header.prev_outgoing_receipts_root == outgoing_receipts_root
}

/// Cross-checks a recomputed chunk extra and outgoing-receipts root against
/// the proposed chunk header; any disagreement rejects the witness.
pub fn validate_chunk_with_chunk_extra_and_receipts_root(
    chunk_extra: &ChunkExtra,
    chunk_header: &ChunkHeader,
    outgoing_receipts_root: &Vec<u8>,
) -> (r: Result<(), Error>)
    ensures
        r == if chunk_extra_matches_header_spec(chunk_extra@, chunk_header@, outgoing_receipts_root@) {
            Ok::<(), Error>(())
        } else {
            Err::<(), Error>(Error::InvalidChunkStateWitness(WitnessFault::ChunkExtraMismatch))
        },
{
    let ok = bytes_eq(&chunk_header.prev_state_root, &chunk_extra.state_root) && bytes_eq(
        &chunk_header.prev_outcome_root,
        &chunk_extra.outcome_root,
    ) && blobs_eq(&chunk_header.prev_validator_proposals, &chunk_extra.validator_proposals)
        && chunk_header.prev_gas_used == chunk_extra.gas_used && chunk_header.gas_limit
        == chunk_extra.gas_limit && chunk_header.prev_balance_burnt == chunk_extra.balance_burnt
        && bytes_eq(&chunk_header.prev_outgoing_receipts_root, outgoing_receipts_root);
    if ok {
        Ok(())
    } else {
        Err(Error::InvalidChunkStateWitness(WitnessFault::ChunkExtraMismatch))
    }
}

/// The replay of the implicit transitions from position `i` on: each step
/// moves the chunk extra to the runtime's next root and checks it against
/// the root the witness declared.
pub open spec fn implicit_steps_spec(
    extra: ChunkExtraView,
    transitions: Seq<ChunkStateTransitionView>,
    roots: Seq<Seq<u8>>,
    k: int,
    i: int,
) -> Result<ChunkExtraView, Error>
    decreases k - i,
{
    if i >= k {
        Ok(extra)
    } else {
        let stepped = ChunkExtraView { state_root: roots[i], ..extra };
        if roots[i] != transitions[i].post_state_root {
            Err(
                Error::InvalidChunkStateWitness(
                    WitnessFault::ImplicitPostStateRoot(i as usize),
                ),
            )
        } else {
            implicit_steps_spec(stepped, transitions, roots, k, i + 1)
        }
    }
}

/// What `validate_chunk_state_witness` decides, given the runtime
/// collaborator's results for the main transition and for each implicit
/// transition.
pub open spec fn validate_spec(
    w: ChunkStateWitnessView,
    pre: PreValidationOutputView,
    main_res: ApplyChunkResultView,
    implicit_roots: Seq<Seq<u8>>,
    layout: ShardLayoutView,
) -> Result<(), Error> {
    let extra0 = apply_result_to_chunk_extra_spec(
        main_res,
        pre.main_transition_params.chunk_header.gas_limit,
    );
    if extra0.state_root != w.main_state_transition.post_state_root {
        Err(Error::InvalidChunkStateWitness(WitnessFault::MainPostStateRoot))
    } else {
        let k = vstd::math::min(
            pre.implicit_transition_params.len() as int,
            w.implicit_transitions.len() as int,
        );
        match implicit_steps_spec(extra0, w.implicit_transitions, implicit_roots, k, 0) {
            Err(e) => Err(e),
            Ok(extra) => {
                let root = outgoing_receipts_root_spec(main_res.outgoing_receipts, layout);
                if chunk_extra_matches_header_spec(extra, w.chunk_header, root) {
                    Ok(())
                } else {
                    Err(Error::InvalidChunkStateWitness(WitnessFault::ChunkExtraMismatch))
                }
            },
        }
    }
}

/// Replays the witness from the runtime collaborator's results: derives the
/// chunk extra of the main transition, steps it through each implicit
/// transition, and cross-checks the final extra and the outgoing-receipts
/// root against the proposed chunk header. The intermediate root checks are
/// diagnostics; the final header check is the load-bearing one.
///
/// `main_apply_result` is what the runtime reported for the main transition,
/// and `implicit_apply_roots` the new root it reported for each implicit
/// transition, in order; the shard layout comes from the epoch manager.
#[verifier::loop_isolation(false)]
pub fn validate_chunk_state_witness(
    state_witness: &ChunkStateWitness,
    pre_validation_output: &PreValidationOutput,
    main_apply_result: ApplyChunkResult,
    implicit_apply_roots: &Vec<Vec<u8>>,
    shard_layout: &ShardLayout,
) -> (r: Result<(), Error>)
    requires
        implicit_apply_roots@.len() == vstd::math::min(
            pre_validation_output@.implicit_transition_params.len() as int,
            state_witness@.implicit_transitions.len() as int,
        ),
        main_apply_result@.outgoing_receipts.len() < 0x1_0000_0000,
        receipt_sizes_ok(main_apply_result@.outgoing_receipts),
        shard_layout@.boundary_accounts.len() < usize::MAX,
    ensures
        r == validate_spec(
            state_witness@,
            pre_validation_output@,
            main_apply_result@,
            blobs_view(implicit_apply_roots@),
            shard_layout@,
        ),
{
    let ghost main_res = main_apply_result@;
    let ghost roots = blobs_view(implicit_apply_roots@);
    let ApplyChunkResult {
        new_root,
        outcomes,
        outgoing_receipts,
        validator_proposals,
        total_gas_burnt,
        total_balance_burnt,
    } = main_apply_result;
    let stripped = ApplyChunkResult {
        new_root,
        outcomes,
        outgoing_receipts: Vec::new(),
        validator_proposals,
        total_gas_burnt,
        total_balance_burnt,
    };
    let mut chunk_extra = apply_result_to_chunk_extra(
        stripped,
        &pre_validation_output.main_transition_params.chunk_header,
    );
    let ghost extra0 = apply_result_to_chunk_extra_spec(
        main_res,
        pre_validation_output@.main_transition_params.chunk_header.gas_limit,
    );
    proof {
        assert(chunk_extra@ =~= extra0);
    }
    if !bytes_eq(&chunk_extra.state_root, &state_witness.main_state_transition.post_state_root) {
        return Err(Error::InvalidChunkStateWitness(WitnessFault::MainPostStateRoot));
    }
    let k = if pre_validation_output.implicit_transition_params.len()
        < state_witness.implicit_transitions.len() {
        pre_validation_output.implicit_transition_params.len()
    } else {
        state_witness.implicit_transitions.len()
    };
    let ghost transitions = state_witness@.implicit_transitions;
    let mut i: usize = 0;
    while i < k
        invariant
            i <= k,
            k == vstd::math::min(
                pre_validation_output@.implicit_transition_params.len() as int,
                state_witness@.implicit_transitions.len() as int,
            ),
            roots.len() == k,
            transitions == state_witness@.implicit_transitions,
            roots == blobs_view(implicit_apply_roots@),
            implicit_steps_spec(extra0, transitions, roots, k as int, 0) == implicit_steps_spec(
                chunk_extra@,
                transitions,
                roots,
                k as int,
                i as int,
            ),
        decreases k - i,
    {
        let ghost before = chunk_extra@;
        chunk_extra.state_root = copy_bytes(&implicit_apply_roots[i]);
        proof {
            assert(chunk_extra@ =~= (ChunkExtraView { state_root: roots[i as int], ..before }));
            assert(transitions[i as int] == state_witness.implicit_transitions@[i as int]@);
        }
        if !bytes_eq(
            &chunk_extra.state_root,
            &state_witness.implicit_transitions[i].post_state_root,
        ) {
            proof {
                assert(roots[i as int] != transitions[i as int].post_state_root);
                assert(implicit_steps_spec(before, transitions, roots, k as int, i as int)
                    == Err::<ChunkExtraView, Error>(
                    Error::InvalidChunkStateWitness(
                        WitnessFault::ImplicitPostStateRoot((i as int) as usize),
                    ),
                ));
                assert((i as int) as usize == i);
            }
            return Err(
                Error::InvalidChunkStateWitness(WitnessFault::ImplicitPostStateRoot(i)),
            );
        }
        i += 1;
    }
    let outgoing_receipts_root = compute_outgoing_receipts_root(&outgoing_receipts, shard_layout);
    validate_chunk_with_chunk_extra_and_receipts_root(
        &chunk_extra,
        &state_witness.chunk_header,
        &outgoing_receipts_root,
    )
}

/// The chunk validator of one node: its signer identity, if it has one, and
/// the epoch data it consults. The network sender and the runtime are
/// collaborators of the surrounding node, not held here.
pub struct ChunkValidator {
    pub my_signer: Option<u64>,
    pub epoch_info: EpochInfo,
}

#[verifier::ext_equal]
pub struct ChunkValidatorView {
    pub my_signer: Option<u64>,
    pub epoch_info: EpochInfoView,
}

impl View for ChunkValidator {
    type V = ChunkValidatorView;

    open spec fn view(&self) -> ChunkValidatorView {
        ChunkValidatorView { my_signer: self.my_signer, epoch_info: self.epoch_info@ }
    }
}

/// A validation accepted for replay: the witness, the pre-validation output,
/// and whom to address the endorsement to. The caller owns the replay and
/// the dispatch.
pub struct PendingValidation {
    pub state_witness: ChunkStateWitness,
    pub pre_validation_output: PreValidationOutput,
    pub block_producer: u64,
    pub signer_account: u64,
}

#[verifier::ext_equal]
pub struct PendingValidationView {
    pub state_witness: ChunkStateWitnessView,
    pub pre_validation_output: PreValidationOutputView,
    pub block_producer: u64,
    pub signer_account: u64,
}

impl View for PendingValidation {
    type V = PendingValidationView;

    open spec fn view(&self) -> PendingValidationView {
        PendingValidationView {
            state_witness: self.state_witness@,
            pre_validation_output: self.pre_validation_output@,
            block_producer: self.block_producer,
            signer_account: self.signer_account,
        }
    }
}

/// What `start_validating_chunk` decides for a witness: a pending
/// validation, or the error that refuses it. A node without a signer, or one
/// outside the committee for the chunk, does not validate; before the
/// feature activates the committee is empty, so every node stops there.
pub open spec fn start_validating_spec(
    cv: ChunkValidatorView,
    w: ChunkStateWitnessView,
    s: ChainStoreView,
) -> Result<PendingValidationView, Error> {
    match cv.my_signer {
        None => Err(Error::NotAValidator),
        Some(me) => {
            let committee = match find_chunk_validators_spec(
                cv.epoch_info.chunk_validators,
                w.chunk_header.shard_id,
                w.chunk_header.height_created,
            ) {
                Some(a) => a,
                None => Seq::empty(),
            };
            if !contains_account_spec(committee, me) {
                Err(Error::NotAChunkValidator)
            } else {
                match pre_validate_spec(s, w) {
                    Err(e) => Err(e),
                    Ok(pre) => match find_block_producer_spec(
                        cv.epoch_info.block_producers,
                        w.chunk_header.height_created,
                    ) {
                        None => Err(Error::ChainAccess),
                        Some(bp) => Ok(
                            PendingValidationView {
                                state_witness: w,
                                pre_validation_output: pre,
                                block_producer: bp,
                                signer_account: me,
                            },
                        ),
                    },
                }
            }
        },
    }
}

impl ChunkValidator {
    /// Builds a chunk validator from its signer identity and epoch data.
    pub fn new(my_signer: Option<u64>, epoch_info: EpochInfo) -> (r: ChunkValidator)
        ensures
            r@.my_signer == my_signer,
            r@.epoch_info == epoch_info@,
    {
        ChunkValidator { my_signer, epoch_info }
    }

    /// Accepts a witness for validation: refuses it unless this node is a
    /// chunk validator for the chunk, pre-validates it synchronously, and
    /// returns the self-contained pending validation for the caller to
    /// replay off the hot thread and endorse.
    pub fn start_validating_chunk(&self, state_witness: ChunkStateWitness, chain_store: &ChainStore) -> (r:
        Result<PendingValidation, Error>)
        requires
            store_wf(chain_store@),
        ensures
            match r {
                Ok(p) => start_validating_spec(self@, state_witness@, chain_store@) == Ok::<
                    _,
                    Error,
                >(p@),
                Err(e) => start_validating_spec(self@, state_witness@, chain_store@) == Err::<
                    PendingValidationView,
                    _,
                >(e),
            },
    {
        let me = match self.my_signer {
            None => {
                return Err(Error::NotAValidator);
            },
            Some(me) => me,
        };
        let committee = match self.epoch_info.get_chunk_validators(
            state_witness.chunk_header.shard_id,
            state_witness.chunk_header.height_created,
        ) {
            Some(a) => a,
            None => Vec::new(),
        };
        if !contains_account(&committee, me) {
            return Err(Error::NotAChunkValidator);
        }
        let pre_validation_output = match pre_validate_chunk_state_witness(
            &state_witness,
            chain_store,
        ) {
            Err(e) => {
                return Err(e);
            },
            Ok(out) => out,
        };
        let block_producer = match self.epoch_info.get_block_producer(
            state_witness.chunk_header.height_created,
        ) {
            None => {
                return Err(Error::ChainAccess);
            },
            Some(bp) => bp,
        };
        let p = PendingValidation {
            state_witness,
            pre_validation_output,
            block_producer,
            signer_account: me,
        };
        assert(p@ =~= start_validating_spec(self@, p.state_witness@, chain_store@)->Ok_0);
        Ok(p)
    }
}

/// Builds the endorsement for a successfully replayed chunk: the inner value
/// binds the chunk hash; the signature over it comes from the signer
/// collaborator.
pub fn make_chunk_endorsement(chunk_hash: &Vec<u8>, account_id: u64, signature: Vec<u8>) -> (r:
    ChunkEndorsement)
    ensures
        r.inner.chunk_hash@ == chunk_hash@,
        r.account_id == account_id,
        r.signature@ == signature@,
{
    ChunkEndorsement {
        account_id,
        signature,
        inner: ChunkEndorsementInner { chunk_hash: copy_bytes(chunk_hash) },
    }
}

} // verus!
