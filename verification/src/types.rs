//! The data model of the chunk-validation core: chunk headers, blocks, state
//! transitions, the chunk state witness, chunk extras, receipts, endorsements
//! and the error kinds. Hashes are 32-byte values; accounts are numeric ids;
//! transactions, receipt payloads, outcomes and trie nodes are opaque byte
//! blobs.

use vstd::prelude::*;

verus! {

/// Why a witness was rejected as invalid.
#[derive(Clone, Copy, Debug, PartialEq, Eq, Structural)]
pub enum WitnessFault {
    /// The shard does not exist in a block walked on the way to the last two
    /// new chunks.
    MissingShard,
    /// The applied-receipts hash does not match the receipts reconstructed
    /// from chain history.
    ReceiptsHash,
    /// The transaction root does not match the last new chunk's header.
    TxRoot,
    /// The recomputed post state root of the main transition does not match
    /// the one declared in the witness.
    MainPostStateRoot,
    /// The recomputed post state root of the implicit transition at this
    /// position does not match the one declared in the witness.
    ImplicitPostStateRoot(usize),
    /// The recomputed chunk extra or outgoing-receipts root disagrees with
    /// the proposed chunk header.
    ChunkExtraMismatch,
}

/// The errors of the chunk-validation core.
#[derive(Clone, Copy, Debug, PartialEq, Eq, Structural)]
pub enum Error {
    /// The node has no signer configured.
    NotAValidator,
    /// The node is not in the chunk-validator committee for this chunk.
    NotAChunkValidator,
    /// A required stored state transition is absent from the store.
    MissingStateProof,
    /// A block or chunk-extra read from the chain store failed.
    ChainAccess,
    /// The witness fails a structural or cryptographic check.
    InvalidChunkStateWitness(WitnessFault),
}

/// A chunk header: identifies a chunk and commits to the results of applying
/// the previous chunk on the same shard.
pub struct ChunkHeader {
    pub shard_id: u64,
    pub height_created: u64,
    /// The height of the block that included this chunk.
    pub height_included: u64,
    pub prev_block_hash: Vec<u8>,
    pub chunk_hash: Vec<u8>,
    /// The state root after applying the previous chunk.
    pub prev_state_root: Vec<u8>,
    /// The outcome root of the previous chunk's application.
    pub prev_outcome_root: Vec<u8>,
    /// The merkle root of this chunk's transactions.
    pub tx_root: Vec<u8>,
    /// The merkle root of the previous chunk's outgoing receipts, grouped by
    /// receiver shard.
    pub prev_outgoing_receipts_root: Vec<u8>,
    pub gas_limit: u64,
    /// The gas burnt by the previous chunk's application.
    pub prev_gas_used: u64,
    /// The balance burnt by the previous chunk's application.
    pub prev_balance_burnt: u128,
    /// The validator proposals of the previous chunk's application.
    pub prev_validator_proposals: Vec<Vec<u8>>,
}

#[verifier::ext_equal]
pub struct ChunkHeaderView {
    pub shard_id: u64,
    pub height_created: u64,
    pub height_included: u64,
    pub prev_block_hash: Seq<u8>,
    pub chunk_hash: Seq<u8>,
    pub prev_state_root: Seq<u8>,
    pub prev_outcome_root: Seq<u8>,
    pub tx_root: Seq<u8>,
    pub prev_outgoing_receipts_root: Seq<u8>,
    pub gas_limit: u64,
    pub prev_gas_used: u64,
    pub prev_balance_burnt: u128,
    pub prev_validator_proposals: Seq<Seq<u8>>,
}

impl View for ChunkHeader {
    type V = ChunkHeaderView;

    open spec fn view(&self) -> ChunkHeaderView {
        ChunkHeaderView {
            shard_id: self.shard_id,
            height_created: self.height_created,
            height_included: self.height_included,
            prev_block_hash: self.prev_block_hash@,
            chunk_hash: self.chunk_hash@,
            prev_state_root: self.prev_state_root@,
            prev_outcome_root: self.prev_outcome_root@,
            tx_root: self.tx_root@,
            prev_outgoing_receipts_root: self.prev_outgoing_receipts_root@,
            gas_limit: self.gas_limit,
            prev_gas_used: self.prev_gas_used,
            prev_balance_burnt: self.prev_balance_burnt,
            prev_validator_proposals: crate::hash::blobs_view(self.prev_validator_proposals@),
        }
    }
}

/// A block as the chain store serves it: its own hash, its parent, its height
/// and one chunk header per shard.
pub struct Block {
    pub hash: Vec<u8>,
    pub prev_hash: Vec<u8>,
    pub height: u64,
    pub chunks: Vec<ChunkHeader>,
}

#[verifier::ext_equal]
pub struct BlockView {
    pub hash: Seq<u8>,
    pub prev_hash: Seq<u8>,
    pub height: u64,
    pub chunks: Seq<ChunkHeaderView>,
}

impl View for Block {
    type V = BlockView;

    open spec fn view(&self) -> BlockView {
        BlockView {
            hash: self.hash@,
            prev_hash: self.prev_hash@,
            height: self.height,
            chunks: self.chunks@.map_values(|c: ChunkHeader| c@),
        }
    }
}

impl BlockView {
    /// Whether the chunk for this shard is fresh at this block rather than
    /// inherited from an earlier block.
    pub open spec fn is_new_chunk(self, shard_id: u64) -> bool {
        self.chunks[shard_id as int].height_included == self.height
    }
}

/// One step of state evolution for a shard, as carried by a witness.
pub struct ChunkStateTransition {
    /// The block at which this transition is anchored.
    pub block_hash: Vec<u8>,
    /// The recorded partial storage: the trie nodes that serve every read of
    /// the replay.
    pub base_state: Vec<Vec<u8>>,
    /// The expected state root after this transition.
    pub post_state_root: Vec<u8>,
}

#[verifier::ext_equal]
pub struct ChunkStateTransitionView {
    pub block_hash: Seq<u8>,
    pub base_state: Seq<Seq<u8>>,
    pub post_state_root: Seq<u8>,
}

impl View for ChunkStateTransition {
    type V = ChunkStateTransitionView;

    open spec fn view(&self) -> ChunkStateTransitionView {
        ChunkStateTransitionView {
            block_hash: self.block_hash@,
            base_state: crate::hash::blobs_view(self.base_state@),
            post_state_root: self.post_state_root@,
        }
    }
}

/// A receipt: addressed to an account, with an opaque payload.
pub struct Receipt {
    pub receiver: u64,
    pub payload: Vec<u8>,
}

#[verifier::ext_equal]
pub struct ReceiptView {
    pub receiver: u64,
    pub payload: Seq<u8>,
}

impl View for Receipt {
    type V = ReceiptView;

    open spec fn view(&self) -> ReceiptView {
        ReceiptView { receiver: self.receiver, payload: self.payload@ }
    }
}

/// The contents of a list of receipts.
pub open spec fn receipts_view(rs: Seq<Receipt>) -> Seq<ReceiptView> {
    rs.map_values(|r: Receipt| r@)
}

/// The full replay package for one chunk.
pub struct ChunkStateWitness {
    /// The newly proposed chunk being validated.
    pub chunk_header: ChunkHeader,
    /// The transition that produced the last new chunk on this shard.
    pub main_state_transition: ChunkStateTransition,
    /// Transitions for each block between the last new chunk (exclusive) and
    /// the parent of `chunk_header` (inclusive), oldest first.
    pub implicit_transitions: Vec<ChunkStateTransition>,
    /// Receipt proofs keyed by source chunk hash. Deriving and checking them
    /// is a deliberate deferral; the applied receipts are reconstructed from
    /// the local chain store instead.
    pub source_receipt_proofs: Vec<(Vec<u8>, Vec<u8>)>,
    /// The hash of the ordered list of receipts applied in the main
    /// transition.
    pub applied_receipts_hash: Vec<u8>,
    /// The transactions applied in the main transition.
    pub transactions: Vec<Vec<u8>>,
    /// Transactions proposed in `chunk_header`, validated separately.
    pub new_transactions: Vec<Vec<u8>>,
    /// Partial storage for validating `new_transactions`.
    pub new_transactions_validation_state: Vec<Vec<u8>>,
}

#[verifier::ext_equal]
pub struct ChunkStateWitnessView {
    pub chunk_header: ChunkHeaderView,
    pub main_state_transition: ChunkStateTransitionView,
    pub implicit_transitions: Seq<ChunkStateTransitionView>,
    pub applied_receipts_hash: Seq<u8>,
    pub transactions: Seq<Seq<u8>>,
    pub new_transactions: Seq<Seq<u8>>,
}

impl View for ChunkStateWitness {
    type V = ChunkStateWitnessView;

    open spec fn view(&self) -> ChunkStateWitnessView {
        ChunkStateWitnessView {
            chunk_header: self.chunk_header@,
            main_state_transition: self.main_state_transition@,
            implicit_transitions: self.implicit_transitions@.map_values(
                |t: ChunkStateTransition| t@,
            ),
            applied_receipts_hash: self.applied_receipts_hash@,
            transactions: crate::hash::blobs_view(self.transactions@),
            new_transactions: crate::hash::blobs_view(self.new_transactions@),
        }
    }
}

/// Derived post-chunk metadata: the summary of one chunk application.
pub struct ChunkExtra {
    pub state_root: Vec<u8>,
    pub outcome_root: Vec<u8>,
    pub validator_proposals: Vec<Vec<u8>>,
    pub gas_used: u64,
    pub gas_limit: u64,
    pub balance_burnt: u128,
}

#[verifier::ext_equal]
pub struct ChunkExtraView {
    pub state_root: Seq<u8>,
    pub outcome_root: Seq<u8>,
    pub validator_proposals: Seq<Seq<u8>>,
    pub gas_used: u64,
    pub gas_limit: u64,
    pub balance_burnt: u128,
}

impl View for ChunkExtra {
    type V = ChunkExtraView;

    open spec fn view(&self) -> ChunkExtraView {
        ChunkExtraView {
            state_root: self.state_root@,
            outcome_root: self.outcome_root@,
            validator_proposals: crate::hash::blobs_view(self.validator_proposals@),
            gas_used: self.gas_used,
            gas_limit: self.gas_limit,
            balance_burnt: self.balance_burnt,
        }
    }
}

/// What the runtime collaborator reports after applying a chunk: the new
/// state root and the bookkeeping of the application.
pub struct ApplyChunkResult {
    pub new_root: Vec<u8>,
    /// The opaque transaction and receipt outcomes, in application order.
    pub outcomes: Vec<Vec<u8>>,
    pub outgoing_receipts: Vec<Receipt>,
    pub validator_proposals: Vec<Vec<u8>>,
    pub total_gas_burnt: u64,
    pub total_balance_burnt: u128,
}

#[verifier::ext_equal]
pub struct ApplyChunkResultView {
    pub new_root: Seq<u8>,
    pub outcomes: Seq<Seq<u8>>,
    pub outgoing_receipts: Seq<ReceiptView>,
    pub validator_proposals: Seq<Seq<u8>>,
    pub total_gas_burnt: u64,
    pub total_balance_burnt: u128,
}

impl View for ApplyChunkResult {
    type V = ApplyChunkResultView;

    open spec fn view(&self) -> ApplyChunkResultView {
        ApplyChunkResultView {
            new_root: self.new_root@,
            outcomes: crate::hash::blobs_view(self.outcomes@),
            outgoing_receipts: receipts_view(self.outgoing_receipts@),
            validator_proposals: crate::hash::blobs_view(self.validator_proposals@),
            total_gas_burnt: self.total_gas_burnt,
            total_balance_burnt: self.total_balance_burnt,
        }
    }
}

/// The mapping from accounts to shards: an account belongs to the shard whose
/// index is the number of boundary accounts at or below it.
pub struct ShardLayout {
    pub boundary_accounts: Vec<u64>,
}

#[verifier::ext_equal]
pub struct ShardLayoutView {
    pub boundary_accounts: Seq<u64>,
}

impl View for ShardLayout {
    type V = ShardLayoutView;

    open spec fn view(&self) -> ShardLayoutView {
        ShardLayoutView { boundary_accounts: self.boundary_accounts@ }
    }
}

/// A chunk with its body: its header and its transactions.
pub struct ShardChunk {
    pub header: ChunkHeader,
    pub transactions: Vec<Vec<u8>>,
}

#[verifier::ext_equal]
pub struct ShardChunkView {
    pub header: ChunkHeaderView,
    pub transactions: Seq<Seq<u8>>,
}

impl View for ShardChunk {
    type V = ShardChunkView;

    open spec fn view(&self) -> ShardChunkView {
        ShardChunkView {
            header: self.header@,
            transactions: crate::hash::blobs_view(self.transactions@),
        }
    }
}

/// The stored state-transition row for one block and shard: the recorded
/// partial storage of the transition applied there, and the hash of the
/// receipts that were applied.
pub struct StoredChunkStateTransitionData {
    pub base_state: Vec<Vec<u8>>,
    pub receipts_hash: Vec<u8>,
}

#[verifier::ext_equal]
pub struct StoredChunkStateTransitionDataView {
    pub base_state: Seq<Seq<u8>>,
    pub receipts_hash: Seq<u8>,
}

impl View for StoredChunkStateTransitionData {
    type V = StoredChunkStateTransitionDataView;

    open spec fn view(&self) -> StoredChunkStateTransitionDataView {
        StoredChunkStateTransitionDataView {
            base_state: crate::hash::blobs_view(self.base_state@),
            receipts_hash: self.receipts_hash@,
        }
    }
}

/// Returns a copy of a list of byte blobs with the same contents.
pub fn clone_blobs(v: &Vec<Vec<u8>>) -> (r: Vec<Vec<u8>>)
    ensures
        crate::hash::blobs_view(r@) == crate::hash::blobs_view(v@),
        r@.len() == v@.len(),
        forall|i: int| 0 <= i < v@.len() ==> #[trigger] r@[i]@ == v@[i]@,
{
    let mut r: Vec<Vec<u8>> = Vec::new();
    let mut i: usize = 0;
    while i < v.len()
        invariant
            i <= v@.len(),
            r@.len() == i,
            forall|j: int| 0 <= j < i ==> #[trigger] r@[j]@ == v@[j]@,
        decreases v@.len() - i,
    {
        r.push(crate::bytes::copy_bytes(&v[i]));
        i += 1;
    }
    assert(crate::hash::blobs_view(r@) =~= crate::hash::blobs_view(v@));
    r
}

impl ChunkHeader {
    /// Returns a copy of this header with the same contents.
    pub fn clone_header(&self) -> (r: ChunkHeader)
        ensures
            r@ == self@,
    {
        let r = ChunkHeader {
            shard_id: self.shard_id,
            height_created: self.height_created,
            height_included: self.height_included,
            prev_block_hash: crate::bytes::copy_bytes(&self.prev_block_hash),
            chunk_hash: crate::bytes::copy_bytes(&self.chunk_hash),
            prev_state_root: crate::bytes::copy_bytes(&self.prev_state_root),
            prev_outcome_root: crate::bytes::copy_bytes(&self.prev_outcome_root),
            tx_root: crate::bytes::copy_bytes(&self.tx_root),
            prev_outgoing_receipts_root: crate::bytes::copy_bytes(
                &self.prev_outgoing_receipts_root,
            ),
            gas_limit: self.gas_limit,
            prev_gas_used: self.prev_gas_used,
            prev_balance_burnt: self.prev_balance_burnt,
            prev_validator_proposals: clone_blobs(&self.prev_validator_proposals),
        };
        assert(r@ =~= self@);
        r
    }
}

impl Block {
    /// Returns a copy of this block with the same contents.
    pub fn clone_block(&self) -> (r: Block)
        ensures
            r@ == self@,
    {
        let mut chunks: Vec<ChunkHeader> = Vec::new();
        let mut i: usize = 0;
        while i < self.chunks.len()
            invariant
                i <= self.chunks@.len(),
                chunks@.len() == i,
                forall|j: int| 0 <= j < i ==> #[trigger] chunks@[j]@ == self.chunks@[j]@,
            decreases self.chunks@.len() - i,
        {
            chunks.push(self.chunks[i].clone_header());
            i += 1;
        }
        let r = Block {
            hash: crate::bytes::copy_bytes(&self.hash),
            prev_hash: crate::bytes::copy_bytes(&self.prev_hash),
            height: self.height,
            chunks,
        };
        assert(r@.chunks =~= self@.chunks);
        assert(r@ =~= self@);
        r
    }
}

impl Receipt {
    /// Returns a copy of this receipt with the same contents.
    pub fn clone_receipt(&self) -> (r: Receipt)
        ensures
            r@ == self@,
    {
        Receipt { receiver: self.receiver, payload: crate::bytes::copy_bytes(&self.payload) }
    }
}

/// Returns a copy of a list of receipts with the same contents.
pub fn clone_receipts(v: &Vec<Receipt>) -> (r: Vec<Receipt>)
    ensures
        receipts_view(r@) == receipts_view(v@),
{
    let mut r: Vec<Receipt> = Vec::new();
    let mut i: usize = 0;
    while i < v.len()
        invariant
            i <= v@.len(),
            r@.len() == i,
            forall|j: int| 0 <= j < i ==> #[trigger] r@[j]@ == v@[j]@,
        decreases v@.len() - i,
    {
        r.push(v[i].clone_receipt());
        i += 1;
    }
    assert(receipts_view(r@) =~= receipts_view(v@));
    r
}

/// What a chunk endorsement signs: the chunk hash it attests to.
pub struct ChunkEndorsementInner {
    pub chunk_hash: Vec<u8>,
}

/// A signed attestation that replay reproduced the chunk's committed state.
pub struct ChunkEndorsement {
    pub account_id: u64,
    pub signature: Vec<u8>,
    pub inner: ChunkEndorsementInner,
}

} // verus!
