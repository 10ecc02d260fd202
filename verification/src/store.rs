//! The chain-store model: the chain history the core reads. Blocks are keyed
//! by hash; chunk extras by block hash and shard uid; stored state
//! transitions and incoming receipts by block hash and shard id; chunk bodies
//! by chunk hash. All durable state is borrowed read-only from here.

use vstd::prelude::*;

use crate::bytes::bytes_eq;
use crate::types::{
    Block, BlockView, ChunkExtra, ChunkExtraView, Receipt, ReceiptView, ShardChunk,
    ShardChunkView, StoredChunkStateTransitionData, StoredChunkStateTransitionDataView,
};

verus! {

/// The chain history and the column data the core reads.
pub struct ChainStore {
    pub blocks: Vec<Block>,
    /// Chunk extras keyed by block hash and shard uid.
    pub chunk_extras: Vec<(Vec<u8>, u64, ChunkExtra)>,
    /// Stored state-transition rows keyed by block hash and shard id.
    pub transition_data: Vec<(Vec<u8>, u64, StoredChunkStateTransitionData)>,
    /// The receipts that arrived for a shard at a block, keyed by block hash
    /// and shard id.
    pub incoming_receipts: Vec<(Vec<u8>, u64, Vec<Receipt>)>,
    /// Chunk bodies keyed by chunk hash.
    pub chunks: Vec<(Vec<u8>, ShardChunk)>,
}

#[verifier::ext_equal]
pub struct ChainStoreView {
    pub blocks: Seq<BlockView>,
    pub chunk_extras: Seq<(Seq<u8>, u64, ChunkExtraView)>,
    pub transition_data: Seq<(Seq<u8>, u64, StoredChunkStateTransitionDataView)>,
    pub incoming_receipts: Seq<(Seq<u8>, u64, Seq<ReceiptView>)>,
    pub chunks: Seq<(Seq<u8>, ShardChunkView)>,
}

impl View for ChainStore {
    type V = ChainStoreView;

    open spec fn view(&self) -> ChainStoreView {
        ChainStoreView {
            blocks: self.blocks@.map_values(|b: Block| b@),
            chunk_extras: self.chunk_extras@.map_values(
                |e: (Vec<u8>, u64, ChunkExtra)| (e.0@, e.1, e.2@),
            ),
            transition_data: self.transition_data@.map_values(
                |e: (Vec<u8>, u64, StoredChunkStateTransitionData)| (e.0@, e.1, e.2@),
            ),
            incoming_receipts: self.incoming_receipts@.map_values(
                |e: (Vec<u8>, u64, Vec<Receipt>)| (e.0@, e.1, crate::types::receipts_view(e.2@)),
            ),
            chunks: self.chunks@.map_values(|e: (Vec<u8>, ShardChunk)| (e.0@, e.1@)),
        }
    }
}

/// The first block with the given hash, if any.
pub open spec fn find_block_spec(blocks: Seq<BlockView>, h: Seq<u8>) -> Option<BlockView>
    decreases blocks.len(),
{
    if blocks.len() == 0 {
        None
    } else if blocks[0].hash == h {
        Some(blocks[0])
    } else {
        find_block_spec(blocks.drop_first(), h)
    }
}

/// The first chunk extra stored under the given block hash and shard uid.
pub open spec fn find_chunk_extra_spec(
    entries: Seq<(Seq<u8>, u64, ChunkExtraView)>,
    h: Seq<u8>,
    shard_uid: u64,
) -> Option<ChunkExtraView>
    decreases entries.len(),
{
    if entries.len() == 0 {
        None
    } else if entries[0].0 == h && entries[0].1 == shard_uid {
        Some(entries[0].2)
    } else {
        find_chunk_extra_spec(entries.drop_first(), h, shard_uid)
    }
}

/// The first stored state-transition row under the given block hash and
/// shard id.
pub open spec fn find_transition_data_spec(
    entries: Seq<(Seq<u8>, u64, StoredChunkStateTransitionDataView)>,
    h: Seq<u8>,
    shard_id: u64,
) -> Option<StoredChunkStateTransitionDataView>
    decreases entries.len(),
{
    if entries.len() == 0 {
        None
    } else if entries[0].0 == h && entries[0].1 == shard_id {
        Some(entries[0].2)
    } else {
        find_transition_data_spec(entries.drop_first(), h, shard_id)
    }
}

/// The receipts that arrived for the shard at the given block; none recorded
/// reads as the empty list.
pub open spec fn find_incoming_receipts_spec(
    entries: Seq<(Seq<u8>, u64, Seq<ReceiptView>)>,
    h: Seq<u8>,
    shard_id: u64,
) -> Seq<ReceiptView>
    decreases entries.len(),
{
    if entries.len() == 0 {
        Seq::empty()
    } else if entries[0].0 == h && entries[0].1 == shard_id {
        entries[0].2
    } else {
        find_incoming_receipts_spec(entries.drop_first(), h, shard_id)
    }
}

/// The first chunk body stored under the given chunk hash.
pub open spec fn find_chunk_spec(entries: Seq<(Seq<u8>, ShardChunkView)>, h: Seq<u8>) -> Option<
    ShardChunkView,
>
    decreases entries.len(),
{
    if entries.len() == 0 {
        None
    } else if entries[0].0 == h {
        Some(entries[0].1)
    } else {
        find_chunk_spec(entries.drop_first(), h)
    }
}

/// A termination measure for backward walks: one more than the height of the
/// block the hash names, or zero when the hash is unknown.
pub open spec fn height_measure(s: ChainStoreView, h: Seq<u8>) -> int {
    match find_block_spec(s.blocks, h) {
        Some(b) => b.height + 1,
        None => 0,
    }
}

/// Well-formedness of the store: every stored block's parent, when the store
/// holds it, stands at a strictly smaller height. Backward walks terminate
/// because of this.
pub open spec fn store_wf(s: ChainStoreView) -> bool {
    forall|i: int|
        0 <= i < s.blocks.len() ==> height_measure(s, #[trigger] s.blocks[i].prev_hash)
            <= s.blocks[i].height
}

/// A found block is one of the store's blocks.
pub proof fn lemma_find_block_is_element(blocks: Seq<BlockView>, h: Seq<u8>)
    ensures
        match find_block_spec(blocks, h) {
            Some(b) => exists|i: int| 0 <= i < blocks.len() && blocks[i] == b && b.hash == h,
            None => true,
        },
    decreases blocks.len(),
{
    if blocks.len() > 0 && blocks[0].hash != h {
        lemma_find_block_is_element(blocks.drop_first(), h);
        if find_block_spec(blocks.drop_first(), h) is Some {
            let b = find_block_spec(blocks.drop_first(), h)->Some_0;
            let i = choose|i: int|
                0 <= i < blocks.drop_first().len() && blocks.drop_first()[i] == b && b.hash == h;
            assert(blocks[i + 1] == b);
        }
    }
}

/// In a well-formed store, following a found block's parent strictly
/// decreases the walk measure.
pub proof fn lemma_walk_step_decreases(s: ChainStoreView, h: Seq<u8>)
    requires
        store_wf(s),
        find_block_spec(s.blocks, h) is Some,
    ensures
        height_measure(s, find_block_spec(s.blocks, h)->Some_0.prev_hash) < height_measure(s, h),
{
    lemma_find_block_is_element(s.blocks, h);
}

/// Why a backward walk over the chain stopped short.
#[derive(Clone, Copy, Debug, PartialEq, Eq, Structural)]
pub enum WalkStop {
    /// A block on the path is absent from the store.
    MissingBlock,
    /// A block on the path has no chunk for the shard.
    MissingShard,
}

/// The contents of a list of blocks.
pub open spec fn blocks_seq_view(s: Seq<Block>) -> Seq<BlockView> {
    s.map_values(|b: Block| b@)
}

/// The backward walk of the pre-validator: starting at `h`, visit blocks
/// until two new chunks for the shard have been seen. The first component
/// holds the blocks visited before the first new chunk, that new-chunk block
/// included last; the second holds the blocks visited after it, the second
/// new-chunk block included last. Both are ordered newest first.
pub open spec fn walk_last_chunks_spec(
    s: ChainStoreView,
    shard_id: u64,
    h: Seq<u8>,
    seen_one: bool,
) -> Result<(Seq<BlockView>, Seq<BlockView>), WalkStop>
    decreases height_measure(s, h),
        when store_wf(s)
        via walk_last_chunks_decreases
{
    match find_block_spec(s.blocks, h) {
        None => Err(WalkStop::MissingBlock),
        Some(b) => {
            if b.chunks.len() <= shard_id as int {
                Err(WalkStop::MissingShard)
            } else {
                let is_new = b.is_new_chunk(shard_id);
                if seen_one && is_new {
                    Ok((Seq::empty(), seq![b]))
                } else {
                    match walk_last_chunks_spec(s, shard_id, b.prev_hash, seen_one || is_new) {
                        Err(e) => Err(e),
                        Ok((a, a2)) => if !seen_one {
                            Ok((seq![b] + a, a2))
                        } else {
                            Ok((a, seq![b] + a2))
                        },
                    }
                }
            }
        },
    }
}

#[via_fn]
proof fn walk_last_chunks_decreases(s: ChainStoreView, shard_id: u64, h: Seq<u8>, seen_one: bool) {
    if store_wf(s) && find_block_spec(s.blocks, h) is Some {
        lemma_walk_step_decreases(s, h);
    }
}

/// The backward walk of the witness builder: the hashes of the blocks from
/// `h` down to the first block at or below the target height, that block
/// included, ordered newest first.
pub open spec fn blocks_until_height_spec(s: ChainStoreView, h: Seq<u8>, target_height: u64) -> Result<
    Seq<Seq<u8>>,
    WalkStop,
>
    decreases height_measure(s, h),
        when store_wf(s)
        via blocks_until_height_decreases
{
    match find_block_spec(s.blocks, h) {
        None => Err(WalkStop::MissingBlock),
        Some(b) => {
            if b.height <= target_height {
                Ok(seq![h])
            } else {
                match blocks_until_height_spec(s, b.prev_hash, target_height) {
                    Err(e) => Err(e),
                    Ok(t) => Ok(seq![h] + t),
                }
            }
        },
    }
}

#[via_fn]
proof fn blocks_until_height_decreases(s: ChainStoreView, h: Seq<u8>, target_height: u64) {
    if store_wf(s) && find_block_spec(s.blocks, h) is Some {
        lemma_walk_step_decreases(s, h);
    }
}

/// The receipts that arrived for the shard in the blocks from `h` back to,
/// but not including, the block at `lower_height`: newest block first, each
/// block's receipts in their stored order.
pub open spec fn collect_incoming_chain_spec(
    s: ChainStoreView,
    shard_id: u64,
    h: Seq<u8>,
    lower_height: u64,
) -> Result<Seq<ReceiptView>, WalkStop>
    decreases height_measure(s, h),
        when store_wf(s)
        via collect_incoming_chain_decreases
{
    match find_block_spec(s.blocks, h) {
        None => Err(WalkStop::MissingBlock),
        Some(b) => {
            if b.height <= lower_height {
                Ok(Seq::empty())
            } else {
                let here = find_incoming_receipts_spec(s.incoming_receipts, h, shard_id);
                match collect_incoming_chain_spec(s, shard_id, b.prev_hash, lower_height) {
                    Err(e) => Err(e),
                    Ok(rest) => Ok(here + rest),
                }
            }
        },
    }
}

#[via_fn]
proof fn collect_incoming_chain_decreases(
    s: ChainStoreView,
    shard_id: u64,
    h: Seq<u8>,
    lower_height: u64,
) {
    if store_wf(s) && find_block_spec(s.blocks, h) is Some {
        lemma_walk_step_decreases(s, h);
    }
}

/// A successful pre-validation walk visits at least one block on each side
/// of the last new chunk, and every visited block holds a chunk for the
/// shard.
pub proof fn lemma_walk_ok_shape(s: ChainStoreView, shard_id: u64, h: Seq<u8>, seen_one: bool)
    requires
        store_wf(s),
        walk_last_chunks_spec(s, shard_id, h, seen_one) is Ok,
    ensures
        ({
            let (a, a2) = walk_last_chunks_spec(s, shard_id, h, seen_one)->Ok_0;
            &&& a2.len() >= 1
            &&& (!seen_one ==> a.len() >= 1)
            &&& forall|i: int| 0 <= i < a.len() ==> shard_id < (#[trigger] a[i]).chunks.len()
            &&& forall|i: int| 0 <= i < a2.len() ==> shard_id < (#[trigger] a2[i]).chunks.len()
        }),
    decreases height_measure(s, h),
{
    let b = find_block_spec(s.blocks, h)->Some_0;
    let is_new = b.is_new_chunk(shard_id);
    if seen_one && is_new {
    } else {
        lemma_walk_step_decreases(s, h);
        lemma_walk_ok_shape(s, shard_id, b.prev_hash, seen_one || is_new);
        let (sa, sa2) = walk_last_chunks_spec(s, shard_id, b.prev_hash, seen_one || is_new)->Ok_0;
        let (a, a2) = walk_last_chunks_spec(s, shard_id, h, seen_one)->Ok_0;
        if !seen_one {
            assert(a == seq![b] + sa);
            assert(forall|i: int| 1 <= i < a.len() ==> a[i] == sa[i - 1]);
        } else {
            assert(a2 == seq![b] + sa2);
            assert(forall|i: int| 1 <= i < a2.len() ==> a2[i] == sa2[i - 1]);
        }
    }
}

/// A successful producer walk returns at least one block hash.
pub proof fn lemma_blocks_until_nonempty(s: ChainStoreView, h: Seq<u8>, target_height: u64)
    requires
        store_wf(s),
        blocks_until_height_spec(s, h, target_height) is Ok,
    ensures
        blocks_until_height_spec(s, h, target_height)->Ok_0.len() >= 1,
{
}

impl ChainStore {
    /// The position of the block with the given hash, if the store holds one.
    pub fn find_block_idx(&self, h: &Vec<u8>) -> (r: Option<usize>)
        ensures
            match r {
                Some(i) => i < self.blocks@.len() && find_block_spec(self@.blocks, h@) == Some(
                    self.blocks@[i as int]@,
                ),
                None => find_block_spec(self@.blocks, h@) is None,
            },
    {
        let mut i: usize = 0;
        proof {
            assert(self@.blocks.skip(0) =~= self@.blocks);
        }
        while i < self.blocks.len()
            invariant
                i <= self.blocks@.len(),
                find_block_spec(self@.blocks, h@) == find_block_spec(
                    self@.blocks.skip(i as int),
                    h@,
                ),
            decreases self.blocks@.len() - i,
        {
            proof {
                assert(self@.blocks.skip(i as int)[0] == self.blocks@[i as int]@);
                assert(self@.blocks.skip(i as int).drop_first() =~= self@.blocks.skip(i as int + 1));
            }
            if bytes_eq(&self.blocks[i].hash, h) {
                return Some(i);
            }
            i += 1;
        }
        proof {
            assert(self@.blocks.skip(self.blocks@.len() as int) =~= Seq::<BlockView>::empty());
        }
        None
    }

    /// The position of the chunk extra for the given block hash and shard
    /// uid, if the store holds one.
    pub fn find_chunk_extra_idx(&self, h: &Vec<u8>, shard_uid: u64) -> (r: Option<usize>)
        ensures
            match r {
                Some(i) => i < self.chunk_extras@.len() && find_chunk_extra_spec(
                    self@.chunk_extras,
                    h@,
                    shard_uid,
                ) == Some(self.chunk_extras@[i as int].2@),
                None => find_chunk_extra_spec(self@.chunk_extras, h@, shard_uid) is None,
            },
    {
        let mut i: usize = 0;
        proof {
            assert(self@.chunk_extras.skip(0) =~= self@.chunk_extras);
        }
        while i < self.chunk_extras.len()
            invariant
                i <= self.chunk_extras@.len(),
                find_chunk_extra_spec(self@.chunk_extras, h@, shard_uid) == find_chunk_extra_spec(
                    self@.chunk_extras.skip(i as int),
                    h@,
                    shard_uid,
                ),
            decreases self.chunk_extras@.len() - i,
        {
            proof {
                assert(self@.chunk_extras.skip(i as int)[0] == (
                    self.chunk_extras@[i as int].0@,
                    self.chunk_extras@[i as int].1,
                    self.chunk_extras@[i as int].2@,
                ));
                assert(self@.chunk_extras.skip(i as int).drop_first() =~= self@.chunk_extras.skip(
                    i as int + 1,
                ));
            }
            if bytes_eq(&self.chunk_extras[i].0, h) && self.chunk_extras[i].1 == shard_uid {
                return Some(i);
            }
            i += 1;
        }
        proof {
            assert(self@.chunk_extras.skip(self.chunk_extras@.len() as int) =~= Seq::<
                (Seq<u8>, u64, ChunkExtraView),
            >::empty());
        }
        None
    }

    /// The position of the stored state-transition row for the given block
    /// hash and shard id, if the store holds one.
    pub fn find_transition_data_idx(&self, h: &Vec<u8>, shard_id: u64) -> (r: Option<usize>)
        ensures
            match r {
                Some(i) => i < self.transition_data@.len() && find_transition_data_spec(
                    self@.transition_data,
                    h@,
                    shard_id,
                ) == Some(self.transition_data@[i as int].2@),
                None => find_transition_data_spec(self@.transition_data, h@, shard_id) is None,
            },
    {
        let mut i: usize = 0;
        proof {
            assert(self@.transition_data.skip(0) =~= self@.transition_data);
        }
        while i < self.transition_data.len()
            invariant
                i <= self.transition_data@.len(),
                find_transition_data_spec(self@.transition_data, h@, shard_id)
                    == find_transition_data_spec(self@.transition_data.skip(i as int), h@, shard_id),
            decreases self.transition_data@.len() - i,
        {
            proof {
                assert(self@.transition_data.skip(i as int)[0] == (
                    self.transition_data@[i as int].0@,
                    self.transition_data@[i as int].1,
                    self.transition_data@[i as int].2@,
                ));
                assert(self@.transition_data.skip(i as int).drop_first()
                    =~= self@.transition_data.skip(i as int + 1));
            }
            if bytes_eq(&self.transition_data[i].0, h) && self.transition_data[i].1 == shard_id {
                return Some(i);
            }
            i += 1;
        }
        proof {
            assert(self@.transition_data.skip(self.transition_data@.len() as int) =~= Seq::<
                (Seq<u8>, u64, StoredChunkStateTransitionDataView),
            >::empty());
        }
        None
    }

    /// The receipts that arrived for the shard at the given block; the empty
    /// list when none were recorded.
    pub fn get_incoming_receipts_at(&self, h: &Vec<u8>, shard_id: u64) -> (r: Vec<Receipt>)
        ensures
            crate::types::receipts_view(r@) == find_incoming_receipts_spec(
                self@.incoming_receipts,
                h@,
                shard_id,
            ),
    {
        let mut i: usize = 0;
        proof {
            assert(self@.incoming_receipts.skip(0) =~= self@.incoming_receipts);
        }
        while i < self.incoming_receipts.len()
            invariant
                i <= self.incoming_receipts@.len(),
                find_incoming_receipts_spec(self@.incoming_receipts, h@, shard_id)
                    == find_incoming_receipts_spec(
                    self@.incoming_receipts.skip(i as int),
                    h@,
                    shard_id,
                ),
            decreases self.incoming_receipts@.len() - i,
        {
            proof {
                assert(self@.incoming_receipts.skip(i as int)[0] == (
                    self.incoming_receipts@[i as int].0@,
                    self.incoming_receipts@[i as int].1,
                    crate::types::receipts_view(self.incoming_receipts@[i as int].2@),
                ));
                assert(self@.incoming_receipts.skip(i as int).drop_first()
                    =~= self@.incoming_receipts.skip(i as int + 1));
            }
            if bytes_eq(&self.incoming_receipts[i].0, h) && self.incoming_receipts[i].1 == shard_id
            {
                return crate::types::clone_receipts(&self.incoming_receipts[i].2);
            }
            i += 1;
        }
        proof {
            assert(self@.incoming_receipts.skip(self.incoming_receipts@.len() as int) =~= Seq::<
                (Seq<u8>, u64, Seq<ReceiptView>),
            >::empty());
            assert(crate::types::receipts_view(Seq::<Receipt>::empty()) =~= Seq::<
                ReceiptView,
            >::empty());
        }
        Vec::new()
    }

    /// The position of the chunk body with the given chunk hash, if the
    /// store holds one.
    pub fn find_chunk_idx(&self, h: &Vec<u8>) -> (r: Option<usize>)
        ensures
            match r {
                Some(i) => i < self.chunks@.len() && find_chunk_spec(self@.chunks, h@) == Some(
                    self.chunks@[i as int].1@,
                ),
                None => find_chunk_spec(self@.chunks, h@) is None,
            },
    {
        let mut i: usize = 0;
        proof {
            assert(self@.chunks.skip(0) =~= self@.chunks);
        }
        while i < self.chunks.len()
            invariant
                i <= self.chunks@.len(),
                find_chunk_spec(self@.chunks, h@) == find_chunk_spec(
                    self@.chunks.skip(i as int),
                    h@,
                ),
            decreases self.chunks@.len() - i,
        {
            proof {
                assert(self@.chunks.skip(i as int)[0] == (
                    self.chunks@[i as int].0@,
                    self.chunks@[i as int].1@,
                ));
                assert(self@.chunks.skip(i as int).drop_first() =~= self@.chunks.skip(i as int + 1));
            }
            if bytes_eq(&self.chunks[i].0, h) {
                return Some(i);
            }
            i += 1;
        }
        proof {
            assert(self@.chunks.skip(self.chunks@.len() as int) =~= Seq::<
                (Seq<u8>, ShardChunkView),
            >::empty());
        }
        None
    }

    /// Walks backward from `h` until two new chunks for the shard have been
    /// seen, returning the visited blocks split at the first new chunk.
    pub fn walk_last_chunks(&self, shard_id: u64, h: &Vec<u8>, seen_one: bool) -> (r: Result<
        (Vec<Block>, Vec<Block>),
        WalkStop,
    >)
        requires
            store_wf(self@),
        ensures
            match r {
                Ok(p) => walk_last_chunks_spec(self@, shard_id, h@, seen_one) == Ok::<
                    _,
                    WalkStop,
                >((blocks_seq_view(p.0@), blocks_seq_view(p.1@))),
                Err(e) => walk_last_chunks_spec(self@, shard_id, h@, seen_one) == Err::<
                    (Seq<BlockView>, Seq<BlockView>),
                    _,
                >(e),
            },
        decreases height_measure(self@, h@),
    {
        let bi = match self.find_block_idx(h) {
            None => {
                return Err(WalkStop::MissingBlock);
            },
            Some(bi) => bi,
        };
        let b = &self.blocks[bi];
        if shard_id >= b.chunks.len() as u64 {
            return Err(WalkStop::MissingShard);
        }
        assert(self@.blocks[bi as int].chunks[shard_id as int] == b.chunks@[shard_id as int]@);
        let is_new = b.chunks[shard_id as usize].height_included == b.height;
        assert(is_new == self@.blocks[bi as int].is_new_chunk(shard_id));
        if seen_one && is_new {
            let mut a2: Vec<Block> = Vec::new();
            a2.push(b.clone_block());
            proof {
                assert(blocks_seq_view(Seq::<Block>::empty()) =~= Seq::<BlockView>::empty());
                assert(blocks_seq_view(a2@) =~= seq![self@.blocks[bi as int]]);
            }
            return Ok((Vec::new(), a2));
        }
        proof {
            lemma_walk_step_decreases(self@, h@);
        }
        let prev_hash = crate::bytes::copy_bytes(&b.prev_hash);
        match self.walk_last_chunks(shard_id, &prev_hash, seen_one || is_new) {
            Err(e) => Err(e),
            Ok((a, a2)) => {
                let ghost sa = blocks_seq_view(a@);
                let ghost sa2 = blocks_seq_view(a2@);
                if !seen_one {
                    let mut na: Vec<Block> = Vec::new();
                    na.push(self.blocks[bi].clone_block());
                    let mut a = a;
                    na.append(&mut a);
                    proof {
                        assert(blocks_seq_view(na@) =~= seq![self@.blocks[bi as int]] + sa);
                    }
                    Ok((na, a2))
                } else {
                    let mut na2: Vec<Block> = Vec::new();
                    na2.push(self.blocks[bi].clone_block());
                    let mut a2 = a2;
                    na2.append(&mut a2);
                    proof {
                        assert(blocks_seq_view(na2@) =~= seq![self@.blocks[bi as int]] + sa2);
                    }
                    Ok((a, na2))
                }
            },
        }
    }

    /// Walks backward from `h` and returns the hashes of the blocks down to
    /// the first block at or below the target height, that block included,
    /// newest first.
    pub fn get_blocks_until_height(&self, h: &Vec<u8>, target_height: u64) -> (r: Result<
        Vec<Vec<u8>>,
        WalkStop,
    >)
        requires
            store_wf(self@),
        ensures
            match r {
                Ok(hs) => blocks_until_height_spec(self@, h@, target_height) == Ok::<_, WalkStop>(
                    crate::hash::blobs_view(hs@),
                ),
                Err(e) => blocks_until_height_spec(self@, h@, target_height) == Err::<
                    Seq<Seq<u8>>,
                    _,
                >(e),
            },
        decreases height_measure(self@, h@),
    {
        let bi = match self.find_block_idx(h) {
            None => {
                return Err(WalkStop::MissingBlock);
            },
            Some(bi) => bi,
        };
        let b = &self.blocks[bi];
        if b.height <= target_height {
            let mut hs: Vec<Vec<u8>> = Vec::new();
            hs.push(crate::bytes::copy_bytes(h));
            proof {
                assert(crate::hash::blobs_view(hs@) =~= seq![h@]);
            }
            return Ok(hs);
        }
        proof {
            lemma_walk_step_decreases(self@, h@);
        }
        let prev_hash = crate::bytes::copy_bytes(&b.prev_hash);
        match self.get_blocks_until_height(&prev_hash, target_height) {
            Err(e) => Err(e),
            Ok(t) => {
                let ghost st = crate::hash::blobs_view(t@);
                let mut hs: Vec<Vec<u8>> = Vec::new();
                hs.push(crate::bytes::copy_bytes(h));
                let mut t = t;
                hs.append(&mut t);
                proof {
                    assert(crate::hash::blobs_view(hs@) =~= seq![h@] + st);
                }
                Ok(hs)
            },
        }
    }

    /// Collects the receipts that arrived for the shard in the blocks from
    /// `h` back to, but not including, the block at `lower_height`.
    pub fn get_incoming_receipts_for_shard(&self, shard_id: u64, h: &Vec<u8>, lower_height: u64) -> (r:
        Result<Vec<Receipt>, WalkStop>)
        requires
            store_wf(self@),
        ensures
            match r {
                Ok(rs) => collect_incoming_chain_spec(self@, shard_id, h@, lower_height) == Ok::<
                    _,
                    WalkStop,
                >(crate::types::receipts_view(rs@)),
                Err(e) => collect_incoming_chain_spec(self@, shard_id, h@, lower_height) == Err::<
                    Seq<ReceiptView>,
                    _,
                >(e),
            },
        decreases height_measure(self@, h@),
    {
        let bi = match self.find_block_idx(h) {
            None => {
                return Err(WalkStop::MissingBlock);
            },
            Some(bi) => bi,
        };
        let b = &self.blocks[bi];
        if b.height <= lower_height {
            proof {
                assert(crate::types::receipts_view(Seq::<Receipt>::empty()) =~= Seq::<
                    ReceiptView,
                >::empty());
            }
            return Ok(Vec::new());
        }
        proof {
            lemma_walk_step_decreases(self@, h@);
        }
        let mut here = self.get_incoming_receipts_at(h, shard_id);
        let ghost shere = crate::types::receipts_view(here@);
        let prev_hash = crate::bytes::copy_bytes(&b.prev_hash);
        match self.get_incoming_receipts_for_shard(shard_id, &prev_hash, lower_height) {
            Err(e) => Err(e),
            Ok(rest) => {
                let ghost srest = crate::types::receipts_view(rest@);
                let mut rest = rest;
                here.append(&mut rest);
                proof {
                    assert(crate::types::receipts_view(here@) =~= shere + srest);
                }
                Ok(here)
            },
        }
    }
}

} // verus!
