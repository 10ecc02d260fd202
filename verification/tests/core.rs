//! End-to-end scenarios over a small chain history: a producer builds a
//! witness, a validator pre-validates and replays it, and corrupted
//! witnesses are rejected with the fault that names the corruption.

use chunk_validation::bytes::{bytes_eq, is_zero_hash, zero_hash};
use chunk_validation::client::Client;
use chunk_validation::epoch::EpochInfo;
use chunk_validation::merkle::merkle_root;
use chunk_validation::receipts::{account_shard, compute_applied_receipts_hash,
    compute_outgoing_receipts_root};
use chunk_validation::store::ChainStore;
use chunk_validation::types::{ApplyChunkResult, Block, ChunkHeader, ChunkStateWitness, Error,
    Receipt, ShardChunk, ShardLayout, StoredChunkStateTransitionData, WitnessFault};
use chunk_validation::validator::{make_chunk_endorsement, pre_validate_chunk_state_witness,
    validate_chunk_state_witness, ChunkValidator};

fn h(n: u8) -> Vec<u8> {
    vec![n; 32]
}

fn sha2_of(data: &[u8]) -> Vec<u8> {
    <sha2::Sha256 as sha2::Digest>::digest(data).to_vec()
}

const GAS_LIMIT: u64 = 1_000_000;
const GAS_USED: u64 = 777;
const BALANCE_BURNT: u128 = 12_345;

fn layout() -> ShardLayout {
    ShardLayout { boundary_accounts: vec![5] }
}

fn mk_header(shard_id: u64, height_created: u64, height_included: u64) -> ChunkHeader {
    ChunkHeader {
        shard_id,
        height_created,
        height_included,
        prev_block_hash: h(0),
        chunk_hash: h(0),
        prev_state_root: h(0),
        prev_outcome_root: h(0),
        tx_root: h(0),
        prev_outgoing_receipts_root: h(0),
        gas_limit: GAS_LIMIT,
        prev_gas_used: 0,
        prev_balance_burnt: 0,
        prev_validator_proposals: vec![],
    }
}

fn applied_receipts() -> Vec<Receipt> {
    vec![
        Receipt { receiver: 1, payload: b"pay-one".to_vec() },
        Receipt { receiver: 9, payload: b"pay-nine".to_vec() },
    ]
}

fn outgoing_receipts() -> Vec<Receipt> {
    vec![
        Receipt { receiver: 2, payload: b"out-two".to_vec() },
        Receipt { receiver: 8, payload: b"out-eight".to_vec() },
    ]
}

fn witness_transactions() -> Vec<Vec<u8>> {
    vec![b"tx-alpha".to_vec(), b"tx-beta".to_vec()]
}

fn outcomes() -> Vec<Vec<u8>> {
    vec![b"outcome-1".to_vec(), b"outcome-2".to_vec()]
}

fn proposals() -> Vec<Vec<u8>> {
    vec![b"proposal-1".to_vec()]
}

/// The header of the last new chunk on shard 0, included at height 3.
fn prev_chunk_header() -> ChunkHeader {
    let mut c = mk_header(0, 3, 3);
    c.prev_block_hash = h(2);
    c.chunk_hash = h(0x30);
    c.tx_root = merkle_root(&witness_transactions());
    c
}

/// A block with a chunk per shard; shard 0's carries the given inclusion
/// height, shard 1's is fresh at every block.
fn mk_block(hash: u8, prev: u8, height: u64, shard0_included: u64) -> Block {
    let mut c0 = if shard0_included == 3 {
        prev_chunk_header()
    } else {
        mk_header(0, shard0_included, shard0_included)
    };
    c0.height_included = shard0_included;
    let c1 = mk_header(1, height, height);
    Block { hash: h(hash), prev_hash: h(prev), height, chunks: vec![c0, c1] }
}

/// The chain history both nodes read: heights 1 to 4 on two shards, with
/// new chunks for shard 0 at heights 1, 2 and 3, and height 4 inheriting
/// the chunk of height 3.
fn mk_store() -> ChainStore {
    let receipts_hash = compute_applied_receipts_hash(&applied_receipts());
    ChainStore {
        blocks: vec![
            mk_block(4, 3, 4, 3),
            mk_block(3, 2, 3, 3),
            mk_block(2, 1, 2, 2),
            mk_block(1, 0, 1, 1),
        ],
        chunk_extras: vec![
            (h(3), 100, extra_with_root(h(0xA3))),
            (h(4), 100, extra_with_root(h(0xA4))),
        ],
        transition_data: vec![
            (
                h(3),
                0,
                StoredChunkStateTransitionData {
                    base_state: vec![b"trie-node-main".to_vec()],
                    receipts_hash,
                },
            ),
            (
                h(4),
                0,
                StoredChunkStateTransitionData {
                    base_state: vec![b"trie-node-implicit".to_vec()],
                    receipts_hash: h(0),
                },
            ),
        ],
        incoming_receipts: vec![(h(3), 0, applied_receipts())],
        chunks: vec![
            (h(0x30), ShardChunk { header: prev_chunk_header(), transactions: witness_transactions() }),
        ],
    }
}

fn extra_with_root(root: Vec<u8>) -> chunk_validation::types::ChunkExtra {
    chunk_validation::types::ChunkExtra {
        state_root: root,
        outcome_root: h(0),
        validator_proposals: vec![],
        gas_used: 0,
        gas_limit: GAS_LIMIT,
        balance_burnt: 0,
    }
}

fn mk_epoch_info(protocol_version: u64) -> EpochInfo {
    EpochInfo {
        protocol_version,
        shard_layout: layout(),
        shard_uids: vec![100, 101],
        chunk_validators: vec![(0, 5, vec![11, 22])],
        block_producers: vec![(5, 33)],
    }
}

/// The chunk proposed at height 5 on shard 0, committing to the replay of
/// the chunk of height 3 and the implicit transition at height 4.
fn proposed_chunk() -> ShardChunk {
    let outcome_root = merkle_root(&outcomes());
    let outgoing_root = compute_outgoing_receipts_root(&outgoing_receipts(), &layout());
    let mut header = mk_header(0, 5, 5);
    header.prev_block_hash = h(4);
    header.chunk_hash = h(0x50);
    header.prev_state_root = h(0xA4);
    header.prev_outcome_root = outcome_root;
    header.prev_outgoing_receipts_root = outgoing_root;
    header.prev_gas_used = GAS_USED;
    header.prev_balance_burnt = BALANCE_BURNT;
    header.prev_validator_proposals = proposals();
    ShardChunk { header, transactions: vec![b"new-tx".to_vec()] }
}

fn mk_client(signer: Option<u64>, protocol_version: u64) -> Client {
    Client {
        chunk_validator: ChunkValidator::new(signer, mk_epoch_info(protocol_version)),
        chain_store: mk_store(),
        epoch_info: mk_epoch_info(protocol_version),
    }
}

fn build_witness(client: &Client) -> (ChunkStateWitness, Vec<u64>) {
    client
        .send_chunk_state_witness_to_chunk_validators(&prev_chunk_header(), &proposed_chunk())
        .unwrap()
        .unwrap()
}

fn main_apply_result() -> ApplyChunkResult {
    ApplyChunkResult {
        new_root: h(0xA3),
        outcomes: outcomes(),
        outgoing_receipts: outgoing_receipts(),
        validator_proposals: proposals(),
        total_gas_burnt: GAS_USED,
        total_balance_burnt: BALANCE_BURNT,
    }
}

#[test]
fn test_witness_round_trip() {
    let client = mk_client(Some(11), 84);
    let (witness, validators) = build_witness(&client);
    assert_eq!(validators, vec![11, 22]);
    assert_eq!(witness.implicit_transitions.len(), 1);
    assert!(bytes_eq(&witness.main_state_transition.block_hash, &h(3)));
    assert!(bytes_eq(&witness.implicit_transitions[0].block_hash, &h(4)));
    assert!(bytes_eq(&witness.main_state_transition.post_state_root, &h(0xA3)));

    let pending = client.process_chunk_state_witness(witness).unwrap();
    assert_eq!(pending.block_producer, 33);
    assert_eq!(pending.signer_account, 11);
    assert_eq!(pending.pre_validation_output.implicit_transition_params.len(), 1);

    let verdict = validate_chunk_state_witness(
        &pending.state_witness,
        &pending.pre_validation_output,
        main_apply_result(),
        &vec![h(0xA4)],
        &layout(),
    );
    assert_eq!(verdict, Ok(()));

    let endorsement = make_chunk_endorsement(
        &pending.state_witness.chunk_header.chunk_hash,
        pending.signer_account,
        b"signature".to_vec(),
    );
    assert!(bytes_eq(&endorsement.inner.chunk_hash, &h(0x50)));
    assert_eq!(endorsement.account_id, 11);
}

#[test]
fn test_corrupted_receipts_hash() {
    let client = mk_client(Some(11), 84);
    let (mut witness, _) = build_witness(&client);
    witness.applied_receipts_hash[0] ^= 0xFF;
    let r = pre_validate_chunk_state_witness(&witness, &client.chain_store);
    assert_eq!(
        r.err(),
        Some(Error::InvalidChunkStateWitness(WitnessFault::ReceiptsHash))
    );
}

#[test]
fn test_corrupted_transactions() {
    let client = mk_client(Some(11), 84);
    let (mut witness, _) = build_witness(&client);
    witness.transactions[0][0] ^= 0xFF;
    let r = pre_validate_chunk_state_witness(&witness, &client.chain_store);
    assert_eq!(r.err(), Some(Error::InvalidChunkStateWitness(WitnessFault::TxRoot)));
}

#[test]
fn test_corrupted_main_post_state_root() {
    let client = mk_client(Some(11), 84);
    let (mut witness, _) = build_witness(&client);
    let pre = pre_validate_chunk_state_witness(&witness, &client.chain_store).unwrap();
    witness.main_state_transition.post_state_root[5] ^= 0x01;
    let r = validate_chunk_state_witness(
        &witness,
        &pre,
        main_apply_result(),
        &vec![h(0xA4)],
        &layout(),
    );
    assert_eq!(
        r,
        Err(Error::InvalidChunkStateWitness(WitnessFault::MainPostStateRoot))
    );
}

#[test]
fn test_corrupted_implicit_root() {
    let client = mk_client(Some(11), 84);
    let (mut witness, _) = build_witness(&client);
    let pre = pre_validate_chunk_state_witness(&witness, &client.chain_store).unwrap();
    witness.implicit_transitions[0].post_state_root[7] ^= 0x01;
    let r = validate_chunk_state_witness(
        &witness,
        &pre,
        main_apply_result(),
        &vec![h(0xA4)],
        &layout(),
    );
    assert_eq!(
        r,
        Err(Error::InvalidChunkStateWitness(WitnessFault::ImplicitPostStateRoot(0)))
    );
}

#[test]
fn test_chunk_extra_mismatch() {
    let client = mk_client(Some(11), 84);
    let (mut witness, _) = build_witness(&client);
    let pre = pre_validate_chunk_state_witness(&witness, &client.chain_store).unwrap();
    witness.chunk_header.prev_gas_used += 1;
    let r = validate_chunk_state_witness(
        &witness,
        &pre,
        main_apply_result(),
        &vec![h(0xA4)],
        &layout(),
    );
    assert_eq!(
        r,
        Err(Error::InvalidChunkStateWitness(WitnessFault::ChunkExtraMismatch))
    );
}

#[test]
fn test_non_committee_node() {
    let client = mk_client(Some(77), 84);
    let (witness, _) = build_witness(&client);
    let r = client.process_chunk_state_witness(witness);
    assert_eq!(r.err(), Some(Error::NotAChunkValidator));
}

#[test]
fn test_node_without_signer() {
    let client = mk_client(None, 84);
    let (witness, _) = build_witness(&client);
    let r = client.process_chunk_state_witness(witness);
    assert_eq!(r.err(), Some(Error::NotAValidator));
}

#[test]
fn test_genesis_boundary() {
    let client = mk_client(Some(11), 84);
    let mut prev = prev_chunk_header();
    prev.prev_block_hash = zero_hash();
    assert!(is_zero_hash(&prev.prev_block_hash));
    let r = client.send_chunk_state_witness_to_chunk_validators(&prev, &proposed_chunk());
    assert!(matches!(r, Ok(None)));
}

#[test]
fn test_feature_disabled() {
    let client = mk_client(Some(11), 83);
    let r = client
        .send_chunk_state_witness_to_chunk_validators(&prev_chunk_header(), &proposed_chunk());
    assert!(matches!(r, Ok(None)));
}

#[test]
fn test_empty_implicit_window() {
    // A chunk proposed at height 4 whose parent block included the previous
    // new chunk: the main transition alone determines the result.
    let client = mk_client(Some(11), 84);
    let mut chunk = proposed_chunk();
    chunk.header.height_created = 4;
    chunk.header.prev_block_hash = h(3);
    chunk.header.prev_state_root = h(0xA3);
    let epoch = {
        let mut e = mk_epoch_info(84);
        e.chunk_validators = vec![(0, 4, vec![11])];
        e.block_producers = vec![(4, 33)];
        e
    };
    let client = Client {
        chunk_validator: ChunkValidator::new(Some(11), {
            let mut e = mk_epoch_info(84);
            e.chunk_validators = vec![(0, 4, vec![11])];
            e.block_producers = vec![(4, 33)];
            e
        }),
        chain_store: client.chain_store,
        epoch_info: epoch,
    };
    let (witness, _) = client
        .send_chunk_state_witness_to_chunk_validators(&prev_chunk_header(), &chunk)
        .unwrap()
        .unwrap();
    assert_eq!(witness.implicit_transitions.len(), 0);
    let pending = client.process_chunk_state_witness(witness).unwrap();
    let r = validate_chunk_state_witness(
        &pending.state_witness,
        &pending.pre_validation_output,
        main_apply_result(),
        &vec![],
        &layout(),
    );
    assert_eq!(r, Ok(()));
}

#[test]
fn test_forked_heads_replay_independently() {
    // A fork at height 4: each head's witness replays to the state root of
    // its own branch.
    let mut store = mk_store();
    let mut fork_block = mk_block(0x44, 3, 4, 3);
    fork_block.hash = h(0x44);
    store.blocks.insert(0, fork_block);
    store.chunk_extras.push((h(0x44), 100, extra_with_root(h(0xB4))));
    store.transition_data.push((
        h(0x44),
        0,
        StoredChunkStateTransitionData {
            base_state: vec![b"trie-node-fork".to_vec()],
            receipts_hash: h(0),
        },
    ));
    let client = Client {
        chunk_validator: ChunkValidator::new(Some(11), mk_epoch_info(84)),
        chain_store: store,
        epoch_info: mk_epoch_info(84),
    };

    let (witness_main, _) = client
        .send_chunk_state_witness_to_chunk_validators(&prev_chunk_header(), &proposed_chunk())
        .unwrap()
        .unwrap();
    assert!(bytes_eq(&witness_main.implicit_transitions[0].post_state_root, &h(0xA4)));

    let mut fork_chunk = proposed_chunk();
    fork_chunk.header.prev_block_hash = h(0x44);
    fork_chunk.header.prev_state_root = h(0xB4);
    let (witness_fork, _) = client
        .send_chunk_state_witness_to_chunk_validators(&prev_chunk_header(), &fork_chunk)
        .unwrap()
        .unwrap();
    assert!(bytes_eq(&witness_fork.implicit_transitions[0].post_state_root, &h(0xB4)));

    let pre_main = pre_validate_chunk_state_witness(&witness_main, &client.chain_store).unwrap();
    let pre_fork = pre_validate_chunk_state_witness(&witness_fork, &client.chain_store).unwrap();
    assert_eq!(
        validate_chunk_state_witness(
            &witness_main,
            &pre_main,
            main_apply_result(),
            &vec![h(0xA4)],
            &layout(),
        ),
        Ok(())
    );
    assert_eq!(
        validate_chunk_state_witness(
            &witness_fork,
            &pre_fork,
            main_apply_result(),
            &vec![h(0xB4)],
            &layout(),
        ),
        Ok(())
    );
}

#[test]
fn test_replay_is_deterministic() {
    let client = mk_client(Some(11), 84);
    let (witness, _) = build_witness(&client);
    let pre = pre_validate_chunk_state_witness(&witness, &client.chain_store).unwrap();
    let mut verdicts = Vec::new();
    for _ in 0..3 {
        verdicts.push(validate_chunk_state_witness(
            &witness,
            &pre,
            main_apply_result(),
            &vec![h(0xA4)],
            &layout(),
        ));
    }
    assert_eq!(verdicts, vec![Ok(()), Ok(()), Ok(())]);
}

#[test]
fn test_missing_state_proof() {
    let mut client = mk_client(Some(11), 84);
    client.chain_store.transition_data.remove(0);
    let r = client
        .send_chunk_state_witness_to_chunk_validators(&prev_chunk_header(), &proposed_chunk());
    assert_eq!(r.err(), Some(Error::MissingStateProof));
}

#[test]
fn test_unknown_prev_block() {
    let client = mk_client(Some(11), 84);
    let (mut witness, _) = build_witness(&client);
    witness.chunk_header.prev_block_hash = h(0x99);
    let r = pre_validate_chunk_state_witness(&witness, &client.chain_store);
    assert_eq!(r.err(), Some(Error::ChainAccess));
}

#[test]
fn test_missing_shard() {
    let client = mk_client(Some(11), 84);
    let (mut witness, _) = build_witness(&client);
    witness.chunk_header.shard_id = 5;
    let r = pre_validate_chunk_state_witness(&witness, &client.chain_store);
    assert_eq!(
        r.err(),
        Some(Error::InvalidChunkStateWitness(WitnessFault::MissingShard))
    );
}

#[test]
fn test_merkle_root_values() {
    // Empty list: the all-zero hash.
    assert_eq!(merkle_root(&vec![]), vec![0u8; 32]);
    // One blob: its digest.
    let a = b"blob-a".to_vec();
    let b = b"blob-b".to_vec();
    let c = b"blob-c".to_vec();
    assert_eq!(merkle_root(&vec![a.clone()]), sha2_of(b"blob-a"));
    // Two blobs: the digest of the two leaf digests.
    let ha = sha2_of(&a);
    let hb = sha2_of(&b);
    let hc = sha2_of(&c);
    let mut ab = ha.clone();
    ab.extend_from_slice(&hb);
    assert_eq!(merkle_root(&vec![a.clone(), b.clone()]), sha2_of(&ab));
    // Three blobs: the odd leaf is promoted one level.
    let hab = sha2_of(&ab);
    let mut abc = hab.clone();
    abc.extend_from_slice(&hc);
    assert_eq!(merkle_root(&vec![a, b, c]), sha2_of(&abc));
}

#[test]
fn test_applied_receipts_hash_matches_borsh_and_sha2() {
    // The commitment is the SHA-256 digest of the borsh serialization of
    // the encoded receipts; recompute it here from the outside crates.
    let rs = applied_receipts();
    let mut encoded: Vec<Vec<u8>> = Vec::new();
    for r in &rs {
        let mut e = r.receiver.to_le_bytes().to_vec();
        e.extend_from_slice(&r.payload);
        encoded.push(e);
    }
    let framed = borsh::to_vec(&encoded).unwrap();
    assert_eq!(compute_applied_receipts_hash(&rs), sha2_of(&framed));
}

#[test]
fn test_account_shard_boundaries() {
    let layout = ShardLayout { boundary_accounts: vec![3, 7] };
    assert_eq!(account_shard(&layout, 0), 0);
    assert_eq!(account_shard(&layout, 2), 0);
    assert_eq!(account_shard(&layout, 3), 1);
    assert_eq!(account_shard(&layout, 6), 1);
    assert_eq!(account_shard(&layout, 7), 2);
    assert_eq!(account_shard(&layout, 100), 2);
}

#[test]
fn test_process_chunk_endorsement_is_noop() {
    let client = mk_client(Some(11), 84);
    let endorsement = make_chunk_endorsement(&h(0x50), 22, b"sig".to_vec());
    assert_eq!(client.process_chunk_endorsement(endorsement), Ok(()));
}
