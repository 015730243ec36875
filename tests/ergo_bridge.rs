use rips::core_types::WalletAddress;
use rips::ergo_bridge::{
    badge_mint_contract, bridge_contract, governance_vote_contract, mining_reward_contract,
    timelock_contract, Box,
    BlockHeader, ErgoTransaction, SpendingProof, StateContext, Token, TransactionInput, UtxoSet,
};
use sha2::Digest;
use rips::core_types::{Block, BlockHash, BlockMiner, HardwareInfo};
use rips::ergo_bridge::{rustchain_block_to_ergo, ErgoCompatible, RegisterValue};
use rips::proof_of_antiquity::{hash_hardware, ValidatedProof};

#[test]
fn test_utxo_set() {
    let mut utxo_set = UtxoSet::new();

    let wallet = WalletAddress::new("RTC1TestWallet");
    let b = Box::new(1_000_000_000, Box::wallet_to_ergo_tree(&wallet), 100, Vec::new());

    utxo_set.add_box(b.clone(), &wallet.0);

    assert_eq!(utxo_set.get_balance(&wallet.0), 1_000_000_000);

    utxo_set.spend_box(&b.box_id);
    assert_eq!(utxo_set.get_balance(&wallet.0), 0);
}

#[test]
fn test_contracts() {
    let pk = [0u8; 33];

    let reward = mining_reward_contract(pk, 25.0f64.to_bits());
    assert_eq!(reward[0], 0x01);

    let vote = governance_vote_contract("RCP-0001", 10000);
    assert_eq!(vote[0], 0x02);

    let badge = badge_mint_contract("pioneer", pk);
    assert_eq!(badge[0], 0x03);
}

#[test]
fn contract_layouts() {
    let pk = [7u8; 33];
    let vote = governance_vote_contract("RCP-0001", 10000);
    let mut expected = vec![0x02];
    expected.extend(b"RCP-0001");
    expected.extend(&10000u64.to_le_bytes());
    assert_eq!(vote, expected);
    let lock = timelock_contract(pk, 5);
    assert_eq!(lock.len(), 1 + 33 + 8);
    assert_eq!(lock[0], 0x04);
    assert_eq!(lock[34], 5);
    let reward = mining_reward_contract(pk, 25.0f64.to_bits());
    assert_eq!(reward.len(), 1 + 33 + 8);
    assert_eq!(&reward[34..], &25.0f64.to_le_bytes());
    let bridge = bridge_contract("RTC1", "9f", 1);
    assert_eq!(bridge, vec![0x05, b'R', b'T', b'C', b'1', 0, b'9', b'f', 1, 0, 0, 0, 0, 0, 0, 0]);
}

#[test]
fn box_id_hashes_contents() {
    let token = Token { token_id: [3u8; 32], amount: 9 };
    let b = Box::new(5, vec![1, 2], 8, vec![token]);
    let mut hasher = sha2::Sha256::new();
    hasher.update(&5u64.to_le_bytes());
    hasher.update(&[1u8, 2]);
    hasher.update(&8u64.to_le_bytes());
    hasher.update(&[3u8; 32]);
    hasher.update(&9u64.to_le_bytes());
    let expected: [u8; 32] = hasher.finalize().into();
    assert_eq!(b.box_id, expected);
    let tree = Box::wallet_to_ergo_tree(&WalletAddress::new("RTC9"));
    assert_eq!(tree, vec![0x00, 0x08, b'R', b'T', b'C', b'9']);
}

#[test]
fn utxo_balances_by_owner() {
    let mut set = UtxoSet::new();
    let a = Box::new(10, vec![1], 1, Vec::new());
    let b = Box::new(20, vec![2], 1, Vec::new());
    let c = Box::new(30, vec![3], 1, Vec::new());
    set.add_box(a.clone(), "alice");
    set.add_box(b.clone(), "bob");
    set.add_box(c.clone(), "alice");
    assert_eq!(set.get_balance("alice"), 40);
    assert_eq!(set.get_boxes_for_address("alice").len(), 2);
    assert_eq!(set.get_box(&b.box_id).unwrap().value, 20);
    assert!(set.spend_box(&b.box_id).is_some());
    assert!(set.get_box(&b.box_id).is_none());
    assert!(set.spend_box(&b.box_id).is_none());
    assert_eq!(set.get_balance("bob"), 0);
    assert_eq!(set.get_balance("carol"), 0);
}

#[test]
fn transaction_id_covers_inputs_and_outputs() {
    let out = Box::new(1, vec![9], 2, Vec::new());
    let input = TransactionInput {
        box_id: [4u8; 32],
        spending_proof: SpendingProof::Empty,
        extension: Vec::new(),
    };
    let tx = ErgoTransaction::new(vec![input], vec![out.clone()]);
    let mut hasher = sha2::Sha256::new();
    hasher.update(&[4u8; 32]);
    hasher.update(&out.box_id);
    let expected: [u8; 32] = hasher.finalize().into();
    assert_eq!(tx.id, expected);
    assert!(tx.data_inputs.is_empty());
}

#[test]
fn state_context_builders() {
    let header = BlockHeader {
        height: 3,
        id: [1u8; 32],
        parent_id: [0u8; 32],
        timestamp: 7,
        total_antiquity_score: 600,
    };
    let ctx = StateContext::at_height(3)
        .with_headers(vec![header])
        .with_self_box(Box::new(1, Vec::new(), 3, Vec::new()));
    assert_eq!(ctx.height, 3);
    assert_eq!(ctx.last_headers.len(), 1);
    assert_eq!(ctx.state_digest, [0u8; 32]);
    assert_eq!(ctx.self_box.unwrap().value, 1);
}

#[test]
fn box_ids_start_empty() {
    let b = Box::new(1, Vec::new(), 2, Vec::new());
    assert_eq!(b.transaction_id, [0u8; 32]);
    assert_eq!(b.index, 0);
}

#[test]
fn block_converts_to_ergo_form() {
    let miner = BlockMiner {
        wallet: WalletAddress::new("RTC1M"),
        hardware: "G4".to_string(),
        multiplier: 250,
        reward: 250_000_000,
    };
    let b = miner.to_ergo_box(9);
    assert_eq!(b.value, 2_000_000_000);
    assert_eq!(b.creation_height, 9);
    assert!(matches!(b.additional_registers[0].value, RegisterValue::Long(250)));
    let block = Block {
        height: 9,
        hash: BlockHash::from_bytes([1u8; 32]),
        previous_hash: BlockHash::from_bytes([2u8; 32]),
        timestamp: 77,
        miners: vec![miner.clone(), miner],
        total_reward: 500_000_000,
        merkle_root: [0u8; 32],
        state_root: [0u8; 32],
    };
    let (header, txs) = rustchain_block_to_ergo(&block);
    assert_eq!(header.id, [1u8; 32]);
    assert_eq!(header.parent_id, [2u8; 32]);
    assert_eq!(header.total_antiquity_score, 500);
    assert_eq!(txs.len(), 2);
    assert_eq!(txs[0].outputs[0].value, 2_000_000_000);
}

#[test]
fn mining_reward_transaction() {
    let hw = HardwareInfo::new("PowerPC G4".to_string(), "G4".to_string(), 22);
    let fp = hash_hardware(&hw);
    let proof = ValidatedProof {
        wallet: WalletAddress::new("RTC1M"),
        hardware: hw,
        multiplier: 250,
        anti_emulation_hash: [3u8; 32],
        validated_at: 0,
    };
    let tx = ErgoTransaction::mining_reward(&proof, 41_666_666, 5);
    assert_eq!(tx.outputs[0].value, 41_666_666);
    match &tx.inputs[0].spending_proof {
        SpendingProof::AntiquityProof { hardware_hash, antiquity_score, entropy_hash } => {
            assert_eq!(hardware_hash, &hex::encode(fp));
            assert_eq!(*antiquity_score, 250);
            assert_eq!(entropy_hash, &hex::encode([3u8; 32]));
        }
        _ => panic!("expected an antiquity proof"),
    }
}
