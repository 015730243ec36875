use rips::core_types::{
    BlockMiner, CacheSizes, HardwareCharacteristics, HardwareInfo, HardwareTier, MiningProof,
    WalletAddress,
};
use rips::merkle::calculate_merkle_root;
use rips::proof_of_antiquity::{current_timestamp, ProofError, ProofOfAntiquity, BLOCK_REWARD};
use sha2::Digest;

fn proof_for(wallet: &str, model: &str, generation: &str, age: u32) -> MiningProof {
    MiningProof {
        wallet: WalletAddress::new(wallet),
        hardware: HardwareInfo::new(model.to_string(), generation.to_string(), age),
        anti_emulation_hash: [0u8; 32],
        timestamp: 0,
        nonce: 1,
    }
}

fn digest(data: &[u8]) -> [u8; 32] {
    sha2::Sha256::digest(data).into()
}

#[test]
fn test_poa_new_block() {
    let mut poa = ProofOfAntiquity::new();

    let proof = MiningProof {
        wallet: WalletAddress::new("RTC1TestMiner123456789"),
        hardware: HardwareInfo::new("PowerPC G4".to_string(), "G4".to_string(), 22),
        anti_emulation_hash: [0u8; 32],
        timestamp: current_timestamp(),
        nonce: 12345,
    };

    let result = poa.submit_proof(proof);
    assert!(result.is_ok());

    let status = poa.get_status();
    assert_eq!(status.pending_proofs, 1);
}

#[test]
fn test_tier_matching() {
    let mut poa = ProofOfAntiquity::new();

    let mut hardware = HardwareInfo::new("Test CPU".to_string(), "Test".to_string(), 22);
    hardware.tier = HardwareTier::Ancient;

    let proof = MiningProof {
        wallet: WalletAddress::new("RTC1TestMiner123456789"),
        hardware,
        anti_emulation_hash: [0u8; 32],
        timestamp: current_timestamp(),
        nonce: 12345,
    };

    let result = poa.submit_proof(proof);
    assert!(matches!(result, Err(ProofError::TierMismatch)));
}

#[test]
fn test_duplicate_submission() {
    let mut poa = ProofOfAntiquity::new();

    let wallet = WalletAddress::new("RTC1TestMiner123456789");

    let proof1 = MiningProof {
        wallet: wallet.clone(),
        hardware: HardwareInfo::new("CPU1".to_string(), "Gen1".to_string(), 15),
        anti_emulation_hash: [0u8; 32],
        timestamp: current_timestamp(),
        nonce: 1,
    };

    let proof2 = MiningProof {
        wallet,
        hardware: HardwareInfo::new("CPU2".to_string(), "Gen2".to_string(), 20),
        anti_emulation_hash: [0u8; 32],
        timestamp: current_timestamp(),
        nonce: 2,
    };

    assert!(poa.submit_proof(proof1).is_ok());
    assert!(matches!(poa.submit_proof(proof2), Err(ProofError::DuplicateSubmission)));
}

#[test]
fn rewards_split_by_multiplier_with_dust() {
    let mut poa = ProofOfAntiquity::new_at(1_000);
    let a = poa.submit_proof_at(proof_for("RTC1MinerAAAAAAAAAAAAAA", "PowerPC G4", "G4", 22), 1_010);
    assert_eq!(a.unwrap().your_multiplier, 250);
    let b = poa.submit_proof_at(proof_for("RTC1MinerBBBBBBBBBBBBBB", "Intel 386", "386", 35), 1_020);
    let b = b.unwrap();
    assert_eq!(b.your_multiplier, 350);
    assert_eq!(b.pending_miners, 2);
    assert_eq!(b.block_completes_in, 100);
    let status = poa.get_status_at(1_030);
    assert_eq!(status.total_multipliers, 600);
    assert_eq!(status.block_age, 30);
    assert_eq!(status.time_remaining, 90);

    let block = poa.process_block_at([7u8; 32], 5, 1_100).unwrap();
    assert_eq!(BLOCK_REWARD, 100_000_000);
    assert_eq!(block.miners.len(), 2);
    assert_eq!(block.miners[0].reward, 41_666_666);
    assert_eq!(block.miners[1].reward, 58_333_333);
    assert_eq!(block.total_reward, 99_999_999);
    assert_eq!(block.height, 5);
    assert_eq!(block.timestamp, 1_100);
    assert_eq!(block.previous_hash.0, [7u8; 32]);
    assert_eq!(block.state_root, [0u8; 32]);
    assert_eq!(poa.get_status_at(1_100).pending_proofs, 0);
}

#[test]
fn block_hash_covers_metadata() {
    let mut poa = ProofOfAntiquity::new_at(0);
    poa.submit_proof_at(proof_for("RTC1MinerAAAAAAAAAAAAAA", "PowerPC G4", "G4", 22), 1).unwrap();
    let block = poa.process_block_at([1u8; 32], 9, 60).unwrap();
    let text = format!("9:{}:100000000:60", hex::encode([1u8; 32]));
    assert_eq!(block.hash.0, digest(text.as_bytes()));
    let leaf = digest(b"RTC1MinerAAAAAAAAAAAAAA:250:100000000");
    assert_eq!(block.merkle_root, leaf);
}

#[test]
fn merkle_root_pairs_and_duplicates_last() {
    let miner = |w: &str, r: u64| BlockMiner {
        wallet: WalletAddress::new(w),
        hardware: "x".to_string(),
        multiplier: 100,
        reward: r,
    };
    let miners = vec![miner("RTC-a", 1), miner("RTC-b", 2), miner("RTC-c", 3)];
    let la = digest(b"RTC-a:100:1");
    let lb = digest(b"RTC-b:100:2");
    let lc = digest(b"RTC-c:100:3");
    let ab = digest(&[la, lb].concat());
    let cc = digest(&[lc, lc].concat());
    let root = digest(&[ab, cc].concat());
    assert_eq!(calculate_merkle_root(&miners), root);
    assert_eq!(calculate_merkle_root(&miners), calculate_merkle_root(&miners));
    let swapped = vec![miner("RTC-b", 2), miner("RTC-a", 1), miner("RTC-c", 3)];
    assert_ne!(calculate_merkle_root(&swapped), root);
    assert_eq!(calculate_merkle_root(&Vec::new()), [0u8; 32]);
}

#[test]
fn window_closes_after_120_seconds() {
    let mut poa = ProofOfAntiquity::new_at(5_000);
    let r = poa.submit_proof_at(proof_for("RTC1TestMiner123456789", "PowerPC G4", "G4", 22), 5_121);
    assert!(matches!(r, Err(ProofError::BlockWindowClosed)));
    let r = poa.submit_proof_at(proof_for("RTC1TestMiner123456789", "PowerPC G4", "G4", 22), 5_120);
    assert!(matches!(r, Err(ProofError::BlockWindowClosed)));
    let r = poa.submit_proof_at(proof_for("RTC1TestMiner123456789", "PowerPC G4", "G4", 22), 5_119);
    assert_eq!(r.unwrap().block_completes_in, 1);
}

#[test]
fn same_wallet_twice_one_acceptance_one_duplicate() {
    let mut poa = ProofOfAntiquity::new_at(0);
    let first = poa.submit_proof_at(proof_for("RTC1SameWallet000000000", "A", "a", 12), 3);
    let second = poa.submit_proof_at(proof_for("RTC1SameWallet000000000", "B", "b", 17), 4);
    assert!(first.is_ok());
    assert!(matches!(second, Err(ProofError::DuplicateSubmission)));
    assert_eq!(poa.get_status_at(4).pending_proofs, 1);
}

#[test]
fn implausible_hardware_is_rejected() {
    let mut poa = ProofOfAntiquity::new_at(0);
    let r = poa.submit_proof_at(proof_for("RTC1Wallet000000000001", "Old", "o", 51), 1);
    assert!(matches!(r, Err(ProofError::SuspiciousAge)));

    let mut p = proof_for("RTC1Wallet000000000002", "CPU", "c", 22);
    p.hardware.multiplier = 5;
    assert!(matches!(poa.submit_proof_at(p, 1), Err(ProofError::InvalidMultiplier)));

    let mut p = proof_for("RTC1Wallet000000000003", "CPU", "c", 22);
    p.hardware.multiplier = 401;
    assert!(matches!(poa.submit_proof_at(p, 1), Err(ProofError::InvalidMultiplier)));

    let mut p = proof_for("RTC1Wallet000000000004", "CPU", "c", 22);
    p.hardware.multiplier = 271;
    assert!(matches!(poa.submit_proof_at(p, 1), Err(ProofError::InvalidMultiplier)));

    let mut p = proof_for("RTC1Wallet000000000005", "CPU", "c", 22);
    p.hardware.multiplier = 270;
    assert_eq!(poa.submit_proof_at(p, 1).unwrap().your_multiplier, 270);
}

#[test]
fn multiplier_capped_at_ancient() {
    let mut poa = ProofOfAntiquity::new_at(0);
    let mut p = proof_for("RTC1Wallet000000000006", "386", "x86", 40);
    p.hardware.multiplier = 370;
    assert_eq!(poa.submit_proof_at(p, 1).unwrap().your_multiplier, 350);
}

#[test]
fn hardware_cannot_move_between_wallets() {
    let mut poa = ProofOfAntiquity::new_at(0);
    poa.submit_proof_at(proof_for("RTC1OwnerWallet00000000", "G4", "ppc", 22), 1).unwrap();
    poa.process_block_at([0u8; 32], 1, 10).unwrap();
    let r = poa.submit_proof_at(proof_for("RTC1OtherWallet0000000", "G4", "ppc", 22), 11);
    match r {
        Err(ProofError::HardwareAlreadyRegistered(w)) => {
            assert_eq!(w.0, "RTC1OwnerWallet00000000")
        }
        _ => panic!("expected HardwareAlreadyRegistered"),
    }
    assert!(poa.submit_proof_at(proof_for("RTC1OwnerWallet00000000", "G4", "ppc", 22), 12).is_ok());
}

#[test]
fn block_full_after_one_hundred() {
    let mut poa = ProofOfAntiquity::new_at(0);
    for i in 0..100 {
        let w = format!("RTC1Miner{:014}", i);
        let m = format!("CPU{}", i);
        assert!(poa.submit_proof_at(proof_for(&w, &m, "g", 20), 1).is_ok());
    }
    let r = poa.submit_proof_at(proof_for("RTC1OneTooMany00000000", "Last", "g", 20), 1);
    assert!(matches!(r, Err(ProofError::BlockFull)));
    let block = poa.process_block_at([0u8; 32], 2, 2).unwrap();
    assert_eq!(block.miners.len(), 100);
    assert_eq!(block.total_reward, 100_000_000);
}

#[test]
fn empty_window_seals_nothing() {
    let mut poa = ProofOfAntiquity::new_at(0);
    assert!(poa.process_block_at([0u8; 32], 1, 500).is_none());
    let r = poa.submit_proof_at(proof_for("RTC1LateMiner000000000", "G4", "ppc", 22), 600);
    assert!(r.is_ok());
}

#[test]
fn characteristics_are_checked() {
    let mut poa = ProofOfAntiquity::new_at(0);
    let chars = |family: u32, l1: u32, flags: &[&str]| HardwareCharacteristics {
        cpu_model: "Intel 486".to_string(),
        cpu_family: family,
        cpu_flags: flags.iter().map(|f| f.to_string()).collect(),
        cache_sizes: CacheSizes { l1_data: l1, l1_instruction: 8, l2: 256, l3: None },
        instruction_timings: Vec::new(),
        unique_id: "serial-1".to_string(),
    };
    let mut p = proof_for("RTC1Wallet486000000000", "486", "x86", 33);
    p.hardware.characteristics = Some(chars(4, 32, &["fpu"]));
    match poa.submit_proof_at(p, 1) {
        Err(ProofError::SuspiciousHardware(m)) => assert_eq!(m, "L1 cache size mismatch"),
        _ => panic!("expected a cache mismatch"),
    }
    let mut p = proof_for("RTC1Wallet486000000000", "486", "x86", 33);
    p.hardware.characteristics = Some(chars(4, 8, &["vme"]));
    match poa.submit_proof_at(p, 1) {
        Err(ProofError::SuspiciousHardware(m)) => assert_eq!(m, "Missing expected CPU flags"),
        _ => panic!("expected missing flags"),
    }
    let mut p = proof_for("RTC1Wallet486000000000", "486", "x86", 33);
    p.hardware.characteristics = Some(chars(4, 8, &["fpu", "vme"]));
    assert!(poa.submit_proof_at(p, 1).is_ok());
    let mut p = proof_for("RTC1WalletUnknown00000", "Odd", "x", 33);
    p.hardware.characteristics = Some(chars(99, 1, &[]));
    assert!(poa.submit_proof_at(p, 1).is_ok());
}
