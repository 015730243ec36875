use rips::core_types::{BlockHash, HardwareInfo, HardwareTier, TokenAmount, WalletAddress};
use sha2::Digest;

#[test]
fn test_hardware_tier_from_age() {
    assert_eq!(HardwareTier::from_age(35), HardwareTier::Ancient);
    assert_eq!(HardwareTier::from_age(27), HardwareTier::Sacred);
    assert_eq!(HardwareTier::from_age(22), HardwareTier::Vintage);
    assert_eq!(HardwareTier::from_age(17), HardwareTier::Classic);
    assert_eq!(HardwareTier::from_age(12), HardwareTier::Retro);
    assert_eq!(HardwareTier::from_age(7), HardwareTier::Modern);
    assert_eq!(HardwareTier::from_age(2), HardwareTier::Recent);
}

#[test]
fn test_tier_multipliers() {
    assert_eq!(HardwareTier::Ancient.multiplier() as f64 / 100.0, 3.5);
    assert_eq!(HardwareTier::Recent.multiplier() as f64 / 100.0, 0.5);
}

#[test]
fn test_wallet_address_validation() {
    let valid = WalletAddress::new("RTC1FlamekeeperScottEternalGuardian0x00");
    assert!(valid.is_valid());

    let invalid = WalletAddress::new("BTC123");
    assert!(!invalid.is_valid());
}

#[test]
fn tier_boundaries_belong_to_older_tier() {
    assert_eq!(HardwareTier::from_age(30), HardwareTier::Ancient);
    assert_eq!(HardwareTier::from_age(29), HardwareTier::Sacred);
    assert_eq!(HardwareTier::from_age(25), HardwareTier::Sacred);
    assert_eq!(HardwareTier::from_age(20), HardwareTier::Vintage);
    assert_eq!(HardwareTier::from_age(15), HardwareTier::Classic);
    assert_eq!(HardwareTier::from_age(10), HardwareTier::Retro);
    assert_eq!(HardwareTier::from_age(5), HardwareTier::Modern);
    assert_eq!(HardwareTier::from_age(4), HardwareTier::Recent);
    assert_eq!(HardwareTier::from_age(0), HardwareTier::Recent);
    assert_eq!(HardwareTier::from_age(u32::MAX), HardwareTier::Ancient);
}

#[test]
fn multiplier_never_drops_with_age() {
    let mut last = 0;
    for age in 0..60u32 {
        let m = HardwareTier::from_age(age).multiplier();
        assert!(m >= last);
        last = m;
    }
    assert_eq!(HardwareTier::Vintage.multiplier(), 250);
}

#[test]
fn tier_names() {
    assert_eq!(HardwareTier::Ancient.name(), "Ancient Silicon");
    assert_eq!(HardwareTier::Recent.name(), "Recent Hardware");
}

#[test]
fn short_address_is_invalid() {
    assert!(!WalletAddress::new("RTC123").is_valid());
    assert!(WalletAddress::new("RTC45678901234567890").is_valid());
    assert!(!WalletAddress::new("RTC4567890123456789").is_valid());
}

#[test]
fn address_from_public_key() {
    let w = WalletAddress::from_public_key(b"my key");
    let digest = sha2::Sha256::digest(b"my key");
    let expected = format!("RTC{}", hex::encode(&digest[..20]));
    assert_eq!(w.0, expected);
    assert!(w.is_valid());
}

#[test]
fn block_hash_hex_and_genesis() {
    let h = BlockHash::from_bytes([0xab; 32]);
    assert_eq!(h.to_hex(), "ab".repeat(32));
    let mut hasher = sha2::Sha256::new();
    hasher.update(b"RustChain Genesis - Proof of Antiquity");
    hasher.update(b"Every vintage machine has quantum potential");
    let expected: [u8; 32] = hasher.finalize().into();
    assert_eq!(BlockHash::genesis().0, expected);
}

#[test]
fn founder_bonus_raises_multiplier() {
    let hw = HardwareInfo::new("G4".to_string(), "PowerPC".to_string(), 22);
    assert_eq!(hw.multiplier, 250);
    let raised = hw.with_founder_bonus();
    assert_eq!(raised.multiplier, 275);
}

#[test]
fn token_amount_checked_arithmetic() {
    assert_eq!(TokenAmount(5).checked_add(TokenAmount(7)), Some(TokenAmount(12)));
    assert_eq!(TokenAmount(u64::MAX).checked_add(TokenAmount(1)), None);
    assert_eq!(TokenAmount(7).checked_sub(TokenAmount(5)), Some(TokenAmount(2)));
    assert_eq!(TokenAmount(5).checked_sub(TokenAmount(7)), None);
}

#[test]
fn test_vintage_hardware_multiplier() {
    let hw = HardwareInfo::new("Intel 486 DX2-66".to_string(), "486".to_string(), 33);

    assert_eq!(hw.tier, HardwareTier::Ancient);
    assert_eq!(hw.multiplier as f64 / 100.0, 3.5);
}

#[test]
fn test_modern_hardware_penalty() {
    let hw = HardwareInfo::new("NVIDIA RTX 5090".to_string(), "Ada".to_string(), 0);

    assert_eq!(hw.tier, HardwareTier::Recent);
    assert_eq!(hw.multiplier as f64 / 100.0, 0.5);
}

#[test]
fn test_proof_of_antiquity_not_proof_of_work() {
    let ancient = HardwareInfo::new("486".to_string(), "x86".to_string(), 35);
    let modern = HardwareInfo::new("Threadripper".to_string(), "Zen4".to_string(), 1);

    assert!(ancient.multiplier > modern.multiplier * 6);
}
