use rips::core_types::WalletAddress;
use rips::nft_badges::{
    BadgeCriteriaChecker, BadgeId, BadgeMinter, BadgeSvgGenerator, BadgeTier, BadgeType, MintError,
    MinerStats,
};
use sha2::Digest;
use rips::nft_badges::architecture_badge;

#[test]
fn test_badge_tier_colors() {
    assert_eq!(BadgeTier::Legendary.color(), "#FFD700");
    assert_eq!(BadgeTier::Epic.color(), "#9370DB");
}

#[test]
fn test_badge_id_generation() {
    let wallet = WalletAddress::new("RTC1TestWallet123");
    let id = BadgeId::generate(&BadgeType::GenesisMiner, &wallet, 50);
    assert!(id.0.starts_with("RTC-GEN-"));
}

#[test]
fn badge_id_hashes_owner_block_and_kind() {
    let wallet = WalletAddress::new("RTC1TestWallet123");
    let kind = BadgeType::EventParticipant("Launch".to_string());
    let id = BadgeId::generate(&kind, &wallet, 7);
    let mut hasher = sha2::Sha256::new();
    hasher.update(wallet.0.as_bytes());
    hasher.update(&7u64.to_le_bytes());
    hasher.update(format!("{:?}", kind).as_bytes());
    let hash = hasher.finalize();
    assert_eq!(id.0, format!("RTC-RTC-{}", hex::encode(&hash[..8])));
}

#[test]
fn badge_kinds_describe_themselves() {
    assert_eq!(BadgeType::GenesisMiner.name(), "Genesis Miner");
    assert_eq!(BadgeType::EventParticipant("Expo".to_string()).name(), "Event: Expo");
    assert_eq!(
        BadgeType::CompetitionWinner("Retro Cup".to_string()).description(),
        "Won the Retro Cup competition"
    );
    assert_eq!(BadgeType::AncientSiliconKeeper.tier(), BadgeTier::Epic);
    assert_eq!(BadgeType::AncientSiliconKeeper.tier().stars(), 4);
    assert_eq!(BadgeType::Flamekeeper.icon(), "🔥");
    assert_eq!(BadgeType::BlockLegion.prefix(), "BL1");
    assert_eq!(BadgeType::Motorolan.tag(), "Motorolan");
}

#[test]
fn checker_knows_the_founders() {
    let checker = BadgeCriteriaChecker::new();
    assert_eq!(checker.genesis_cutoff_block, 100);
    assert_eq!(checker.flamekeepers.len(), 4);
    assert_eq!(checker.flamekeepers[0].0, "RTC1FlamekeeperScottEternalGuardian0x00");
}

fn stats(wallet: &str, architecture: &str) -> MinerStats {
    MinerStats {
        wallet: WalletAddress::new(wallet),
        first_seen_block: 50,
        blocks_mined: 150,
        rtc_earned: 500 * 100_000_000,
        consecutive_days: 45,
        hardware_age_years: 28,
        hardware_model: "PowerPC G4".to_string(),
        architecture: architecture.to_string(),
        helped_miners_count: 5,
    }
}

#[test]
fn test_criteria_checker() {
    let checker = BadgeCriteriaChecker::new();

    let stats = MinerStats {
        wallet: WalletAddress::new("RTC1TestMiner123"),
        first_seen_block: 50,
        blocks_mined: 150,
        rtc_earned: 500 * 100_000_000,
        consecutive_days: 45,
        hardware_age_years: 28,
        hardware_model: "PowerPC G4".to_string(),
        architecture: "powerpc".to_string(),
        helped_miners_count: 5,
    };

    let badges = checker.check_all_badges(&stats);

    assert!(badges.contains(&BadgeType::GenesisMiner));
    assert!(badges.contains(&BadgeType::SacredSiliconGuardian));
    assert!(badges.contains(&BadgeType::BlockCenturion));
    assert!(badges.contains(&BadgeType::DedicationMedal));
    assert!(badges.contains(&BadgeType::PowerPCPioneer));
}

#[test]
fn test_badge_minting() {
    let mut minter = BadgeMinter::new();
    let wallet = WalletAddress::new("RTC1TestMiner123");

    let result1 = minter.mint_badge(BadgeType::GenesisMiner, wallet.clone(), 50, 1700000000);
    assert!(result1.is_ok());

    let result2 = minter.mint_badge(BadgeType::GenesisMiner, wallet.clone(), 60, 1700000100);
    assert!(matches!(result2, Err(MintError::AlreadyMinted(_))));
}

#[test]
fn badges_in_checking_order() {
    let checker = BadgeCriteriaChecker::new();
    let mut s = stats("RTC1FlamekeeperScottEternalGuardian0x00", "Motorola M68K");
    s.first_seen_block = 0;
    s.hardware_age_years = 36;
    s.blocks_mined = 10_000;
    s.rtc_earned = 10_000 * 100_000_000;
    s.consecutive_days = 365;
    s.helped_miners_count = 10;
    assert_eq!(
        checker.check_all_badges(&s),
        vec![
            BadgeType::GenesisMiner,
            BadgeType::FirstBlock,
            BadgeType::Flamekeeper,
            BadgeType::AncientSiliconKeeper,
            BadgeType::MuseumPiece,
            BadgeType::BlockImmortal,
            BadgeType::RTCBillionaire,
            BadgeType::YearOfAntiquity,
            BadgeType::CommunityBuilder,
            BadgeType::Motorolan,
        ]
    );
    let mut plain = stats("RTC1Nobody", "x86");
    plain.first_seen_block = 500;
    plain.hardware_age_years = 3;
    plain.blocks_mined = 0;
    plain.consecutive_days = 0;
    assert!(checker.check_all_badges(&plain).is_empty());
    assert_eq!(checker.check_all_badges(&stats("RTC1A", "DEC Alpha"))[4], BadgeType::AlphaDreamer);
}

#[test]
fn minting_per_wallet_and_kind() {
    let mut minter = BadgeMinter::new();
    let a = WalletAddress::new("RTC1A");
    let b = WalletAddress::new("RTC1B");
    let first = minter.mint_badge(BadgeType::EventParticipant("Expo".to_string()), a.clone(), 1, 2).unwrap();
    assert!(minter.mint_badge(BadgeType::EventParticipant("Fair".to_string()), a.clone(), 1, 2).is_ok());
    assert!(minter.mint_badge(BadgeType::EventParticipant("Expo".to_string()), b.clone(), 1, 2).is_ok());
    match minter.mint_badge(BadgeType::EventParticipant("Expo".to_string()), a.clone(), 9, 9) {
        Err(MintError::AlreadyMinted(id)) => assert_eq!(id, first.id),
        _ => panic!("expected AlreadyMinted"),
    }
    let text = format!("{}:RTC1A:EventParticipant(\"Expo\"):1", first.id.0);
    let expected: [u8; 32] = sha2::Sha256::digest(text.as_bytes()).into();
    assert_eq!(first.badge_hash, expected);
    let minted = minter.process_miner(&stats("RTC1C", "ppc"), 3, 4);
    assert_eq!(minted.len(), 5);
    assert!(minter.process_miner(&stats("RTC1C", "ppc"), 5, 6).is_empty());
}

#[test]
fn svg_shows_the_badge() {
    let mut minter = BadgeMinter::new();
    let badge = minter.mint_badge(BadgeType::Flamekeeper, WalletAddress::new("RTC1A"), 1, 2).unwrap();
    let svg = BadgeSvgGenerator::generate(&badge);
    assert!(svg.starts_with("<?xml"));
    assert!(svg.contains("stop-color:#FFD700"));
    assert!(svg.contains("Founding team member keeping the flame alive"));
    assert!(svg.contains(&"\u{2b50}".repeat(5)));
    assert!(!svg.contains(&"\u{2b50}".repeat(6)));
    assert!(svg.contains(&badge.id.0));
    assert!(svg.ends_with("</svg>"));
}

#[test]
fn architecture_badge_on_lowercase_text() {
    assert_eq!(architecture_badge("ultrasparc ii"), Some(BadgeType::SunWorshipper));
    assert_eq!(architecture_badge("mips r4000"), Some(BadgeType::MIPSMaster));
    assert_eq!(architecture_badge("PowerPC"), None);
    assert_eq!(architecture_badge("x86"), None);
}
