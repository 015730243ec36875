use rips::core_types::WalletAddress;
use rips::governance::{
    Delegation, GovernanceEngine, GovernanceError, NodeReputation, ProposalStatus, ProposalType,
    RiskLevel, SophiaDecision,
};

#[test]
fn test_create_proposal() {
    let mut engine = GovernanceEngine::new(8_388_608);
    let wallet = WalletAddress::new("RTC1TestWallet");

    let proposal = engine.create_proposal(
        "Test Proposal".to_string(),
        "A test proposal".to_string(),
        ProposalType::Community,
        wallet,
        None,
    );

    assert_eq!(proposal.id, "RCP-0001");
    assert_eq!(proposal.status, ProposalStatus::Submitted);
}

#[test]
fn test_sophia_veto() {
    let mut engine = GovernanceEngine::new(8_388_608);
    let wallet = WalletAddress::new("RTC1TestWallet");

    engine.create_proposal(
        "Bad Proposal".to_string(),
        "This should be vetoed".to_string(),
        ProposalType::MonetaryPolicy,
        wallet,
        None,
    );

    engine
        .sophia_evaluate(
            "RCP-0001",
            SophiaDecision::Veto,
            "This proposal is harmful".to_string(),
            1_000,
            RiskLevel::High,
        )
        .unwrap();

    let proposal = engine.get_proposal("RCP-0001").unwrap();
    assert_eq!(proposal.status, ProposalStatus::Vetoed);
}

#[test]
fn test_voting() {
    let mut engine = GovernanceEngine::new(8_388_608);
    let proposer = WalletAddress::new("RTC1Proposer");
    let voter = WalletAddress::new("RTC1Voter");

    engine.create_proposal(
        "Good Proposal".to_string(),
        "This should pass".to_string(),
        ProposalType::Community,
        proposer,
        None,
    );

    engine
        .sophia_evaluate(
            "RCP-0001",
            SophiaDecision::Endorse,
            "This proposal benefits the community".to_string(),
            9_000,
            RiskLevel::Low,
        )
        .unwrap();

    engine.vote("RCP-0001", voter, true, 1000).unwrap();

    let proposal = engine.get_proposal("RCP-0001").unwrap();
    assert_eq!(proposal.yes_votes(), 1100);
}

#[test]
fn proposal_ids_are_numbered() {
    let mut engine = GovernanceEngine::new(100);
    for _ in 0..11 {
        engine.create_proposal_at(
            "t".to_string(),
            "d".to_string(),
            ProposalType::ParameterChange,
            WalletAddress::new("RTC1P"),
            None,
            0,
        );
    }
    assert!(engine.get_proposal("RCP-0011").is_some());
    assert!(engine.get_proposal("RCP-0012").is_none());
    assert_eq!(engine.get_all_proposals().len(), 11);
}

#[test]
fn voting_rules_and_outcome() {
    let mut engine = GovernanceEngine::new(1_000);
    engine.create_proposal_at(
        "t".to_string(),
        "d".to_string(),
        ProposalType::Community,
        WalletAddress::new("RTC1P"),
        None,
        0,
    );
    assert!(matches!(
        engine.vote_at("RCP-0001", WalletAddress::new("RTC1A"), true, 10, 1),
        Err(GovernanceError::NotInVotingPhase)
    ));
    assert!(matches!(
        engine.vote_at("RCP-0404", WalletAddress::new("RTC1A"), true, 10, 1),
        Err(GovernanceError::ProposalNotFound)
    ));
    engine
        .sophia_evaluate_at("RCP-0001", SophiaDecision::Analyze, "ok".to_string(), 5_000, RiskLevel::Medium, 100)
        .unwrap();
    assert_eq!(engine.get_active_proposals().len(), 1);
    // the proposer has 51 points: 300 * (1 + 0.2 * 0.51) = 330.6
    let w = engine.vote_at("RCP-0001", WalletAddress::new("RTC1P"), true, 300, 200).unwrap().weight;
    assert_eq!(w, 330);
    assert!(matches!(
        engine.vote_at("RCP-0001", WalletAddress::new("RTC1P"), false, 1, 201),
        Err(GovernanceError::AlreadyVoted)
    ));
    assert!(matches!(
        engine.vote_at("RCP-0001", WalletAddress::new("RTC1B"), false, 1, 100 + 604_801),
        Err(GovernanceError::VotingPeriodEnded)
    ));
    assert_eq!(engine.finalize_proposal_at("RCP-0001", 300).unwrap(), ProposalStatus::Voting);
    assert_eq!(
        engine.finalize_proposal_at("RCP-0001", 100 + 604_800).unwrap(),
        ProposalStatus::Passed
    );
    let hash = engine.execute_proposal_at("RCP-0001", 9).unwrap();
    assert_eq!(hash.len(), 64);
    assert_eq!(engine.get_proposal("RCP-0001").unwrap().status, ProposalStatus::Executed);
    assert!(matches!(
        engine.execute_proposal_at("RCP-0001", 10),
        Err(GovernanceError::CannotExecute)
    ));
}

#[test]
fn quorum_rejects_thin_turnout() {
    let mut engine = GovernanceEngine::new(1_000_000);
    engine.create_proposal_at("t".to_string(), "d".to_string(), ProposalType::Community, WalletAddress::new("RTC1P"), None, 0);
    engine.sophia_evaluate_at("RCP-0001", SophiaDecision::Endorse, "ok".to_string(), 5_000, RiskLevel::Low, 0).unwrap();
    engine.vote_at("RCP-0001", WalletAddress::new("RTC1V"), true, 10, 1).unwrap();
    assert_eq!(engine.finalize_proposal_at("RCP-0001", 604_800).unwrap(), ProposalStatus::Rejected);
}

#[test]
fn delegations_add_weight() {
    let mut engine = GovernanceEngine::new(10);
    assert!(matches!(
        engine.delegate_voting_power_at(WalletAddress::new("A"), WalletAddress::new("B"), 10_001, None, 0),
        Err(GovernanceError::InvalidDelegationWeight)
    ));
    let d = engine
        .delegate_voting_power_at(WalletAddress::new("A"), WalletAddress::new("RTC1V"), 5_000, Some(1), 0)
        .unwrap();
    assert_eq!(d.expires_at, Some(86_400));
    assert!(d.is_active(86_400));
    assert!(!d.is_active(86_401));
    engine.create_proposal_at("t".to_string(), "d".to_string(), ProposalType::Community, WalletAddress::new("RTC1P"), None, 0);
    engine.sophia_evaluate_at("RCP-0001", SophiaDecision::Endorse, "ok".to_string(), 5_000, RiskLevel::Low, 0).unwrap();
    let v = engine.vote_at("RCP-0001", WalletAddress::new("RTC1V"), true, 100, 5).unwrap();
    assert_eq!(v.weight, 110 + 50);
}

#[test]
fn reputation_moves() {
    let mut rep = NodeReputation::new_at(WalletAddress::new("RTC1R"), 0);
    rep.record_participation_at("propose", 1);
    assert_eq!(rep.score, 5_100);
    rep.record_participation_at("lurk", 2);
    assert_eq!(rep.score, 5_100);
    assert_eq!(rep.participation_count, 2);
    rep.apply_decay(2);
    assert_eq!(rep.score, 4_602);
    rep.update_alignment(false);
    assert_eq!(rep.sophia_alignment, 0);
    rep.update_alignment(true);
    assert_eq!(rep.sophia_alignment, 1_000);
    let d = Delegation {
        from_wallet: WalletAddress::new("A"),
        to_wallet: WalletAddress::new("B"),
        weight: 1,
        created_at: 0,
        expires_at: None,
    };
    assert!(d.is_active(u64::MAX));
}

