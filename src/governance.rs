//! Governance: proposals and their life cycle, Sophia's evaluations, votes
//! weighted by balance, reputation and delegation, and quorum outcomes.
use vstd::prelude::*;
use vstd::string::*;
use vstd::utf8::encode_utf8;
use crate::core_types::WalletAddress;
use crate::hashing::{append_bytes, decimal_bytes, decimal_of, hex_encode, hex_of, sha256, sha256_of};
use crate::proof_of_antiquity::current_timestamp;

verus! {

/// Voting period in seconds (one week).
pub const VOTING_PERIOD_SECONDS: u64 = 604_800;

/// Quorum, in percent of the total voting power.
pub const QUORUM_PERCENTAGE: u64 = 33;

/// Blocks between a proposal passing and its execution.
pub const EXECUTION_DELAY_BLOCKS: u64 = 3;

/// Weekly reputation decay, in percent.
pub const REPUTATION_DECAY_WEEKLY: u64 = 5;

#[derive(Debug, Clone, Copy, PartialEq, Eq, Structural)]
pub enum ProposalStatus {
    /// Initial draft state
    Draft,
    /// Submitted for review
    Submitted,
    /// Under Sophia AI review
    SophiaReview,
    /// Open for voting
    Voting,
    /// Passed by vote
    Passed,
    /// Rejected by vote or quorum failure
    Rejected,
    /// Vetoed by Sophia
    Vetoed,
    /// Successfully executed
    Executed,
    /// Expired without action
    Expired,
}

#[derive(Debug, Clone, Copy, PartialEq, Eq, Structural)]
pub enum ProposalType {
    /// Change blockchain parameters
    ParameterChange,
    /// Monetary policy updates
    MonetaryPolicy,
    /// Protocol upgrades
    ProtocolUpgrade,
    /// Validator set changes
    ValidatorChange,
    /// Smart contract deployment/updates
    SmartContract,
    /// Community initiatives
    Community,
}

#[derive(Debug, Clone, Copy, PartialEq, Eq, Structural)]
pub enum SophiaDecision {
    /// Awaiting evaluation
    Pending,
    /// Sophia endorses - boosts support probability
    Endorse,
    /// Sophia veto - locks the proposal
    Veto,
    /// Neutral analysis - logs public rationale
    Analyze,
}

#[derive(Debug, Clone)]
pub struct Vote {
    /// Voter's wallet address
    pub voter: WalletAddress,
    /// Support (true) or oppose (false)
    pub support: bool,
    /// Calculated vote weight
    pub weight: u64,
    /// Timestamp of vote
    pub timestamp: u64,
    /// Optional delegation source
    pub delegation_from: Option<WalletAddress>,
}

#[derive(Debug, Clone, Copy, PartialEq, Eq, Structural)]
pub enum RiskLevel {
    Low,
    Medium,
    High,
}

#[derive(Debug, Clone)]
pub enum GovernanceError {
    /// Proposal not found
    ProposalNotFound,
    /// Proposal not in voting phase
    NotInVotingPhase,
    /// Voting period has ended
    VotingPeriodEnded,
    /// Voter has already voted
    AlreadyVoted,
    /// Cannot execute proposal
    CannotExecute,
    /// Proposal was vetoed by Sophia
    VetoedProposal,
    /// Invalid delegation weight
    InvalidDelegationWeight,
}

/// The human-readable text of an error.
pub open spec fn governance_error_text(e: GovernanceError) -> Seq<char> {
    match e {
        GovernanceError::ProposalNotFound => "Proposal not found"@,
        GovernanceError::NotInVotingPhase => "Proposal is not in voting phase"@,
        GovernanceError::VotingPeriodEnded => "Voting period has ended"@,
        GovernanceError::AlreadyVoted => "Already voted on this proposal"@,
        GovernanceError::CannotExecute => "Cannot execute proposal in current state"@,
        GovernanceError::VetoedProposal => "Vetoed proposals cannot be executed"@,
        GovernanceError::InvalidDelegationWeight => "Delegation weight must be between 0 and 1"@,
    }
}

impl GovernanceError {
    /// The human-readable text of this error.
    pub fn message(&self) -> (r: &'static str)
        ensures
            r@ == governance_error_text(*self),
    {
        match self {
            GovernanceError::ProposalNotFound => "Proposal not found",
            GovernanceError::NotInVotingPhase => "Proposal is not in voting phase",
            GovernanceError::VotingPeriodEnded => "Voting period has ended",
            GovernanceError::AlreadyVoted => "Already voted on this proposal",
            GovernanceError::CannotExecute => "Cannot execute proposal in current state",
            GovernanceError::VetoedProposal => "Vetoed proposals cannot be executed",
            GovernanceError::InvalidDelegationWeight => "Delegation weight must be between 0 and 1",
        }
    }
}

/// A reputation score, in hundredths of a point, out of 100 points.
pub const MAX_SCORE: u64 = 10_000;

/// Reputation of a newcomer: 50 points.
pub const INITIAL_SCORE: u64 = 5_000;

/// A full delegation or alignment, in basis points.
pub const FULL_WEIGHT: u64 = 10_000;

/// Whether two texts are equal.
pub fn same_text(a: &str, b: &str) -> (r: bool)
    ensures
        r == (a@ == b@),
{
    let x = a.to_owned();
    let y = b.to_owned();
    x == y
}

/// Whether two wallets are the same.
pub open spec fn same_wallet(a: WalletAddress, b: WalletAddress) -> bool {
    a.0@ == b.0@
}

/// Sophia's evaluation of a proposal.
#[derive(Debug, Clone)]
pub struct SophiaEvaluation {
    pub decision: SophiaDecision,
    /// Public rationale.
    pub rationale: String,
    /// Feasibility, in basis points.
    pub feasibility_score: u64,
    pub risk_level: RiskLevel,
    /// Related precedent proposal ids.
    pub aligned_precedent: Vec<String>,
    pub timestamp: u64,
}

/// A governance proposal.
#[derive(Debug, Clone)]
pub struct Proposal {
    /// Id such as `RCP-0001`.
    pub id: String,
    pub title: String,
    pub description: String,
    pub proposal_type: ProposalType,
    pub proposer: WalletAddress,
    pub created_at: u64,
    pub status: ProposalStatus,
    /// Contract to execute, if any.
    pub contract_hash: Option<String>,
    pub requires_multi_sig: bool,
    /// Blocks to wait before execution.
    pub timelock_blocks: u64,
    pub auto_expire: bool,
    /// Votes cast, in order.
    pub votes: Vec<Vote>,
    pub voting_starts_at: Option<u64>,
    pub voting_ends_at: Option<u64>,
    pub sophia_evaluation: Option<SophiaEvaluation>,
    pub executed_at: Option<u64>,
    pub execution_tx_hash: Option<String>,
}

/// Sum of the weights of the votes for which `pick` holds.
pub open spec fn weight_sum(vs: Seq<Vote>, pick: spec_fn(Vote) -> bool) -> nat
    decreases vs.len(),
{
    if vs.len() == 0 {
        0
    } else {
        weight_sum(vs.drop_last(), pick) + if pick(vs.last()) {
            vs.last().weight as nat
        } else {
            0nat
        }
    }
}

/// A sum held at the largest `u64`.
pub open spec fn saturate(n: nat) -> u64 {
    if n > u64::MAX {
        u64::MAX
    } else {
        n as u64
    }
}

/// Weight of the votes in favour.
pub open spec fn yes_weight(vs: Seq<Vote>) -> nat {
    weight_sum(vs, |v: Vote| v.support)
}

/// Weight of the votes against.
pub open spec fn no_weight(vs: Seq<Vote>) -> nat {
    weight_sum(vs, |v: Vote| !v.support)
}

/// Weight of all votes.
pub open spec fn all_weight(vs: Seq<Vote>) -> nat {
    weight_sum(vs, |v: Vote| true)
}

/// Whether `voter` has voted.
pub open spec fn has_voted_spec(vs: Seq<Vote>, voter: WalletAddress) -> bool {
    exists|i: int| 0 <= i < vs.len() && same_wallet(#[trigger] vs[i].voter, voter)
}

fn sum_weights(vs: &Vec<Vote>, which: u8) -> (r: u64)
    requires
        which <= 2,
    ensures
        which == 0 ==> r == saturate(yes_weight(vs@)),
        which == 1 ==> r == saturate(no_weight(vs@)),
        which == 2 ==> r == saturate(all_weight(vs@)),
{
    let mut sum: u128 = 0;
    let mut i: usize = 0;
    while i < vs.len()
        invariant
            which <= 2,
            i <= vs@.len(),
            which == 0 ==> sum == weight_sum(vs@.take(i as int), |v: Vote| v.support),
            which == 1 ==> sum == weight_sum(vs@.take(i as int), |v: Vote| !v.support),
            which == 2 ==> sum == weight_sum(vs@.take(i as int), |v: Vote| true),
            sum <= i * 0xFFFF_FFFF_FFFF_FFFFu128,
            i <= usize::MAX,
        decreases vs@.len() - i,
    {
        proof {
            assert(vs@.take(i + 1).drop_last() == vs@.take(i as int));
            assert(vs@.take(i + 1).last() == vs@[i as int]);
        }
        let v = &vs[i];
        let counted = if which == 0 {
            v.support
        } else if which == 1 {
            !v.support
        } else {
            true
        };
        if counted {
            sum = sum + v.weight as u128;
        }
        i = i + 1;
    }
    proof {
        assert(vs@.take(vs@.len() as int) == vs@);
    }
    if sum > u64::MAX as u128 {
        u64::MAX
    } else {
        sum as u64
    }
}

/// Share of the vote weight in favour, in basis points (0 without votes).
pub open spec fn approval_of(vs: Seq<Vote>) -> nat {
    if all_weight(vs) == 0 {
        0
    } else {
        yes_weight(vs) * 10_000 / all_weight(vs)
    }
}

proof fn lemma_yes_within_all(vs: Seq<Vote>)
    ensures
        yes_weight(vs) <= all_weight(vs),
    decreases vs.len(),
{
    if vs.len() > 0 {
        lemma_yes_within_all(vs.drop_last());
    }
}

impl Proposal {
    /// A submitted proposal created now by the system clock.
    pub fn new(
        id: String,
        title: String,
        description: String,
        proposal_type: ProposalType,
        proposer: WalletAddress,
    ) -> (r: Self)
        ensures
            r.id == id,
            r.title == title,
            r.description == description,
            r.proposal_type == proposal_type,
            r.proposer == proposer,
            r.status == ProposalStatus::Submitted,
            r.votes@.len() == 0,
            r.sophia_evaluation is None,
    {
        Self::new_at(id, title, description, proposal_type, proposer, current_timestamp())
    }

    /// A submitted proposal created at `now`: no votes, no evaluation, the
    /// standard execution delay and auto-expiry.
    pub fn new_at(
        id: String,
        title: String,
        description: String,
        proposal_type: ProposalType,
        proposer: WalletAddress,
        now: u64,
    ) -> (r: Self)
        ensures
            r.id == id,
            r.title == title,
            r.description == description,
            r.proposal_type == proposal_type,
            r.proposer == proposer,
            r.created_at == now,
            r.status == ProposalStatus::Submitted,
            r.contract_hash is None,
            !r.requires_multi_sig,
            r.timelock_blocks == EXECUTION_DELAY_BLOCKS,
            r.auto_expire,
            r.votes@.len() == 0,
            r.voting_starts_at is None,
            r.voting_ends_at is None,
            r.sophia_evaluation is None,
            r.executed_at is None,
            r.execution_tx_hash is None,
    {
        Proposal {
            id,
            title,
            description,
            proposal_type,
            proposer,
            created_at: now,
            status: ProposalStatus::Submitted,
            contract_hash: None,
            requires_multi_sig: false,
            timelock_blocks: EXECUTION_DELAY_BLOCKS,
            auto_expire: true,
            votes: Vec::new(),
            voting_starts_at: None,
            voting_ends_at: None,
            sophia_evaluation: None,
            executed_at: None,
            execution_tx_hash: None,
        }
    }

    /// Weight of the votes in favour, held at the largest `u64`.
    pub fn yes_votes(&self) -> (r: u64)
        ensures
            r == saturate(yes_weight(self.votes@)),
    {
        sum_weights(&self.votes, 0)
    }

    /// Weight of the votes against, held at the largest `u64`.
    pub fn no_votes(&self) -> (r: u64)
        ensures
            r == saturate(no_weight(self.votes@)),
    {
        sum_weights(&self.votes, 1)
    }

    /// Weight of all votes, held at the largest `u64`.
    pub fn total_votes(&self) -> (r: u64)
        ensures
            r == saturate(all_weight(self.votes@)),
    {
        sum_weights(&self.votes, 2)
    }

    /// Share of the vote weight in favour, in basis points; 0 without votes.
    pub fn approval_percentage(&self) -> (r: u64)
        requires
            all_weight(self.votes@) <= u64::MAX,
        ensures
            r == approval_of(self.votes@),
    {
        let total = self.total_votes();
        if total == 0 {
            return 0;
        }
        let yes = self.yes_votes();
        proof {
            lemma_yes_within_all(self.votes@);
            assert(yes as nat * 10_000 <= total as nat * 10_000) by (nonlinear_arith)
                requires
                    yes <= total,
            ;
            vstd::arithmetic::div_mod::lemma_div_is_ordered(
                (yes as nat * 10_000) as int,
                (total as nat * 10_000) as int,
                total as int,
            );
            vstd::arithmetic::div_mod::lemma_div_multiples_vanish(10_000, total as int);
        }
        ((yes as u128 * 10_000) / total as u128) as u64
    }

    /// Whether `voter` has voted on this proposal.
    pub fn has_voted(&self, voter: &WalletAddress) -> (r: bool)
        ensures
            r == has_voted_spec(self.votes@, *voter),
    {
        let mut i: usize = 0;
        while i < self.votes.len()
            invariant
                i <= self.votes@.len(),
                forall|k: int| 0 <= k < i ==> !same_wallet(#[trigger] self.votes@[k].voter, *voter),
            decreases self.votes@.len() - i,
        {
            if self.votes[i].voter.0 == voter.0 {
                return true;
            }
            i = i + 1;
        }
        false
    }
}

/// A wallet's governance reputation.
#[derive(Debug, Clone)]
pub struct NodeReputation {
    pub wallet: WalletAddress,
    /// Score in hundredths of a point, 0 to 10_000.
    pub score: u64,
    pub participation_count: u32,
    pub correct_predictions: u32,
    /// Uptime contribution, in basis points.
    pub uptime_contribution: u64,
    /// Agreement with Sophia's decisions, in basis points.
    pub sophia_alignment: u64,
    pub last_activity: u64,
}

/// A score after `weeks` weeks of 5% decay, rounded down each week.
pub open spec fn decayed(score: nat, weeks: nat) -> nat
    decreases weeks,
{
    if weeks == 0 {
        score
    } else {
        decayed(score, (weeks - 1) as nat) * 95 / 100
    }
}

/// Points an activity earns, in hundredths: half a point for a vote, one
/// point for a proposal.
pub open spec fn activity_bonus(activity: Seq<char>) -> nat {
    if activity == "vote"@ {
        50
    } else if activity == "propose"@ {
        100
    } else {
        0
    }
}

proof fn lemma_decay_bounded(score: nat, weeks: nat)
    ensures
        decayed(score, weeks) <= score,
    decreases weeks,
{
    if weeks > 0 {
        lemma_decay_bounded(score, (weeks - 1) as nat);
    }
}

impl NodeReputation {
    /// A fresh reputation of 50 points, active now by the system clock.
    pub fn new(wallet: WalletAddress) -> (r: Self)
        ensures
            r.wallet == wallet,
            r.score == INITIAL_SCORE,
            r.participation_count == 0,
            r.sophia_alignment == 0,
    {
        Self::new_at(wallet, current_timestamp())
    }

    /// A fresh reputation of 50 points, active at `now`.
    pub fn new_at(wallet: WalletAddress, now: u64) -> (r: Self)
        ensures
            r.wallet == wallet,
            r.score == INITIAL_SCORE,
            r.participation_count == 0,
            r.correct_predictions == 0,
            r.uptime_contribution == 0,
            r.sophia_alignment == 0,
            r.last_activity == now,
    {
        NodeReputation {
            wallet,
            score: INITIAL_SCORE,
            participation_count: 0,
            correct_predictions: 0,
            uptime_contribution: 0,
            sophia_alignment: 0,
            last_activity: now,
        }
    }

    /// Lets the score decay by 5% for each inactive week.
    pub fn apply_decay(&mut self, weeks_inactive: u32)
        ensures
            final(self).score == decayed(old(self).score as nat, weeks_inactive as nat),
            final(self).wallet == old(self).wallet,
            final(self).participation_count == old(self).participation_count,
            final(self).sophia_alignment == old(self).sophia_alignment,
            final(self).last_activity == old(self).last_activity,
    {
        let mut w: u32 = 0;
        while w < weeks_inactive
            invariant
                w <= weeks_inactive,
                self.score == decayed(old(self).score as nat, w as nat),
                self.score <= old(self).score,
                self.wallet == old(self).wallet,
                self.participation_count == old(self).participation_count,
                self.sophia_alignment == old(self).sophia_alignment,
                self.last_activity == old(self).last_activity,
            decreases weeks_inactive - w,
        {
            proof {
                lemma_decay_bounded(old(self).score as nat, w as nat);
            }
            self.score = (self.score as u128 * 95 / 100) as u64;
            w = w + 1;
        }
    }

    /// Moves the alignment a tenth towards agreement or disagreement, within
    /// 0 and 1.
    pub fn update_alignment(&mut self, voted_with_sophia: bool)
        ensures
            voted_with_sophia ==> final(self).sophia_alignment as int == if old(
                self,
            ).sophia_alignment + 1000 > FULL_WEIGHT {
                FULL_WEIGHT as int
            } else {
                old(self).sophia_alignment + 1000
            },
            !voted_with_sophia ==> final(self).sophia_alignment as int == if old(
                self,
            ).sophia_alignment < 1000 {
                0
            } else {
                old(self).sophia_alignment - 1000
            },
            final(self).score == old(self).score,
            final(self).wallet == old(self).wallet,
            final(self).participation_count == old(self).participation_count,
    {
        if voted_with_sophia {
            self.sophia_alignment = if self.sophia_alignment >= FULL_WEIGHT - 1000 {
                FULL_WEIGHT
            } else {
                self.sophia_alignment + 1000
            };
        } else {
            self.sophia_alignment = if self.sophia_alignment < 1000 {
                0
            } else {
                self.sophia_alignment - 1000
            };
        }
    }

    /// Records participation at `now` by the system clock.
    pub fn record_participation(&mut self, activity_type: &str)
        requires
            old(self).score <= MAX_SCORE,
        ensures
            final(self).score <= MAX_SCORE,
    {
        let now = current_timestamp();
        self.record_participation_at(activity_type, now);
    }

    /// Records participation at `now`: the count grows (held at the largest
    /// `u32`) and votes and proposals raise the score, up to 100 points.
    pub fn record_participation_at(&mut self, activity_type: &str, now: u64)
        requires
            old(self).score <= MAX_SCORE,
        ensures
            final(self).participation_count as int == if old(self).participation_count
                == u32::MAX {
                u32::MAX as int
            } else {
                old(self).participation_count + 1
            },
            final(self).last_activity == now,
            final(self).score as int == if old(self).score + activity_bonus(activity_type@)
                > MAX_SCORE {
                MAX_SCORE as int
            } else {
                old(self).score + activity_bonus(activity_type@)
            },
            final(self).score <= MAX_SCORE,
            final(self).wallet == old(self).wallet,
            final(self).sophia_alignment == old(self).sophia_alignment,
    {
        if self.participation_count < u32::MAX {
            self.participation_count = self.participation_count + 1;
        }
        self.last_activity = now;
        let bonus: u64 = if same_text(activity_type, "vote") {
            50
        } else if same_text(activity_type, "propose") {
            100
        } else {
            0
        };
        self.score = if self.score + bonus > MAX_SCORE {
            MAX_SCORE
        } else {
            self.score + bonus
        };
    }
}

/// A delegation of voting power.
#[derive(Debug, Clone)]
pub struct Delegation {
    pub from_wallet: WalletAddress,
    pub to_wallet: WalletAddress,
    /// Share of voting power delegated, in basis points.
    pub weight: u64,
    pub created_at: u64,
    pub expires_at: Option<u64>,
}

/// Whether a delegation is in force at `now`.
pub open spec fn delegation_active(d: Delegation, now: u64) -> bool {
    match d.expires_at {
        Some(e) => now <= e,
        None => true,
    }
}

impl Delegation {
    /// Whether the delegation is in force at `current_time`: it is unless it
    /// has expired.
    pub fn is_active(&self, current_time: u64) -> (r: bool)
        ensures
            r == delegation_active(*self, current_time),
    {
        match self.expires_at {
            Some(expires) => current_time <= expires,
            None => true,
        }
    }
}

/// Decimal text of a number.
pub open spec fn decimal_text(n: nat) -> Seq<char>
    decreases n,
{
    if n < 10 {
        seq![(48 + n) as char]
    } else {
        decimal_text(n / 10).push((48 + n % 10) as char)
    }
}

fn digit_text(d: u64) -> (r: &'static str)
    requires
        d < 10,
    ensures
        r@ == seq![(48 + d) as char],
{
    proof {
        reveal_strlit("0");
        reveal_strlit("1");
        reveal_strlit("2");
        reveal_strlit("3");
        reveal_strlit("4");
        reveal_strlit("5");
        reveal_strlit("6");
        reveal_strlit("7");
        reveal_strlit("8");
        reveal_strlit("9");
    }
    if d == 0 {
        "0"
    } else if d == 1 {
        "1"
    } else if d == 2 {
        "2"
    } else if d == 3 {
        "3"
    } else if d == 4 {
        "4"
    } else if d == 5 {
        "5"
    } else if d == 6 {
        "6"
    } else if d == 7 {
        "7"
    } else if d == 8 {
        "8"
    } else {
        "9"
    }
}

/// Writes `n` in decimal.
pub fn decimal_string(n: u64) -> (r: String)
    ensures
        r@ == decimal_text(n as nat),
    decreases n,
{
    if n < 10 {
        String::from_str(digit_text(n))
    } else {
        let head = decimal_string(n / 10);
        let r = head.concat(digit_text(n % 10));
        proof {
            assert(r@ =~= decimal_text(n as nat));
        }
        r
    }
}

/// The id of the `n`-th proposal: `RCP-` and `n` in at least four digits.
pub open spec fn proposal_id_text(n: nat) -> Seq<char> {
    let digits = decimal_text(n);
    "RCP-"@ + Seq::new(
        if digits.len() < 4 {
            (4 - digits.len()) as nat
        } else {
            0
        },
        |i: int| '0',
    ) + digits
}

/// Whether `i` is the first proposal with the given id.
pub open spec fn proposal_at(ps: Seq<Proposal>, id: Seq<char>, i: int) -> bool {
    &&& 0 <= i < ps.len()
    &&& ps[i].id@ == id
    &&& forall|j: int| 0 <= j < i ==> (#[trigger] ps[j]).id@ != id
}

/// Whether some proposal has the given id.
pub open spec fn has_proposal(ps: Seq<Proposal>, id: Seq<char>) -> bool {
    exists|i: int| 0 <= i < ps.len() && (#[trigger] ps[i]).id@ == id
}

/// The reputation score of a wallet, or the newcomer's 50 points.
pub open spec fn score_of(rs: Seq<NodeReputation>, w: WalletAddress) -> nat
    decreases rs.len(),
{
    if rs.len() == 0 {
        INITIAL_SCORE as nat
    } else if same_wallet(rs[0].wallet, w) {
        rs[0].score as nat
    } else {
        score_of(rs.drop_first(), w)
    }
}

/// Delegated weight received by `w` at `now`: one unit per percent of each
/// delegation in force.
pub open spec fn delegated_to(ds: Seq<Delegation>, w: WalletAddress, now: u64) -> nat
    decreases ds.len(),
{
    if ds.len() == 0 {
        0
    } else {
        delegated_to(ds.drop_last(), w, now) + if same_wallet(ds.last().to_wallet, w)
            && delegation_active(ds.last(), now) {
            ds.last().weight as nat / 100
        } else {
            0nat
        }
    }
}

/// Voting weight of a balance: raised by a fifth of the reputation score.
pub open spec fn base_weight(balance: nat, score: nat) -> nat {
    balance * (50_000 + score) / 50_000
}

/// Governance state: proposals, reputations and delegations.
#[derive(Debug)]
pub struct GovernanceEngine {
    proposals: Vec<Proposal>,
    reputations: Vec<NodeReputation>,
    delegations: Vec<Delegation>,
    total_supply: u64,
    proposal_counter: u32,
}

impl GovernanceEngine {
    /// Proposals in order of creation.
    pub closed spec fn proposals(&self) -> Seq<Proposal> {
        self.proposals@
    }

    /// Reputations, one per wallet.
    pub closed spec fn reputations(&self) -> Seq<NodeReputation> {
        self.reputations@
    }

    /// Delegations in order of creation.
    pub closed spec fn delegations(&self) -> Seq<Delegation> {
        self.delegations@
    }

    /// Supply against which quorum is measured.
    pub closed spec fn supply(&self) -> u64 {
        self.total_supply
    }

    /// Proposals created so far.
    pub closed spec fn counter(&self) -> u32 {
        self.proposal_counter
    }

    /// Reputation scores stay within 100 points.
    pub open spec fn wf(&self) -> bool {
        forall|i: int| 0 <= i < self.reputations().len() ==> (#[trigger] self.reputations()[i]).score
            <= MAX_SCORE
    }

    /// An engine with no proposals, measuring quorum against `total_supply`.
    pub fn new(total_supply: u64) -> (r: Self)
        ensures
            r.wf(),
            r.proposals().len() == 0,
            r.reputations().len() == 0,
            r.delegations().len() == 0,
            r.supply() == total_supply,
            r.counter() == 0,
    {
        GovernanceEngine {
            proposals: Vec::new(),
            reputations: Vec::new(),
            delegations: Vec::new(),
            total_supply,
            proposal_counter: 0,
        }
    }

    fn find_proposal(&self, id: &str) -> (r: Option<usize>)
        ensures
            match r {
                Some(i) => proposal_at(self.proposals(), id@, i as int),
                None => !has_proposal(self.proposals(), id@),
            },
    {
        let key = id.to_owned();
        let mut i: usize = 0;
        while i < self.proposals.len()
            invariant
                key@ == id@,
                i <= self.proposals@.len(),
                forall|k: int| 0 <= k < i ==> (#[trigger] self.proposals@[k]).id@ != id@,
            decreases self.proposals@.len() - i,
        {
            if self.proposals[i].id == key {
                return Some(i);
            }
            i = i + 1;
        }
        None
    }

    /// The first proposal with the given id.
    pub fn get_proposal(&self, proposal_id: &str) -> (r: Option<&Proposal>)
        ensures
            match r {
                Some(p) => exists|i: int|
                    proposal_at(self.proposals(), proposal_id@, i) && *p == self.proposals()[i],
                None => !has_proposal(self.proposals(), proposal_id@),
            },
    {
        match self.find_proposal(proposal_id) {
            Some(i) => Some(&self.proposals[i]),
            None => None,
        }
    }

    /// The proposals open for voting, in order of creation.
    pub fn get_active_proposals(&self) -> (r: Vec<&Proposal>)
        ensures
            forall|i: int| 0 <= i < r@.len() ==> (#[trigger] r@[i]).status == ProposalStatus::Voting,
            r@.len() <= self.proposals().len(),
    {
        let mut out: Vec<&Proposal> = Vec::new();
        let mut i: usize = 0;
        while i < self.proposals.len()
            invariant
                i <= self.proposals@.len(),
                out@.len() <= i,
                forall|k: int| 0 <= k < out@.len() ==> (#[trigger] out@[k]).status
                    == ProposalStatus::Voting,
            decreases self.proposals@.len() - i,
        {
            if self.proposals[i].status == ProposalStatus::Voting {
                out.push(&self.proposals[i]);
            }
            i = i + 1;
        }
        out
    }

    /// All proposals, in order of creation.
    pub fn get_all_proposals(&self) -> (r: Vec<&Proposal>)
        ensures
            r@.len() == self.proposals().len(),
            forall|i: int| 0 <= i < r@.len() ==> *r@[i] == self.proposals()[i],
    {
        let mut out: Vec<&Proposal> = Vec::new();
        let mut i: usize = 0;
        while i < self.proposals.len()
            invariant
                i <= self.proposals@.len(),
                out@.len() == i,
                forall|k: int| 0 <= k < i ==> *out@[k] == self.proposals@[k],
            decreases self.proposals@.len() - i,
        {
            out.push(&self.proposals[i]);
            i = i + 1;
        }
        out
    }

    fn score_lookup(&self, wallet: &WalletAddress) -> (r: u64)
        ensures
            r == score_of(self.reputations(), *wallet),
    {
        let rs = &self.reputations;
        let mut i: usize = 0;
        proof {
            assert(rs@.subrange(0, rs@.len() as int) == rs@);
        }
        while i < rs.len()
            invariant
                rs == &self.reputations,
                i <= rs@.len(),
                score_of(rs@, *wallet) == score_of(rs@.subrange(i as int, rs@.len() as int), *wallet),
            decreases rs@.len() - i,
        {
            let ghost rest = rs@.subrange(i as int, rs@.len() as int);
            if rs[i].wallet.0 == wallet.0 {
                return rs[i].score;
            }
            proof {
                assert(rest.drop_first() == rs@.subrange(i + 1, rs@.len() as int));
            }
            i = i + 1;
        }
        INITIAL_SCORE
    }

    fn get_delegated_weight(&self, wallet: &WalletAddress, current_time: u64) -> (r: u64)
        ensures
            r == saturate(delegated_to(self.delegations(), *wallet, current_time)),
    {
        let ds = &self.delegations;
        let mut sum: u128 = 0;
        let mut i: usize = 0;
        while i < ds.len()
            invariant
                ds == &self.delegations,
                i <= ds@.len(),
                sum == delegated_to(ds@.take(i as int), *wallet, current_time),
                sum <= i * 0xFFFF_FFFF_FFFF_FFFFu128,
                i <= usize::MAX,
            decreases ds@.len() - i,
        {
            proof {
                assert(ds@.take(i + 1).drop_last() == ds@.take(i as int));
                assert(ds@.take(i + 1).last() == ds@[i as int]);
            }
            let d = &ds[i];
            if d.to_wallet.0 == wallet.0 && d.is_active(current_time) {
                sum = sum + (d.weight / 100) as u128;
            }
            i = i + 1;
        }
        proof {
            assert(ds@.take(ds@.len() as int) == ds@);
        }
        if sum > u64::MAX as u128 {
            u64::MAX
        } else {
            sum as u64
        }
    }

    fn update_reputation(&mut self, wallet: &WalletAddress, activity_type: &str, now: u64)
        requires
            old(self).wf(),
        ensures
            final(self).wf(),
            exists|i: int|
                0 <= i < final(self).reputations().len() && same_wallet(
                    (#[trigger] final(self).reputations()[i]).wallet,
                    *wallet,
                ),
            final(self).proposals() == old(self).proposals(),
            final(self).delegations() == old(self).delegations(),
            final(self).supply() == old(self).supply(),
            final(self).counter() == old(self).counter(),
    {
        let mut i: usize = 0;
        while i < self.reputations.len()
            invariant
                i <= self.reputations@.len(),
                self.wf(),
                *self == *old(self),
            decreases self.reputations@.len() - i,
        {
            if self.reputations[i].wallet.0 == wallet.0 {
                proof {
                    assert(self.reputations()[i as int].score <= MAX_SCORE);
                }
                let mut rep = self.reputations.remove(i);
                rep.record_participation_at(activity_type, now);
                self.reputations.insert(i, rep);
                proof {
                    assert(self.reputations@ =~= old(self).reputations@.update(i as int, rep));
                    assert(self.reputations@[i as int].wallet == old(self).reputations@[i as int].wallet);
                    assert(same_wallet(self.reputations()[i as int].wallet, *wallet));
                    assert forall|k: int| 0 <= k < self.reputations().len() implies (
                    #[trigger] self.reputations()[k]).score <= MAX_SCORE by {
                        if k != i {
                            assert(self.reputations@[k] == old(self).reputations@[k]);
                        }
                    }
                }
                return;
            }
            i = i + 1;
        }
        let mut rep = NodeReputation::new_at(WalletAddress(wallet.0.clone()), now);
        rep.record_participation_at(activity_type, now);
        self.reputations.push(rep);
        proof {
            let last = self.reputations().len() - 1;
            assert(same_wallet(self.reputations()[last].wallet, *wallet));
            assert forall|k: int| 0 <= k < self.reputations().len() implies (
            #[trigger] self.reputations()[k]).score <= MAX_SCORE by {
                if k < last {
                    assert(self.reputations@[k] == old(self).reputations@[k]);
                }
            }
        }
    }

    /// Creates a proposal by the system clock's time.
    pub fn create_proposal(
        &mut self,
        title: String,
        description: String,
        proposal_type: ProposalType,
        proposer: WalletAddress,
        contract_hash: Option<String>,
    ) -> (r: &Proposal)
        requires
            old(self).wf(),
            old(self).counter() < u32::MAX,
        ensures
            final(self).wf(),
            final(self).counter() == old(self).counter() + 1,
            final(self).proposals().len() == old(self).proposals().len() + 1,
            *r == final(self).proposals().last(),
            r.id@ == proposal_id_text(final(self).counter() as nat),
            r.title == title,
            r.description == description,
            r.proposal_type == proposal_type,
            r.proposer == proposer,
            r.status == ProposalStatus::Submitted,
            r.contract_hash == contract_hash,
    {
        let now = current_timestamp();
        self.create_proposal_at(title, description, proposal_type, proposer, contract_hash, now)
    }

    /// Creates the next proposal at `now`, numbered `RCP-0001` onwards, and
    /// credits the proposer's reputation.
    pub fn create_proposal_at(
        &mut self,
        title: String,
        description: String,
        proposal_type: ProposalType,
        proposer: WalletAddress,
        contract_hash: Option<String>,
        now: u64,
    ) -> (r: &Proposal)
        requires
            old(self).wf(),
            old(self).counter() < u32::MAX,
        ensures
            final(self).wf(),
            final(self).counter() == old(self).counter() + 1,
            final(self).proposals().len() == old(self).proposals().len() + 1,
            final(self).proposals().subrange(0, old(self).proposals().len() as int)
                == old(self).proposals(),
            *r == final(self).proposals().last(),
            r.id@ == proposal_id_text(final(self).counter() as nat),
            r.title == title,
            r.description == description,
            r.proposal_type == proposal_type,
            r.proposer == proposer,
            r.created_at == now,
            r.status == ProposalStatus::Submitted,
            r.contract_hash == contract_hash,
            r.votes@.len() == 0,
            exists|i: int|
                0 <= i < final(self).reputations().len() && same_wallet(
                    (#[trigger] final(self).reputations()[i]).wallet,
                    proposer,
                ),
            final(self).delegations() == old(self).delegations(),
            final(self).supply() == old(self).supply(),
    {
        self.proposal_counter = self.proposal_counter + 1;
        let n = self.proposal_counter;
        let digits = decimal_string(n as u64);
        let zeros: &str = if n < 10 {
            "000"
        } else if n < 100 {
            "00"
        } else if n < 1000 {
            "0"
        } else {
            ""
        };
        proof {
            lemma_decimal_text_len(n as nat);
            reveal_strlit("000");
            reveal_strlit("00");
            reveal_strlit("0");
            reveal_strlit("");
            let k: nat = if decimal_text(n as nat).len() < 4 {
                (4 - decimal_text(n as nat).len()) as nat
            } else {
                0
            };
            assert(zeros@ =~= Seq::new(k, |i: int| '0'));
        }
        let id = String::from_str("RCP-").concat(zeros).concat(digits.as_str());
        proof {
            assert(id@ =~= proposal_id_text(n as nat));
        }
        let proposer_copy = WalletAddress(proposer.0.clone());
        let mut proposal = Proposal::new_at(id, title, description, proposal_type, proposer, now);
        proposal.contract_hash = contract_hash;
        proof {
            assert(self.reputations() == old(self).reputations());
            assert forall|k: int| 0 <= k < self.reputations().len() implies (
            #[trigger] self.reputations()[k]).score <= MAX_SCORE by {
                assert(old(self).reputations()[k].score <= MAX_SCORE);
            }
        }
        self.update_reputation(&proposer_copy, "propose", now);
        let ghost ri = choose|i: int|
            0 <= i < self.reputations().len() && same_wallet(
                (#[trigger] self.reputations()[i]).wallet,
                proposer_copy,
            );
        self.proposals.push(proposal);
        proof {
            assert(same_wallet(self.reputations()[ri].wallet, proposer));
            assert(self.proposals@.subrange(0, old(self).proposals@.len() as int)
                == old(self).proposals@);
        }
        let last = self.proposals.len() - 1;
        &self.proposals[last]
    }

    /// Records Sophia's evaluation by the system clock's time.
    pub fn sophia_evaluate(
        &mut self,
        proposal_id: &str,
        decision: SophiaDecision,
        rationale: String,
        feasibility_score: u64,
        risk_level: RiskLevel,
    ) -> (r: Result<&SophiaEvaluation, GovernanceError>)
        ensures
            exists|now: u64| #[trigger] evaluate_post(
                *old(self),
                *final(self),
                proposal_id,
                decision,
                rationale,
                feasibility_score,
                risk_level,
                now,
                r,
            ),
    {
        let now = current_timestamp();
        self.sophia_evaluate_at(proposal_id, decision, rationale, feasibility_score, risk_level, now)
    }

    /// Records Sophia's evaluation of a proposal at `now`: a veto locks
    /// it, an endorsement or analysis opens a week of voting, a pending
    /// decision leaves its state.
    pub fn sophia_evaluate_at(
        &mut self,
        proposal_id: &str,
        decision: SophiaDecision,
        rationale: String,
        feasibility_score: u64,
        risk_level: RiskLevel,
        now: u64,
    ) -> (r: Result<&SophiaEvaluation, GovernanceError>)
        ensures
            evaluate_post(
                *old(self),
                *final(self),
                proposal_id,
                decision,
                rationale,
                feasibility_score,
                risk_level,
                now,
                r,
            ),
    {
        let i = match self.find_proposal(proposal_id) {
            Some(i) => i,
            None => {
                return Err(GovernanceError::ProposalNotFound);
            },
        };
        let mut proposal = self.proposals.remove(i);
        let evaluation = SophiaEvaluation {
            decision,
            rationale,
            feasibility_score,
            risk_level,
            aligned_precedent: Vec::new(),
            timestamp: now,
        };
        proposal.sophia_evaluation = Some(evaluation);
        match decision {
            SophiaDecision::Veto => {
                proposal.status = ProposalStatus::Vetoed;
            },
            SophiaDecision::Endorse | SophiaDecision::Analyze => {
                proposal.status = ProposalStatus::Voting;
                proposal.voting_starts_at = Some(now);
                proposal.voting_ends_at = Some(now.saturating_add(VOTING_PERIOD_SECONDS));
            },
            SophiaDecision::Pending => {},
        }
        self.proposals.insert(i, proposal);
        proof {
            assert(self.proposals@ =~= old(self).proposals@.update(i as int, self.proposals@[i as int]));
        }
        match &self.proposals[i].sophia_evaluation {
            Some(e) => Ok(e),
            None => Err(GovernanceError::ProposalNotFound),
        }
    }

    /// Casts a vote by the system clock's time.
    pub fn vote(&mut self, proposal_id: &str, voter: WalletAddress, support: bool, token_balance: u64) -> (r:
        Result<&Vote, GovernanceError>)
        requires
            old(self).wf(),
        ensures
            final(self).wf(),
            exists|now: u64| #[trigger] vote_post(
                *old(self),
                *final(self),
                proposal_id,
                voter,
                support,
                token_balance,
                now,
                r,
            ),
    {
        let now = current_timestamp();
        self.vote_at(proposal_id, voter, support, token_balance, now)
    }

    /// The reason a vote on proposal `i` at `now` is refused, if any.
    pub open spec fn vote_refusal(&self, i: int, voter: WalletAddress, now: u64) -> Option<
        GovernanceError,
    > {
        let p = self.proposals()[i];
        if p.status != ProposalStatus::Voting {
            Some(GovernanceError::NotInVotingPhase)
        } else if p.voting_ends_at is Some && now > p.voting_ends_at->0 {
            Some(GovernanceError::VotingPeriodEnded)
        } else if has_voted_spec(p.votes@, voter) {
            Some(GovernanceError::AlreadyVoted)
        } else {
            None
        }
    }

    /// The weight of a vote: the balance raised by a fifth of the voter's
    /// reputation score, plus the weight delegated to the voter, each held at
    /// the largest `u64`.
    pub open spec fn vote_weight(&self, voter: WalletAddress, balance: u64, now: u64) -> u64 {
        saturate(
            saturate(base_weight(balance as nat, score_of(self.reputations(), voter))) as nat
                + saturate(delegated_to(self.delegations(), voter, now)) as nat,
        )
    }

    /// Casts a vote at `now` on a proposal open for voting: refused for an
    /// unknown proposal, one not in its voting phase, after the voting period,
    /// or for a second vote by the same wallet.
    pub fn vote_at(
        &mut self,
        proposal_id: &str,
        voter: WalletAddress,
        support: bool,
        token_balance: u64,
        now: u64,
    ) -> (r: Result<&Vote, GovernanceError>)
        requires
            old(self).wf(),
        ensures
            vote_post(
                *old(self),
                *final(self),
                proposal_id,
                voter,
                support,
                token_balance,
                now,
                r,
            ),
    {
        let i = match self.find_proposal(proposal_id) {
            Some(i) => i,
            None => {
                return Err(GovernanceError::ProposalNotFound);
            },
        };
        if self.proposals[i].status != ProposalStatus::Voting {
            return Err(GovernanceError::NotInVotingPhase);
        }
        match self.proposals[i].voting_ends_at {
            Some(ends_at) => {
                if now > ends_at {
                    return Err(GovernanceError::VotingPeriodEnded);
                }
            },
            None => {},
        }
        if self.proposals[i].has_voted(&voter) {
            return Err(GovernanceError::AlreadyVoted);
        }
        let score = self.score_lookup(&voter);
        proof {
            lemma_score_bounded(self.reputations(), voter);
            assert(token_balance as u128 * (50_000 + score as u128) <= 0xFFFF_FFFF_FFFF_FFFFu128
                * 60_000) by (nonlinear_arith)
                requires
                    score <= 10_000,
                    token_balance <= 0xFFFF_FFFF_FFFF_FFFFu64,
            ;
        }
        let raised: u128 = token_balance as u128 * (50_000 + score as u128) / 50_000;
        let base: u64 = if raised > u64::MAX as u128 {
            u64::MAX
        } else {
            raised as u64
        };
        let delegated = self.get_delegated_weight(&voter, now);
        let weight = base.saturating_add(delegated);
        let voter_copy = WalletAddress(voter.0.clone());
        let vote = Vote { voter, support, weight, timestamp: now, delegation_from: None };
        let mut proposal = self.proposals.remove(i);
        proposal.votes.push(vote);
        self.proposals.insert(i, proposal);
        proof {
            assert(self.proposals@ =~= old(self).proposals@.update(i as int, self.proposals@[i as int]));
            assert(self.proposals@[i as int].votes@.drop_last() =~= old(self).proposals@[i as int].votes@);
        }
        let ghost mid = *self;
        self.update_reputation(&voter_copy, "vote", now);
        proof {
            assert(self.proposals() == mid.proposals());
        }
        let last = self.proposals[i].votes.len() - 1;
        Ok(&self.proposals[i].votes[last])
    }

    /// Closes voting on a proposal by the system clock's time.
    pub fn finalize_proposal(&mut self, proposal_id: &str) -> (r: Result<ProposalStatus, GovernanceError>)
        requires
            old(self).wf(),
        ensures
            final(self).wf(),
            exists|now: u64| #[trigger] finalize_post(
                *old(self),
                *final(self),
                proposal_id,
                now,
                r,
            ),
    {
        let now = current_timestamp();
        self.finalize_proposal_at(proposal_id, now)
    }

    /// The outcome of closing the vote on proposal `p`: rejected below a 33%
    /// quorum of the supply, passed with more than half the weight in favour,
    /// rejected otherwise.
    pub open spec fn vote_outcome(&self, p: Proposal) -> ProposalStatus {
        if all_weight(p.votes@) * 100 < 33 * self.supply() {
            ProposalStatus::Rejected
        } else if 2 * yes_weight(p.votes@) > all_weight(p.votes@) {
            ProposalStatus::Passed
        } else {
            ProposalStatus::Rejected
        }
    }

    /// Closes voting on a proposal at `now`, once its voting period is over;
    /// a proposal that is not open, or still within its period, keeps its state.
    pub fn finalize_proposal_at(&mut self, proposal_id: &str, now: u64) -> (r: Result<
        ProposalStatus,
        GovernanceError,
    >)
        requires
            old(self).wf(),
        ensures
            finalize_post(
                *old(self),
                *final(self),
                proposal_id,
                now,
                r,
            ),
    {
        let i = match self.find_proposal(proposal_id) {
            Some(i) => i,
            None => {
                return Err(GovernanceError::ProposalNotFound);
            },
        };
        if self.proposals[i].status != ProposalStatus::Voting {
            return Ok(self.proposals[i].status);
        }
        match self.proposals[i].voting_ends_at {
            Some(ends_at) => {
                if now < ends_at {
                    return Ok(self.proposals[i].status);
                }
            },
            None => {},
        }
        let (yes, all) = exact_weights(&self.proposals[i].votes);
        let supply = self.total_supply as u128;
        let below_quorum = all <= supply && all * 100 < 33 * supply;
        let outcome = if below_quorum {
            ProposalStatus::Rejected
        } else if yes > all - yes {
            ProposalStatus::Passed
        } else {
            ProposalStatus::Rejected
        };
        let mut proposal = self.proposals.remove(i);
        proposal.status = outcome;
        self.proposals.insert(i, proposal);
        proof {
            assert(self.proposals@ =~= old(self).proposals@.update(
                i as int,
                Proposal { status: outcome, ..old(self).proposals@[i as int] },
            ));
        }
        proof {
            assert(self.reputations() == old(self).reputations());
            assert forall|k: int| 0 <= k < self.reputations().len() implies (
            #[trigger] self.reputations()[k]).score <= MAX_SCORE by {
                assert(old(self).reputations()[k].score <= MAX_SCORE);
            }
        }
        if outcome == ProposalStatus::Passed {
            self.update_sophia_alignment(i);
        }
        Ok(outcome)
    }

    fn update_sophia_alignment(&mut self, i: usize)
        requires
            old(self).wf(),
            i < old(self).proposals().len(),
        ensures
            final(self).wf(),
            final(self).proposals() == old(self).proposals(),
            final(self).delegations() == old(self).delegations(),
            final(self).supply() == old(self).supply(),
            final(self).counter() == old(self).counter(),
    {
        let decision = match &self.proposals[i].sophia_evaluation {
            Some(e) => e.decision,
            None => {
                return;
            },
        };
        if decision == SophiaDecision::Analyze {
            return;
        }
        let sophia_supported = decision == SophiaDecision::Endorse;
        let n = self.proposals[i].votes.len();
        let mut k: usize = 0;
        while k < n
            invariant
                i < self.proposals@.len(),
                n == self.proposals@[i as int].votes@.len(),
                k <= n,
                self.wf(),
                self.proposals() == old(self).proposals(),
                self.delegations() == old(self).delegations(),
                self.total_supply == old(self).total_supply,
                self.proposal_counter == old(self).proposal_counter,
            decreases n - k,
        {
            let with_sophia = self.proposals[i].votes[k].support == sophia_supported;
            let mut j: usize = 0;
            while j < self.reputations.len()
                invariant
                    i < self.proposals@.len(),
                    k < n,
                    n == self.proposals@[i as int].votes@.len(),
                    j <= self.reputations@.len(),
                    self.wf(),
                    self.proposals() == old(self).proposals(),
                    self.delegations() == old(self).delegations(),
                    self.total_supply == old(self).total_supply,
                    self.proposal_counter == old(self).proposal_counter,
                decreases self.reputations@.len() - j,
            {
                if self.reputations[j].wallet.0 == self.proposals[i].votes[k].voter.0 {
                    proof {
                        assert(self.reputations()[j as int].score <= MAX_SCORE);
                    }
                    let ghost before = self.reputations@;
                    let mut rep = self.reputations.remove(j);
                    rep.update_alignment(with_sophia);
                    self.reputations.insert(j, rep);
                    proof {
                        assert(self.reputations@ =~= before.update(j as int, rep));
                        assert forall|m: int| 0 <= m < self.reputations().len() implies (
                        #[trigger] self.reputations()[m]).score <= MAX_SCORE by {
                            if m != j {
                                assert(self.reputations@[m] == before[m]);
                            } else {
                                assert(before[m].score <= MAX_SCORE);
                            }
                        }
                    }
                    break;
                }
                j = j + 1;
            }
            k = k + 1;
        }
    }

    /// Executes a passed proposal by the system clock's time.
    pub fn execute_proposal(&mut self, proposal_id: &str) -> (r: Result<String, GovernanceError>)
        ensures
            exists|now: u64| #[trigger] execute_post(
                *old(self),
                *final(self),
                proposal_id,
                now,
                r,
            ),
    {
        let now = current_timestamp();
        self.execute_proposal_at(proposal_id, now)
    }

    /// Executes a passed, unvetoed proposal at `now` and returns its execution
    /// hash: the hex of the digest of `id:now`.
    pub fn execute_proposal_at(&mut self, proposal_id: &str, now: u64) -> (r: Result<String, GovernanceError>)
        ensures
            execute_post(
                *old(self),
                *final(self),
                proposal_id,
                now,
                r,
            ),
    {
        let i = match self.find_proposal(proposal_id) {
            Some(i) => i,
            None => {
                return Err(GovernanceError::ProposalNotFound);
            },
        };
        if self.proposals[i].status != ProposalStatus::Passed {
            return Err(GovernanceError::CannotExecute);
        }
        match &self.proposals[i].sophia_evaluation {
            Some(e) => {
                if e.decision == SophiaDecision::Veto {
                    return Err(GovernanceError::VetoedProposal);
                }
            },
            None => {},
        }
        let mut data: Vec<u8> = Vec::new();
        append_bytes(&mut data, proposal_id.as_bytes());
        data.push(58u8);
        let t = decimal_bytes(now);
        append_bytes(&mut data, t.as_slice());
        proof {
            assert(data@ =~= execution_preimage(proposal_id@, now));
        }
        let digest = sha256(data.as_slice());
        let tx_hash = hex_encode(&digest);
        let mut proposal = self.proposals.remove(i);
        proposal.status = ProposalStatus::Executed;
        proposal.executed_at = Some(now);
        proposal.execution_tx_hash = Some(tx_hash.clone());
        self.proposals.insert(i, proposal);
        proof {
            assert(self.proposals@ =~= old(self).proposals@.update(i as int, self.proposals@[i as int]));
        }
        Ok(tx_hash)
    }

    /// Delegates voting power by the system clock's time.
    pub fn delegate_voting_power(
        &mut self,
        from_wallet: WalletAddress,
        to_wallet: WalletAddress,
        weight: u64,
        duration_days: Option<u64>,
    ) -> (r: Result<&Delegation, GovernanceError>)
        ensures
            exists|now: u64| #[trigger] delegate_post(
                *old(self),
                *final(self),
                from_wallet,
                to_wallet,
                weight,
                duration_days,
                now,
                r,
            ),
    {
        let now = current_timestamp();
        self.delegate_voting_power_at(from_wallet, to_wallet, weight, duration_days, now)
    }

    /// Delegates `weight` basis points of voting power at `now`, for a number
    /// of days or without end; a weight above the whole is refused.
    pub fn delegate_voting_power_at(
        &mut self,
        from_wallet: WalletAddress,
        to_wallet: WalletAddress,
        weight: u64,
        duration_days: Option<u64>,
        now: u64,
    ) -> (r: Result<&Delegation, GovernanceError>)
        ensures
            delegate_post(
                *old(self),
                *final(self),
                from_wallet,
                to_wallet,
                weight,
                duration_days,
                now,
                r,
            ),
    {
        if weight > FULL_WEIGHT {
            return Err(GovernanceError::InvalidDelegationWeight);
        }
        let expires_at = match duration_days {
            Some(days) => {
                let span: u128 = days as u128 * 86_400;
                let end: u128 = now as u128 + span;
                Some(
                    if end > u64::MAX as u128 {
                        u64::MAX
                    } else {
                        end as u64
                    },
                )
            },
            None => None,
        };
        self.delegations.push(
            Delegation { from_wallet, to_wallet, weight, created_at: now, expires_at },
        );
        proof {
            assert(self.delegations@.drop_last() =~= old(self).delegations@);
        }
        let last = self.delegations.len() - 1;
        Ok(&self.delegations[last])
    }
}

/// How recording an evaluation at `now` relates the engine before and after to the result.
pub open spec fn evaluate_post(
    pre: GovernanceEngine,
    post: GovernanceEngine,
    proposal_id: &str,
    decision: SophiaDecision,
    rationale: String,
    feasibility_score: u64,
    risk_level: RiskLevel,
    now: u64,
    r: Result<&SophiaEvaluation, GovernanceError>,
) -> bool {
    &&& (!has_proposal(pre.proposals(), proposal_id@) ==> (r matches Err(
        GovernanceError::ProposalNotFound,
    ) && post == pre))
    &&& (has_proposal(pre.proposals(), proposal_id@) ==> exists|i: int|
                #![trigger pre.proposals()[i]]
                proposal_at(pre.proposals(), proposal_id@, i) && {
                    let before = pre.proposals()[i];
                    let after = post.proposals()[i];
                    &&& post.proposals() == pre.proposals().update(i, after)
                    &&& after.sophia_evaluation is Some
                    &&& r is Ok
                    &&& *r->Ok_0 == after.sophia_evaluation->0
                    &&& r->Ok_0.decision == decision
                    &&& r->Ok_0.rationale == rationale
                    &&& r->Ok_0.feasibility_score == feasibility_score
                    &&& r->Ok_0.risk_level == risk_level
                    &&& r->Ok_0.timestamp == now
                    &&& r->Ok_0.aligned_precedent@.len() == 0
                    &&& after.status == match decision {
                        SophiaDecision::Veto => ProposalStatus::Vetoed,
                        SophiaDecision::Pending => before.status,
                        _ => ProposalStatus::Voting,
                    }
                    &&& match decision {
                        SophiaDecision::Veto | SophiaDecision::Pending => {
                            &&& after.voting_starts_at == before.voting_starts_at
                            &&& after.voting_ends_at == before.voting_ends_at
                        },
                        _ => {
                            &&& after.voting_starts_at == Some(now)
                            &&& after.voting_ends_at == Some(saturate((now + VOTING_PERIOD_SECONDS) as nat))
                        },
                    }
                    &&& after.id == before.id
                    &&& after.votes == before.votes
                })
    &&& (post.reputations() == pre.reputations())
    &&& (post.delegations() == pre.delegations())
    &&& (post.supply() == pre.supply())
    &&& (post.counter() == pre.counter())
}

/// How casting a vote at `now` relates the engine before and after to the result.
pub open spec fn vote_post(
    pre: GovernanceEngine,
    post: GovernanceEngine,
    proposal_id: &str,
    voter: WalletAddress,
    support: bool,
    token_balance: u64,
    now: u64,
    r: Result<&Vote, GovernanceError>,
) -> bool {
    &&& (post.wf())
    &&& (!has_proposal(pre.proposals(), proposal_id@) ==> (r matches Err(
        GovernanceError::ProposalNotFound,
    ) && post == pre))
    &&& (has_proposal(pre.proposals(), proposal_id@) ==> exists|i: int|
                #![trigger pre.proposals()[i]]
                proposal_at(pre.proposals(), proposal_id@, i) && match pre.vote_refusal(
                    i,
                    voter,
                    now,
                ) {
                    Some(e) => r is Err && r->Err_0 == e && post == pre,
                    None => {
                        let before = pre.proposals()[i];
                        let after = post.proposals()[i];
                        &&& post.proposals() == pre.proposals().update(i, after)
                        &&& after.votes@.len() == before.votes@.len() + 1
                        &&& after.votes@.drop_last() == before.votes@
                        &&& r is Ok
                        &&& *r->Ok_0 == after.votes@.last()
                        &&& r->Ok_0.voter == voter
                        &&& r->Ok_0.support == support
                        &&& r->Ok_0.timestamp == now
                        &&& r->Ok_0.weight == pre.vote_weight(voter, token_balance, now)
                        &&& r->Ok_0.delegation_from is None
                        &&& after.id == before.id && after.status == before.status
                        &&& post.delegations() == pre.delegations()
                    },
                })
    &&& (post.supply() == pre.supply())
    &&& (post.counter() == pre.counter())
}

/// How closing a vote at `now` relates the engine before and after to the result.
pub open spec fn finalize_post(
    pre: GovernanceEngine,
    post: GovernanceEngine,
    proposal_id: &str,
    now: u64,
    r: Result<ProposalStatus, GovernanceError>,
) -> bool {
    &&& (post.wf())
    &&& (!has_proposal(pre.proposals(), proposal_id@) ==> (r matches Err(
        GovernanceError::ProposalNotFound,
    ) && post == pre))
    &&& (has_proposal(pre.proposals(), proposal_id@) ==> exists|i: int|
                #![trigger pre.proposals()[i]]
                proposal_at(pre.proposals(), proposal_id@, i) && {
                    let before = pre.proposals()[i];
                    if before.status != ProposalStatus::Voting || (before.voting_ends_at is Some
                        && now < before.voting_ends_at->0) {
                        r == Ok::<ProposalStatus, GovernanceError>(before.status) && post == pre
                    } else {
                        &&& r == Ok::<ProposalStatus, GovernanceError>(pre.vote_outcome(before))
                        &&& post.proposals() == pre.proposals().update(
                            i,
                            Proposal { status: pre.vote_outcome(before), ..before },
                        )
                    }
                })
    &&& (post.delegations() == pre.delegations())
    &&& (post.supply() == pre.supply())
    &&& (post.counter() == pre.counter())
}

/// How executing a proposal at `now` relates the engine before and after to the result.
pub open spec fn execute_post(
    pre: GovernanceEngine,
    post: GovernanceEngine,
    proposal_id: &str,
    now: u64,
    r: Result<String, GovernanceError>,
) -> bool {
    &&& (!has_proposal(pre.proposals(), proposal_id@) ==> (r matches Err(
        GovernanceError::ProposalNotFound,
    ) && post == pre))
    &&& (has_proposal(pre.proposals(), proposal_id@) ==> exists|i: int|
                #![trigger pre.proposals()[i]]
                proposal_at(pre.proposals(), proposal_id@, i) && {
                    let before = pre.proposals()[i];
                    if before.status != ProposalStatus::Passed {
                        (r matches Err(GovernanceError::CannotExecute) && post == pre)
                    } else if before.sophia_evaluation is Some
                        && before.sophia_evaluation->0.decision == SophiaDecision::Veto {
                        (r matches Err(GovernanceError::VetoedProposal) && post == pre)
                    } else {
                        let after = post.proposals()[i];
                        &&& r is Ok
                        &&& r->Ok_0@ == hex_of(sha256_of(execution_preimage(proposal_id@, now)))
                        &&& post.proposals() == pre.proposals().update(i, after)
                        &&& after.status == ProposalStatus::Executed
                        &&& after.executed_at == Some(now)
                        &&& after.execution_tx_hash is Some
                        &&& after.execution_tx_hash->0@ == r->Ok_0@
                        &&& after.id == before.id && after.votes == before.votes
                        &&& post.reputations() == pre.reputations()
                    }
                })
    &&& (post.delegations() == pre.delegations())
    &&& (post.supply() == pre.supply())
    &&& (post.counter() == pre.counter())
}

/// How delegating at `now` relates the engine before and after to the result.
pub open spec fn delegate_post(
    pre: GovernanceEngine,
    post: GovernanceEngine,
    from_wallet: WalletAddress,
    to_wallet: WalletAddress,
    weight: u64,
    duration_days: Option<u64>,
    now: u64,
    r: Result<&Delegation, GovernanceError>,
) -> bool {
    &&& (weight > FULL_WEIGHT ==> (r matches Err(GovernanceError::InvalidDelegationWeight)
                && post == pre))
    &&& (weight <= FULL_WEIGHT ==> {
                &&& r is Ok
                &&& *r->Ok_0 == post.delegations().last()
                &&& post.delegations().len() == pre.delegations().len() + 1
                &&& post.delegations().drop_last() == pre.delegations()
                &&& r->Ok_0.from_wallet == from_wallet
                &&& r->Ok_0.to_wallet == to_wallet
                &&& r->Ok_0.weight == weight
                &&& r->Ok_0.created_at == now
                &&& r->Ok_0.expires_at == match duration_days {
                    Some(days) => Some(saturate((now + days * 86_400) as nat)),
                    None => None,
                }
                &&& post.proposals() == pre.proposals()
                &&& post.reputations() == pre.reputations()
            })
}

/// The bytes hashed into an execution hash: `id:now`, the time in decimal.
pub open spec fn execution_preimage(id: Seq<char>, now: u64) -> Seq<u8> {
    encode_utf8(id) + seq![58u8] + decimal_of(now as nat)
}

fn exact_weights(vs: &Vec<Vote>) -> (r: (u128, u128))
    ensures
        r.0 == yes_weight(vs@),
        r.1 == all_weight(vs@),
        r.0 <= r.1,
{
    let mut yes: u128 = 0;
    let mut all: u128 = 0;
    let mut i: usize = 0;
    while i < vs.len()
        invariant
            i <= vs@.len(),
            yes == weight_sum(vs@.take(i as int), |v: Vote| v.support),
            all == weight_sum(vs@.take(i as int), |v: Vote| true),
            yes <= all,
            all <= i * 0xFFFF_FFFF_FFFF_FFFFu128,
            i <= usize::MAX,
        decreases vs@.len() - i,
    {
        proof {
            assert(vs@.take(i + 1).drop_last() == vs@.take(i as int));
            assert(vs@.take(i + 1).last() == vs@[i as int]);
        }
        if vs[i].support {
            yes = yes + vs[i].weight as u128;
        }
        all = all + vs[i].weight as u128;
        i = i + 1;
    }
    proof {
        assert(vs@.take(vs@.len() as int) == vs@);
    }
    (yes, all)
}

proof fn lemma_score_bounded(rs: Seq<NodeReputation>, w: WalletAddress)
    requires
        forall|i: int| 0 <= i < rs.len() ==> (#[trigger] rs[i]).score <= MAX_SCORE,
    ensures
        score_of(rs, w) <= MAX_SCORE,
    decreases rs.len(),
{
    if rs.len() > 0 {
        let rest = rs.drop_first();
        assert forall|i: int| 0 <= i < rest.len() implies (#[trigger] rest[i]).score <= MAX_SCORE by {
            assert(rest[i] == rs[i + 1]);
        }
        lemma_score_bounded(rest, w);
        assert(rs[0].score <= MAX_SCORE);
    }
}

proof fn lemma_decimal_text_len(n: nat)
    ensures
        decimal_text(n).len() >= 1,
        decimal_text(n).len() == 1 <==> n < 10,
        decimal_text(n).len() == 2 <==> 10 <= n < 100,
        decimal_text(n).len() == 3 <==> 100 <= n < 1000,
        decimal_text(n).len() >= 4 <==> n >= 1000,
    decreases n,
{
    if n >= 10 {
        lemma_decimal_text_len(n / 10);
    }
}

} // verus!