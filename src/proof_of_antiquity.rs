//! The proof-of-antiquity engine: proof intake within a block window,
//! anti-emulation checks, reward apportionment and block sealing.
use vstd::prelude::*;
use vstd::string::*;
use vstd::utf8::encode_utf8;
use crate::core_types::{
    tier_of, multiplier_of, HardwareCharacteristics, HardwareInfo, HardwareTier,
    InstructionTiming, MiningProof, WalletAddress, Block, BlockHash, BlockMiner,
};
use crate::hashing::{
    append_bytes, bytes_equal, decimal_bytes, decimal_of, hex_encode, hex_of, sha256, sha256_of,
};
use crate::merkle::{calculate_merkle_root, merkle_root_of};
use crate::rewards::{lemma_reward_conservation, reward_share, rewards_sum, sum_of};

verus! {

/// Reward handed out per block, in smallest units (one whole token).
pub const BLOCK_REWARD: u64 = 100_000_000;

/// Smallest declared multiplier accepted, in hundredths.
pub const MIN_MULTIPLIER_THRESHOLD: u32 = 10;

/// Largest declared multiplier accepted, in hundredths.
pub const MAX_DECLARED_MULTIPLIER: u32 = 400;

/// Multipliers are capped at the Ancient tier's, in hundredths.
pub const MULTIPLIER_CAP: u32 = 350;

/// How far a declared multiplier may stray from its tier's, in hundredths.
pub const MULTIPLIER_TOLERANCE: u32 = 20;

/// Oldest plausible hardware age in years.
pub const MAX_HARDWARE_AGE: u32 = 50;

/// Length of the block window in seconds.
pub const BLOCK_WINDOW_SECONDS: u64 = 120;

/// Maximum miners per block.
pub const MAX_MINERS_PER_BLOCK: usize = 100;

/// Anti-emulation check interval in seconds.
pub const ANTI_EMULATION_CHECK_INTERVAL: u64 = 300;

/// Current year for the antiquity score.
pub const CURRENT_YEAR: u32 = 2025;

/// Relies on `std::time::SystemTime::now`: seconds since the Unix epoch, or 0
/// when the clock stands before it. Nothing is promised of the value.
#[verifier::external_body]
pub fn current_timestamp() -> (r: u64) {
    std::time::SystemTime::now()
        .duration_since(std::time::UNIX_EPOCH)
        .unwrap_or(std::time::Duration::ZERO)
        .as_secs()
}

/// Expected cache size ranges of a CPU family, in KB.
#[derive(Debug, Clone, Copy)]
pub struct CacheRanges {
    pub l1_min: u32,
    pub l1_max: u32,
    pub l2_min: u32,
    pub l2_max: u32,
}

/// The signature of a CPU family.
#[derive(Debug, Clone)]
pub struct CpuSignature {
    pub family: u32,
    pub expected_flags: Vec<String>,
    pub cache_ranges: CacheRanges,
}

/// Expected cycle range of an instruction.
#[derive(Debug, Clone)]
pub struct TimingBaseline {
    pub instruction: String,
    pub min_cycles: u64,
    pub max_cycles: u64,
}

/// Proof validation errors.
#[derive(Debug)]
pub enum ProofError {
    BlockWindowClosed,
    DuplicateSubmission,
    BlockFull,
    InvalidMultiplier,
    TierMismatch,
    SuspiciousAge,
    HardwareAlreadyRegistered(WalletAddress),
    SuspiciousHardware(String),
    EmulationDetected,
    InvalidSignature,
}

/// The human-readable text of an error.
pub open spec fn proof_error_text(e: ProofError) -> Seq<char> {
    match e {
        ProofError::BlockWindowClosed => "Block window has closed"@,
        ProofError::DuplicateSubmission => "Already submitted proof for this block"@,
        ProofError::BlockFull => "Block has reached maximum miners"@,
        ProofError::InvalidMultiplier => "Invalid multiplier value"@,
        ProofError::TierMismatch => "Tier does not match hardware age"@,
        ProofError::SuspiciousAge => "Hardware age is suspicious"@,
        ProofError::HardwareAlreadyRegistered(w) => "Hardware already registered to wallet "@ + w.0@,
        ProofError::SuspiciousHardware(m) => "Suspicious hardware: "@ + m@,
        ProofError::EmulationDetected => "Emulation detected"@,
        ProofError::InvalidSignature => "Invalid signature"@,
    }
}

impl ProofError {
    /// The human-readable text of this error.
    pub fn message(&self) -> (r: String)
        ensures
            r@ == proof_error_text(*self),
    {
        match self {
            ProofError::BlockWindowClosed => String::from_str("Block window has closed"),
            ProofError::DuplicateSubmission => String::from_str(
                "Already submitted proof for this block",
            ),
            ProofError::BlockFull => String::from_str("Block has reached maximum miners"),
            ProofError::InvalidMultiplier => String::from_str("Invalid multiplier value"),
            ProofError::TierMismatch => String::from_str("Tier does not match hardware age"),
            ProofError::SuspiciousAge => String::from_str("Hardware age is suspicious"),
            ProofError::HardwareAlreadyRegistered(w) => String::from_str(
                "Hardware already registered to wallet ",
            ).concat(w.0.as_str()),
            ProofError::SuspiciousHardware(m) => String::from_str("Suspicious hardware: ").concat(
                m.as_str(),
            ),
            ProofError::EmulationDetected => String::from_str("Emulation detected"),
            ProofError::InvalidSignature => String::from_str("Invalid signature"),
        }
    }
}

/// What the inline anti-emulation check makes of reported characteristics.
#[derive(Debug, Clone, Copy, PartialEq, Eq, Structural)]
pub enum HardwareVerdict {
    Pass,
    CacheMismatch,
    MissingFlags,
    TimingOutOfRange,
}

/// The first signature of the given family.
pub open spec fn find_signature(sigs: Seq<CpuSignature>, family: u32) -> Option<CpuSignature>
    decreases sigs.len(),
{
    if sigs.len() == 0 {
        None
    } else if sigs[0].family == family {
        Some(sigs[0])
    } else {
        find_signature(sigs.drop_first(), family)
    }
}

/// The first baseline of the given instruction.
pub open spec fn find_baseline(bs: Seq<TimingBaseline>, name: Seq<char>) -> Option<TimingBaseline>
    decreases bs.len(),
{
    if bs.len() == 0 {
        None
    } else if bs[0].instruction@ == name {
        Some(bs[0])
    } else {
        find_baseline(bs.drop_first(), name)
    }
}

/// Whether `flag` is among `flags`.
pub open spec fn has_flag(flags: Seq<String>, flag: Seq<char>) -> bool {
    exists|j: int| 0 <= j < flags.len() && #[trigger] flags[j]@ == flag
}

/// Whether every expected flag is among the reported ones.
pub open spec fn all_flags_present(expected: Seq<String>, flags: Seq<String>) -> bool {
    forall|i: int| 0 <= i < expected.len() ==> has_flag(flags, #[trigger] expected[i]@)
}

/// Whether a measured timing lies outside its baseline (no baseline: it does not).
pub open spec fn timing_out_of_range(bs: Seq<TimingBaseline>, t: InstructionTiming) -> bool {
    match find_baseline(bs, t.instruction@) {
        Some(b) => t.cycles < b.min_cycles || t.cycles > b.max_cycles,
        None => false,
    }
}

/// The verdict of the inline check on reported characteristics.
pub open spec fn hardware_verdict(
    sigs: Seq<CpuSignature>,
    bs: Seq<TimingBaseline>,
    c: HardwareCharacteristics,
) -> HardwareVerdict {
    let timings_bad = exists|i: int|
        0 <= i < c.instruction_timings@.len() && #[trigger] timing_out_of_range(
            bs,
            c.instruction_timings@[i],
        );
    let timing_verdict = if timings_bad {
        HardwareVerdict::TimingOutOfRange
    } else {
        HardwareVerdict::Pass
    };
    match find_signature(sigs, c.cpu_family) {
        Some(s) => if c.cache_sizes.l1_data < s.cache_ranges.l1_min || c.cache_sizes.l1_data
            > s.cache_ranges.l1_max {
            HardwareVerdict::CacheMismatch
        } else if !all_flags_present(s.expected_flags@, c.cpu_flags@) {
            HardwareVerdict::MissingFlags
        } else {
            timing_verdict
        },
        None => timing_verdict,
    }
}

/// Whether a check's result is the one its verdict calls for.
pub open spec fn verdict_result(v: HardwareVerdict, r: Result<(), ProofError>) -> bool {
    match v {
        HardwareVerdict::Pass => r is Ok,
        HardwareVerdict::CacheMismatch => r is Err && r->Err_0 is SuspiciousHardware
            && r->Err_0->SuspiciousHardware_0@ == "L1 cache size mismatch"@,
        HardwareVerdict::MissingFlags => r is Err && r->Err_0 is SuspiciousHardware
            && r->Err_0->SuspiciousHardware_0@ == "Missing expected CPU flags"@,
        HardwareVerdict::TimingOutOfRange => r is Err && r->Err_0 is EmulationDetected,
    }
}

/// The inline anti-emulation verifier: CPU family signatures and instruction
/// timing baselines.
#[derive(Debug)]
pub struct AntiEmulationVerifier {
    cpu_signatures: Vec<CpuSignature>,
    timing_baselines: Vec<TimingBaseline>,
}

/// Whether a signature is of the given family, cache range and flags.
pub open spec fn signature_is(
    s: CpuSignature,
    family: u32,
    l1: (u32, u32),
    l2: (u32, u32),
    flags: Seq<Seq<char>>,
) -> bool {
    &&& s.family == family
    &&& s.cache_ranges.l1_min == l1.0 && s.cache_ranges.l1_max == l1.1
    &&& s.cache_ranges.l2_min == l2.0 && s.cache_ranges.l2_max == l2.1
    &&& s.expected_flags@.len() == flags.len()
    &&& forall|i: int| 0 <= i < flags.len() ==> (#[trigger] s.expected_flags@[i])@ == flags[i]
}

/// The known families: PowerPC G4, 486, Pentium and P6, with their L1 and L2
/// cache ranges in KB and the flags they must report.
pub open spec fn standard_signatures(sigs: Seq<CpuSignature>) -> bool {
    &&& sigs.len() == 4
    &&& signature_is(sigs[0], 74, (32, 64), (256, 2048), seq!["altivec"@, "ppc"@])
    &&& signature_is(sigs[1], 4, (8, 16), (0, 512), seq!["fpu"@])
    &&& signature_is(sigs[2], 5, (16, 32), (256, 512), seq!["fpu"@, "vme"@, "de"@])
    &&& signature_is(sigs[3], 6, (16, 32), (256, 2048), seq!["fpu"@, "vme"@, "de"@, "pse"@])
}

fn string_vec2(a: &str, b: &str) -> (r: Vec<String>)
    ensures
        r@.len() == 2,
        r@[0]@ == a@,
        r@[1]@ == b@,
{
    let mut v: Vec<String> = Vec::new();
    v.push(a.to_owned());
    v.push(b.to_owned());
    v
}

impl AntiEmulationVerifier {
    /// No family has two signatures and no instruction two baselines.
    pub open spec fn wf(&self) -> bool {
        &&& forall|i: int, j: int|
            0 <= i < j < self.signatures().len() ==> (#[trigger] self.signatures()[i]).family
                != (#[trigger] self.signatures()[j]).family
        &&& forall|i: int, j: int|
            0 <= i < j < self.baselines().len() ==> (#[trigger] self.baselines()[i]).instruction@
                != (#[trigger] self.baselines()[j]).instruction@
    }

    /// The family signatures the verifier checks against.
    pub closed spec fn signatures(&self) -> Seq<CpuSignature> {
        self.cpu_signatures@
    }

    /// The instruction timing baselines the verifier checks against.
    pub closed spec fn baselines(&self) -> Seq<TimingBaseline> {
        self.timing_baselines@
    }

    /// A verifier that knows the PowerPC G4 (74), 486 (4), Pentium (5) and P6
    /// (6) families and no timing baselines.
    pub fn new() -> (r: Self)
        ensures
            r.wf(),
            standard_signatures(r.signatures()),
            r.baselines().len() == 0,
    {
        let mut verifier = AntiEmulationVerifier {
            cpu_signatures: Vec::new(),
            timing_baselines: Vec::new(),
        };
        verifier.initialize_signatures();
        proof {
            assert(verifier.signatures().subrange(0, 4) == verifier.signatures());
        }
        verifier
    }

    /// Adds the known family signatures.
    pub fn initialize_signatures(&mut self)
        ensures
            final(self).signatures().len() == old(self).signatures().len() + 4,
            final(self).signatures().subrange(0, old(self).signatures().len() as int)
                == old(self).signatures(),
            standard_signatures(
                final(self).signatures().subrange(
                    old(self).signatures().len() as int,
                    old(self).signatures().len() as int + 4,
                ),
            ),
            final(self).baselines() == old(self).baselines(),
    {
        let ghost n = self.cpu_signatures@.len();
        self.cpu_signatures.push(CpuSignature {
            family: 74,
            expected_flags: string_vec2("altivec", "ppc"),
            cache_ranges: CacheRanges { l1_min: 32, l1_max: 64, l2_min: 256, l2_max: 2048 },
        });
        let mut f486: Vec<String> = Vec::new();
        f486.push("fpu".to_owned());
        self.cpu_signatures.push(CpuSignature {
            family: 4,
            expected_flags: f486,
            cache_ranges: CacheRanges { l1_min: 8, l1_max: 16, l2_min: 0, l2_max: 512 },
        });
        let mut f5 = string_vec2("fpu", "vme");
        f5.push("de".to_owned());
        self.cpu_signatures.push(CpuSignature {
            family: 5,
            expected_flags: f5,
            cache_ranges: CacheRanges { l1_min: 16, l1_max: 32, l2_min: 256, l2_max: 512 },
        });
        let mut f6 = string_vec2("fpu", "vme");
        f6.push("de".to_owned());
        f6.push("pse".to_owned());
        self.cpu_signatures.push(CpuSignature {
            family: 6,
            expected_flags: f6,
            cache_ranges: CacheRanges { l1_min: 16, l1_max: 32, l2_min: 256, l2_max: 2048 },
        });
        proof {
            assert(self.cpu_signatures@.subrange(0, n as int) == old(self).cpu_signatures@);
            let added = self.cpu_signatures@.subrange(n as int, n as int + 4);
            assert(added[0] == self.cpu_signatures@[n as int]);
            assert(added[1] == self.cpu_signatures@[n as int + 1]);
            assert(added[2] == self.cpu_signatures@[n as int + 2]);
            assert(added[3] == self.cpu_signatures@[n as int + 3]);
        }
    }

    /// Checks reported characteristics against the family's signature and the
    /// timing baselines; unknown families pass the signature part.
    pub fn verify(&self, characteristics: &HardwareCharacteristics) -> (r: Result<(), ProofError>)
        ensures
            verdict_result(
                hardware_verdict(self.signatures(), self.baselines(), *characteristics),
                r,
            ),
    {
        let c = characteristics;
        match self.find_signature_exec(c.cpu_family) {
            Some(i) => {
                let sig = &self.cpu_signatures[i];
                if c.cache_sizes.l1_data < sig.cache_ranges.l1_min || c.cache_sizes.l1_data
                    > sig.cache_ranges.l1_max {
                    return Err(ProofError::SuspiciousHardware("L1 cache size mismatch".to_owned()));
                }
                if !flags_present(&sig.expected_flags, &c.cpu_flags) {
                    return Err(
                        ProofError::SuspiciousHardware("Missing expected CPU flags".to_owned()),
                    );
                }
            },
            None => {},
        }
        let mut k: usize = 0;
        while k < c.instruction_timings.len()
            invariant
                c == characteristics,
                k <= c.instruction_timings@.len(),
                match find_signature(self.cpu_signatures@, c.cpu_family) {
                    Some(s) => s.cache_ranges.l1_min <= c.cache_sizes.l1_data
                        <= s.cache_ranges.l1_max && all_flags_present(
                        s.expected_flags@,
                        c.cpu_flags@,
                    ),
                    None => true,
                },
                forall|j: int|
                    0 <= j < k ==> !#[trigger] timing_out_of_range(
                        self.timing_baselines@,
                        c.instruction_timings@[j],
                    ),
            decreases c.instruction_timings@.len() - k,
        {
            let t = &c.instruction_timings[k];
            match self.find_baseline_exec(&t.instruction) {
                Some(b) => {
                    let base = &self.timing_baselines[b];
                    if t.cycles < base.min_cycles || t.cycles > base.max_cycles {
                        proof {
                            assert(timing_out_of_range(
                                self.timing_baselines@,
                                c.instruction_timings@[k as int],
                            ));
                        }
                        return Err(ProofError::EmulationDetected);
                    }
                },
                None => {},
            }
            k = k + 1;
        }
        Ok(())
    }

    fn find_signature_exec(&self, family: u32) -> (r: Option<usize>)
        ensures
            match find_signature(self.cpu_signatures@, family) {
                Some(s) => r matches Some(i) && i < self.cpu_signatures@.len()
                    && self.cpu_signatures@[i as int] == s,
                None => r is None,
            },
    {
        let mut i: usize = 0;
        proof {
            assert(self.cpu_signatures@.subrange(0, self.cpu_signatures@.len() as int)
                == self.cpu_signatures@);
        }
        while i < self.cpu_signatures.len()
            invariant
                i <= self.cpu_signatures@.len(),
                find_signature(self.cpu_signatures@, family) == find_signature(
                    self.cpu_signatures@.subrange(i as int, self.cpu_signatures@.len() as int),
                    family,
                ),
            decreases self.cpu_signatures@.len() - i,
        {
            let ghost rest = self.cpu_signatures@.subrange(i as int, self.cpu_signatures@.len() as int);
            if self.cpu_signatures[i].family == family {
                return Some(i);
            }
            proof {
                assert(rest.drop_first() == self.cpu_signatures@.subrange(
                    i + 1,
                    self.cpu_signatures@.len() as int,
                ));
            }
            i = i + 1;
        }
        None
    }

    fn find_baseline_exec(&self, name: &String) -> (r: Option<usize>)
        ensures
            match find_baseline(self.timing_baselines@, name@) {
                Some(b) => r matches Some(i) && i < self.timing_baselines@.len()
                    && self.timing_baselines@[i as int] == b,
                None => r is None,
            },
    {
        let mut i: usize = 0;
        proof {
            assert(self.timing_baselines@.subrange(0, self.timing_baselines@.len() as int)
                == self.timing_baselines@);
        }
        while i < self.timing_baselines.len()
            invariant
                i <= self.timing_baselines@.len(),
                find_baseline(self.timing_baselines@, name@) == find_baseline(
                    self.timing_baselines@.subrange(i as int, self.timing_baselines@.len() as int),
                    name@,
                ),
            decreases self.timing_baselines@.len() - i,
        {
            let ghost rest = self.timing_baselines@.subrange(
                i as int,
                self.timing_baselines@.len() as int,
            );
            if self.timing_baselines[i].instruction == *name {
                return Some(i);
            }
            proof {
                assert(rest.drop_first() == self.timing_baselines@.subrange(
                    i + 1,
                    self.timing_baselines@.len() as int,
                ));
            }
            i = i + 1;
        }
        None
    }
}

/// Whether every expected flag occurs among the reported flags.
pub fn flags_present(expected: &Vec<String>, flags: &Vec<String>) -> (r: bool)
    ensures
        r == all_flags_present(expected@, flags@),
{
    let mut i: usize = 0;
    while i < expected.len()
        invariant
            i <= expected@.len(),
            forall|k: int| 0 <= k < i ==> has_flag(flags@, #[trigger] expected@[k]@),
        decreases expected@.len() - i,
    {
        let mut found = false;
        let mut j: usize = 0;
        while j < flags.len()
            invariant
                j <= flags@.len(),
                i < expected@.len(),
                found ==> has_flag(flags@, expected@[i as int]@),
                !found ==> forall|m: int| 0 <= m < j ==> #[trigger] flags@[m]@ != expected@[i as int]@,
            decreases flags@.len() - j,
        {
            if flags[j] == expected[i] {
                found = true;
            }
            j = j + 1;
        }
        if !found {
            proof {
                assert(!has_flag(flags@, expected@[i as int]@));
            }
            return false;
        }
        i = i + 1;
    }
    true
}

} // verus!

verus! {

/// A proof accepted into the current block window.
#[derive(Debug, Clone)]
pub struct ValidatedProof {
    pub wallet: WalletAddress,
    pub hardware: HardwareInfo,
    /// Capped multiplier, in hundredths.
    pub multiplier: u32,
    pub anti_emulation_hash: [u8; 32],
    pub validated_at: u64,
}

/// A hardware fingerprint bound to the wallet that first submitted it.
#[derive(Debug, Clone)]
pub struct HardwareBinding {
    pub fingerprint: [u8; 32],
    pub wallet: WalletAddress,
}

/// Result of an accepted submission.
#[derive(Debug)]
pub struct SubmitResult {
    pub accepted: bool,
    pub pending_miners: usize,
    /// The caller's capped multiplier, in hundredths.
    pub your_multiplier: u32,
    pub block_completes_in: u64,
}

/// State of the block window being assembled.
#[derive(Debug)]
pub struct BlockStatus {
    pub pending_proofs: usize,
    /// Sum of the pending multipliers, in hundredths.
    pub total_multipliers: u64,
    pub block_age: u64,
    pub time_remaining: u64,
}

/// What `submit_proof` decides for a proof, in the order the checks run.
#[derive(Debug, Clone)]
pub enum SubmitVerdict {
    WindowClosed,
    Duplicate,
    Full,
    SuspiciousAge,
    TierMismatch,
    MultiplierOutOfBounds,
    Hardware(HardwareVerdict),
    AlreadyRegistered(WalletAddress),
    MultiplierOffTier,
    Accept,
}

/// Seconds since the window opened (none when the clock stands before it).
pub open spec fn elapsed_since(start: u64, now: u64) -> int {
    if now >= start {
        now - start
    } else {
        0
    }
}

/// Whether a proof from `wallet` is pending.
pub open spec fn wallet_pending(ps: Seq<ValidatedProof>, wallet: Seq<char>) -> bool {
    exists|i: int| 0 <= i < ps.len() && #[trigger] ps[i].wallet.0@ == wallet
}

/// The bytes whose digest fingerprints a piece of hardware:
/// `model:generation:unique-id`, the id empty without characteristics.
pub open spec fn fingerprint_preimage(hw: HardwareInfo) -> Seq<u8> {
    let uid = match hw.characteristics {
        Some(c) => encode_utf8(c.unique_id@),
        None => Seq::<u8>::empty(),
    };
    encode_utf8(hw.model@) + seq![58u8] + encode_utf8(hw.generation@) + seq![58u8] + uid
}

/// The fingerprint of a piece of hardware.
pub open spec fn fingerprint_of(hw: HardwareInfo) -> Seq<u8> {
    sha256_of(fingerprint_preimage(hw))
}

/// The wallet bound to a fingerprint, if any.
pub open spec fn bound_wallet(bs: Seq<HardwareBinding>, fp: Seq<u8>) -> Option<WalletAddress>
    decreases bs.len(),
{
    if bs.len() == 0 {
        None
    } else if bs[0].fingerprint@ == fp {
        Some(bs[0].wallet)
    } else {
        bound_wallet(bs.drop_first(), fp)
    }
}

/// Whether a binding exists and names a wallet other than `w`.
pub open spec fn bound_to_other(b: Option<WalletAddress>, w: WalletAddress) -> bool {
    match b {
        Some(bw) => bw.0@ != w.0@,
        None => false,
    }
}

/// Distance between a declared multiplier and its tier's.
pub open spec fn multiplier_gap(m: nat, t: HardwareTier) -> nat {
    if m >= multiplier_of(t) {
        (m - multiplier_of(t)) as nat
    } else {
        (multiplier_of(t) - m) as nat
    }
}

/// The plausibility checks on declared hardware, in order.
pub open spec fn hardware_sanity(hw: HardwareInfo) -> Option<SubmitVerdict> {
    if hw.age_years > MAX_HARDWARE_AGE {
        Some(SubmitVerdict::SuspiciousAge)
    } else if hw.tier != tier_of(hw.age_years as int) {
        Some(SubmitVerdict::TierMismatch)
    } else if hw.multiplier < MIN_MULTIPLIER_THRESHOLD || hw.multiplier > MAX_DECLARED_MULTIPLIER {
        Some(SubmitVerdict::MultiplierOutOfBounds)
    } else {
        None
    }
}

/// The smaller of a multiplier and the cap.
pub open spec fn capped(m: nat) -> nat {
    if m < MULTIPLIER_CAP {
        m
    } else {
        MULTIPLIER_CAP as nat
    }
}

/// Whether an error is the one a verdict calls for.
pub open spec fn verdict_error(v: SubmitVerdict, e: ProofError) -> bool {
    match v {
        SubmitVerdict::WindowClosed => e is BlockWindowClosed,
        SubmitVerdict::Duplicate => e is DuplicateSubmission,
        SubmitVerdict::Full => e is BlockFull,
        SubmitVerdict::SuspiciousAge => e is SuspiciousAge,
        SubmitVerdict::TierMismatch => e is TierMismatch,
        SubmitVerdict::MultiplierOutOfBounds => e is InvalidMultiplier,
        SubmitVerdict::Hardware(h) => verdict_result(h, Err(e)),
        SubmitVerdict::AlreadyRegistered(w) => e is HardwareAlreadyRegistered
            && e->HardwareAlreadyRegistered_0 == w,
        SubmitVerdict::MultiplierOffTier => e is InvalidMultiplier,
        SubmitVerdict::Accept => false,
    }
}

/// The multipliers of a list of proofs, in order.
pub open spec fn multipliers(ps: Seq<ValidatedProof>) -> Seq<nat> {
    Seq::new(ps.len(), |i: int| ps[i].multiplier as nat)
}

/// The bytes whose digest is a block's hash:
/// `height:previous-hash-in-hex:total-reward:timestamp`, numbers in decimal.
pub open spec fn block_preimage(height: nat, previous: Seq<u8>, total: nat, timestamp: nat) -> Seq<
    u8,
> {
    decimal_of(height) + seq![58u8] + encode_utf8(hex_of(previous)) + seq![58u8] + decimal_of(total)
        + seq![58u8] + decimal_of(timestamp)
}

/// Whether `b` is the block sealed from the pending proofs `ps`: one entry per
/// proof in order, each rewarded `floor(BLOCK_REWARD * m / total)`, with the
/// merkle root over the entries and the hash over the block's metadata.
pub open spec fn sealed_from(
    ps: Seq<ValidatedProof>,
    b: Block,
    previous_hash: [u8; 32],
    height: u64,
    now: u64,
) -> bool {
    let total = sum_of(multipliers(ps));
    &&& b.height == height
    &&& b.previous_hash.0 == previous_hash
    &&& b.timestamp == now
    &&& b.miners@.len() == ps.len()
    &&& forall|i: int|
        0 <= i < ps.len() ==> {
            &&& (#[trigger] b.miners@[i]).wallet == ps[i].wallet
            &&& b.miners@[i].hardware == ps[i].hardware.model
            &&& b.miners@[i].multiplier == ps[i].multiplier
            &&& b.miners@[i].reward == reward_share(
                BLOCK_REWARD as nat,
                ps[i].multiplier as nat,
                total,
            )
        }
    &&& b.total_reward == rewards_sum(BLOCK_REWARD as nat, multipliers(ps), total)
    &&& b.merkle_root@ == merkle_root_of(b.miners@)
    &&& b.hash.0@ == sha256_of(
        block_preimage(height as nat, previous_hash@, b.total_reward as nat, now as nat),
    )
    &&& b.state_root@ == Seq::new(32, |i: int| 0u8)
}

/// The proof-of-antiquity engine for one block window at a time.
#[derive(Debug)]
pub struct ProofOfAntiquity {
    pending_proofs: Vec<ValidatedProof>,
    block_start_time: u64,
    known_hardware: Vec<HardwareBinding>,
    anti_emulation: AntiEmulationVerifier,
}

impl ProofOfAntiquity {
    /// Proofs accepted in the current window, in order of acceptance.
    pub closed spec fn pending(&self) -> Seq<ValidatedProof> {
        self.pending_proofs@
    }

    /// When the current window opened.
    pub closed spec fn window_start(&self) -> u64 {
        self.block_start_time
    }

    /// Fingerprint bindings, kept across windows.
    pub closed spec fn bindings(&self) -> Seq<HardwareBinding> {
        self.known_hardware@
    }

    /// The inline anti-emulation verifier.
    pub closed spec fn emulation_verifier(&self) -> AntiEmulationVerifier {
        self.anti_emulation
    }

    /// The engine's invariant: room for the window's proofs, multipliers
    /// between the floor and the cap, one proof per wallet and one binding per
    /// fingerprint.
    pub open spec fn wf(&self) -> bool {
        &&& self.pending().len() <= MAX_MINERS_PER_BLOCK
        &&& forall|i: int|
            0 <= i < self.pending().len() ==> MIN_MULTIPLIER_THRESHOLD <= (
            #[trigger] self.pending()[i]).multiplier <= MULTIPLIER_CAP
        &&& forall|i: int, j: int|
            0 <= i < j < self.pending().len() ==> (#[trigger] self.pending()[i]).wallet.0@
                != (#[trigger] self.pending()[j]).wallet.0@
        &&& forall|i: int, j: int|
            0 <= i < j < self.bindings().len() ==> (#[trigger] self.bindings()[i]).fingerprint@
                != (#[trigger] self.bindings()[j]).fingerprint@
        &&& self.emulation_verifier().wf()
    }

    /// What the engine decides for `proof` at time `now`.
    pub open spec fn submit_verdict(&self, proof: MiningProof, now: u64) -> SubmitVerdict {
        let hw = proof.hardware;
        if elapsed_since(self.window_start(), now) >= BLOCK_WINDOW_SECONDS {
            SubmitVerdict::WindowClosed
        } else if wallet_pending(self.pending(), proof.wallet.0@) {
            SubmitVerdict::Duplicate
        } else if self.pending().len() >= MAX_MINERS_PER_BLOCK {
            SubmitVerdict::Full
        } else if hardware_sanity(hw) is Some {
            hardware_sanity(hw)->0
        } else if hw.characteristics is Some && hardware_verdict(
            self.emulation_verifier().signatures(),
            self.emulation_verifier().baselines(),
            hw.characteristics->0,
        ) != HardwareVerdict::Pass {
            SubmitVerdict::Hardware(
                hardware_verdict(
                    self.emulation_verifier().signatures(),
                    self.emulation_verifier().baselines(),
                    hw.characteristics->0,
                ),
            )
        } else if bound_to_other(bound_wallet(self.bindings(), fingerprint_of(hw)), proof.wallet) {
            SubmitVerdict::AlreadyRegistered(bound_wallet(self.bindings(), fingerprint_of(hw))->0)
        } else if multiplier_gap(hw.multiplier as nat, hw.tier) > MULTIPLIER_TOLERANCE {
            SubmitVerdict::MultiplierOffTier
        } else {
            SubmitVerdict::Accept
        }
    }

    /// How a submission at time `now` relates the engine before (`self`) and
    /// after (`post`) to its result: a rejection leaves the engine as it was;
    /// an acceptance appends the capped proof and binds its fingerprint.
    pub open spec fn submit_post(
        &self,
        post: Self,
        proof: MiningProof,
        now: u64,
        r: Result<SubmitResult, ProofError>,
    ) -> bool {
        let v = self.submit_verdict(proof, now);
        if v is Accept {
            let fp = fingerprint_of(proof.hardware);
            let vp = ValidatedProof {
                wallet: proof.wallet,
                hardware: proof.hardware,
                multiplier: capped(proof.hardware.multiplier as nat) as u32,
                anti_emulation_hash: proof.anti_emulation_hash,
                validated_at: now,
            };
            &&& r is Ok
            &&& r->Ok_0.accepted
            &&& r->Ok_0.pending_miners == post.pending().len()
            &&& r->Ok_0.your_multiplier == capped(proof.hardware.multiplier as nat)
            &&& r->Ok_0.block_completes_in == BLOCK_WINDOW_SECONDS - elapsed_since(
                self.window_start(),
                now,
            )
            &&& post.pending() == self.pending().push(vp)
            &&& post.window_start() == self.window_start()
            &&& post.emulation_verifier() == self.emulation_verifier()
            &&& if bound_wallet(self.bindings(), fp) is Some {
                post.bindings() == self.bindings()
            } else {
                &&& post.bindings().len() == self.bindings().len() + 1
                &&& post.bindings().subrange(0, self.bindings().len() as int) == self.bindings()
                &&& post.bindings().last().fingerprint@ == fp
                &&& post.bindings().last().wallet == proof.wallet
            }
        } else {
            &&& r is Err
            &&& verdict_error(v, r->Err_0)
            &&& post == *self
        }
    }

    /// An engine whose first window opens now, by the system clock.
    pub fn new() -> (r: Self)
        ensures
            r.wf(),
            r.pending().len() == 0,
            r.bindings().len() == 0,
            standard_signatures(r.emulation_verifier().signatures()),
            r.emulation_verifier().baselines().len() == 0,
    {
        Self::new_at(current_timestamp())
    }

    /// An engine whose first window opens at `now`.
    pub fn new_at(now: u64) -> (r: Self)
        ensures
            r.wf(),
            r.pending().len() == 0,
            r.bindings().len() == 0,
            r.window_start() == now,
            standard_signatures(r.emulation_verifier().signatures()),
            r.emulation_verifier().baselines().len() == 0,
    {
        ProofOfAntiquity {
            pending_proofs: Vec::new(),
            block_start_time: now,
            known_hardware: Vec::new(),
            anti_emulation: AntiEmulationVerifier::new(),
        }
    }

    /// Submits a proof by the system clock's time.
    pub fn submit_proof(&mut self, proof: MiningProof) -> (r: Result<SubmitResult, ProofError>)
        requires
            old(self).wf(),
        ensures
            final(self).wf(),
            exists|now: u64| old(self).submit_post(*final(self), proof, now, r),
    {
        let now = current_timestamp();
        self.submit_proof_at(proof, now)
    }

    /// Submits a proof at time `now`: the checks run in the order of
    /// `submit_verdict`, and the first that fails decides the error.
    pub fn submit_proof_at(&mut self, proof: MiningProof, now: u64) -> (r: Result<
        SubmitResult,
        ProofError,
    >)
        requires
            old(self).wf(),
        ensures
            final(self).wf(),
            old(self).submit_post(*final(self), proof, now, r),
    {
        let elapsed: u64 = if now >= self.block_start_time {
            now - self.block_start_time
        } else {
            0
        };
        if elapsed >= BLOCK_WINDOW_SECONDS {
            return Err(ProofError::BlockWindowClosed);
        }
        if self.has_pending_wallet(&proof.wallet) {
            return Err(ProofError::DuplicateSubmission);
        }
        if self.pending_proofs.len() >= MAX_MINERS_PER_BLOCK {
            return Err(ProofError::BlockFull);
        }
        match validate_hardware(&proof.hardware) {
            Err(e) => {
                return Err(e);
            },
            Ok(()) => {},
        }
        match &proof.hardware.characteristics {
            Some(c) => {
                match self.anti_emulation.verify(c) {
                    Err(e) => {
                        return Err(e);
                    },
                    Ok(()) => {},
                }
            },
            None => {},
        }
        let fp = hash_hardware(&proof.hardware);
        let found = self.find_binding(&fp);
        match found {
            Some(i) => {
                if !(self.known_hardware[i].wallet.0 == proof.wallet.0) {
                    let owner = WalletAddress(self.known_hardware[i].wallet.0.clone());
                    return Err(ProofError::HardwareAlreadyRegistered(owner));
                }
            },
            None => {},
        }
        let m = proof.hardware.multiplier;
        let expected = proof.hardware.tier.multiplier();
        let gap: u32 = if m >= expected {
            m - expected
        } else {
            expected - m
        };
        if gap > MULTIPLIER_TOLERANCE {
            return Err(ProofError::InvalidMultiplier);
        }
        let capped_m: u32 = if m < MULTIPLIER_CAP {
            m
        } else {
            MULTIPLIER_CAP
        };
        let wallet_copy = WalletAddress(proof.wallet.0.clone());
        let validated = ValidatedProof {
            wallet: proof.wallet,
            hardware: proof.hardware,
            multiplier: capped_m,
            anti_emulation_hash: proof.anti_emulation_hash,
            validated_at: now,
        };
        self.pending_proofs.push(validated);
        if found.is_none() {
            self.known_hardware.push(HardwareBinding { fingerprint: fp, wallet: wallet_copy });
            proof {
                assert(self.known_hardware@.subrange(0, old(self).known_hardware@.len() as int)
                    == old(self).known_hardware@);
            }
        }
        Ok(
            SubmitResult {
                accepted: true,
                pending_miners: self.pending_proofs.len(),
                your_multiplier: capped_m,
                block_completes_in: BLOCK_WINDOW_SECONDS - elapsed,
            },
        )
    }

    /// Seals a block from the pending proofs by the system clock's time.
    pub fn process_block(&mut self, previous_hash: [u8; 32], height: u64) -> (r: Option<Block>)
        requires
            old(self).wf(),
        ensures
            final(self).wf(),
            final(self).pending().len() == 0,
            final(self).bindings() == old(self).bindings(),
            final(self).emulation_verifier() == old(self).emulation_verifier(),
            old(self).pending().len() == 0 <==> r is None,
            r is Some ==> sealed_from(
                old(self).pending(),
                r->0,
                previous_hash,
                height,
                final(self).window_start(),
            ),
    {
        let now = current_timestamp();
        self.process_block_at(previous_hash, height, now)
    }

    /// Seals a block at time `now` from the pending proofs, or gives `None`
    /// when there are none; either way a new window opens at `now`. Fingerprint
    /// bindings are kept.
    pub fn process_block_at(&mut self, previous_hash: [u8; 32], height: u64, now: u64) -> (r:
        Option<Block>)
        requires
            old(self).wf(),
        ensures
            final(self).wf(),
            final(self).pending().len() == 0,
            final(self).window_start() == now,
            final(self).bindings() == old(self).bindings(),
            final(self).emulation_verifier() == old(self).emulation_verifier(),
            old(self).pending().len() == 0 <==> r is None,
            r is Some ==> sealed_from(old(self).pending(), r->0, previous_hash, height, now),
    {
        if self.pending_proofs.len() == 0 {
            self.reset_block(now);
            return None;
        }
        let ghost ps = self.pending_proofs@;
        let ghost ms = multipliers(ps);
        let n = self.pending_proofs.len();
        let mut total: u64 = 0;
        let mut i: usize = 0;
        while i < n
            invariant
                n == self.pending_proofs@.len(),
                ps == self.pending_proofs@,
                ms == multipliers(ps),
                n <= MAX_MINERS_PER_BLOCK,
                forall|k: int|
                    0 <= k < n ==> MIN_MULTIPLIER_THRESHOLD <= (#[trigger] ps[k]).multiplier
                        <= MULTIPLIER_CAP,
                i <= n,
                total == sum_of(ms.take(i as int)),
                10 * i <= total <= 350 * i,
            decreases n - i,
        {
            proof {
                assert(ms.take(i + 1).drop_last() == ms.take(i as int));
            }
            total = total + self.pending_proofs[i].multiplier as u64;
            i = i + 1;
        }
        proof {
            assert(ms.take(n as int) == ms);
        }
        let mut miners: Vec<BlockMiner> = Vec::new();
        let mut distributed: u64 = 0;
        let mut j: usize = 0;
        while j < n
            invariant
                n == self.pending_proofs@.len(),
                ps == self.pending_proofs@,
                ms == multipliers(ps),
                n <= MAX_MINERS_PER_BLOCK,
                forall|k: int|
                    0 <= k < n ==> MIN_MULTIPLIER_THRESHOLD <= (#[trigger] ps[k]).multiplier
                        <= MULTIPLIER_CAP,
                total == sum_of(ms),
                total >= 10,
                j <= n,
                miners@.len() == j,
                distributed == rewards_sum(BLOCK_REWARD as nat, ms.take(j as int), total as nat),
                distributed <= j * 35_000_000_000,
                forall|k: int|
                    0 <= k < j ==> {
                        &&& (#[trigger] miners@[k]).wallet == ps[k].wallet
                        &&& miners@[k].hardware == ps[k].hardware.model
                        &&& miners@[k].multiplier == ps[k].multiplier
                        &&& miners@[k].reward == reward_share(
                            BLOCK_REWARD as nat,
                            ps[k].multiplier as nat,
                            total as nat,
                        )
                    },
            decreases n - j,
        {
            let p = &self.pending_proofs[j];
            let scaled: u64 = BLOCK_REWARD * p.multiplier as u64;
            let reward: u64 = scaled / total;
            proof {
                assert(ms.take(j + 1).drop_last() == ms.take(j as int));
                assert(ms.take(j + 1).last() == p.multiplier as nat);
                vstd::arithmetic::div_mod::lemma_div_is_ordered_by_denominator(
                    scaled as int,
                    1,
                    total as int,
                );
                assert(scaled <= 35_000_000_000) by (nonlinear_arith)
                    requires
                        scaled == 100_000_000 * p.multiplier,
                        p.multiplier <= 350,
                ;
            }
            distributed = distributed + reward;
            miners.push(
                BlockMiner {
                    wallet: WalletAddress(p.wallet.0.clone()),
                    hardware: p.hardware.model.clone(),
                    multiplier: p.multiplier,
                    reward,
                },
            );
            j = j + 1;
        }
        proof {
            assert(ms.take(n as int) == ms);
        }
        let mut header: Vec<u8> = decimal_bytes(height);
        header.push(58u8);
        let prev_hex = hex_encode(&previous_hash);
        append_bytes(&mut header, prev_hex.as_str().as_bytes());
        header.push(58u8);
        let total_text = decimal_bytes(distributed);
        append_bytes(&mut header, total_text.as_slice());
        header.push(58u8);
        let time_text = decimal_bytes(now);
        append_bytes(&mut header, time_text.as_slice());
        proof {
            assert(header@ =~= block_preimage(
                height as nat,
                previous_hash@,
                distributed as nat,
                now as nat,
            ));
        }
        let hash = sha256(header.as_slice());
        let merkle_root = calculate_merkle_root(&miners);
        let state_root = [0u8; 32];
        proof {
            assert(state_root@ =~= Seq::new(32, |i: int| 0u8));
        }
        let block = Block {
            height,
            hash: BlockHash::from_bytes(hash),
            previous_hash: BlockHash::from_bytes(previous_hash),
            timestamp: now,
            miners,
            total_reward: distributed,
            merkle_root,
            state_root,
        };
        self.reset_block(now);
        Some(block)
    }

    fn reset_block(&mut self, now: u64)
        requires
            old(self).wf(),
        ensures
            final(self).wf(),
            final(self).pending().len() == 0,
            final(self).window_start() == now,
            final(self).bindings() == old(self).bindings(),
            final(self).emulation_verifier() == old(self).emulation_verifier(),
    {
        self.pending_proofs.clear();
        self.block_start_time = now;
        proof {
            assert(self.pending_proofs@.len() == 0);
            assert(self.known_hardware@ == old(self).known_hardware@);
            assert(self.bindings() == old(self).bindings());
        }
    }

    /// The window's state by the system clock's time.
    pub fn get_status(&self) -> (r: BlockStatus)
        requires
            self.wf(),
        ensures
            exists|now: u64| self.status_at(now) == r,
    {
        self.get_status_at(current_timestamp())
    }

    /// The window's state at time `now`; nothing changes.
    pub open spec fn status_at(&self, now: u64) -> BlockStatus {
        let elapsed = elapsed_since(self.window_start(), now);
        BlockStatus {
            pending_proofs: self.pending().len() as usize,
            total_multipliers: sum_of(multipliers(self.pending())) as u64,
            block_age: elapsed as u64,
            time_remaining: if elapsed < BLOCK_WINDOW_SECONDS {
                (BLOCK_WINDOW_SECONDS - elapsed) as u64
            } else {
                0
            },
        }
    }

    /// The window's state at time `now`: pending count, summed multipliers,
    /// the window's age and the seconds left in it.
    pub fn get_status_at(&self, now: u64) -> (r: BlockStatus)
        requires
            self.wf(),
        ensures
            r == self.status_at(now),
    {
        let elapsed: u64 = if now >= self.block_start_time {
            now - self.block_start_time
        } else {
            0
        };
        let ghost ms = multipliers(self.pending_proofs@);
        let n = self.pending_proofs.len();
        let mut total: u64 = 0;
        let mut i: usize = 0;
        while i < n
            invariant
                n == self.pending_proofs@.len(),
                ms == multipliers(self.pending_proofs@),
                n <= MAX_MINERS_PER_BLOCK,
                forall|k: int|
                    0 <= k < n ==> (#[trigger] self.pending_proofs@[k]).multiplier
                        <= MULTIPLIER_CAP,
                i <= n,
                total == sum_of(ms.take(i as int)),
                total <= 350 * i,
            decreases n - i,
        {
            proof {
                assert(ms.take(i + 1).drop_last() == ms.take(i as int));
            }
            total = total + self.pending_proofs[i].multiplier as u64;
            i = i + 1;
        }
        proof {
            assert(ms.take(n as int) == ms);
        }
        BlockStatus {
            pending_proofs: n,
            total_multipliers: total,
            block_age: elapsed,
            time_remaining: if elapsed < BLOCK_WINDOW_SECONDS {
                BLOCK_WINDOW_SECONDS - elapsed
            } else {
                0
            },
        }
    }

    fn has_pending_wallet(&self, wallet: &WalletAddress) -> (r: bool)
        ensures
            r == wallet_pending(self.pending(), wallet.0@),
    {
        let mut i: usize = 0;
        while i < self.pending_proofs.len()
            invariant
                i <= self.pending_proofs@.len(),
                forall|k: int| 0 <= k < i ==> (#[trigger] self.pending_proofs@[k]).wallet.0@ != wallet.0@,
            decreases self.pending_proofs@.len() - i,
        {
            if self.pending_proofs[i].wallet.0 == wallet.0 {
                return true;
            }
            i = i + 1;
        }
        false
    }

    fn find_binding(&self, fp: &[u8; 32]) -> (r: Option<usize>)
        ensures
            match bound_wallet(self.bindings(), fp@) {
                Some(w) => r matches Some(i) && i < self.bindings().len()
                    && self.bindings()[i as int].wallet == w
                    && self.bindings()[i as int].fingerprint@ == fp@,
                None => r is None && forall|k: int|
                    0 <= k < self.bindings().len() ==> (#[trigger] self.bindings()[k]).fingerprint@
                        != fp@,
            },
    {
        let mut i: usize = 0;
        proof {
            assert(self.known_hardware@.subrange(0, self.known_hardware@.len() as int)
                == self.known_hardware@);
        }
        while i < self.known_hardware.len()
            invariant
                i <= self.known_hardware@.len(),
                bound_wallet(self.known_hardware@, fp@) == bound_wallet(
                    self.known_hardware@.subrange(i as int, self.known_hardware@.len() as int),
                    fp@,
                ),
                forall|k: int| 0 <= k < i ==> (#[trigger] self.known_hardware@[k]).fingerprint@ != fp@,
            decreases self.known_hardware@.len() - i,
        {
            let ghost rest = self.known_hardware@.subrange(i as int, self.known_hardware@.len() as int);
            if bytes_equal(&self.known_hardware[i].fingerprint, fp) {
                return Some(i);
            }
            proof {
                assert(rest.drop_first() == self.known_hardware@.subrange(
                    i + 1,
                    self.known_hardware@.len() as int,
                ));
            }
            i = i + 1;
        }
        None
    }
}

/// The plausibility checks on declared hardware: age, tier and multiplier bounds.
pub fn validate_hardware(hardware: &HardwareInfo) -> (r: Result<(), ProofError>)
    ensures
        match hardware_sanity(*hardware) {
            Some(v) => r is Err && verdict_error(v, r->Err_0),
            None => r is Ok,
        },
{
    if hardware.age_years > MAX_HARDWARE_AGE {
        return Err(ProofError::SuspiciousAge);
    }
    let expected_tier = HardwareTier::from_age(hardware.age_years);
    if hardware.tier != expected_tier {
        return Err(ProofError::TierMismatch);
    }
    if hardware.multiplier < MIN_MULTIPLIER_THRESHOLD || hardware.multiplier > MAX_DECLARED_MULTIPLIER {
        return Err(ProofError::InvalidMultiplier);
    }
    Ok(())
}

/// The fingerprint of a piece of hardware: the digest of
/// `model:generation:unique-id`.
pub fn hash_hardware(hardware: &HardwareInfo) -> (r: [u8; 32])
    ensures
        r@ == fingerprint_of(*hardware),
{
    let mut data: Vec<u8> = Vec::new();
    append_bytes(&mut data, hardware.model.as_str().as_bytes());
    data.push(58u8);
    append_bytes(&mut data, hardware.generation.as_str().as_bytes());
    data.push(58u8);
    match &hardware.characteristics {
        Some(c) => append_bytes(&mut data, c.unique_id.as_str().as_bytes()),
        None => {},
    }
    proof {
        assert(data@ =~= fingerprint_preimage(*hardware));
    }
    sha256(data.as_slice())
}

/// A second proof from the same wallet in the same window is a duplicate:
/// once a proof is accepted, any later proof from its wallet submitted before
/// the window closes is rejected with `DuplicateSubmission`.
pub proof fn lemma_second_submission_is_duplicate(
    s0: ProofOfAntiquity,
    s1: ProofOfAntiquity,
    first: MiningProof,
    t1: u64,
    r1: Result<SubmitResult, ProofError>,
    second: MiningProof,
    t2: u64,
)
    requires
        s0.submit_post(s1, first, t1, r1),
        r1 is Ok,
        second.wallet.0@ == first.wallet.0@,
        elapsed_since(s1.window_start(), t2) < BLOCK_WINDOW_SECONDS,
    ensures
        s0.submit_verdict(first, t1) is Accept,
        s1.submit_verdict(second, t2) is Duplicate,
{
    let last = s1.pending().len() - 1;
    assert(s1.pending()[last].wallet == first.wallet);
    assert(wallet_pending(s1.pending(), second.wallet.0@));
}

proof fn lemma_sum_positive(ms: Seq<nat>)
    requires
        ms.len() > 0,
        forall|i: int| 0 <= i < ms.len() ==> #[trigger] ms[i] > 0,
    ensures
        sum_of(ms) > 0,
    decreases ms.len(),
{
    assert(ms.last() > 0);
}

/// Whether `BLOCK_REWARD * m` is a multiple of `total`.
pub open spec fn share_is_exact(m: nat, total: nat) -> bool {
    (BLOCK_REWARD as nat * m) % total == 0
}

/// Reward conservation for a sealed block: the rewards add up to at most
/// `BLOCK_REWARD`, fall short of it by less than the number of miners, and
/// reach it exactly when every miner's share divides evenly.
pub proof fn lemma_sealed_block_reward(
    ps: Seq<ValidatedProof>,
    b: Block,
    previous_hash: [u8; 32],
    height: u64,
    now: u64,
)
    requires
        sealed_from(ps, b, previous_hash, height, now),
        ps.len() > 0,
        forall|i: int| 0 <= i < ps.len() ==> (#[trigger] ps[i]).multiplier > 0,
    ensures
        b.total_reward <= BLOCK_REWARD,
        BLOCK_REWARD - b.total_reward < b.miners@.len(),
        b.total_reward == BLOCK_REWARD <==> forall|i: int|
            0 <= i < ps.len() ==> share_is_exact(
                (#[trigger] ps[i]).multiplier as nat,
                sum_of(multipliers(ps)),
            ),
{
    let ms = multipliers(ps);
    let t = sum_of(ms);
    assert forall|i: int| 0 <= i < ms.len() implies #[trigger] ms[i] > 0 by {
        assert(ps[i].multiplier > 0);
    }
    lemma_sum_positive(ms);
    lemma_reward_conservation(BLOCK_REWARD as nat, ms);
    if b.total_reward == BLOCK_REWARD {
        assert forall|i: int| 0 <= i < ps.len() implies share_is_exact(
            (#[trigger] ps[i]).multiplier as nat,
            t,
        ) by {
            assert(ms[i] == ps[i].multiplier);
        }
    }
    if forall|i: int| 0 <= i < ps.len() ==> share_is_exact((#[trigger] ps[i]).multiplier as nat, t) {
        assert forall|i: int| 0 <= i < ms.len() implies (BLOCK_REWARD as nat * #[trigger] ms[i])
            % t == 0 by {
            assert(ms[i] == ps[i].multiplier);
            assert(share_is_exact(ps[i].multiplier as nat, t));
        }
    }
}

} // verus!
