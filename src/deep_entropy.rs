//! The deep entropy verifier: five layers of hardware measurements scored
//! against a registry of reference hardware profiles.
//!
//! All measurements and scores are fixed-point integers. Cycle counts and
//! time units are in hundredths, confidences in thousandths, emulation
//! difficulty in percent, layer scores in basis points (10_000 is a perfect
//! score) and the weighted total and emulation probability in parts per
//! million.
use vstd::prelude::*;

verus! {

/// Largest accepted variance from a baseline, in basis points.
pub const TIMING_VARIANCE_THRESHOLD: u64 = 1500;

/// Entropy samples required per verification.
pub const ENTROPY_SAMPLES_REQUIRED: usize = 1000;

/// Minimum unique entropy bits required.
pub const MIN_ENTROPY_BITS: u32 = 64;

/// Cost of emulation, in dollars of compute, above which buying the hardware
/// is cheaper.
pub const EMULATION_COST_THRESHOLD: u64 = 100;

/// A perfect layer score, in basis points.
pub const FULL_SCORE: u64 = 10_000;

/// Certainty, in parts per million.
pub const CERTAIN: u64 = 1_000_000;

/// Timing statistics of one instruction, in hundredths of a cycle.
#[derive(Debug, Clone, Copy, PartialEq, Eq, Structural)]
pub struct TimingMeasurement {
    pub mean: u64,
    pub std_dev: u64,
    pub min: u64,
    pub max: u64,
    pub samples: u64,
}

/// The measured timing of a named instruction.
#[derive(Debug, Clone)]
pub struct NamedTiming {
    pub instruction: String,
    pub measurement: TimingMeasurement,
}

/// Cache miss penalties, in hundredths of a cycle.
#[derive(Debug, Clone, Copy)]
pub struct CacheMissPenalty {
    pub l1_miss: u64,
    pub l2_miss: Option<u64>,
    pub memory_latency: u64,
}

/// Branch misprediction cost (hundredths of a cycle) and accuracy (thousandths).
#[derive(Debug, Clone, Copy)]
pub struct BranchMisprediction {
    pub penalty_cycles: u64,
    pub accuracy: u64,
}

/// FPU operation timings, in hundredths of a cycle.
#[derive(Debug, Clone, Copy)]
pub struct FpuTimings {
    pub fadd: u64,
    pub fmul: u64,
    pub fdiv: u64,
    pub fsqrt: Option<u64>,
}

/// Layer 1: instruction timing.
#[derive(Debug, Clone)]
pub struct InstructionTimingLayer {
    pub instruction_timings: Vec<NamedTiming>,
    pub cache_miss_penalty: CacheMissPenalty,
    pub branch_misprediction: BranchMisprediction,
    pub fpu_timings: FpuTimings,
}

/// Throughput in bytes per second at several strides, with its variance.
#[derive(Debug, Clone, Copy)]
pub struct AccessPattern {
    pub stride_1: u64,
    pub stride_4: u64,
    pub stride_16: u64,
    pub stride_64: u64,
    pub stride_256: u64,
    pub variance: u64,
}

/// DRAM refresh interference.
#[derive(Debug, Clone, Copy)]
pub struct RefreshPattern {
    pub interval_us: u64,
    pub jitter: u64,
    pub detectable: bool,
}

/// Layer 2: memory access patterns.
#[derive(Debug, Clone, Copy)]
pub struct MemoryPatternLayer {
    pub sequential_read: AccessPattern,
    pub random_read: AccessPattern,
    pub write_pattern: AccessPattern,
    /// Page crossing penalty, in hundredths of a time unit.
    pub page_crossing_penalty: u64,
    pub bank_conflict: Option<u64>,
    pub refresh_interference: RefreshPattern,
}

/// Bus types, oldest first.
#[derive(Debug, Clone, Copy, PartialEq, Eq, Structural)]
pub enum BusType {
    ISA,
    EISA,
    VLB,
    PCI,
    AGP,
    PCIe,
    Unknown,
}

/// The port-read latency range of a bus type, in nanoseconds.
pub open spec fn io_range(b: BusType) -> (u64, u64) {
    match b {
        BusType::ISA => (1000, 2500),
        BusType::EISA => (500, 1500),
        BusType::VLB => (100, 500),
        BusType::PCI => (50, 200),
        BusType::AGP => (30, 150),
        BusType::PCIe => (5, 50),
        BusType::Unknown => (0, u64::MAX),
    }
}

impl BusType {
    /// The expected port-read latency range, in nanoseconds.
    pub fn expected_io_timing_ns(&self) -> (r: (u64, u64))
        ensures
            r == io_range(*self),
    {
        match self {
            BusType::ISA => (1000, 2500),
            BusType::EISA => (500, 1500),
            BusType::VLB => (100, 500),
            BusType::PCI => (50, 200),
            BusType::AGP => (30, 150),
            BusType::PCIe => (5, 50),
            BusType::Unknown => (0, u64::MAX),
        }
    }
}

/// I/O port timing in nanoseconds.
#[derive(Debug, Clone, Copy)]
pub struct IoTiming {
    pub port_read_ns: u64,
    pub port_write_ns: u64,
    pub variance: u64,
}

/// DMA transfer rate (bytes per second) and setup latency (nanoseconds).
#[derive(Debug, Clone, Copy)]
pub struct DmaCharacteristics {
    pub transfer_rate: u64,
    pub setup_latency_ns: u64,
}

/// Interrupt latencies in nanoseconds.
#[derive(Debug, Clone, Copy)]
pub struct InterruptLatency {
    pub hw_latency_ns: u64,
    pub sw_latency_ns: u64,
}

/// Layer 3: bus timing.
#[derive(Debug, Clone, Copy)]
pub struct BusTimingLayer {
    pub bus_type: BusType,
    pub io_timing: IoTiming,
    pub dma_characteristics: Option<DmaCharacteristics>,
    pub interrupt_latency: InterruptLatency,
}

/// Clock frequency (kHz) and its variance over the measurement.
#[derive(Debug, Clone, Copy)]
pub struct ClockStability {
    pub mean_frequency_khz: u64,
    pub variance: u64,
    pub frequency_changed: bool,
}

/// Timing variance against temperature.
#[derive(Debug, Clone, Copy)]
pub struct ThermalVariance {
    pub timing_variance: u64,
    pub expected_variance: u64,
}

/// Power states seen during measurement.
#[derive(Debug, Clone)]
pub struct PowerStateInfo {
    pub state_count: u32,
    pub c_states: Vec<String>,
    pub p_states: Vec<String>,
}

/// Layer 4: thermal behaviour.
#[derive(Debug, Clone)]
pub struct ThermalEntropyLayer {
    pub clock_stability: ClockStability,
    pub thermal_variance: ThermalVariance,
    pub power_states: PowerStateInfo,
}

/// A known hardware quirk.
#[derive(Debug, Clone)]
pub struct HardwareQuirk {
    pub id: String,
    pub description: String,
    pub cpu_family: u32,
    /// First and last year in which the quirk was present.
    pub first_year: u32,
    pub last_year: u32,
}

/// Outcome of one quirk test; confidence in thousandths.
#[derive(Debug, Clone)]
pub struct QuirkTestResult {
    pub detected: bool,
    pub confidence: u64,
    pub raw_data: Vec<u8>,
}

/// The result of the test of a named quirk.
#[derive(Debug, Clone)]
pub struct NamedQuirkResult {
    pub quirk: String,
    pub result: QuirkTestResult,
}

/// Layer 5: architectural quirks.
#[derive(Debug, Clone)]
pub struct QuirkEntropyLayer {
    pub detected_quirks: Vec<HardwareQuirk>,
    pub quirk_test_results: Vec<NamedQuirkResult>,
}

/// Challenge-response record proving live hardware.
#[derive(Debug, Clone)]
pub struct ChallengeResponse {
    pub challenge_nonce: [u8; 32],
    pub response: [u8; 32],
    pub computation_time_us: u64,
    pub entropy_samples: Vec<u8>,
}

/// A complete entropy proof.
#[derive(Debug, Clone)]
pub struct EntropyProof {
    pub instruction_layer: InstructionTimingLayer,
    pub memory_layer: MemoryPatternLayer,
    pub bus_layer: BusTimingLayer,
    pub thermal_layer: ThermalEntropyLayer,
    pub quirk_layer: QuirkEntropyLayer,
    pub challenge_response: ChallengeResponse,
    pub timestamp: u64,
    pub signature_hash: [u8; 32],
}

/// The expected cycle range of an instruction, in hundredths of a cycle.
#[derive(Debug, Clone)]
pub struct ExpectedTiming {
    pub instruction: String,
    pub min: u64,
    pub max: u64,
}

/// A reference hardware profile.
#[derive(Debug, Clone)]
pub struct HardwareProfile {
    pub name: String,
    pub cpu_family: u32,
    pub year_introduced: u32,
    pub expected_instruction_timing: Vec<ExpectedTiming>,
    pub expected_bus_type: BusType,
    pub expected_quirks: Vec<String>,
    /// How hard the hardware is to emulate, in percent (0 to 100).
    pub emulation_difficulty: u64,
}

/// A registry entry: a profile under its short identifier.
#[derive(Debug, Clone)]
pub struct ProfileEntry {
    pub id: String,
    pub profile: HardwareProfile,
}

/// Per-layer score floors (basis points) and the floor of the weighted total
/// (parts per million).
#[derive(Debug, Clone, Copy, PartialEq, Eq, Structural)]
pub struct EntropyThresholds {
    pub min_instruction_entropy: u64,
    pub min_memory_entropy: u64,
    pub min_bus_entropy: u64,
    pub min_thermal_entropy: u64,
    pub min_quirk_entropy: u64,
    pub total_min_entropy: u64,
}

/// The standard floors: 0.15, 0.10, 0.15, 0.05 and 0.20 per layer, 0.65 in
/// total.
pub open spec fn default_thresholds() -> EntropyThresholds {
    EntropyThresholds {
        min_instruction_entropy: 1500,
        min_memory_entropy: 1000,
        min_bus_entropy: 1500,
        min_thermal_entropy: 500,
        min_quirk_entropy: 2000,
        total_min_entropy: 650_000,
    }
}

impl Default for EntropyThresholds {
    fn default() -> (r: Self)
        ensures
            r == default_thresholds(),
    {
        EntropyThresholds {
            min_instruction_entropy: 1500,
            min_memory_entropy: 1000,
            min_bus_entropy: 1500,
            min_thermal_entropy: 500,
            min_quirk_entropy: 2000,
            total_min_entropy: 650_000,
        }
    }
}

/// Per-layer scores (basis points) and their weighted total (parts per million).
#[derive(Debug, Clone, Copy, Default, PartialEq, Eq, Structural)]
pub struct EntropyScores {
    pub instruction: u64,
    pub memory: u64,
    pub bus: u64,
    pub thermal: u64,
    pub quirks: u64,
    pub total: u64,
}

/// The outcome of a deep verification.
#[derive(Debug, Clone)]
pub struct VerificationResult {
    pub valid: bool,
    /// Weighted total score, in parts per million.
    pub total_score: u64,
    pub scores: EntropyScores,
    pub issues: Vec<String>,
    /// Estimated probability of emulation, in parts per million.
    pub emulation_probability: u64,
}

} // verus!

verus! {

/// The first measurement of the named instruction.
pub open spec fn find_timing(ts: Seq<NamedTiming>, name: Seq<char>) -> Option<TimingMeasurement>
    decreases ts.len(),
{
    if ts.len() == 0 {
        None
    } else if ts[0].instruction@ == name {
        Some(ts[0].measurement)
    } else {
        find_timing(ts.drop_first(), name)
    }
}

/// Whether a measured mean lies in the expected range.
pub open spec fn mean_in_range(e: ExpectedTiming, m: TimingMeasurement) -> bool {
    e.min <= m.mean <= e.max
}

/// Whether a measurement shows natural jitter: a positive standard deviation
/// below half the mean.
pub open spec fn natural_jitter(m: TimingMeasurement) -> bool {
    m.std_dev > 0 && 2 * m.std_dev < m.mean
}

/// Half-points an instruction earns: one for its mean, one for its jitter.
pub open spec fn timing_points(e: ExpectedTiming, m: TimingMeasurement) -> nat {
    (if mean_in_range(e, m) {
        1nat
    } else {
        0nat
    }) + (if natural_jitter(m) {
        1nat
    } else {
        0nat
    })
}

/// How many expected instructions were measured.
pub open spec fn instruction_checks(exp: Seq<ExpectedTiming>, ts: Seq<NamedTiming>) -> nat
    decreases exp.len(),
{
    if exp.len() == 0 {
        0
    } else {
        instruction_checks(exp.drop_last(), ts) + if find_timing(ts, exp.last().instruction@) is Some {
            1nat
        } else {
            0nat
        }
    }
}

/// Half-points earned by the measured expected instructions.
pub open spec fn instruction_halves(exp: Seq<ExpectedTiming>, ts: Seq<NamedTiming>) -> nat
    decreases exp.len(),
{
    if exp.len() == 0 {
        0
    } else {
        instruction_halves(exp.drop_last(), ts) + match find_timing(ts, exp.last().instruction@) {
            Some(m) => timing_points(exp.last(), m),
            None => 0,
        }
    }
}

/// Instruction layer score: the average of the points of the checked
/// instructions, 0 when none could be checked.
pub open spec fn instruction_score(exp: Seq<ExpectedTiming>, ts: Seq<NamedTiming>) -> nat {
    let c = instruction_checks(exp, ts);
    if c > 0 {
        instruction_halves(exp, ts) * 5000 / c
    } else {
        0
    }
}

/// Memory layer score: 0.3 for a stride-64 throughput at least 1.5 times the
/// stride-1 one, 0.3 for a page crossing penalty above 10, 0.4 for detectable
/// refresh interference.
pub open spec fn memory_score(l: MemoryPatternLayer) -> nat {
    (if 2 * l.sequential_read.stride_64 >= 3 * l.sequential_read.stride_1 {
        3000nat
    } else {
        0nat
    }) + (if l.page_crossing_penalty > 1000 {
        3000nat
    } else {
        0nat
    }) + (if l.refresh_interference.detectable {
        4000nat
    } else {
        0nat
    })
}

/// Bus layer score: 0.5 for the expected bus type, 0.3 for a port read within
/// that bus type's range, 0.2 for an interrupt latency above 1 microsecond.
pub open spec fn bus_score(l: BusTimingLayer, expected: BusType) -> nat {
    (if l.bus_type == expected {
        5000nat
    } else {
        0nat
    }) + (if io_range(expected).0 <= l.io_timing.port_read_ns <= io_range(expected).1 {
        3000nat
    } else {
        0nat
    }) + (if l.interrupt_latency.hw_latency_ns > 1000 {
        2000nat
    } else {
        0nat
    })
}

/// Thermal layer score: 0.4 for a steady clock, 0.3 each for no C-states and no
/// P-states.
pub open spec fn thermal_score(l: ThermalEntropyLayer) -> nat {
    (if !l.clock_stability.frequency_changed {
        4000nat
    } else {
        0nat
    }) + (if l.power_states.c_states@.len() == 0 {
        3000nat
    } else {
        0nat
    }) + (if l.power_states.p_states@.len() == 0 {
        3000nat
    } else {
        0nat
    })
}

/// The first test result of the named quirk.
pub open spec fn find_quirk(rs: Seq<NamedQuirkResult>, name: Seq<char>) -> Option<QuirkTestResult>
    decreases rs.len(),
{
    if rs.len() == 0 {
        None
    } else if rs[0].quirk@ == name {
        Some(rs[0].result)
    } else {
        find_quirk(rs.drop_first(), name)
    }
}

/// Whether the named quirk was detected with confidence above 0.8.
pub open spec fn quirk_confirmed(rs: Seq<NamedQuirkResult>, name: Seq<char>) -> bool {
    match find_quirk(rs, name) {
        Some(r) => r.detected && r.confidence > 800,
        None => false,
    }
}

/// How many expected quirks were confirmed.
pub open spec fn quirk_hits(exp: Seq<String>, rs: Seq<NamedQuirkResult>) -> nat
    decreases exp.len(),
{
    if exp.len() == 0 {
        0
    } else {
        quirk_hits(exp.drop_last(), rs) + if quirk_confirmed(rs, exp.last()@) {
            1nat
        } else {
            0nat
        }
    }
}

/// Quirk layer score: the share of expected quirks confirmed, full when none
/// are expected.
pub open spec fn quirk_score(exp: Seq<String>, rs: Seq<NamedQuirkResult>) -> nat {
    if exp.len() == 0 {
        FULL_SCORE as nat
    } else {
        quirk_hits(exp, rs) * 10000 / exp.len()
    }
}

/// The weighted total, in parts per million: weights 0.25, 0.20, 0.20, 0.15
/// and 0.20.
pub open spec fn weighted_total(s: EntropyScores) -> nat {
    25 * (s.instruction as nat) + 20 * (s.memory as nat) + 20 * (s.bus as nat) + 15 * (
    s.thermal as nat) + 20 * (s.quirks as nat)
}

/// `max(0, 1 - total * difficulty)`, in parts per million.
pub open spec fn emulation_probability_of(total: nat, difficulty: nat) -> nat {
    if total * difficulty / 100 >= CERTAIN {
        0
    } else {
        (CERTAIN - total * difficulty / 100) as nat
    }
}

/// The layer scores of a proof against a profile.
pub open spec fn layer_scores(proof: EntropyProof, p: HardwareProfile) -> EntropyScores {
    let s = EntropyScores {
        instruction: instruction_score(
            p.expected_instruction_timing@,
            proof.instruction_layer.instruction_timings@,
        ) as u64,
        memory: memory_score(proof.memory_layer) as u64,
        bus: bus_score(proof.bus_layer, p.expected_bus_type) as u64,
        thermal: thermal_score(proof.thermal_layer) as u64,
        quirks: quirk_score(p.expected_quirks@, proof.quirk_layer.quirk_test_results@) as u64,
        total: 0,
    };
    EntropyScores { total: weighted_total(s) as u64, ..s }
}

/// How many layers fall below their floors.
pub open spec fn breached_floors(s: EntropyScores, t: EntropyThresholds) -> nat {
    (if s.instruction < t.min_instruction_entropy {
        1nat
    } else {
        0nat
    }) + (if s.memory < t.min_memory_entropy {
        1nat
    } else {
        0nat
    }) + (if s.bus < t.min_bus_entropy {
        1nat
    } else {
        0nat
    }) + (if s.thermal < t.min_thermal_entropy {
        1nat
    } else {
        0nat
    }) + (if s.quirks < t.min_quirk_entropy {
        1nat
    } else {
        0nat
    })
}

/// The first profile registered under `id`.
pub open spec fn find_profile(es: Seq<ProfileEntry>, id: Seq<char>) -> Option<HardwareProfile>
    decreases es.len(),
{
    if es.len() == 0 {
        None
    } else if es[0].id@ == id {
        Some(es[0].profile)
    } else {
        find_profile(es.drop_first(), id)
    }
}

/// A profile's emulation difficulty lies in [0, 1], that is 0 to 100 percent.
pub open spec fn profile_wf(p: HardwareProfile) -> bool {
    p.emulation_difficulty <= 100
}

fn find_timing_exec(ts: &Vec<NamedTiming>, name: &String) -> (r: Option<usize>)
    ensures
        match find_timing(ts@, name@) {
            Some(m) => r matches Some(i) && i < ts@.len() && ts@[i as int].measurement == m,
            None => r is None,
        },
{
    let mut i: usize = 0;
    proof {
        assert(ts@.subrange(0, ts@.len() as int) == ts@);
    }
    while i < ts.len()
        invariant
            i <= ts@.len(),
            find_timing(ts@, name@) == find_timing(ts@.subrange(i as int, ts@.len() as int), name@),
        decreases ts@.len() - i,
    {
        let ghost rest = ts@.subrange(i as int, ts@.len() as int);
        if ts[i].instruction == *name {
            return Some(i);
        }
        proof {
            assert(rest.drop_first() == ts@.subrange(i + 1, ts@.len() as int));
        }
        i = i + 1;
    }
    None
}

fn find_quirk_exec(rs: &Vec<NamedQuirkResult>, name: &String) -> (r: Option<usize>)
    ensures
        match find_quirk(rs@, name@) {
            Some(q) => r matches Some(i) && i < rs@.len() && rs@[i as int].result == q,
            None => r is None,
        },
{
    let mut i: usize = 0;
    proof {
        assert(rs@.subrange(0, rs@.len() as int) == rs@);
    }
    while i < rs.len()
        invariant
            i <= rs@.len(),
            find_quirk(rs@, name@) == find_quirk(rs@.subrange(i as int, rs@.len() as int), name@),
        decreases rs@.len() - i,
    {
        let ghost rest = rs@.subrange(i as int, rs@.len() as int);
        if rs[i].quirk == *name {
            return Some(i);
        }
        proof {
            assert(rest.drop_first() == rs@.subrange(i + 1, rs@.len() as int));
        }
        i = i + 1;
    }
    None
}

/// Scores the instruction timing layer against a profile.
pub fn verify_instruction_layer(layer: &InstructionTimingLayer, profile: &HardwareProfile) -> (r:
    u64)
    ensures
        r == instruction_score(profile.expected_instruction_timing@, layer.instruction_timings@),
        r <= FULL_SCORE,
{
    let exp = &profile.expected_instruction_timing;
    let ts = &layer.instruction_timings;
    let n = exp.len();
    let mut checks: u128 = 0;
    let mut halves: u128 = 0;
    let mut i: usize = 0;
    while i < n
        invariant
            exp == &profile.expected_instruction_timing,
            ts == &layer.instruction_timings,
            n == exp@.len(),
            i <= n,
            checks == instruction_checks(exp@.take(i as int), ts@),
            halves == instruction_halves(exp@.take(i as int), ts@),
            checks <= i,
            halves <= 2 * checks,
        decreases n - i,
    {
        proof {
            assert(exp@.take(i + 1).drop_last() == exp@.take(i as int));
            assert(exp@.take(i + 1).last() == exp@[i as int]);
        }
        let e = &exp[i];
        match find_timing_exec(ts, &e.instruction) {
            Some(k) => {
                let m = ts[k].measurement;
                checks = checks + 1;
                if e.min <= m.mean && m.mean <= e.max {
                    halves = halves + 1;
                }
                if m.std_dev > 0 && 2 * (m.std_dev as u128) < m.mean as u128 {
                    halves = halves + 1;
                }
            },
            None => {},
        }
        i = i + 1;
    }
    proof {
        assert(exp@.take(n as int) == exp@);
    }
    if checks > 0 {
        proof {
            assert(halves * 5000 <= checks * 10000);
            vstd::arithmetic::div_mod::lemma_div_is_ordered(
                (halves * 5000) as int,
                (checks * 10000) as int,
                checks as int,
            );
            vstd::arithmetic::div_mod::lemma_div_multiples_vanish(10000, checks as int);
        }
        (halves * 5000 / checks) as u64
    } else {
        0
    }
}

/// Scores the memory pattern layer.
pub fn verify_memory_layer(layer: &MemoryPatternLayer) -> (r: u64)
    ensures
        r == memory_score(*layer),
{
    let mut score: u64 = 0;
    if 2 * (layer.sequential_read.stride_64 as u128) >= 3 * (layer.sequential_read.stride_1 as u128) {
        score = score + 3000;
    }
    if layer.page_crossing_penalty > 1000 {
        score = score + 3000;
    }
    if layer.refresh_interference.detectable {
        score = score + 4000;
    }
    score
}

/// Scores the bus timing layer against the expected bus type.
pub fn verify_bus_layer(layer: &BusTimingLayer, expected: BusType) -> (r: u64)
    ensures
        r == bus_score(*layer, expected),
{
    let mut score: u64 = 0;
    if layer.bus_type == expected {
        score = score + 5000;
    }
    let (min_io, max_io) = expected.expected_io_timing_ns();
    if layer.io_timing.port_read_ns >= min_io && layer.io_timing.port_read_ns <= max_io {
        score = score + 3000;
    }
    if layer.interrupt_latency.hw_latency_ns > 1000 {
        score = score + 2000;
    }
    score
}

/// Scores the thermal layer.
pub fn verify_thermal_layer(layer: &ThermalEntropyLayer) -> (r: u64)
    ensures
        r == thermal_score(*layer),
{
    let mut score: u64 = 0;
    if !layer.clock_stability.frequency_changed {
        score = score + 4000;
    }
    if layer.power_states.c_states.len() == 0 {
        score = score + 3000;
    }
    if layer.power_states.p_states.len() == 0 {
        score = score + 3000;
    }
    score
}

/// Scores the quirk layer against a profile.
pub fn verify_quirk_layer(layer: &QuirkEntropyLayer, profile: &HardwareProfile) -> (r: u64)
    ensures
        r == quirk_score(profile.expected_quirks@, layer.quirk_test_results@),
        r <= FULL_SCORE,
{
    let exp = &profile.expected_quirks;
    let rs = &layer.quirk_test_results;
    let n = exp.len();
    if n == 0 {
        return FULL_SCORE;
    }
    let mut hits: u128 = 0;
    let mut i: usize = 0;
    while i < n
        invariant
            exp == &profile.expected_quirks,
            rs == &layer.quirk_test_results,
            n == exp@.len(),
            i <= n,
            hits == quirk_hits(exp@.take(i as int), rs@),
            hits <= i,
        decreases n - i,
    {
        proof {
            assert(exp@.take(i + 1).drop_last() == exp@.take(i as int));
            assert(exp@.take(i + 1).last() == exp@[i as int]);
        }
        match find_quirk_exec(rs, &exp[i]) {
            Some(k) => {
                let q = &rs[k].result;
                if q.detected && q.confidence > 800 {
                    hits = hits + 1;
                }
            },
            None => {},
        }
        i = i + 1;
    }
    proof {
        assert(exp@.take(n as int) == exp@);
        assert(hits * 10000 <= n * 10000);
        vstd::arithmetic::div_mod::lemma_div_is_ordered(
            (hits * 10000) as int,
            (n * 10000) as int,
            n as int,
        );
        vstd::arithmetic::div_mod::lemma_div_multiples_vanish(10000, n as int);
    }
    (hits * 10000 / (n as u128)) as u64
}

} // verus!

verus! {

#[verifier::external_type_specification]
#[verifier::external_body]
pub struct ExChaCha20Rng(rand_chacha::ChaCha20Rng);

/// Relies on rand_core's `SeedableRng::from_entropy`: a ChaCha20 generator
/// seeded by the operating system.
#[verifier::external_body]
fn rng_from_entropy() -> rand_chacha::ChaCha20Rng {
    <rand_chacha::ChaCha20Rng as rand::SeedableRng>::from_entropy()
}

/// Relies on rand_core's `SeedableRng::seed_from_u64`: a ChaCha20 generator
/// with a fixed seed.
#[verifier::external_body]
fn rng_from_seed(seed: u64) -> rand_chacha::ChaCha20Rng {
    <rand_chacha::ChaCha20Rng as rand::SeedableRng>::seed_from_u64(seed)
}

/// Relies on rand's `Rng::fill`: 32 random bytes.
#[verifier::external_body]
fn random_nonce(rng: &mut rand_chacha::ChaCha20Rng) -> [u8; 32] {
    let mut nonce = [0u8; 32];
    rand::Rng::fill(rng, &mut nonce);
    nonce
}

/// Relies on rand's `Rng::gen`: a random `u64`.
#[verifier::external_body]
fn random_u64(rng: &mut rand_chacha::ChaCha20Rng) -> u64 {
    rand::Rng::gen::<u64>(rng)
}

/// Relies on rand's `Rng::gen`: a random `bool`.
#[verifier::external_body]
fn random_bool(rng: &mut rand_chacha::ChaCha20Rng) -> bool {
    rand::Rng::gen::<bool>(rng)
}

/// Relies on rand's `Rng::gen_range`: a random value in `[low, high)`; the
/// range must not be empty.
#[verifier::external_body]
fn random_below(rng: &mut rand_chacha::ChaCha20Rng, low: u64, high: u64) -> (r: u64)
    requires
        low < high,
    ensures
        low <= r < high,
{
    rand::Rng::gen_range(rng, low..high)
}

/// One operation of a live challenge.
#[derive(Debug, Clone, Copy)]
pub enum ChallengeOperation {
    IntegerMul(u64),
    IntegerDiv(u64),
    /// A float addend in `[0, 1)`, given as its numerator over 2^53.
    FloatAdd(u64),
    MemoryAccess(usize),
    BranchTest(bool),
}

/// A challenge sent to hardware.
#[derive(Debug)]
pub struct Challenge {
    pub nonce: [u8; 32],
    pub operations: Vec<ChallengeOperation>,
    /// Expected completion time range, in microseconds.
    pub expected_time_range_us: (u64, u64),
    pub timestamp: u64,
}

/// Operations in a challenge.
pub const CHALLENGE_OPERATIONS: usize = 100;

/// Float addends are numerators over 2^53.
pub const FLOAT_DENOMINATOR: u64 = 9_007_199_254_740_992;

/// Whether operation `i` has the kind and range the cycle of five kinds calls
/// for.
pub open spec fn operation_fits(i: int, op: ChallengeOperation) -> bool {
    match op {
        ChallengeOperation::IntegerMul(_) => i % 5 == 0,
        ChallengeOperation::IntegerDiv(d) => i % 5 == 1 && 1 <= d < 1000,
        ChallengeOperation::FloatAdd(f) => i % 5 == 2 && f < FLOAT_DENOMINATOR,
        ChallengeOperation::MemoryAccess(a) => i % 5 == 3 && a < 1024,
        ChallengeOperation::BranchTest(_) => i % 5 == 4,
    }
}

/// Issue added when the instruction layer is below its floor.
pub const INSTRUCTION_FLOOR_TEXT: &'static str = "Instruction timing entropy too low";

/// Issue added when the memory layer is below its floor.
pub const MEMORY_FLOOR_TEXT: &'static str = "Memory pattern entropy too low";

/// Issue added when the bus layer is below its floor.
pub const BUS_FLOOR_TEXT: &'static str = "Bus timing entropy too low";

/// Issue added when the thermal layer is below its floor.
pub const THERMAL_FLOOR_TEXT: &'static str = "Thermal entropy suspicious";

/// Issue added when the quirk layer is below its floor.
pub const QUIRK_FLOOR_TEXT: &'static str = "Expected hardware quirks not detected";

/// The texts of a list of issues.
pub open spec fn issue_texts(rs: Seq<String>) -> Seq<Seq<char>> {
    Seq::new(rs.len(), |i: int| rs[i]@)
}

/// One message when `c` holds, none otherwise.
pub open spec fn note_if(c: bool, m: Seq<char>) -> Seq<Seq<char>> {
    if c {
        seq![m]
    } else {
        Seq::empty()
    }
}

/// The message of every breached layer floor, in layer order: instruction,
/// memory, bus, thermal, quirks.
pub open spec fn floor_messages(s: EntropyScores, t: EntropyThresholds) -> Seq<Seq<char>> {
    note_if(s.instruction < t.min_instruction_entropy, INSTRUCTION_FLOOR_TEXT@) + note_if(
        s.memory < t.min_memory_entropy,
        MEMORY_FLOOR_TEXT@,
    ) + note_if(s.bus < t.min_bus_entropy, BUS_FLOOR_TEXT@) + note_if(
        s.thermal < t.min_thermal_entropy,
        THERMAL_FLOOR_TEXT@,
    ) + note_if(s.quirks < t.min_quirk_entropy, QUIRK_FLOOR_TEXT@)
}

/// All layer scores and the total at zero.
pub open spec fn zero_scores() -> EntropyScores {
    EntropyScores { instruction: 0, memory: 0, bus: 0, thermal: 0, quirks: 0, total: 0 }
}

/// The operation at position `i` made from the value `d` drawn for it: the
/// kinds cycle through multiply, divide, float add, memory access and branch
/// test, and a branch is taken for any non-zero value.
pub open spec fn operation_of(i: int, d: u64) -> ChallengeOperation {
    if i % 5 == 0 {
        ChallengeOperation::IntegerMul(d)
    } else if i % 5 == 1 {
        ChallengeOperation::IntegerDiv(d)
    } else if i % 5 == 2 {
        ChallengeOperation::FloatAdd(d)
    } else if i % 5 == 3 {
        ChallengeOperation::MemoryAccess(d as usize)
    } else {
        ChallengeOperation::BranchTest(d != 0)
    }
}

/// Whether the value drawn for position `i` lies in that kind's range.
pub open spec fn draw_fits(i: int, d: u64) -> bool {
    &&& i % 5 == 1 ==> 1 <= d < 1000
    &&& i % 5 == 2 ==> d < FLOAT_DENOMINATOR
    &&& i % 5 == 3 ==> d < 1024
}

/// The challenge made of a nonce, one drawn value per operation and a
/// timestamp, expected to complete within 1 ms to 100 ms.
pub fn assemble_challenge(nonce: [u8; 32], draws: &Vec<u64>, timestamp: u64) -> (r: Challenge)
    ensures
        r.nonce == nonce,
        r.operations@.len() == draws@.len(),
        forall|i: int| 0 <= i < draws@.len() ==> #[trigger] r.operations@[i] == operation_of(i, draws@[i]),
        r.expected_time_range_us == (1000u64, 100_000u64),
        r.timestamp == timestamp,
{
    let mut operations: Vec<ChallengeOperation> = Vec::new();
    let mut i: usize = 0;
    while i < draws.len()
        invariant
            i <= draws@.len(),
            operations@.len() == i,
            forall|k: int| 0 <= k < i ==> #[trigger] operations@[k] == operation_of(k, draws@[k]),
        decreases draws@.len() - i,
    {
        let d = draws[i];
        let op = if i % 5 == 0 {
            ChallengeOperation::IntegerMul(d)
        } else if i % 5 == 1 {
            ChallengeOperation::IntegerDiv(d)
        } else if i % 5 == 2 {
            ChallengeOperation::FloatAdd(d)
        } else if i % 5 == 3 {
            ChallengeOperation::MemoryAccess(d as usize)
        } else {
            ChallengeOperation::BranchTest(d != 0)
        };
        operations.push(op);
        i = i + 1;
    }
    Challenge { nonce, operations, expected_time_range_us: (1000, 100_000), timestamp }
}

/// The deep entropy verifier: the hardware profile registry, the score floors
/// and the challenge generator.
#[derive(Debug)]
pub struct DeepEntropyVerifier {
    hardware_profiles: Vec<ProfileEntry>,
    thresholds: EntropyThresholds,
    challenge_rng: rand_chacha::ChaCha20Rng,
}

fn expected(instruction: &str, min: u64, max: u64) -> (r: ExpectedTiming)
    ensures
        r.instruction@ == instruction@,
        r.min == min,
        r.max == max,
{
    ExpectedTiming { instruction: instruction.to_owned(), min, max }
}

/// Whether an expected timing is the given instruction with the given range.
pub open spec fn timing_entry(e: ExpectedTiming, name: Seq<char>, min: u64, max: u64) -> bool {
    e.instruction@ == name && e.min == min && e.max == max
}

/// Whether a table lists mul, div, fadd and fmul with the given ranges.
pub open spec fn timing_table_is(
    t: Seq<ExpectedTiming>,
    mul: (u64, u64),
    div: (u64, u64),
    fadd: (u64, u64),
    fmul: (u64, u64),
) -> bool {
    &&& t.len() == 4
    &&& timing_entry(t[0], "mul"@, mul.0, mul.1)
    &&& timing_entry(t[1], "div"@, div.0, div.1)
    &&& timing_entry(t[2], "fadd"@, fadd.0, fadd.1)
    &&& timing_entry(t[3], "fmul"@, fmul.0, fmul.1)
}

/// Whether a registry entry is the given profile.
pub open spec fn profile_is(
    e: ProfileEntry,
    id: Seq<char>,
    family: u32,
    year: u32,
    timings: (
        (u64, u64),
        (u64, u64),
        (u64, u64),
        (u64, u64),
    ),
    bus: BusType,
    quirks: Seq<Seq<char>>,
    difficulty: u64,
) -> bool {
    &&& e.id@ == id
    &&& e.profile.cpu_family == family
    &&& e.profile.year_introduced == year
    &&& timing_table_is(
        e.profile.expected_instruction_timing@,
        timings.0,
        timings.1,
        timings.2,
        timings.3,
    )
    &&& e.profile.expected_bus_type == bus
    &&& e.profile.expected_quirks@.len() == quirks.len()
    &&& forall|i: int| 0 <= i < quirks.len() ==> (#[trigger] e.profile.expected_quirks@[i])@ == quirks[i]
    &&& e.profile.emulation_difficulty == difficulty
}

/// Whether an id is one of the standard registry's.
pub open spec fn is_standard_id(id: Seq<char>) -> bool {
    id == "486DX2"@ || id == "Pentium"@ || id == "G4"@
}

/// The standard registry: the Intel 486 DX2-66, the Intel Pentium 100 and the
/// PowerPC G4, with their cycle ranges in hundredths.
pub open spec fn standard_registry(es: Seq<ProfileEntry>) -> bool {
    &&& es.len() == 3
    &&& profile_is(
        es[0],
        "486DX2"@,
        4,
        1992,
        ((1300, 4200), (4000, 4400), (800, 2000), (1600, 2700)),
        BusType::ISA,
        seq!["no_rdtsc"@, "a20_gate"@],
        95,
    )
    &&& profile_is(
        es[1],
        "Pentium"@,
        5,
        1994,
        ((1000, 1100), (1700, 4100), (300, 300), (300, 300)),
        BusType::PCI,
        seq!["fdiv_bug"@],
        90,
    )
    &&& profile_is(
        es[2],
        "G4"@,
        74,
        1999,
        ((300, 400), (2000, 3500), (500, 500), (500, 500)),
        BusType::PCI,
        seq!["altivec"@, "big_endian"@],
        85,
    )
}

fn timing_table(mul: (u64, u64), div: (u64, u64), fadd: (u64, u64), fmul: (u64, u64)) -> (r: Vec<
    ExpectedTiming,
>)
    ensures
        timing_table_is(r@, mul, div, fadd, fmul),
{
    let mut v: Vec<ExpectedTiming> = Vec::new();
    v.push(expected("mul", mul.0, mul.1));
    v.push(expected("div", div.0, div.1));
    v.push(expected("fadd", fadd.0, fadd.1));
    v.push(expected("fmul", fmul.0, fmul.1));
    v
}

fn quirk_list(a: &str, b: Option<&str>) -> (r: Vec<String>)
    ensures
        r@.len() <= 2,
        r@[0]@ == a@,
        b is None ==> r@.len() == 1,
        b is Some ==> r@.len() == 2 && r@[1]@ == b->0@,
{
    let mut v: Vec<String> = Vec::new();
    v.push(a.to_owned());
    match b {
        Some(s) => v.push(s.to_owned()),
        None => {},
    }
    v
}

impl DeepEntropyVerifier {
    /// The registered profiles, in order of registration.
    pub closed spec fn profiles(&self) -> Seq<ProfileEntry> {
        self.hardware_profiles@
    }

    /// The score floors.
    pub closed spec fn floors(&self) -> EntropyThresholds {
        self.thresholds
    }

    /// Every registered profile keeps its arithmetic in range.
    /// Every registered profile is well formed, and no id is registered twice.
    pub open spec fn wf(&self) -> bool {
        &&& forall|i: int| 0 <= i < self.profiles().len() ==> profile_wf(#[trigger] self.profiles()[i].profile)
        &&& forall|i: int, j: int|
            0 <= i < j < self.profiles().len() ==> (#[trigger] self.profiles()[i]).id@
                != (#[trigger] self.profiles()[j]).id@
    }

    /// A verifier with the standard registry and floors, its challenges drawn
    /// from a generator seeded by the operating system.
    pub fn new() -> (r: Self)
        ensures
            r.wf(),
            r.floors() == default_thresholds(),
            standard_registry(r.profiles()),
    {
        Self::with_rng(rng_from_entropy())
    }

    /// A verifier with the standard registry and floors whose challenges come
    /// from a generator with the given seed, for reproducible sequences.
    pub fn with_seed(seed: u64) -> (r: Self)
        ensures
            r.wf(),
            r.floors() == default_thresholds(),
            standard_registry(r.profiles()),
    {
        Self::with_rng(rng_from_seed(seed))
    }

    fn with_rng(rng: rand_chacha::ChaCha20Rng) -> (r: Self)
        ensures
            r.wf(),
            r.floors() == default_thresholds(),
            standard_registry(r.profiles()),
    {
        let mut verifier = DeepEntropyVerifier {
            hardware_profiles: Vec::new(),
            thresholds: EntropyThresholds::default(),
            challenge_rng: rng,
        };
        verifier.initialize_profiles();
        proof {
            assert(verifier.profiles().subrange(0, 3) == verifier.profiles());
        }
        verifier
    }

    /// Registers the Intel 486 DX2-66 (`486DX2`), the Intel Pentium 100
    /// (`Pentium`) and the PowerPC G4 (`G4`).
    pub fn initialize_profiles(&mut self)
        requires
            old(self).wf(),
            forall|i: int| 0 <= i < old(self).profiles().len() ==> !is_standard_id(
                (#[trigger] old(self).profiles()[i]).id@,
            ),
        ensures
            final(self).wf(),
            final(self).floors() == old(self).floors(),
            final(self).profiles().len() == old(self).profiles().len() + 3,
            final(self).profiles().subrange(0, old(self).profiles().len() as int)
                == old(self).profiles(),
            standard_registry(
                final(self).profiles().subrange(
                    old(self).profiles().len() as int,
                    old(self).profiles().len() as int + 3,
                ),
            ),
    {
        self.hardware_profiles.push(
            ProfileEntry {
                id: "486DX2".to_owned(),
                profile: HardwareProfile {
                    name: "Intel 486 DX2-66".to_owned(),
                    cpu_family: 4,
                    year_introduced: 1992,
                    expected_instruction_timing: timing_table(
                        (1300, 4200),
                        (4000, 4400),
                        (800, 2000),
                        (1600, 2700),
                    ),
                    expected_bus_type: BusType::ISA,
                    expected_quirks: quirk_list("no_rdtsc", Some("a20_gate")),
                    emulation_difficulty: 95,
                },
            },
        );
        self.hardware_profiles.push(
            ProfileEntry {
                id: "Pentium".to_owned(),
                profile: HardwareProfile {
                    name: "Intel Pentium 100".to_owned(),
                    cpu_family: 5,
                    year_introduced: 1994,
                    expected_instruction_timing: timing_table(
                        (1000, 1100),
                        (1700, 4100),
                        (300, 300),
                        (300, 300),
                    ),
                    expected_bus_type: BusType::PCI,
                    expected_quirks: quirk_list("fdiv_bug", None),
                    emulation_difficulty: 90,
                },
            },
        );
        self.hardware_profiles.push(
            ProfileEntry {
                id: "G4".to_owned(),
                profile: HardwareProfile {
                    name: "PowerPC G4".to_owned(),
                    cpu_family: 74,
                    year_introduced: 1999,
                    expected_instruction_timing: timing_table(
                        (300, 400),
                        (2000, 3500),
                        (500, 500),
                        (500, 500),
                    ),
                    expected_bus_type: BusType::PCI,
                    expected_quirks: quirk_list("altivec", Some("big_endian")),
                    emulation_difficulty: 85,
                },
            },
        );
        proof {
            let n = old(self).hardware_profiles@.len() as int;
            let added = self.hardware_profiles@.subrange(n, n + 3);
            assert(self.hardware_profiles@.subrange(0, n) == old(self).hardware_profiles@);
            assert(added[0] == self.hardware_profiles@[n]);
            assert(added[1] == self.hardware_profiles@[n + 1]);
            assert(added[2] == self.hardware_profiles@[n + 2]);
            assert(seq!["no_rdtsc"@, "a20_gate"@][1] == "a20_gate"@);
            reveal_strlit("486DX2");
            reveal_strlit("Pentium");
            reveal_strlit("G4");
            assert forall|i: int, j: int|
                0 <= i < j < self.profiles().len() implies (#[trigger] self.profiles()[i]).id@
                != (#[trigger] self.profiles()[j]).id@ by {
                assert(self.profiles()[n].id@ == "486DX2"@);
                assert(self.profiles()[n + 1].id@ == "Pentium"@);
                assert(self.profiles()[n + 2].id@ == "G4"@);
                assert("486DX2"@.len() == 6 && "Pentium"@.len() == 7 && "G4"@.len() == 2);
                if j >= n {
                    assert(is_standard_id(self.profiles()[j].id@));
                    if i < n {
                        assert(self.profiles()[i] == old(self).profiles()[i]);
                        assert(!is_standard_id(old(self).profiles()[i].id@));
                    }
                } else {
                    assert(self.profiles()[i] == old(self).profiles()[i]);
                    assert(self.profiles()[j] == old(self).profiles()[j]);
                }
            }
        }
    }

    /// Whether a profile is registered under `id`.
    pub fn has_profile(&self, id: &str) -> (r: bool)
        ensures
            r == find_profile(self.profiles(), id@) is Some,
    {
        let key = id.to_owned();
        self.find_profile_exec(&key).is_some()
    }

    fn find_profile_exec(&self, id: &String) -> (r: Option<usize>)
        ensures
            match find_profile(self.profiles(), id@) {
                Some(p) => r matches Some(i) && i < self.profiles().len()
                    && self.profiles()[i as int].profile == p,
                None => r is None,
            },
    {
        let es = &self.hardware_profiles;
        let mut i: usize = 0;
        proof {
            assert(es@.subrange(0, es@.len() as int) == es@);
        }
        while i < es.len()
            invariant
                es == &self.hardware_profiles,
                i <= es@.len(),
                find_profile(es@, id@) == find_profile(es@.subrange(i as int, es@.len() as int), id@),
            decreases es@.len() - i,
        {
            let ghost rest = es@.subrange(i as int, es@.len() as int);
            if es[i].id == *id {
                return Some(i);
            }
            proof {
                assert(rest.drop_first() == es@.subrange(i + 1, es@.len() as int));
            }
            i = i + 1;
        }
        None
    }

    /// Generates a live challenge: a random nonce and 100 operations cycling
    /// through multiply, divide, float add, memory access and branch test.
    pub fn generate_challenge(&mut self) -> (r: Challenge)
        requires
            old(self).wf(),
        ensures
            final(self).wf(),
            final(self).profiles() == old(self).profiles(),
            final(self).floors() == old(self).floors(),
            r.operations@.len() == CHALLENGE_OPERATIONS,
            forall|i: int| 0 <= i < r.operations@.len() ==> operation_fits(i, #[trigger] r.operations@[i]),
            r.expected_time_range_us == (1000u64, 100_000u64),
    {
        let nonce = random_nonce(&mut self.challenge_rng);
        let mut draws: Vec<u64> = Vec::new();
        let mut i: usize = 0;
        while i < CHALLENGE_OPERATIONS
            invariant
                i <= CHALLENGE_OPERATIONS,
                draws@.len() == i,
                forall|k: int| 0 <= k < i ==> draw_fits(k, #[trigger] draws@[k]),
                self.hardware_profiles@ == old(self).hardware_profiles@,
                self.thresholds == old(self).thresholds,
            decreases CHALLENGE_OPERATIONS - i,
        {
            let d: u64 = if i % 5 == 0 {
                random_u64(&mut self.challenge_rng)
            } else if i % 5 == 1 {
                random_below(&mut self.challenge_rng, 1, 1000)
            } else if i % 5 == 2 {
                random_below(&mut self.challenge_rng, 0, FLOAT_DENOMINATOR)
            } else if i % 5 == 3 {
                random_below(&mut self.challenge_rng, 0, 1024)
            } else if random_bool(&mut self.challenge_rng) {
                1
            } else {
                0
            };
            draws.push(d);
            i = i + 1;
        }
        let challenge = assemble_challenge(nonce, &draws, crate::proof_of_antiquity::current_timestamp());
        proof {
            assert forall|k: int| 0 <= k < challenge.operations@.len() implies operation_fits(
                k,
                #[trigger] challenge.operations@[k],
            ) by {
                assert(draw_fits(k, draws@[k]));
            }
        }
        challenge
    }

    /// Scores an entropy proof against the profile of the claimed hardware.
    /// An unknown claim fails closed: invalid, with emulation certain. Otherwise
    /// the five layer scores are weighted into a total; the proof is valid when
    /// the total reaches its floor and no layer falls below its own, and every
    /// breached layer floor adds one issue.
    pub fn verify(&self, proof: &EntropyProof, claimed_hardware: &str) -> (r: VerificationResult)
        requires
            self.wf(),
        ensures
            match find_profile(self.profiles(), claimed_hardware@) {
                None => {
                    &&& !r.valid
                    &&& r.total_score == 0
                    &&& r.scores == zero_scores()
                    &&& r.emulation_probability == CERTAIN
                    &&& issue_texts(r.issues@) == seq!["Unknown hardware profile"@]
                },
                Some(p) => {
                    let t = self.floors();
                    &&& r.scores == layer_scores(*proof, p)
                    &&& r.total_score == r.scores.total
                    &&& issue_texts(r.issues@) == floor_messages(r.scores, t)
                    &&& r.issues@.len() == breached_floors(r.scores, t)
                    &&& r.valid == (r.total_score >= t.total_min_entropy && breached_floors(
                        r.scores,
                        t,
                    ) == 0)
                    &&& r.emulation_probability == emulation_probability_of(
                        r.total_score as nat,
                        p.emulation_difficulty as nat,
                    )
                },
            },
    {
        let key = claimed_hardware.to_owned();
        let idx = match self.find_profile_exec(&key) {
            Some(i) => i,
            None => {
                let mut issues: Vec<String> = Vec::new();
                issues.push("Unknown hardware profile".to_owned());
                proof {
                    assert(issue_texts(issues@) =~= seq!["Unknown hardware profile"@]);
                }
                return VerificationResult {
                    valid: false,
                    total_score: 0,
                    scores: EntropyScores {
                        instruction: 0,
                        memory: 0,
                        bus: 0,
                        thermal: 0,
                        quirks: 0,
                        total: 0,
                    },
                    issues,
                    emulation_probability: CERTAIN,
                };
            },
        };
        let profile = &self.hardware_profiles[idx].profile;
        proof {
            assert(profile_wf(self.profiles()[idx as int].profile));
        }
        let t = &self.thresholds;
        let mut issues: Vec<String> = Vec::new();
        let instruction = verify_instruction_layer(&proof.instruction_layer, profile);
        if instruction < t.min_instruction_entropy {
            issues.push(INSTRUCTION_FLOOR_TEXT.to_owned());
        }
        let ghost e1 = note_if(instruction < t.min_instruction_entropy, INSTRUCTION_FLOOR_TEXT@);
        proof {
            assert(issue_texts(issues@) =~= e1);
        }
        let memory = verify_memory_layer(&proof.memory_layer);
        if memory < t.min_memory_entropy {
            issues.push(MEMORY_FLOOR_TEXT.to_owned());
        }
        let ghost e2 = e1 + note_if(memory < t.min_memory_entropy, MEMORY_FLOOR_TEXT@);
        proof {
            assert(issue_texts(issues@) =~= e2);
        }
        let bus = verify_bus_layer(&proof.bus_layer, profile.expected_bus_type);
        if bus < t.min_bus_entropy {
            issues.push(BUS_FLOOR_TEXT.to_owned());
        }
        let ghost e3 = e2 + note_if(bus < t.min_bus_entropy, BUS_FLOOR_TEXT@);
        proof {
            assert(issue_texts(issues@) =~= e3);
        }
        let thermal = verify_thermal_layer(&proof.thermal_layer);
        if thermal < t.min_thermal_entropy {
            issues.push(THERMAL_FLOOR_TEXT.to_owned());
        }
        let ghost e4 = e3 + note_if(thermal < t.min_thermal_entropy, THERMAL_FLOOR_TEXT@);
        proof {
            assert(issue_texts(issues@) =~= e4);
        }
        let quirks = verify_quirk_layer(&proof.quirk_layer, profile);
        if quirks < t.min_quirk_entropy {
            issues.push(QUIRK_FLOOR_TEXT.to_owned());
        }
        let ghost e5 = e4 + note_if(quirks < t.min_quirk_entropy, QUIRK_FLOOR_TEXT@);
        proof {
            assert(issue_texts(issues@) =~= e5);
        }
        let total: u64 = 25 * instruction + 20 * memory + 20 * bus + 15 * thermal + 20 * quirks;
        let scores = EntropyScores { instruction, memory, bus, thermal, quirks, total };
        proof {
            assert(total * profile.emulation_difficulty <= 100_000_000) by (nonlinear_arith)
                requires
                    total <= 1_000_000,
                    profile.emulation_difficulty <= 100,
            ;
        }
        let discounted: u64 = total * profile.emulation_difficulty / 100;
        let emulation_probability: u64 = if discounted >= CERTAIN {
            0
        } else {
            CERTAIN - discounted
        };
        let valid = total >= t.total_min_entropy && issues.len() == 0;
        VerificationResult { valid, total_score: total, scores, issues, emulation_probability }
    }
}

/// Instruction layer monotonicity: when the same expected instructions are
/// measured and each earns at least as many points (a mean moved into range,
/// jitter made natural), the layer score does not decrease.
pub proof fn lemma_instruction_score_monotone(
    exp: Seq<ExpectedTiming>,
    ts1: Seq<NamedTiming>,
    ts2: Seq<NamedTiming>,
)
    requires
        forall|i: int|
            0 <= i < exp.len() ==> (find_timing(ts1, (#[trigger] exp[i]).instruction@) is Some
                <==> find_timing(ts2, exp[i].instruction@) is Some),
        forall|i: int|
            0 <= i < exp.len() && find_timing(ts1, (#[trigger] exp[i]).instruction@) is Some
                ==> timing_points(exp[i], find_timing(ts1, exp[i].instruction@)->0)
                <= timing_points(exp[i], find_timing(ts2, exp[i].instruction@)->0),
    ensures
        instruction_score(exp, ts1) <= instruction_score(exp, ts2),
{
    lemma_checks_and_halves(exp, ts1, ts2);
    let c = instruction_checks(exp, ts1);
    if c > 0 {
        vstd::arithmetic::div_mod::lemma_div_is_ordered(
            (instruction_halves(exp, ts1) * 5000) as int,
            (instruction_halves(exp, ts2) * 5000) as int,
            c as int,
        );
    }
}

proof fn lemma_checks_and_halves(exp: Seq<ExpectedTiming>, ts1: Seq<NamedTiming>, ts2: Seq<NamedTiming>)
    requires
        forall|i: int|
            0 <= i < exp.len() ==> (find_timing(ts1, (#[trigger] exp[i]).instruction@) is Some
                <==> find_timing(ts2, exp[i].instruction@) is Some),
        forall|i: int|
            0 <= i < exp.len() && find_timing(ts1, (#[trigger] exp[i]).instruction@) is Some
                ==> timing_points(exp[i], find_timing(ts1, exp[i].instruction@)->0)
                <= timing_points(exp[i], find_timing(ts2, exp[i].instruction@)->0),
    ensures
        instruction_checks(exp, ts1) == instruction_checks(exp, ts2),
        instruction_halves(exp, ts1) <= instruction_halves(exp, ts2),
    decreases exp.len(),
{
    if exp.len() > 0 {
        let init = exp.drop_last();
        assert forall|i: int| 0 <= i < init.len() implies (find_timing(
            ts1,
            (#[trigger] init[i]).instruction@,
        ) is Some <==> find_timing(ts2, init[i].instruction@) is Some) by {
            assert(init[i] == exp[i]);
        }
        assert forall|i: int|
            0 <= i < init.len() && find_timing(ts1, (#[trigger] init[i]).instruction@) is Some
                implies timing_points(init[i], find_timing(ts1, init[i].instruction@)->0)
                <= timing_points(init[i], find_timing(ts2, init[i].instruction@)->0) by {
            assert(init[i] == exp[i]);
        }
        lemma_checks_and_halves(init, ts1, ts2);
        let k = exp.len() - 1;
        assert(exp.last() == exp[k]);
    }
}

/// Memory layer monotonicity: a layer that meets every criterion another
/// meets scores at least as high.
pub proof fn lemma_memory_score_monotone(l1: MemoryPatternLayer, l2: MemoryPatternLayer)
    requires
        2 * l1.sequential_read.stride_64 >= 3 * l1.sequential_read.stride_1 ==> 2
            * l2.sequential_read.stride_64 >= 3 * l2.sequential_read.stride_1,
        l1.page_crossing_penalty > 1000 ==> l2.page_crossing_penalty > 1000,
        l1.refresh_interference.detectable ==> l2.refresh_interference.detectable,
    ensures
        memory_score(l1) <= memory_score(l2),
{
}

/// Memory layer monotonicity in measured quality: when the stride-64 to
/// stride-1 throughput ratio does not fall (compared crosswise), the page
/// crossing penalty does not fall and detectable refresh interference stays
/// detectable, the score does not decrease. The first layer's ratio must be
/// defined, that is not 0/0.
pub proof fn lemma_memory_quality_monotone(l1: MemoryPatternLayer, l2: MemoryPatternLayer)
    requires
        !(l1.sequential_read.stride_1 == 0 && l1.sequential_read.stride_64 == 0),
        l2.sequential_read.stride_64 as int * l1.sequential_read.stride_1 as int
            >= l1.sequential_read.stride_64 as int * l2.sequential_read.stride_1 as int,
        l1.page_crossing_penalty <= l2.page_crossing_penalty,
        l1.refresh_interference.detectable ==> l2.refresh_interference.detectable,
    ensures
        memory_score(l1) <= memory_score(l2),
{
    let a1 = l1.sequential_read.stride_64 as int;
    let b1 = l1.sequential_read.stride_1 as int;
    let a2 = l2.sequential_read.stride_64 as int;
    let b2 = l2.sequential_read.stride_1 as int;
    if 2 * a1 >= 3 * b1 {
        if b1 > 0 {
            assert(2 * a2 >= 3 * b2) by (nonlinear_arith)
                requires
                    a2 * b1 >= a1 * b2,
                    2 * a1 >= 3 * b1,
                    b1 > 0,
                    b2 >= 0,
            ;
        } else {
            assert(b2 == 0) by (nonlinear_arith)
                requires
                    a2 * b1 >= a1 * b2,
                    b1 == 0,
                    a1 > 0,
                    b2 >= 0,
            ;
        }
    }
    lemma_memory_score_monotone(l1, l2);
}

/// Bus layer monotonicity: a layer that meets every criterion another meets
/// scores at least as high.
pub proof fn lemma_bus_score_monotone(l1: BusTimingLayer, l2: BusTimingLayer, expected: BusType)
    requires
        l1.bus_type == expected ==> l2.bus_type == expected,
        io_range(expected).0 <= l1.io_timing.port_read_ns <= io_range(expected).1 ==> io_range(
            expected,
        ).0 <= l2.io_timing.port_read_ns <= io_range(expected).1,
        l1.interrupt_latency.hw_latency_ns > 1000 ==> l2.interrupt_latency.hw_latency_ns > 1000,
    ensures
        bus_score(l1, expected) <= bus_score(l2, expected),
{
}

/// Thermal layer monotonicity: a layer that meets every criterion another
/// meets scores at least as high.
pub proof fn lemma_thermal_score_monotone(l1: ThermalEntropyLayer, l2: ThermalEntropyLayer)
    requires
        !l1.clock_stability.frequency_changed ==> !l2.clock_stability.frequency_changed,
        l1.power_states.c_states@.len() == 0 ==> l2.power_states.c_states@.len() == 0,
        l1.power_states.p_states@.len() == 0 ==> l2.power_states.p_states@.len() == 0,
    ensures
        thermal_score(l1) <= thermal_score(l2),
{
}

/// Quirk layer monotonicity: confirming more of the expected quirks never
/// lowers the score.
pub proof fn lemma_quirk_score_monotone(
    exp: Seq<String>,
    rs1: Seq<NamedQuirkResult>,
    rs2: Seq<NamedQuirkResult>,
)
    requires
        forall|i: int|
            0 <= i < exp.len() && quirk_confirmed(rs1, (#[trigger] exp[i])@) ==> quirk_confirmed(
                rs2,
                exp[i]@,
            ),
    ensures
        quirk_score(exp, rs1) <= quirk_score(exp, rs2),
{
    lemma_hits_monotone(exp, rs1, rs2);
    if exp.len() > 0 {
        vstd::arithmetic::div_mod::lemma_div_is_ordered(
            (quirk_hits(exp, rs1) * 10000) as int,
            (quirk_hits(exp, rs2) * 10000) as int,
            exp.len() as int,
        );
    }
}

proof fn lemma_hits_monotone(exp: Seq<String>, rs1: Seq<NamedQuirkResult>, rs2: Seq<NamedQuirkResult>)
    requires
        forall|i: int|
            0 <= i < exp.len() && quirk_confirmed(rs1, (#[trigger] exp[i])@) ==> quirk_confirmed(
                rs2,
                exp[i]@,
            ),
    ensures
        quirk_hits(exp, rs1) <= quirk_hits(exp, rs2),
    decreases exp.len(),
{
    if exp.len() > 0 {
        let init = exp.drop_last();
        assert forall|i: int|
            0 <= i < init.len() && quirk_confirmed(rs1, (#[trigger] init[i])@) implies quirk_confirmed(
            rs2,
            init[i]@,
        ) by {
            assert(init[i] == exp[i]);
        }
        lemma_hits_monotone(init, rs1, rs2);
        assert(exp.last() == exp[exp.len() - 1]);
    }
}

} // verus!
