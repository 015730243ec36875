use rips::deep_entropy::{
    AccessPattern, BranchMisprediction, BusTimingLayer, BusType, CacheMissPenalty,
    ChallengeOperation, ChallengeResponse, ClockStability, DeepEntropyVerifier, EntropyProof,
    EntropyThresholds, FpuTimings, InstructionTimingLayer, InterruptLatency, IoTiming,
    MemoryPatternLayer, NamedQuirkResult, NamedTiming, PowerStateInfo, QuirkEntropyLayer,
    QuirkTestResult, RefreshPattern, ThermalEntropyLayer, ThermalVariance, TimingMeasurement,
};

#[test]
fn test_bus_timing_ranges() {
    let isa = BusType::ISA;
    let pcie = BusType::PCIe;

    let (isa_min, _isa_max) = isa.expected_io_timing_ns();
    let (_pcie_min, pcie_max) = pcie.expected_io_timing_ns();

    assert!(isa_min > pcie_max);
}

#[test]
fn test_entropy_thresholds() {
    let thresholds = EntropyThresholds::default();
    assert!(thresholds.total_min_entropy as f64 / 1_000_000.0 > 0.5);
}

#[test]
fn test_verifier_initialization() {
    let verifier = DeepEntropyVerifier::new();
    assert!(verifier.has_profile("486DX2"));
    assert!(verifier.has_profile("G4"));
}

fn timing(name: &str, mean: u64, std_dev: u64) -> NamedTiming {
    NamedTiming {
        instruction: name.to_string(),
        measurement: TimingMeasurement { mean, std_dev, min: 0, max: 0, samples: 1000 },
    }
}

fn pattern(stride_1: u64, stride_64: u64) -> AccessPattern {
    AccessPattern { stride_1, stride_4: 0, stride_16: 0, stride_64, stride_256: 0, variance: 0 }
}

fn quirk(name: &str, detected: bool, confidence: u64) -> NamedQuirkResult {
    NamedQuirkResult {
        quirk: name.to_string(),
        result: QuirkTestResult { detected, confidence, raw_data: Vec::new() },
    }
}

/// A proof that looks like a genuine 486 DX2 on an ISA bus.
fn vintage_486_proof() -> EntropyProof {
    EntropyProof {
        instruction_layer: InstructionTimingLayer {
            instruction_timings: vec![
                timing("mul", 2000, 300),
                timing("div", 4200, 100),
                timing("fadd", 1000, 200),
                timing("fmul", 2000, 400),
            ],
            cache_miss_penalty: CacheMissPenalty { l1_miss: 0, l2_miss: None, memory_latency: 0 },
            branch_misprediction: BranchMisprediction { penalty_cycles: 0, accuracy: 0 },
            fpu_timings: FpuTimings { fadd: 0, fmul: 0, fdiv: 0, fsqrt: None },
        },
        memory_layer: MemoryPatternLayer {
            sequential_read: pattern(1000, 2000),
            random_read: pattern(0, 0),
            write_pattern: pattern(0, 0),
            page_crossing_penalty: 1500,
            bank_conflict: None,
            refresh_interference: RefreshPattern { interval_us: 15, jitter: 0, detectable: true },
        },
        bus_layer: BusTimingLayer {
            bus_type: BusType::ISA,
            io_timing: IoTiming { port_read_ns: 1500, port_write_ns: 1500, variance: 0 },
            dma_characteristics: None,
            interrupt_latency: InterruptLatency { hw_latency_ns: 5000, sw_latency_ns: 0 },
        },
        thermal_layer: ThermalEntropyLayer {
            clock_stability: ClockStability {
                mean_frequency_khz: 66_000,
                variance: 0,
                frequency_changed: false,
            },
            thermal_variance: ThermalVariance { timing_variance: 0, expected_variance: 0 },
            power_states: PowerStateInfo { state_count: 0, c_states: Vec::new(), p_states: Vec::new() },
        },
        quirk_layer: QuirkEntropyLayer {
            detected_quirks: Vec::new(),
            quirk_test_results: vec![quirk("no_rdtsc", true, 950), quirk("a20_gate", true, 900)],
        },
        challenge_response: ChallengeResponse {
            challenge_nonce: [0u8; 32],
            response: [0u8; 32],
            computation_time_us: 5000,
            entropy_samples: Vec::new(),
        },
        timestamp: 0,
        signature_hash: [0u8; 32],
    }
}

#[test]
fn genuine_486_scores_full_marks() {
    let verifier = DeepEntropyVerifier::with_seed(1);
    let r = verifier.verify(&vintage_486_proof(), "486DX2");
    assert_eq!(r.scores.instruction, 10_000);
    assert_eq!(r.scores.memory, 10_000);
    assert_eq!(r.scores.bus, 10_000);
    assert_eq!(r.scores.thermal, 10_000);
    assert_eq!(r.scores.quirks, 10_000);
    assert_eq!(r.total_score, 1_000_000);
    assert!(r.valid);
    assert!(r.issues.is_empty());
    assert_eq!(r.emulation_probability, 50_000);
}

#[test]
fn timings_out_of_range_fail_instruction_floor() {
    let verifier = DeepEntropyVerifier::with_seed(2);
    let mut proof = vintage_486_proof();
    proof.instruction_layer.instruction_timings = vec![
        timing("mul", 100, 0),
        timing("div", 100, 0),
        timing("fadd", 100, 0),
        timing("fmul", 100, 0),
    ];
    let r = verifier.verify(&proof, "486DX2");
    assert_eq!(r.scores.instruction, 0);
    assert!(!r.valid);
    assert_eq!(r.issues.len(), 1);
    assert_eq!(r.total_score, 750_000);
}

#[test]
fn unknown_hardware_fails_closed() {
    let verifier = DeepEntropyVerifier::with_seed(3);
    let r = verifier.verify(&vintage_486_proof(), "Z80");
    assert!(!r.valid);
    assert_eq!(r.total_score, 0);
    assert_eq!(r.emulation_probability, 1_000_000);
    assert_eq!(r.issues, vec!["Unknown hardware profile".to_string()]);
}

#[test]
fn partial_layers_score_their_parts() {
    let verifier = DeepEntropyVerifier::with_seed(4);
    let mut proof = vintage_486_proof();
    // mean in range but a perfectly flat signal: half marks on each instruction
    proof.instruction_layer.instruction_timings =
        vec![timing("mul", 2000, 0), timing("div", 4200, 0), timing("sqrt", 10, 1)];
    proof.memory_layer.refresh_interference.detectable = false;
    proof.bus_layer.bus_type = BusType::PCI;
    proof.thermal_layer.clock_stability.frequency_changed = true;
    proof.thermal_layer.power_states.c_states = vec!["C1".to_string()];
    proof.quirk_layer.quirk_test_results = vec![quirk("no_rdtsc", true, 800), quirk("a20_gate", true, 801)];
    let r = verifier.verify(&proof, "486DX2");
    assert_eq!(r.scores.instruction, 5_000);
    assert_eq!(r.scores.memory, 6_000);
    assert_eq!(r.scores.bus, 5_000);
    assert_eq!(r.scores.thermal, 3_000);
    assert_eq!(r.scores.quirks, 5_000);
    assert_eq!(r.total_score, 25 * 5_000 + 20 * 6_000 + 20 * 5_000 + 15 * 3_000 + 20 * 5_000);
    assert!(!r.valid);
    assert!(r.issues.is_empty());
}

#[test]
fn better_measurement_never_lowers_a_layer() {
    let verifier = DeepEntropyVerifier::with_seed(5);
    let mut worse = vintage_486_proof();
    worse.instruction_layer.instruction_timings[0] = timing("mul", 9000, 300);
    let mut better = worse.clone();
    better.instruction_layer.instruction_timings[0] = timing("mul", 2000, 300);
    let a = verifier.verify(&worse, "486DX2");
    let b = verifier.verify(&better, "486DX2");
    assert_eq!(a.scores.instruction, 8_750);
    assert!(b.scores.instruction >= a.scores.instruction);
}

#[test]
fn challenges_cycle_through_operation_kinds() {
    let mut verifier = DeepEntropyVerifier::with_seed(42);
    let c = verifier.generate_challenge();
    assert_eq!(c.operations.len(), 100);
    assert_eq!(c.expected_time_range_us, (1000, 100_000));
    for (i, op) in c.operations.iter().enumerate() {
        match (i % 5, op) {
            (0, ChallengeOperation::IntegerMul(_)) => {}
            (1, ChallengeOperation::IntegerDiv(d)) => assert!(*d >= 1 && *d < 1000),
            (2, ChallengeOperation::FloatAdd(f)) => assert!(*f < (1u64 << 53)),
            (3, ChallengeOperation::MemoryAccess(a)) => assert!(*a < 1024),
            (4, ChallengeOperation::BranchTest(_)) => {}
            _ => panic!("operation {} has the wrong kind", i),
        }
    }
    let mut again = DeepEntropyVerifier::with_seed(42);
    let c2 = again.generate_challenge();
    assert_eq!(c.nonce, c2.nonce);
}

#[test]
fn issues_name_the_breached_floors() {
    let verifier = DeepEntropyVerifier::with_seed(6);
    let mut proof = vintage_486_proof();
    proof.instruction_layer.instruction_timings = vec![timing("mul", 100, 0)];
    proof.thermal_layer.clock_stability.frequency_changed = true;
    proof.thermal_layer.power_states.c_states = vec!["C1".to_string()];
    proof.thermal_layer.power_states.p_states = vec!["P1".to_string()];
    let r = verifier.verify(&proof, "486DX2");
    assert_eq!(
        r.issues,
        vec!["Instruction timing entropy too low".to_string(), "Thermal entropy suspicious".to_string()]
    );
    assert!(!r.valid);
}

#[test]
fn unknown_profile_scores_nothing() {
    let verifier = DeepEntropyVerifier::with_seed(7);
    let r = verifier.verify(&vintage_486_proof(), "8086");
    assert_eq!(r.scores, rips::deep_entropy::EntropyScores::default());
}

#[test]
fn challenge_assembled_from_draws() {
    let c = rips::deep_entropy::assemble_challenge([5u8; 32], &vec![7, 8, 9, 10, 0, 11, 12], 42);
    assert_eq!(c.nonce, [5u8; 32]);
    assert_eq!(c.timestamp, 42);
    assert!(matches!(c.operations[0], ChallengeOperation::IntegerMul(7)));
    assert!(matches!(c.operations[1], ChallengeOperation::IntegerDiv(8)));
    assert!(matches!(c.operations[2], ChallengeOperation::FloatAdd(9)));
    assert!(matches!(c.operations[3], ChallengeOperation::MemoryAccess(10)));
    assert!(matches!(c.operations[4], ChallengeOperation::BranchTest(false)));
    assert!(matches!(c.operations[5], ChallengeOperation::IntegerMul(11)));
    assert_eq!(c.operations.len(), 7);
}
