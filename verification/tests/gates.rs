use one_engine::engine::kernel::{ExtendedBits, KernelLoop, Meta2Change};
use one_engine::engine::policy::{penalized, trust_from};
use one_engine::engine::types::{Bits, Policy};

const ONE: i64 = 1_000_000;

fn bits(a: i64, p: i64, d: i64) -> ExtendedBits {
    let mut b = ExtendedBits::init();
    b.a = a;
    b.p = p;
    b.d = d;
    b
}

#[test]
fn initial_bits_are_asked_permitted_and_half_trusted() {
    let b = Bits::init();
    assert_eq!((b.a, b.p, b.t, b.m), (ONE, ONE, 500_000, 0));
    assert_eq!((b.u, b.e, b.d, b.i, b.r), (0, 0, 0, 0, 0));
    let e = ExtendedBits::init();
    assert_eq!((e.a, e.p, e.t, e.m), (ONE, ONE, 500_000, 0));
    assert_eq!(Bits::from(e), b);
}

#[test]
fn ask_act_gate_opens_for_initial_bits() {
    let k = KernelLoop::new();
    assert!(k.ask_act_gate(&ExtendedBits::init()));
}

#[test]
fn ask_act_gate_on_all_corners() {
    let k = KernelLoop::new();
    let below = ONE - 1;
    // asked, permitted, fresh: the only corner that opens it
    assert!(k.ask_act_gate(&bits(ONE, ONE, 0)));
    assert!(!k.ask_act_gate(&bits(ONE, ONE, ONE)));
    assert!(!k.ask_act_gate(&bits(ONE, below, 0)));
    assert!(!k.ask_act_gate(&bits(ONE, below, ONE)));
    assert!(!k.ask_act_gate(&bits(below, ONE, 0)));
    assert!(!k.ask_act_gate(&bits(below, ONE, ONE)));
    assert!(!k.ask_act_gate(&bits(below, below, 0)));
    assert!(!k.ask_act_gate(&bits(below, below, ONE)));
    assert!(!k.ask_act_gate(&bits(0, ONE, 0)));
    assert!(!k.ask_act_gate(&bits(ONE, 0, 0)));
    assert!(!k.ask_act_gate(&bits(0, 0, 0)));
    // the smallest drift closes it
    assert!(!k.ask_act_gate(&bits(ONE, ONE, 1)));
}

#[test]
fn enforce_ask_act_gate_reports_the_three_scalars() {
    let k = KernelLoop::new();
    assert_eq!(k.enforce_ask_act_gate(&bits(ONE, ONE, 0)), Ok(()));
    assert_eq!(
        k.enforce_ask_act_gate(&bits(ONE, 0, ONE)),
        Err("Ask-Act gate failed: A=1.0, P=0.0, Δ=1.0".to_string())
    );
    assert_eq!(
        k.enforce_ask_act_gate(&bits(500_000, ONE, 0)),
        Err("Ask-Act gate failed: A=0.5, P=1.0, Δ=0.0".to_string())
    );
}

#[test]
fn validate_bits_complete_names_the_first_offender() {
    let k = KernelLoop::new();
    assert_eq!(k.validate_bits_complete(&ExtendedBits::init()), Ok(()));
    let mut b = ExtendedBits::init();
    b.t = ONE + 500_000;
    assert_eq!(k.validate_bits_complete(&b), Err("Invalid bit T: 1.500".to_string()));
    b.u = -1_000;
    assert_eq!(k.validate_bits_complete(&b), Err("Invalid bit U: -0.001".to_string()));
    let mut c = ExtendedBits::init();
    c.d = 2 * ONE;
    assert_eq!(k.validate_bits_complete(&c), Err("Invalid bit Δ: 2.000".to_string()));
    let mut m = ExtendedBits::init();
    m.m = -ONE;
    assert_eq!(k.validate_bits_complete(&m), Err("Invalid bit M: -1.000".to_string()));
}

#[test]
fn evidence_gate_closes_at_the_threshold() {
    let k = KernelLoop::new();
    let mut b = ExtendedBits::init();
    b.u = 699_999;
    assert!(k.evidence_gate(&b));
    b.u = 700_000;
    assert!(!k.evidence_gate(&b));
    b.u = 900_000;
    assert!(!k.evidence_gate(&b));
}

#[test]
fn should_wake_l3_needs_three_samples() {
    let k = KernelLoop::new();
    assert!(!k.should_wake_l3(&[]));
    assert!(!k.should_wake_l3(&[900_000]));
    assert!(!k.should_wake_l3(&[900_000, 100_000]));
}

#[test]
fn should_wake_l3_on_the_documented_histories() {
    let k = KernelLoop::new();
    assert!(!k.should_wake_l3(&[900_000, 950_000, 990_000, 800_000]));
    assert!(!k.should_wake_l3(&[900_000, 950_000, 600_000, 500_000]));
    assert!(!k.should_wake_l3(&[900_000, 980_000, 700_000]));
    assert!(k.should_wake_l3(&[900_000, 500_000, 950_000, 600_000]));
    // only the last three count
    assert!(k.should_wake_l3(&[0, 0, 0, 500_000, 950_000, 600_000]));
    // equal values do not count as a step
    assert!(!k.should_wake_l3(&[500_000, 600_000, 600_000]));
    assert!(!k.should_wake_l3(&[600_000, 950_000, 600_000]));
}

#[test]
fn trust_from_scores() {
    let mut b = Bits::init();
    assert_eq!(trust_from(true, &b), 900_000);
    assert_eq!(trust_from(false, &b), 300_000);
    b.e = 500_000;
    assert_eq!(trust_from(true, &b), 600_000);
    assert_eq!(trust_from(false, &b), 300_000);
}

#[test]
fn penalties_are_exact() {
    assert_eq!(penalized(900_000, 7), 630_000);
    assert_eq!(penalized(600_000, 7), 420_000);
    assert_eq!(penalized(300_000, 7), 210_000);
    assert_eq!(penalized(900_000, 8), 720_000);
    assert_eq!(penalized(300_000, 8), 240_000);
}

#[test]
fn default_policy_values() {
    let p = Policy::default();
    assert_eq!(p.gamma_gate, 500_000);
    assert_eq!(p.time_ms, 300_000);
    assert_eq!(p.max_risk, 200_000);
    assert_eq!(p.tiny_diff_loc, 120);
}

#[test]
fn kernel_loop_starts_with_the_documented_parameters() {
    let k = KernelLoop::new();
    assert_eq!(k.l2_params.ask_act_threshold, 800_000);
    assert_eq!(k.l2_params.confidence_gate_tau, 700_000);
    assert_eq!(k.l2_params.backoff_k, 3);
    assert_eq!(k.l2_params.retry_strategies, vec!["cache".to_string(), "alt_api".to_string()]);
    assert_eq!(k.l3_rules.evidence_coverage_min, 900_000);
    assert_eq!(k.l3_rules.rollback_rate_max, 80_000);
    assert_eq!(k.l3_rules.weekly_param_delta_max, 150_000);
    assert_eq!(k.l3_rules.shadow_rollout_pct, 200_000);
}

#[test]
fn propose_meta2_change_fires_under_the_floor_only() {
    let mut k = KernelLoop::new();
    assert!(k.propose_meta2_change("evidence_coverage", 900_000).is_none());
    assert!(k.propose_meta2_change("evidence_coverage", 950_000).is_none());
    let p = k.propose_meta2_change("evidence_coverage", 630_000).expect("a proposal");
    assert_eq!(p.symptom, "evidence_coverage fell to 0.630");
    assert_eq!(p.hypothesis, "confidence gate too restrictive");
    assert_eq!(p.shadow_pct, 200_000);
    assert_eq!(p.rollback_condition, "evidence_coverage < 0.85 for 3d");
    match p.change {
        Meta2Change::ConfidenceGate { old_tau, new_tau } => {
            assert_eq!(old_tau, 700_000);
            assert_eq!(new_tau, 650_000);
        }
        _ => panic!("a confidence gate change was expected"),
    }
    // the control state itself stays
    assert_eq!(k.l2_params.confidence_gate_tau, 700_000);
}

#[test]
fn proposed_threshold_never_goes_under_one_half() {
    let mut k = KernelLoop::new();
    k.l2_params.confidence_gate_tau = 520_000;
    let p = k.propose_meta2_change("kpi", 0).expect("a proposal");
    match p.change {
        Meta2Change::ConfidenceGate { old_tau, new_tau } => {
            assert_eq!(old_tau, 520_000);
            assert_eq!(new_tau, 500_000);
        }
        _ => panic!("a confidence gate change was expected"),
    }
}

#[test]
fn self_snapshot_over_the_latest_five() {
    let k = KernelLoop::new();
    assert_eq!(
        k.get_self_snapshot(&[]),
        "effectiveness=0.50, trust_trend=0.00, recent_drift=false"
    );
    let mut a = ExtendedBits::init();
    a.t = 900_000;
    let mut b = ExtendedBits::init();
    b.t = 600_000;
    b.p = 0;
    let mut c = ExtendedBits::init();
    c.t = 300_000;
    c.d = ONE;
    // newest last: trend = trust of c less trust of a
    assert_eq!(
        k.get_self_snapshot(&[a, b, c]),
        "effectiveness=0.67, trust_trend=-0.60, recent_drift=true"
    );
    let snap = k.self_snapshot(&[a, b, c]);
    assert_eq!(snap.effectiveness, 666_666);
    assert_eq!(snap.trust_trend, -600_000);
    assert!(snap.recent_drift);
    // an entry older than the latest five does not count
    let old = c;
    let fresh = ExtendedBits::init();
    let snap = k.self_snapshot(&[old, fresh, fresh, fresh, fresh, fresh]);
    assert_eq!(snap.effectiveness, ONE);
    assert_eq!(snap.trust_trend, 0);
    assert!(!snap.recent_drift);
}
