use sandbench::lifecycle::Lifecycle;
use sandbench::lifecycle::LifecycleOp;
use sandbench::lifecycle::LifecycleState;
use sandbench::prober::run_probes;
use sandbench::prober::PortProber;
use sandbench::prober::ProbeStep;
use sandbench::prober::MAX_RETRIES;

#[test]
fn open_port_is_found_on_first_attempt() {
    // A listener is already bound: the first connect succeeds.
    let mut outcomes = vec![false; 10001];
    outcomes[0] = true;
    let (found, attempts) = run_probes(&outcomes);
    assert!(found);
    assert!(attempts <= 5);
    assert_eq!(attempts, 1);
}

#[test]
fn closed_port_exhausts_after_exactly_10001_attempts() {
    let outcomes = vec![false; 10001];
    let (found, attempts) = run_probes(&outcomes);
    assert!(!found);
    assert_eq!(attempts, 10001);
}

#[test]
fn late_success_within_budget_still_counts() {
    let mut outcomes = vec![false; 10001];
    outcomes[10000] = true;
    let (found, attempts) = run_probes(&outcomes);
    assert!(found);
    assert_eq!(attempts, 10001);
}

#[test]
fn success_after_budget_is_not_seen() {
    let mut outcomes = vec![false; 10002];
    outcomes[10001] = true;
    let (found, _) = run_probes(&outcomes);
    assert!(!found);
}

#[test]
fn prober_steps_spend_the_budget() {
    assert_eq!(MAX_RETRIES, 10000);
    let mut prober = PortProber::new();
    assert!(matches!(prober.step(true), ProbeStep::Open));
    for _ in 0..MAX_RETRIES {
        assert!(matches!(prober.step(false), ProbeStep::Retry));
    }
    assert!(matches!(prober.step(false), ProbeStep::Exhausted));
}

#[test]
fn lifecycle_accepts_the_full_sequence() {
    let mut lc = Lifecycle::new();
    assert!(lc.advance(LifecycleOp::Presetup).is_ok());
    assert!(lc.advance(LifecycleOp::Start).is_ok());
    assert!(lc.advance(LifecycleOp::Kill).is_ok());
    assert!(lc.advance(LifecycleOp::Cleanup).is_ok());
    assert_eq!(lc.state, LifecycleState::Cleaned);
}

#[test]
fn kill_is_idempotent_after_start() {
    let mut lc = Lifecycle::new();
    lc.advance(LifecycleOp::Presetup).unwrap();
    lc.advance(LifecycleOp::Start).unwrap();
    assert!(lc.advance(LifecycleOp::Kill).is_ok());
    assert!(lc.advance(LifecycleOp::Kill).is_ok());
    assert_eq!(lc.state, LifecycleState::Killed);
}

#[test]
fn cleanup_is_safe_after_presetup_and_repeatable() {
    let mut lc = Lifecycle::new();
    lc.advance(LifecycleOp::Presetup).unwrap();
    assert!(lc.advance(LifecycleOp::Cleanup).is_ok());
    assert!(lc.advance(LifecycleOp::Cleanup).is_ok());
    assert_eq!(lc.state, LifecycleState::Cleaned);
}

#[test]
fn out_of_order_operations_are_refused() {
    let mut lc = Lifecycle::new();
    assert!(lc.advance(LifecycleOp::Start).is_err());
    assert!(lc.advance(LifecycleOp::Kill).is_err());
    assert!(lc.advance(LifecycleOp::Cleanup).is_err());
    assert_eq!(lc.state, LifecycleState::New);
    lc.advance(LifecycleOp::Presetup).unwrap();
    assert!(lc.advance(LifecycleOp::Presetup).is_err());
    assert!(lc.advance(LifecycleOp::Kill).is_err());
}
