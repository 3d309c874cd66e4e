use bootstrap_monitor::monitor::{Action, NodeMonitor, Phase};
use bootstrap_monitor::probe::ProbeOutcome;
use bootstrap_monitor::supervisor::{
    collect, conclude, MonitorFailure, MonitorResult, NodeTarget, NANOS_PER_SEC,
};

fn result(node: &str, elapsed_nanos: u128) -> MonitorResult {
    MonitorResult { node: node.to_string(), elapsed_nanos }
}

fn exited(node: &str, cause: &str) -> MonitorFailure {
    MonitorFailure::NodeExited { node: node.to_string(), cause: cause.to_string() }
}

#[test]
fn target_gives_a_fresh_monitor_and_the_address_to_probe() {
    let target = NodeTarget { endpoint: "http://127.0.0.1:18732/".to_string(), threshold: 500 };
    let monitor = target.monitor();
    assert_eq!(monitor, NodeMonitor::new(500));
    assert_eq!(monitor.phase(), Phase::Waiting);
    assert_eq!(target.status_url(), "http://127.0.0.1:18732/chains/main/blocks/head");
}

#[test]
fn elapsed_time_splits_into_seconds_and_nanoseconds() {
    assert_eq!(NANOS_PER_SEC, 1_000_000_000);
    let r = result("n", 12_345_678_901);
    assert_eq!(r.elapsed_secs(), 12);
    assert_eq!(r.elapsed_subsec_nanos(), 345_678_901);
    let r = result("n", 999_999_999);
    assert_eq!(r.elapsed_secs(), 0);
    assert_eq!(r.elapsed_subsec_nanos(), 999_999_999);
    let r = result("n", 1_000_000_000);
    assert_eq!(r.elapsed_secs(), 1);
    assert_eq!(r.elapsed_subsec_nanos(), 0);
    let r = result("n", 0);
    assert_eq!(r.elapsed_secs(), 0);
    assert_eq!(r.elapsed_subsec_nanos(), 0);
    let r = result("n", u128::MAX);
    assert_eq!(r.elapsed_secs(), 340282366920938463463374607431);
    assert_eq!(r.elapsed_subsec_nanos(), 768211455);
}

#[test]
fn elapsed_time_as_seconds_with_a_fraction() {
    let r = result("n", 20_500_000_000);
    let seconds = (r.elapsed_secs() as f64) + (r.elapsed_subsec_nanos() as f64 / 1_000_000_000.0);
    assert_eq!(seconds, 20.5);
}

#[test]
fn finish_concludes_with_a_result() {
    let verdict = conclude("http://a/".to_string(), Action::Finish { level: 10 }, 42);
    assert_eq!(verdict, Some(Ok(result("http://a/", 42))));
}

#[test]
fn abort_concludes_with_the_node_and_the_cause() {
    let verdict = conclude("http://a/".to_string(), Action::Abort { cause: "gone".to_string() }, 42);
    assert_eq!(verdict, Some(Err(exited("http://a/", "gone"))));
}

#[test]
fn reject_concludes_with_the_node_and_the_field() {
    let verdict =
        conclude("http://a/".to_string(), Action::Reject { field: "true".to_string() }, 42);
    assert_eq!(
        verdict,
        Some(Err(MonitorFailure::MalformedLevel {
            node: "http://a/".to_string(),
            field: "true".to_string()
        }))
    );
}

#[test]
fn waiting_concludes_nothing() {
    assert_eq!(conclude("a".to_string(), Action::AwaitStart, 1), None);
    assert_eq!(conclude("a".to_string(), Action::AwaitLevel { level: 3 }, 1), None);
    assert_eq!(conclude("a".to_string(), Action::AwaitNode { cause: "x".to_string() }, 1), None);
}

#[test]
fn collect_of_nothing_is_nothing() {
    assert_eq!(collect(Vec::new()), Ok(Vec::new()));
}

#[test]
fn collect_keeps_every_result_in_order() {
    let verdicts = vec![Ok(result("a", 3)), Ok(result("b", 1)), Ok(result("c", 2))];
    assert_eq!(collect(verdicts), Ok(vec![result("a", 3), result("b", 1), result("c", 2)]));
}

#[test]
fn collect_fails_with_the_first_failure() {
    let verdicts = vec![
        Ok(result("a", 3)),
        Err(exited("b", "first")),
        Ok(result("c", 2)),
        Err(exited("d", "second")),
    ];
    assert_eq!(collect(verdicts), Err(exited("b", "first")));
    assert_eq!(collect(vec![Err(exited("z", "only"))]), Err(exited("z", "only")));
}

fn run_recorded(target: &NodeTarget, outcomes: &Vec<ProbeOutcome>) -> Result<MonitorResult, MonitorFailure> {
    let mut monitor = target.monitor();
    let (made, last) = monitor.replay(outcomes);
    // One probe every ten seconds, the first at once.
    let elapsed_nanos = (made as u128 - 1) * 10 * NANOS_PER_SEC;
    conclude(target.endpoint.clone(), last.unwrap(), elapsed_nanos).unwrap()
}

#[test]
fn two_nodes_finish_at_their_own_pace() {
    let a = NodeTarget { endpoint: "http://a/".to_string(), threshold: 10 };
    let b = NodeTarget { endpoint: "http://b/".to_string(), threshold: 10 };
    let seen_by_a = vec![ProbeOutcome::Progress(9), ProbeOutcome::Progress(10)];
    let seen_by_b = vec![
        ProbeOutcome::Unreachable("refused".to_string()),
        ProbeOutcome::NotStarted,
        ProbeOutcome::Progress(1),
        ProbeOutcome::Progress(5),
        ProbeOutcome::Progress(11),
    ];
    let alone = run_recorded(&a, &seen_by_a);
    assert_eq!(alone, Ok(result("http://a/", 10_000_000_000)));
    let verdicts = vec![run_recorded(&a, &seen_by_a), run_recorded(&b, &seen_by_b)];
    let results = collect(verdicts).unwrap();
    assert_eq!(results, vec![result("http://a/", 10_000_000_000), result("http://b/", 40_000_000_000)]);
    assert_eq!(Ok(results[0].clone()), alone);
    let swapped = collect(vec![run_recorded(&b, &seen_by_b), run_recorded(&a, &seen_by_a)]).unwrap();
    assert_eq!(swapped[1], results[0]);
    assert_eq!(swapped[0], results[1]);
}

#[test]
fn one_dead_node_fails_the_run() {
    let a = NodeTarget { endpoint: "http://a/".to_string(), threshold: 10 };
    let b = NodeTarget { endpoint: "http://b/".to_string(), threshold: 10 };
    let verdicts = vec![
        run_recorded(&a, &vec![ProbeOutcome::Progress(10)]),
        run_recorded(&b, &vec![ProbeOutcome::Progress(3), ProbeOutcome::Unreachable("reset".to_string())]),
    ];
    assert_eq!(collect(verdicts), Err(exited("http://b/", "reset")));
}
