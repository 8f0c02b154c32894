use std::time::Duration;

use node_checker::args::{build_evaluators, EvaluatorArgs};
use node_checker::metric_collector::MetricCollectorError;
use node_checker::public_types::CompleteEvaluation;
use node_checker::runner::{
    BlockingRunner, BlockingRunnerArgs, RunCommand, RunEvent, RunStage, RunnerError,
};
use node_checker::snapshot::{Sample, SampleValue, Snapshot};
use node_checker::state_sync_evaluator::{StateSyncMetricsEvaluator, StateSyncMetricsEvaluatorArgs};

fn snapshot_of(value: u64) -> Snapshot {
    Snapshot {
        samples: vec![Sample {
            metric: "aptos_state_sync_version".to_string(),
            labels: vec![("type".to_string(), "synced".to_string())],
            value: SampleValue::Counter(value),
        }],
    }
}

fn runner(evaluators: usize) -> BlockingRunner<(), StateSyncMetricsEvaluator> {
    let args = StateSyncMetricsEvaluatorArgs { version_delta_tolerance: 1000 };
    BlockingRunner::new(
        BlockingRunnerArgs { metrics_fetch_delay: Duration::from_secs(5) },
        (),
        (0..evaluators).map(|_| StateSyncMetricsEvaluator::new(args)).collect(),
    )
}

fn lines(tag: &str) -> Vec<String> {
    vec![tag.to_string()]
}

/// Drives a run through both rounds of collection; returns the payloads
/// handed over for parsing.
fn collect_all(r: &BlockingRunner<(), StateSyncMetricsEvaluator>) -> (node_checker::runner::RunState, Vec<Vec<String>>) {
    let (state, command) = r.start();
    assert_eq!(state.stage, RunStage::FirstBaseline);
    assert!(matches!(command, RunCommand::CollectBaseline));
    let (state, command) = r.step(state, RunEvent::Collected(Ok(lines("b1"))));
    assert_eq!(state.stage, RunStage::FirstTarget);
    assert!(matches!(command, RunCommand::CollectTarget));
    let (state, command) = r.step(state, RunEvent::Collected(Ok(lines("t1"))));
    assert_eq!(state.stage, RunStage::Waiting);
    match command {
        RunCommand::Wait(d) => assert_eq!(d, Duration::from_secs(5)),
        _ => panic!("expected a wait"),
    }
    let (state, command) = r.step(state, RunEvent::Waited);
    assert_eq!(state.stage, RunStage::SecondBaseline);
    assert!(matches!(command, RunCommand::CollectBaseline));
    let (state, command) = r.step(state, RunEvent::Collected(Ok(lines("b2"))));
    assert_eq!(state.stage, RunStage::SecondTarget);
    assert!(matches!(command, RunCommand::CollectTarget));
    let (state, command) = r.step(state, RunEvent::Collected(Ok(lines("t2"))));
    assert_eq!(state.stage, RunStage::Parsing);
    match command {
        RunCommand::Parse(payloads) => (state, payloads),
        _ => panic!("expected the payloads to parse"),
    }
}

fn finish(command: RunCommand) -> Result<CompleteEvaluation, RunnerError> {
    match command {
        RunCommand::Finish(result) => result,
        _ => panic!("expected the run to finish"),
    }
}

#[test]
fn full_run_yields_the_verdict() {
    let r = runner(2);
    let (state, payloads) = collect_all(&r);
    assert_eq!(payloads, vec![lines("b1"), lines("t1"), lines("b2"), lines("t2")]);
    let snapshots = vec![snapshot_of(0), snapshot_of(1000), snapshot_of(5000), snapshot_of(3000)];
    let (state, command) = r.step(state, RunEvent::Parsed(Ok(snapshots)));
    assert_eq!(state.stage, RunStage::Finished);
    let verdict = finish(command).unwrap();
    assert_eq!(verdict.evaluations.len(), 2);
    assert_eq!(verdict.summary_score, 70);
    assert_eq!(verdict.summary_explanation, "70, getting there!");
}

#[test]
fn missing_target_metric_scores_zero() {
    let r = runner(1);
    let (state, _) = collect_all(&r);
    let snapshots = vec![snapshot_of(0), snapshot_of(1000), snapshot_of(5000), Snapshot { samples: vec![] }];
    let verdict = finish(r.step(state, RunEvent::Parsed(Ok(snapshots))).1).unwrap();
    assert_eq!(verdict.evaluations.len(), 1);
    assert_eq!(verdict.summary_score, 0);
    assert_eq!(verdict.summary_explanation, "0, not good enough :(");
}

#[test]
fn missing_baseline_metric_fails_the_run() {
    let r = runner(1);
    let (state, _) = collect_all(&r);
    let snapshots = vec![snapshot_of(0), snapshot_of(1000), Snapshot { samples: vec![] }, snapshot_of(3000)];
    let result = finish(r.step(state, RunEvent::Parsed(Ok(snapshots))).1);
    assert!(matches!(result, Err(RunnerError::MetricEvaluatorError(_))));
}

#[test]
fn run_without_evaluators_has_no_verdict() {
    let r = runner(0);
    let (state, _) = collect_all(&r);
    let snapshots = vec![snapshot_of(0), snapshot_of(1000), snapshot_of(5000), snapshot_of(3000)];
    let result = finish(r.step(state, RunEvent::Parsed(Ok(snapshots))).1);
    assert!(matches!(result, Err(RunnerError::NoEvaluations)));
}

#[test]
fn collection_failure_ends_the_run() {
    let r = runner(1);
    let (state, _) = r.start();
    let (state, _) = r.step(state, RunEvent::Collected(Ok(lines("b1"))));
    let error = MetricCollectorError::GetDataError("unreachable".to_string());
    let (state, command) = r.step(state, RunEvent::Collected(Err(error)));
    assert_eq!(state.stage, RunStage::Finished);
    match finish(command) {
        Err(RunnerError::MetricCollectorError(MetricCollectorError::GetDataError(m))) => {
            assert_eq!(m, "unreachable")
        }
        other => panic!("unexpected result {:?}", other),
    }
}

#[test]
fn parse_failure_ends_the_run() {
    let r = runner(1);
    let (state, _) = collect_all(&r);
    let (state, command) = r.step(state, RunEvent::Parsed(Err("bad line".to_string())));
    assert_eq!(state.stage, RunStage::Finished);
    match finish(command) {
        Err(RunnerError::ParseMetricsError(m)) => assert_eq!(m, "bad line"),
        other => panic!("unexpected result {:?}", other),
    }
}

#[test]
fn out_of_order_outcome_ends_the_run() {
    let r = runner(1);
    let (state, _) = r.start();
    let (state, command) = r.step(state, RunEvent::Waited);
    assert_eq!(state.stage, RunStage::Finished);
    assert!(matches!(finish(command), Err(RunnerError::UnknownError(_))));
}

#[test]
fn wrong_number_of_snapshots_ends_the_run() {
    let r = runner(1);
    let (state, _) = collect_all(&r);
    let (_, command) = r.step(state, RunEvent::Parsed(Ok(vec![snapshot_of(1)])));
    assert!(matches!(finish(command), Err(RunnerError::UnknownError(_))));
}

#[test]
fn evaluators_are_built_by_name() {
    let args = EvaluatorArgs {
        state_sync_evaluator_args: StateSyncMetricsEvaluatorArgs { version_delta_tolerance: 42 },
    };
    let built = build_evaluators(&vec!["state_sync".to_string(), "state_sync".to_string()], &args)
        .unwrap();
    assert_eq!(built.len(), 2);
    assert_eq!(built[0].tolerance(), 42);
    let unknown = build_evaluators(&vec!["state_sync".to_string(), "api".to_string()], &args);
    assert_eq!(unknown.unwrap_err(), "api");
    assert_eq!(build_evaluators(&vec![], &args).unwrap().len(), 0);
}
