use node_checker::metric_evaluator::{MetricsEvaluator, MetricsEvaluatorError};
use node_checker::public_types::Evaluation;
use node_checker::snapshot::{Sample, SampleValue, Snapshot};
use node_checker::state_sync_evaluator::{
    StateSyncMetricsEvaluator, StateSyncMetricsEvaluatorArgs, NAME, STATE_SYNC_METRIC,
};

fn sync_sample(value: u64) -> Sample {
    Sample {
        metric: "aptos_state_sync_version".to_string(),
        labels: vec![("type".to_string(), "synced".to_string())],
        value: SampleValue::Untyped(value),
    }
}

fn snapshot_of(value: u64) -> Snapshot {
    Snapshot { samples: vec![sync_sample(value)] }
}

fn empty_snapshot() -> Snapshot {
    Snapshot { samples: vec![] }
}

fn evaluator() -> StateSyncMetricsEvaluator {
    StateSyncMetricsEvaluator::new(StateSyncMetricsEvaluatorArgs {
        version_delta_tolerance: 1000,
    })
}

fn evaluate(
    previous_target: Option<u64>,
    latest_baseline: Option<u64>,
    latest_target: Option<u64>,
) -> Result<Vec<Evaluation>, MetricsEvaluatorError> {
    let previous_baseline = snapshot_of(0);
    let previous_target = previous_target.map(snapshot_of).unwrap_or_else(empty_snapshot);
    let latest_baseline = latest_baseline.map(snapshot_of).unwrap_or_else(empty_snapshot);
    let latest_target = latest_target.map(snapshot_of).unwrap_or_else(empty_snapshot);
    evaluator().evaluate_metrics(
        &previous_baseline,
        &previous_target,
        &latest_baseline,
        &latest_target,
    )
}

fn test_state_sync_metrics_evaluator(
    previous_target_version: u64,
    latest_baseline_version: u64,
    latest_target_version: u64,
    expected_score: u8,
    fail_on_purpose: bool,
) {
    let latest_target = match fail_on_purpose {
        true => None,
        false => Some(latest_target_version),
    };
    let evaluations = evaluate(
        Some(previous_target_version),
        Some(latest_baseline_version),
        latest_target,
    )
    .expect("Failed to evaluate metrics");
    assert_eq!(evaluations.len(), 1);
    assert_eq!(evaluations[0].score, expected_score);
}

#[test]
fn test_in_sync_and_progressing() {
    test_state_sync_metrics_evaluator(1000, 2000, 1700, 100, false);
}

#[test]
fn test_progressing_but_lagging() {
    test_state_sync_metrics_evaluator(1000, 5000, 3000, 70, false);
}

#[test]
fn test_not_progressing() {
    test_state_sync_metrics_evaluator(1000, 5000, 1000, 50, false);
}

#[test]
fn test_missing_metric() {
    test_state_sync_metrics_evaluator(1000, 5000, 1000, 0, true);
}

#[test]
fn in_tolerance_explanation_quotes_the_versions() {
    let evaluations = evaluate(Some(1000), Some(2000), Some(1700)).unwrap();
    assert_eq!(evaluations.len(), 1);
    assert_eq!(evaluations[0].headline, "State sync version is within tolerance");
    assert_eq!(
        evaluations[0].explanation,
        "Successfully pulled metrics from target node twice, saw the version was progressing, \
         and saw that it is within tolerance of the baseline node. \
         Target version: 1700. Baseline version: 2000. Tolerance: 1000."
    );
    assert_eq!(evaluations[0].source, NAME);
}

#[test]
fn lagging_explanation_quotes_the_lag() {
    let evaluations = evaluate(Some(1000), Some(5000), Some(3000)).unwrap();
    assert_eq!(evaluations[0].headline, "State sync version is lagging");
    assert_eq!(
        evaluations[0].explanation,
        "Successfully pulled metrics from target node twice and saw the version was progressing, \
         but it is lagging 2000 versions behind the baseline node. \
         Target version: 3000. Baseline version: 5000. Tolerance: 1000."
    );
}

#[test]
fn lag_equal_to_tolerance_is_within_tolerance() {
    let evaluations = evaluate(Some(1000), Some(3000), Some(2000)).unwrap();
    assert_eq!(evaluations.len(), 1);
    assert_eq!(evaluations[0].score, 100);
}

#[test]
fn target_ahead_of_baseline_is_within_tolerance() {
    let evaluations = evaluate(Some(1000), Some(2000), Some(3000)).unwrap();
    assert_eq!(evaluations.len(), 1);
    assert_eq!(evaluations[0].score, 100);
    let evaluations = evaluate(Some(1), Some(0), Some(u64::MAX)).unwrap();
    assert_eq!(evaluations[0].score, 100);
}

#[test]
fn largest_lag_is_reported_exactly() {
    let evaluations = evaluate(Some(0), Some(u64::MAX), Some(1)).unwrap();
    assert_eq!(evaluations[0].score, 70);
    assert!(evaluations[0]
        .explanation
        .contains("lagging 18446744073709551614 versions"));
}

#[test]
fn version_going_backwards_is_not_progressing() {
    let evaluations = evaluate(Some(2000), Some(5000), Some(1500)).unwrap();
    assert_eq!(evaluations.len(), 1);
    assert_eq!(evaluations[0].score, 50);
    assert_eq!(evaluations[0].headline, "State sync version is not progressing");
}

#[test]
fn missing_first_target_metric_gives_one_finding() {
    let evaluations = evaluate(None, Some(5000), Some(3000)).unwrap();
    assert_eq!(evaluations.len(), 1);
    assert_eq!(evaluations[0].score, 0);
    assert_eq!(evaluations[0].headline, "State sync version metric missing");
    assert_eq!(
        evaluations[0].explanation,
        "The first set of metrics from the target node is missing the state sync metric."
    );
}

#[test]
fn missing_second_target_metric_gives_one_finding() {
    let evaluations = evaluate(Some(1000), Some(5000), None).unwrap();
    assert_eq!(evaluations.len(), 1);
    assert_eq!(evaluations[0].score, 0);
    assert_eq!(
        evaluations[0].explanation,
        "The second set of metrics from the target node is missing the state sync metric."
    );
}

#[test]
fn both_target_metrics_missing_give_two_findings() {
    let evaluations = evaluate(None, Some(5000), None).unwrap();
    assert_eq!(evaluations.len(), 2);
    assert_eq!(evaluations[0].score, 0);
    assert_eq!(evaluations[1].score, 0);
    assert!(evaluations[0].explanation.starts_with("The first set"));
    assert!(evaluations[1].explanation.starts_with("The second set"));
}

#[test]
fn missing_baseline_metric_fails() {
    for target in [None, Some(1000)] {
        match evaluate(target, None, target) {
            Err(MetricsEvaluatorError::MissingBaselineMetric(metric, explanation)) => {
                assert_eq!(metric, STATE_SYNC_METRIC);
                assert_eq!(
                    explanation,
                    "The latest set of metrics from the baseline node did not contain the necessary key"
                );
            }
            other => panic!("unexpected result {:?}", other),
        }
    }
}

#[test]
fn evaluation_is_repeatable() {
    let a = evaluate(Some(1000), Some(5000), Some(3000)).unwrap();
    let b = evaluate(Some(1000), Some(5000), Some(3000)).unwrap();
    assert_eq!(a.len(), b.len());
    for (x, y) in a.iter().zip(b.iter()) {
        assert_eq!(x.headline, y.headline);
        assert_eq!(x.score, y.score);
        assert_eq!(x.explanation, y.explanation);
        assert_eq!(x.source, y.source);
    }
}

#[test]
fn default_tolerance_is_one_thousand() {
    let evaluator = StateSyncMetricsEvaluator::new(StateSyncMetricsEvaluatorArgs::default());
    assert_eq!(evaluator.tolerance(), 1000);
    assert_eq!(evaluator.get_name(), "state_sync");
}
