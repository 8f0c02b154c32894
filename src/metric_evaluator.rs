//! The contract every evaluator meets.
use vstd::prelude::*;

pub use crate::public_types::Evaluation;
use crate::public_types::{views, EvaluationView};
use crate::snapshot::{SampleView, Snapshot};

verus! {

/// Why an evaluator could not evaluate at all.
#[derive(Debug)]
pub enum MetricsEvaluatorError {
    /// The metric we're evaluating is missing from the baseline: the metric
    /// name and an explanation. A metric missing from the target is a finding
    /// about the target; one missing from the baseline means the checker
    /// itself is misconfigured, so it is an error.
    MissingBaselineMetric(String, String),
    UnknownError(String),
}

} // verus!

verus! {

/// An evaluator compares four snapshots — baseline and target, before and
/// after a delay — and reports scored findings. It is a pure function of the
/// snapshots and of its own configuration. A defect of the target is a
/// finding; only a defect of the baseline makes it fail.
pub trait MetricsEvaluator {
    /// The findings on the four snapshots, or `None` where evaluation fails.
    spec fn findings(
        &self,
        previous_baseline: Seq<SampleView>,
        previous_target: Seq<SampleView>,
        latest_baseline: Seq<SampleView>,
        latest_target: Seq<SampleView>,
    ) -> Option<Seq<EvaluationView>>;

    /// The evaluator's name, as it is registered.
    spec fn name(&self) -> Seq<char>;

    fn evaluate_metrics(
        &self,
        previous_baseline_metrics: &Snapshot,
        previous_target_metrics: &Snapshot,
        latest_baseline_metrics: &Snapshot,
        latest_target_metrics: &Snapshot,
    ) -> (r: Result<Vec<Evaluation>, MetricsEvaluatorError>)
        ensures
            r is Ok <==> self.findings(
                previous_baseline_metrics@,
                previous_target_metrics@,
                latest_baseline_metrics@,
                latest_target_metrics@,
            ) is Some,
            r matches Ok(v) ==> self.findings(
                previous_baseline_metrics@,
                previous_target_metrics@,
                latest_baseline_metrics@,
                latest_target_metrics@,
            ) == Some(views(v@)),
    ;

    fn get_name(&self) -> (r: String)
        ensures
            r@ == self.name(),
    ;
}

} // verus!
