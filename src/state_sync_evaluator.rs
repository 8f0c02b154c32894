//! The state-sync evaluator: is the target's synced version moving, and is it
//! within tolerance of the baseline's?
use vstd::prelude::*;

use crate::metric_evaluator::{MetricsEvaluator, MetricsEvaluatorError};
use crate::public_types::{views, Evaluation, EvaluationView};
use crate::snapshot::{get_metric_value, metric_value, SampleView, Snapshot};
use crate::text::{decimal, push_decimal};

verus! {

/// The name under which this evaluator is registered.
pub const NAME: &'static str = "state_sync";

/// The counter of the version a node has synced to.
pub const STATE_SYNC_METRIC: &'static str = "aptos_state_sync_version";

/// The label that selects the synced version among the counter's samples.
pub const SYNC_LABEL_KEY: &'static str = "type";

pub const SYNC_LABEL_VALUE: &'static str = "synced";

pub const MISSING_HEADLINE: &'static str = "State sync version metric missing";

pub const MISSING_FIRST_EXPLANATION: &'static str =
    "The first set of metrics from the target node is missing the state sync metric.";

pub const MISSING_SECOND_EXPLANATION: &'static str =
    "The second set of metrics from the target node is missing the state sync metric.";

pub const MISSING_BASELINE_EXPLANATION: &'static str =
    "The latest set of metrics from the baseline node did not contain the necessary key";

pub const NOT_PROGRESSING_HEADLINE: &'static str = "State sync version is not progressing";

pub const NOT_PROGRESSING_EXPLANATION: &'static str =
    "Successfully pulled metrics from target node twice, but the metrics aren't progressing.";

pub const LAGGING_HEADLINE: &'static str = "State sync version is lagging";

pub const LAGGING_OPENING: &'static str =
    "Successfully pulled metrics from target node twice and saw the version was progressing, but it is lagging ";

pub const LAGGING_MIDDLE: &'static str = " versions behind the baseline node. ";

pub const IN_TOLERANCE_HEADLINE: &'static str = "State sync version is within tolerance";

pub const IN_TOLERANCE_OPENING: &'static str =
    "Successfully pulled metrics from target node twice, saw the version was progressing, and saw that it is within tolerance of the baseline node. ";

/// The default for the largest lag, in versions, that is still healthy.
pub const DEFAULT_VERSION_DELTA_TOLERANCE: u64 = 1000;

/// Configuration of the state-sync evaluator.
#[derive(Clone, Copy, Debug, PartialEq, Eq, Structural)]
pub struct StateSyncMetricsEvaluatorArgs {
    /// The largest number of versions the target may trail the baseline by.
    pub version_delta_tolerance: u64,
}

impl Default for StateSyncMetricsEvaluatorArgs {
    fn default() -> (r: Self)
        ensures
            r.version_delta_tolerance == DEFAULT_VERSION_DELTA_TOLERANCE,
    {
        StateSyncMetricsEvaluatorArgs { version_delta_tolerance: DEFAULT_VERSION_DELTA_TOLERANCE }
    }
}

#[derive(Clone, Copy, Debug)]
pub struct StateSyncMetricsEvaluator {
    args: StateSyncMetricsEvaluatorArgs,
}

/// The synced version a snapshot reports, if any.
pub open spec fn sync_version(s: Seq<SampleView>) -> Option<u64> {
    metric_value(s, STATE_SYNC_METRIC@, SYNC_LABEL_KEY@, SYNC_LABEL_VALUE@)
}

pub open spec fn finding(headline: Seq<char>, score: u8, explanation: Seq<char>) -> EvaluationView {
    EvaluationView { headline, score, explanation, source: NAME@ }
}

/// "Target version: t. Baseline version: b. Tolerance: d."
pub open spec fn versions_text(target: u64, baseline: u64, tolerance: u64) -> Seq<char> {
    "Target version: "@ + decimal(target as nat) + ". Baseline version: "@ + decimal(
        baseline as nat,
    ) + ". Tolerance: "@ + decimal(tolerance as nat) + "."@
}

/// The lag of the target behind the baseline; negative where it is ahead.
pub open spec fn lag(baseline: u64, latest: u64) -> int {
    baseline - latest
}

/// The one finding on progress, where both target versions are known. A
/// version that did not grow is not progressing.
pub open spec fn progress_finding(tolerance: u64, previous: u64, latest: u64, baseline: u64) -> EvaluationView {
    if latest <= previous {
        finding(NOT_PROGRESSING_HEADLINE@, 50, NOT_PROGRESSING_EXPLANATION@)
    } else if lag(baseline, latest) > tolerance {
        finding(
            LAGGING_HEADLINE@,
            70,
            LAGGING_OPENING@ + decimal(lag(baseline, latest) as nat) + LAGGING_MIDDLE@
                + versions_text(latest, baseline, tolerance),
        )
    } else {
        finding(
            IN_TOLERANCE_HEADLINE@,
            100,
            IN_TOLERANCE_OPENING@ + versions_text(latest, baseline, tolerance),
        )
    }
}

/// The findings of the state-sync evaluator, or `None` where the baseline's
/// latest snapshot lacks the synced version.
pub open spec fn state_sync_findings(
    tolerance: u64,
    previous_target: Seq<SampleView>,
    latest_baseline: Seq<SampleView>,
    latest_target: Seq<SampleView>,
) -> Option<Seq<EvaluationView>> {
    match sync_version(latest_baseline) {
        None => None,
        Some(baseline) => Some(
            (if sync_version(previous_target) is None {
                seq![finding(MISSING_HEADLINE@, 0, MISSING_FIRST_EXPLANATION@)]
            } else {
                Seq::empty()
            }) + (if sync_version(latest_target) is None {
                seq![finding(MISSING_HEADLINE@, 0, MISSING_SECOND_EXPLANATION@)]
            } else {
                Seq::empty()
            }) + match (sync_version(previous_target), sync_version(latest_target)) {
                (Some(previous), Some(latest)) => seq![
                    progress_finding(tolerance, previous, latest, baseline),
                ],
                _ => Seq::empty(),
            },
        ),
    }
}

/// The error for a baseline without the synced version.
pub open spec fn is_missing_baseline(e: MetricsEvaluatorError) -> bool {
    &&& e matches MetricsEvaluatorError::MissingBaselineMetric(metric, explanation)
    &&& metric@ == STATE_SYNC_METRIC@
    &&& explanation@ == MISSING_BASELINE_EXPLANATION@
}

fn push_versions(s: &mut String, target: u64, baseline: u64, tolerance: u64)
    ensures
        final(s)@ == old(s)@ + versions_text(target, baseline, tolerance),
{
    s.append("Target version: ");
    push_decimal(s, target);
    s.append(". Baseline version: ");
    push_decimal(s, baseline);
    s.append(". Tolerance: ");
    push_decimal(s, tolerance);
    s.append(".");
}

impl StateSyncMetricsEvaluator {
    pub fn new(args: StateSyncMetricsEvaluatorArgs) -> (r: Self)
        ensures
            r.args() == args,
    {
        Self { args }
    }

    pub closed spec fn args(&self) -> StateSyncMetricsEvaluatorArgs {
        self.args
    }

    pub fn tolerance(&self) -> (r: u64)
        ensures
            r == self.args().version_delta_tolerance,
    {
        self.args.version_delta_tolerance
    }

    fn get_sync_version(&self, metrics: &Snapshot) -> (r: Option<u64>)
        ensures
            r == sync_version(metrics@),
    {
        get_metric_value(metrics, STATE_SYNC_METRIC, SYNC_LABEL_KEY, SYNC_LABEL_VALUE)
    }

    fn make_finding(&self, headline: &str, score: u8, explanation: String) -> (r: Evaluation)
        ensures
            r@ == finding(headline@, score, explanation@),
    {
        Evaluation { headline: headline.to_owned(), score, explanation, source: self.get_name() }
    }

    fn progress_evaluation(&self, previous: u64, latest: u64, baseline: u64) -> (r: Evaluation)
        ensures
            r@ == progress_finding(self.args().version_delta_tolerance, previous, latest, baseline),
    {
        let tolerance = self.args.version_delta_tolerance;
        if latest <= previous {
            return self.make_finding(
                NOT_PROGRESSING_HEADLINE,
                50,
                NOT_PROGRESSING_EXPLANATION.to_owned(),
            );
        }
        // Signed arithmetic, wide enough for any two versions: a target ahead
        // of the baseline has a negative lag.
        let delta_from_baseline = baseline as i128 - latest as i128;
        if delta_from_baseline > tolerance as i128 {
            let mut explanation = LAGGING_OPENING.to_owned();
            push_decimal(&mut explanation, delta_from_baseline as u64);
            explanation.append(LAGGING_MIDDLE);
            push_versions(&mut explanation, latest, baseline, tolerance);
            self.make_finding(LAGGING_HEADLINE, 70, explanation)
        } else {
            let mut explanation = IN_TOLERANCE_OPENING.to_owned();
            push_versions(&mut explanation, latest, baseline, tolerance);
            self.make_finding(IN_TOLERANCE_HEADLINE, 100, explanation)
        }
    }
}

impl MetricsEvaluator for StateSyncMetricsEvaluator {
    open spec fn findings(
        &self,
        previous_baseline: Seq<SampleView>,
        previous_target: Seq<SampleView>,
        latest_baseline: Seq<SampleView>,
        latest_target: Seq<SampleView>,
    ) -> Option<Seq<EvaluationView>> {
        state_sync_findings(
            self.args().version_delta_tolerance,
            previous_target,
            latest_baseline,
            latest_target,
        )
    }

    open spec fn name(&self) -> Seq<char> {
        NAME@
    }

    /// Checks that the target's synced version is increasing and within
    /// tolerance of the baseline's latest version.
    fn evaluate_metrics(
        &self,
        previous_baseline_metrics: &Snapshot,
        previous_target_metrics: &Snapshot,
        latest_baseline_metrics: &Snapshot,
        latest_target_metrics: &Snapshot,
    ) -> (r: Result<Vec<Evaluation>, MetricsEvaluatorError>)
        ensures
            r matches Err(e) ==> is_missing_baseline(e),
    {
        let mut evaluations: Vec<Evaluation> = Vec::new();

        let previous_target_version = self.get_sync_version(previous_target_metrics);
        if previous_target_version.is_none() {
            let e = self.make_finding(MISSING_HEADLINE, 0, MISSING_FIRST_EXPLANATION.to_owned());
            evaluations.push(e);
        }

        let latest_target_version = self.get_sync_version(latest_target_metrics);
        if latest_target_version.is_none() {
            let e = self.make_finding(MISSING_HEADLINE, 0, MISSING_SECOND_EXPLANATION.to_owned());
            evaluations.push(e);
        }

        let latest_baseline_version = match self.get_sync_version(latest_baseline_metrics) {
            Some(v) => v,
            None => {
                return Err(
                    MetricsEvaluatorError::MissingBaselineMetric(
                        STATE_SYNC_METRIC.to_owned(),
                        MISSING_BASELINE_EXPLANATION.to_owned(),
                    ),
                );
            },
        };

        if let (Some(previous), Some(latest)) = (previous_target_version, latest_target_version) {
            let e = self.progress_evaluation(previous, latest, latest_baseline_version);
            evaluations.push(e);
        }
        proof {
            assert(views(evaluations@) =~= state_sync_findings(
                self.args().version_delta_tolerance,
                previous_target_metrics@,
                latest_baseline_metrics@,
                latest_target_metrics@,
            )->Some_0);
        }
        Ok(evaluations)
    }

    fn get_name(&self) -> (r: String) {
        NAME.to_owned()
    }
}

/// The finding for a first target snapshot without the synced version.
pub open spec fn missing_first_finding() -> EvaluationView {
    finding(MISSING_HEADLINE@, 0, MISSING_FIRST_EXPLANATION@)
}

/// The finding for a second target snapshot without the synced version.
pub open spec fn missing_second_finding() -> EvaluationView {
    finding(MISSING_HEADLINE@, 0, MISSING_SECOND_EXPLANATION@)
}

/// Evaluation is a function of the configuration and of the contents of the
/// four snapshots: two evaluators with the same configuration, given the same
/// snapshots, find the same.
pub proof fn lemma_evaluation_is_pure(
    first: StateSyncMetricsEvaluator,
    second: StateSyncMetricsEvaluator,
    previous_baseline: Snapshot,
    previous_target: Snapshot,
    latest_baseline: Snapshot,
    latest_target: Snapshot,
)
    requires
        first.args() == second.args(),
    ensures
        first.findings(previous_baseline@, previous_target@, latest_baseline@, latest_target@)
            == second.findings(
            previous_baseline@,
            previous_target@,
            latest_baseline@,
            latest_target@,
        ),
{
}

/// Without the synced version in the first target snapshot, there is exactly
/// one finding for that round, with score 0, first; whatever the second
/// target snapshot holds, no progress finding follows.
pub proof fn lemma_missing_first_round(
    tolerance: u64,
    previous_target: Seq<SampleView>,
    latest_baseline: Seq<SampleView>,
    latest_target: Seq<SampleView>,
)
    requires
        sync_version(previous_target) is None,
        sync_version(latest_baseline) is Some,
    ensures
        state_sync_findings(tolerance, previous_target, latest_baseline, latest_target) == Some(
            seq![missing_first_finding()] + if sync_version(latest_target) is None {
                seq![missing_second_finding()]
            } else {
                Seq::empty()
            },
        ),
{
    let second = if sync_version(latest_target) is None {
        seq![missing_second_finding()]
    } else {
        Seq::<EvaluationView>::empty()
    };
    assert(seq![missing_first_finding()] + second + Seq::<EvaluationView>::empty() =~= seq![
        missing_first_finding(),
    ] + second);
}

/// Without the synced version in the second target snapshot, there is exactly
/// one finding for that round, with score 0, after the one for the first
/// round if that is missing too; no progress finding is made.
pub proof fn lemma_missing_second_round(
    tolerance: u64,
    previous_target: Seq<SampleView>,
    latest_baseline: Seq<SampleView>,
    latest_target: Seq<SampleView>,
)
    requires
        sync_version(latest_target) is None,
        sync_version(latest_baseline) is Some,
    ensures
        state_sync_findings(tolerance, previous_target, latest_baseline, latest_target) == Some(
            (if sync_version(previous_target) is None {
                seq![missing_first_finding()]
            } else {
                Seq::empty()
            }) + seq![missing_second_finding()],
        ),
        sync_version(previous_target) is None ==> state_sync_findings(
            tolerance,
            previous_target,
            latest_baseline,
            latest_target,
        ) == Some(seq![missing_first_finding(), missing_second_finding()]),
{
    let first = if sync_version(previous_target) is None {
        seq![missing_first_finding()]
    } else {
        Seq::<EvaluationView>::empty()
    };
    assert(first + seq![missing_second_finding()] + Seq::<EvaluationView>::empty() =~= first
        + seq![missing_second_finding()]);
    if sync_version(previous_target) is None {
        assert(first + seq![missing_second_finding()] =~= seq![
            missing_first_finding(),
            missing_second_finding(),
        ]);
    }
}

/// Without the synced version in the baseline's latest snapshot, evaluation
/// fails whatever the target's snapshots hold.
pub proof fn lemma_missing_baseline_fails(
    evaluator: StateSyncMetricsEvaluator,
    previous_baseline: Seq<SampleView>,
    previous_target: Seq<SampleView>,
    latest_baseline: Seq<SampleView>,
    latest_target: Seq<SampleView>,
)
    requires
        sync_version(latest_baseline) is None,
    ensures
        evaluator.findings(previous_baseline, previous_target, latest_baseline, latest_target)
            is None,
{
}

} // verus!
