//! The runner: two rounds of collection from the baseline and the target
//! node with a delay between them, then every evaluator, then the verdict.
//!
//! Collecting, waiting and parsing are done by the caller; the runner decides
//! what comes next. `BlockingRunner::start` gives the first command, and
//! `BlockingRunner::step` takes the outcome of each command and gives the
//! next, until `RunCommand::Finish` carries the verdict or the error.
use vstd::prelude::*;

use std::time::Duration;

use crate::metric_collector::MetricCollectorError;
use crate::metric_evaluator::{MetricsEvaluator, MetricsEvaluatorError};
use crate::public_types::{verdict, CompleteEvaluation, Evaluation, EvaluationView, views};
use crate::snapshot::{SampleView, Snapshot};

verus! {

/// Why a run produced no verdict.
#[derive(Debug)]
pub enum RunnerError {
    /// We failed to collect metrics for some reason.
    MetricCollectorError(MetricCollectorError),
    /// We couldn't parse the metrics.
    ParseMetricsError(String),
    /// One of the evaluators failed. This is not the same as a poor score from
    /// an evaluator, this is an actual failure in the evaluation process.
    MetricEvaluatorError(MetricsEvaluatorError),
    /// No evaluator produced a finding, so there is nothing to sum up.
    NoEvaluations,
    /// The run was driven out of order.
    UnknownError(String),
}

/// Configuration of the runner.
#[derive(Clone, Copy, Debug)]
pub struct BlockingRunnerArgs {
    /// How long to wait between the two rounds of collection.
    pub metrics_fetch_delay: Duration,
}

/// Runs every configured evaluator on two rounds of metrics from the baseline
/// node and from a target node. `M` is how the baseline's metrics are
/// collected; it is kept here for the caller, who does the collecting.
pub struct BlockingRunner<M, E> {
    args: BlockingRunnerArgs,
    baseline_metric_collector: M,
    evaluators: Vec<E>,
}

/// The findings of all evaluators, concatenated in their order, or `None`
/// where one of them fails.
pub open spec fn all_findings<E: MetricsEvaluator>(
    evaluators: Seq<E>,
    previous_baseline: Seq<SampleView>,
    previous_target: Seq<SampleView>,
    latest_baseline: Seq<SampleView>,
    latest_target: Seq<SampleView>,
) -> Option<Seq<EvaluationView>>
    decreases evaluators.len(),
{
    if evaluators.len() == 0 {
        Some(Seq::empty())
    } else {
        match evaluators[0].findings(
            previous_baseline,
            previous_target,
            latest_baseline,
            latest_target,
        ) {
            None => None,
            Some(first) => match all_findings(
                evaluators.drop_first(),
                previous_baseline,
                previous_target,
                latest_baseline,
                latest_target,
            ) {
                None => None,
                Some(rest) => Some(first + rest),
            },
        }
    }
}

/// What a run on four snapshots yields: the verdict over all findings; an
/// evaluator's error where one fails; `NoEvaluations` where there is no
/// finding at all.
pub open spec fn run_outcome<E: MetricsEvaluator>(
    evaluators: Seq<E>,
    previous_baseline: Seq<SampleView>,
    previous_target: Seq<SampleView>,
    latest_baseline: Seq<SampleView>,
    latest_target: Seq<SampleView>,
    r: Result<CompleteEvaluation, RunnerError>,
) -> bool {
    match all_findings(
        evaluators,
        previous_baseline,
        previous_target,
        latest_baseline,
        latest_target,
    ) {
        None => r matches Err(RunnerError::MetricEvaluatorError(_)),
        Some(f) => if f.len() == 0 {
            r matches Err(RunnerError::NoEvaluations)
        } else {
            r matches Ok(c) && c@ == verdict(f)
        },
    }
}

/// Where a run stands: which outcome it awaits.
#[derive(Clone, Copy, Debug, PartialEq, Eq, Structural)]
pub enum RunStage {
    FirstBaseline,
    FirstTarget,
    Waiting,
    SecondBaseline,
    SecondTarget,
    Parsing,
    Finished,
}

/// A run in progress: its stage and the raw payloads collected so far, in
/// the order baseline, target, baseline, target.
pub struct RunState {
    pub stage: RunStage,
    pub payloads: Vec<Vec<String>>,
}

/// What the caller is to do next.
pub enum RunCommand {
    /// Collect the baseline node's metrics.
    CollectBaseline,
    /// Collect the target node's metrics.
    CollectTarget,
    /// Wait this long without blocking, then report `Waited`.
    Wait(Duration),
    /// Parse the four payloads, in order, into snapshots.
    Parse(Vec<Vec<String>>),
    /// The run is over, with this result.
    Finish(Result<CompleteEvaluation, RunnerError>),
}

/// The outcome of the last command.
pub enum RunEvent {
    Collected(Result<Vec<String>, MetricCollectorError>),
    Waited,
    Parsed(Result<Vec<Snapshot>, String>),
}

pub open spec fn is_collecting(stage: RunStage) -> bool {
    ||| stage == RunStage::FirstBaseline
    ||| stage == RunStage::FirstTarget
    ||| stage == RunStage::SecondBaseline
    ||| stage == RunStage::SecondTarget
}

/// Whether `event` is an outcome that a run at `stage` awaits.
pub open spec fn awaits(stage: RunStage, event: RunEvent) -> bool {
    ||| is_collecting(stage) && event is Collected
    ||| stage == RunStage::Waiting && event is Waited
    ||| stage == RunStage::Parsing && event is Parsed
}

/// The stage after a successful collection at a stage other than the last.
pub open spec fn next_collecting_stage(stage: RunStage) -> RunStage {
    if stage == RunStage::FirstBaseline {
        RunStage::FirstTarget
    } else if stage == RunStage::FirstTarget {
        RunStage::Waiting
    } else {
        RunStage::SecondTarget
    }
}

/// The command that a run issues on entering `stage`, with `delay` the
/// configured wait between rounds.
pub open spec fn command_for(stage: RunStage, delay: Duration) -> RunCommand {
    if stage == RunStage::Waiting {
        RunCommand::Wait(delay)
    } else if stage == RunStage::FirstBaseline || stage == RunStage::SecondBaseline {
        RunCommand::CollectBaseline
    } else {
        RunCommand::CollectTarget
    }
}

fn next_stage_after_collect(stage: RunStage) -> (r: RunStage)
    requires
        stage == RunStage::FirstBaseline || stage == RunStage::FirstTarget || stage
            == RunStage::SecondBaseline,
    ensures
        r == next_collecting_stage(stage),
{
    match stage {
        RunStage::FirstBaseline => RunStage::FirstTarget,
        RunStage::FirstTarget => RunStage::Waiting,
        _ => RunStage::SecondTarget,
    }
}

/// What a run yields once its payloads are parsed into `snapshots`: the
/// outcome on the four snapshots, or an error where there are not four.
pub open spec fn parsed_outcome<E: MetricsEvaluator>(
    evaluators: Seq<E>,
    snapshots: Seq<Snapshot>,
    r: Result<CompleteEvaluation, RunnerError>,
) -> bool {
    if snapshots.len() == 4 {
        run_outcome(evaluators, snapshots[0]@, snapshots[1]@, snapshots[2]@, snapshots[3]@, r)
    } else {
        r matches Err(RunnerError::UnknownError(_))
    }
}

impl<M, E: MetricsEvaluator> BlockingRunner<M, E> {
    pub fn new(args: BlockingRunnerArgs, baseline_metric_collector: M, evaluators: Vec<E>) -> (r:
        Self)
        ensures
            r.args() == args,
            r.baseline_metric_collector() == baseline_metric_collector,
            r.evaluators() == evaluators@,
    {
        Self { args, baseline_metric_collector, evaluators }
    }

    pub closed spec fn args(&self) -> BlockingRunnerArgs {
        self.args
    }

    pub closed spec fn baseline_metric_collector(&self) -> M {
        self.baseline_metric_collector
    }

    pub closed spec fn evaluators(&self) -> Seq<E> {
        self.evaluators@
    }

    /// The collector of the baseline node's metrics.
    pub fn baseline_collector(&self) -> (r: &M)
        ensures
            *r == self.baseline_metric_collector(),
    {
        &self.baseline_metric_collector
    }

    /// Runs every evaluator in order and concatenates their findings; the
    /// first evaluator that fails ends the run with its error.
    fn evaluate_all(
        &self,
        previous_baseline: &Snapshot,
        previous_target: &Snapshot,
        latest_baseline: &Snapshot,
        latest_target: &Snapshot,
    ) -> (r: Result<Vec<Evaluation>, RunnerError>)
        ensures
            r is Ok <==> all_findings(
                self.evaluators(),
                previous_baseline@,
                previous_target@,
                latest_baseline@,
                latest_target@,
            ) is Some,
            r matches Ok(v) ==> all_findings(
                self.evaluators(),
                previous_baseline@,
                previous_target@,
                latest_baseline@,
                latest_target@,
            ) == Some(views(v@)),
            r matches Err(e) ==> e is MetricEvaluatorError,
    {
        let ghost evs = self.evaluators();
        let ghost total = all_findings(
            evs,
            previous_baseline@,
            previous_target@,
            latest_baseline@,
            latest_target@,
        );
        let mut evaluations: Vec<Evaluation> = Vec::new();
        let mut i: usize = 0;
        assert(evs.skip(0) =~= evs);
        while i < self.evaluators.len()
            invariant
                i <= evs.len(),
                evs == self.evaluators@,
                total == all_findings(
                    evs,
                    previous_baseline@,
                    previous_target@,
                    latest_baseline@,
                    latest_target@,
                ),
                total == match all_findings(
                    evs.skip(i as int),
                    previous_baseline@,
                    previous_target@,
                    latest_baseline@,
                    latest_target@,
                ) {
                    None => None,
                    Some(rest) => Some(views(evaluations@) + rest),
                },
            decreases evs.len() - i,
        {
            assert(evs.skip(i as int).drop_first() =~= evs.skip(i + 1));
            assert(evs.skip(i as int)[0] == evs[i as int]);
            match self.evaluators[i].evaluate_metrics(
                previous_baseline,
                previous_target,
                latest_baseline,
                latest_target,
            ) {
                Ok(found) => {
                    let ghost before = views(evaluations@);
                    let ghost added = views(found@);
                    let ghost rest = all_findings(
                        evs.skip(i + 1),
                        previous_baseline@,
                        previous_target@,
                        latest_baseline@,
                        latest_target@,
                    );
                    let mut found = found;
                    evaluations.append(&mut found);
                    proof {
                        assert(views(evaluations@) =~= before + added);
                        if rest is Some {
                            assert(before + (added + rest->Some_0) =~= (before + added)
                                + rest->Some_0);
                        }
                    }
                },
                Err(e) => {
                    return Err(RunnerError::MetricEvaluatorError(e));
                },
            }
            i = i + 1;
        }
        assert(evs.skip(i as int) =~= Seq::<E>::empty());
        assert(views(evaluations@) + Seq::<EvaluationView>::empty() =~= views(evaluations@));
        Ok(evaluations)
    }

    /// Runs every evaluator on the four snapshots, in configuration order,
    /// and sums their findings up into the verdict.
    pub fn evaluate_snapshots(
        &self,
        previous_baseline: &Snapshot,
        previous_target: &Snapshot,
        latest_baseline: &Snapshot,
        latest_target: &Snapshot,
    ) -> (r: Result<CompleteEvaluation, RunnerError>)
        ensures
            run_outcome(
                self.evaluators(),
                previous_baseline@,
                previous_target@,
                latest_baseline@,
                latest_target@,
                r,
            ),
    {
        let evaluations = self.evaluate_all(
            previous_baseline,
            previous_target,
            latest_baseline,
            latest_target,
        )?;
        CompleteEvaluation::aggregate(evaluations)
    }

    /// The first command of a run, and the state that awaits its outcome.
    pub fn start(&self) -> (r: (RunState, RunCommand))
        ensures
            r.0.stage == RunStage::FirstBaseline,
            r.0.payloads@.len() == 0,
            r.1 is CollectBaseline,
    {
        let state = RunState { stage: RunStage::FirstBaseline, payloads: Vec::new() };
        (state, RunCommand::CollectBaseline)
    }

    /// Takes the outcome of the last command and gives the next one. Round
    /// one collects from the baseline, then from the target; then the run
    /// waits for the configured delay; round two collects in the same order;
    /// the four payloads are then parsed and evaluated. Any failure ends the
    /// run with its error, and so does an outcome that the stage does not
    /// await.
    pub fn step(&self, state: RunState, event: RunEvent) -> (r: (RunState, RunCommand))
        ensures
            !awaits(state.stage, event) ==> {
                &&& r.0.stage == RunStage::Finished
                &&& r.1 matches RunCommand::Finish(Err(RunnerError::UnknownError(_)))
            },
            is_collecting(state.stage) ==> (event matches RunEvent::Collected(Err(e)) ==> {
                &&& r.0.stage == RunStage::Finished
                &&& r.1 == RunCommand::Finish(Err(RunnerError::MetricCollectorError(e)))
            }),
            is_collecting(state.stage) && state.stage != RunStage::SecondTarget ==> (
            event matches RunEvent::Collected(Ok(lines)) ==> {
                &&& r.0.stage == next_collecting_stage(state.stage)
                &&& r.0.payloads@ == state.payloads@.push(lines)
                &&& r.1 == command_for(r.0.stage, self.args().metrics_fetch_delay)
            }),
            state.stage == RunStage::Waiting && event is Waited ==> {
                &&& r.0.stage == RunStage::SecondBaseline
                &&& r.0.payloads@ == state.payloads@
                &&& r.1 is CollectBaseline
            },
            state.stage == RunStage::SecondTarget ==> (
            event matches RunEvent::Collected(Ok(lines)) ==> {
                &&& r.0.stage == RunStage::Parsing
                &&& r.0.payloads@.len() == 0
                &&& r.1 matches RunCommand::Parse(p)
                &&& p@ == state.payloads@.push(lines)
            }),
            state.stage == RunStage::Parsing ==> (event matches RunEvent::Parsed(Err(m)) ==> {
                &&& r.0.stage == RunStage::Finished
                &&& r.1 == RunCommand::Finish(Err(RunnerError::ParseMetricsError(m)))
            }),
            state.stage == RunStage::Parsing ==> (event matches RunEvent::Parsed(Ok(s)) ==> {
                &&& r.0.stage == RunStage::Finished
                &&& r.1 matches RunCommand::Finish(res)
                &&& parsed_outcome(self.evaluators(), s@, res)
            }),
    {
        let RunState { stage, payloads } = state;
        let mut payloads = payloads;
        match (stage, event) {
            (RunStage::Waiting, RunEvent::Waited) => {
                let state = RunState { stage: RunStage::SecondBaseline, payloads };
                (state, RunCommand::CollectBaseline)
            },
            (RunStage::Parsing, RunEvent::Parsed(Err(m))) => {
                let state = RunState { stage: RunStage::Finished, payloads };
                (state, RunCommand::Finish(Err(RunnerError::ParseMetricsError(m))))
            },
            (RunStage::Parsing, RunEvent::Parsed(Ok(s))) => {
                let res = if s.len() == 4 {
                    self.evaluate_snapshots(&s[0], &s[1], &s[2], &s[3])
                } else {
                    Err(RunnerError::UnknownError("expected four parsed snapshots".to_owned()))
                };
                (RunState { stage: RunStage::Finished, payloads }, RunCommand::Finish(res))
            },
            (RunStage::FirstBaseline, RunEvent::Collected(Ok(lines)))
            | (RunStage::FirstTarget, RunEvent::Collected(Ok(lines)))
            | (RunStage::SecondBaseline, RunEvent::Collected(Ok(lines))) => {
                payloads.push(lines);
                let next = next_stage_after_collect(stage);
                let command = self.entry_command(next);
                (RunState { stage: next, payloads }, command)
            },
            (RunStage::SecondTarget, RunEvent::Collected(Ok(lines))) => {
                payloads.push(lines);
                let state = RunState { stage: RunStage::Parsing, payloads: Vec::new() };
                (state, RunCommand::Parse(payloads))
            },
            (RunStage::FirstBaseline, RunEvent::Collected(Err(e)))
            | (RunStage::FirstTarget, RunEvent::Collected(Err(e)))
            | (RunStage::SecondBaseline, RunEvent::Collected(Err(e)))
            | (RunStage::SecondTarget, RunEvent::Collected(Err(e))) => {
                let state = RunState { stage: RunStage::Finished, payloads };
                (state, RunCommand::Finish(Err(RunnerError::MetricCollectorError(e))))
            },
            _ => {
                let state = RunState { stage: RunStage::Finished, payloads };
                let message = "unexpected outcome for the stage of the run".to_owned();
                (state, RunCommand::Finish(Err(RunnerError::UnknownError(message))))
            },
        }
    }

    fn entry_command(&self, stage: RunStage) -> (r: RunCommand)
        requires
            stage == RunStage::FirstTarget || stage == RunStage::Waiting || stage
                == RunStage::SecondTarget,
        ensures
            r == command_for(stage, self.args().metrics_fetch_delay),
    {
        match stage {
            RunStage::Waiting => RunCommand::Wait(self.args.metrics_fetch_delay),
            _ => RunCommand::CollectTarget,
        }
    }
}

} // verus!
