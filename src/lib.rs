//! Node health checking: a target node's metrics are compared with those of a
//! known-good baseline node, each evaluator scores what it finds, and the
//! findings are summed up into one verdict.
//!
//! - `snapshot`: one scrape of a node's metrics, as plain values.
//! - `metric_evaluator`: the contract of an evaluator.
//! - `state_sync_evaluator`: the evaluator of state-sync progress.
//! - `public_types`: findings and the verdict over them.
//! - `runner`: the order of a run, and what it yields.
//! - `args`: evaluator configuration and evaluators chosen by name.
//! - `metric_collector`: what can go wrong when metrics are pulled.
//! - `text`: decimal rendering used in explanations.
pub mod args;
pub mod metric_collector;
pub mod metric_evaluator;
pub mod public_types;
pub mod runner;
pub mod snapshot;
pub mod state_sync_evaluator;
pub mod text;

pub use metric_evaluator::{MetricsEvaluator, MetricsEvaluatorError};
pub use public_types::{CompleteEvaluation, Evaluation};
pub use runner::{BlockingRunner, BlockingRunnerArgs, RunnerError};
pub use state_sync_evaluator::{StateSyncMetricsEvaluator, StateSyncMetricsEvaluatorArgs};
