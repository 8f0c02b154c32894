//! Evaluator configuration, and the evaluators chosen by name from it.
use vstd::prelude::*;

use crate::state_sync_evaluator::{NAME, StateSyncMetricsEvaluator, StateSyncMetricsEvaluatorArgs};

verus! {

/// The configuration of every kind of evaluator.
#[derive(Clone, Copy, Debug, PartialEq, Eq, Structural)]
pub struct EvaluatorArgs {
    pub state_sync_evaluator_args: StateSyncMetricsEvaluatorArgs,
}

/// Whether every name in `names` is that of an evaluator.
pub open spec fn all_known(names: Seq<String>) -> bool {
    forall|i: int| 0 <= i < names.len() ==> #[trigger] names[i]@ == NAME@
}

/// Builds the evaluators named in `names`, in that order, each with its
/// configuration from `args`. The first name that no evaluator has is
/// returned as the error.
pub fn build_evaluators(names: &Vec<String>, args: &EvaluatorArgs) -> (r: Result<
    Vec<StateSyncMetricsEvaluator>,
    String,
>)
    ensures
        r is Ok <==> all_known(names@),
        r matches Ok(v) ==> {
            &&& v@.len() == names@.len()
            &&& forall|i: int|
                0 <= i < v@.len() ==> #[trigger] v@[i].args() == args.state_sync_evaluator_args
        },
        r matches Err(unknown) ==> exists|i: int|
            0 <= i < names@.len() && #[trigger] names@[i]@ == unknown@ && unknown@ != NAME@
                && all_known(names@.take(i)),
{
    let known = NAME.to_owned();
    let mut evaluators: Vec<StateSyncMetricsEvaluator> = Vec::new();
    let mut i: usize = 0;
    while i < names.len()
        invariant
            i <= names@.len(),
            known@ == NAME@,
            evaluators@.len() == i,
            all_known(names@.take(i as int)),
            forall|j: int|
                0 <= j < i ==> #[trigger] evaluators@[j].args() == args.state_sync_evaluator_args,
        decreases names@.len() - i,
    {
        if names[i] != known {
            return Err(names[i].clone());
        }
        assert(names@.take(i + 1) =~= names@.take(i as int).push(names@[i as int]));
        evaluators.push(StateSyncMetricsEvaluator::new(args.state_sync_evaluator_args));
        i = i + 1;
    }
    assert(names@.take(i as int) =~= names@);
    Ok(evaluators)
}

} // verus!
