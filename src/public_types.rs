//! The results a health check hands back: one `Evaluation` per finding and a
//! `CompleteEvaluation` that sums them up.
use vstd::prelude::*;

use crate::runner::RunnerError;
use crate::text::{decimal, push_decimal};

verus! {

/// One scored finding of an evaluator.
#[derive(Clone, Debug)]
pub struct Evaluation {
    /// Headline of the evaluation, e.g. "Healthy!" or "Metrics missing!".
    pub headline: String,
    /// Score out of 100.
    pub score: u8,
    /// Explanation of the evaluation.
    pub explanation: String,
    /// Name of the evaluator that produced it.
    pub source: String,
}

pub struct EvaluationView {
    pub headline: Seq<char>,
    pub score: u8,
    pub explanation: Seq<char>,
    pub source: Seq<char>,
}

impl View for Evaluation {
    type V = EvaluationView;

    open spec fn view(&self) -> EvaluationView {
        EvaluationView {
            headline: self.headline@,
            score: self.score,
            explanation: self.explanation@,
            source: self.source@,
        }
    }
}

pub open spec fn views(s: Seq<Evaluation>) -> Seq<EvaluationView> {
    s.map_values(|e: Evaluation| e@)
}

/// The verdict of one run: every finding, in order, and a summary.
#[derive(Clone, Debug)]
pub struct CompleteEvaluation {
    /// All the evaluations we ran.
    pub evaluations: Vec<Evaluation>,
    /// The integer mean of the scores.
    pub summary_score: u8,
    /// An overall explanation of the results.
    pub summary_explanation: String,
}

pub struct CompleteEvaluationView {
    pub evaluations: Seq<EvaluationView>,
    pub summary_score: u8,
    pub summary_explanation: Seq<char>,
}

impl View for CompleteEvaluation {
    type V = CompleteEvaluationView;

    open spec fn view(&self) -> CompleteEvaluationView {
        CompleteEvaluationView {
            evaluations: views(self.evaluations@),
            summary_score: self.summary_score,
            summary_explanation: self.summary_explanation@,
        }
    }
}

pub open spec fn score_sum(s: Seq<EvaluationView>) -> int
    decreases s.len(),
{
    if s.len() == 0 {
        0
    } else {
        score_sum(s.drop_last()) + s.last().score
    }
}

/// The mean score of a non-empty sequence, rounded down.
pub open spec fn mean_score(s: Seq<EvaluationView>) -> int {
    score_sum(s) / (s.len() as int)
}

/// The summary narrative for a score, by fixed bands, led by the score.
pub open spec fn summary_text(score: u8) -> Seq<char> {
    decimal(score as nat) + if score > 95 {
        ", awesome!"@
    } else if score > 80 {
        ", good!"@
    } else if score > 50 {
        ", getting there!"@
    } else {
        ", not good enough :("@
    }
}

/// The verdict over a non-empty sequence of findings.
pub open spec fn verdict(s: Seq<EvaluationView>) -> CompleteEvaluationView {
    CompleteEvaluationView {
        evaluations: s,
        summary_score: mean_score(s) as u8,
        summary_explanation: summary_text(mean_score(s) as u8),
    }
}

/// The summary narrative for `score`.
fn summary_explanation(score: u8) -> (r: String)
    ensures
        r@ == summary_text(score),
{
    let mut text = String::new();
    push_decimal(&mut text, score as u64);
    if score > 95 {
        text.append(", awesome!");
    } else if score > 80 {
        text.append(", good!");
    } else if score > 50 {
        text.append(", getting there!");
    } else {
        text.append(", not good enough :(");
    }
    text
}

impl CompleteEvaluation {
    /// Sums up the findings of a run: the summary score is the integer mean
    /// of their scores, rounded down. Without any finding there is no mean.
    pub fn aggregate(evaluations: Vec<Evaluation>) -> (r: Result<CompleteEvaluation, RunnerError>)
        ensures
            evaluations@.len() == 0 <==> r is Err,
            r is Err ==> r->Err_0 is NoEvaluations,
            r matches Ok(c) ==> c@ == verdict(views(evaluations@)),
            r matches Ok(c) ==> 0 <= mean_score(views(evaluations@)) <= 255,
    {
        if evaluations.len() == 0 {
            return Err(RunnerError::NoEvaluations);
        }
        let ghost all = views(evaluations@);
        let mut sum: u128 = 0;
        let mut i: usize = 0;
        while i < evaluations.len()
            invariant
                i <= evaluations@.len(),
                all == views(evaluations@),
                sum == score_sum(all.take(i as int)),
                sum <= 255 * i,
            decreases evaluations@.len() - i,
        {
            assert(all.take(i + 1).drop_last() =~= all.take(i as int));
            sum = sum + evaluations[i].score as u128;
            i = i + 1;
        }
        assert(all.take(i as int) =~= all);
        let len = evaluations.len() as u128;
        let mean = sum / len;
        assert(mean <= 255) by (nonlinear_arith)
            requires
                sum <= 255 * len,
                len > 0,
                mean == sum / len,
        ;
        let summary_score = mean as u8;
        let summary_explanation = summary_explanation(summary_score);
        Ok(CompleteEvaluation { evaluations, summary_score, summary_explanation })
    }
}

/// The summary score of findings whose scores are all in `[0, 100]` is in
/// `[0, 100]` too.
pub proof fn lemma_mean_score_in_range(s: Seq<EvaluationView>)
    requires
        s.len() > 0,
        forall|i: int| 0 <= i < s.len() ==> #[trigger] s[i].score <= 100,
    ensures
        0 <= mean_score(s) <= 100,
{
    lemma_score_sum_at_most_100(s);
    let n = s.len() as int;
    let sum = score_sum(s);
    assert(0 <= sum / n <= 100) by (nonlinear_arith)
        requires
            0 <= sum <= 100 * n,
            n > 0,
    ;
}

proof fn lemma_score_sum_at_most_100(s: Seq<EvaluationView>)
    requires
        forall|i: int| 0 <= i < s.len() ==> #[trigger] s[i].score <= 100,
    ensures
        0 <= score_sum(s) <= 100 * s.len(),
    decreases s.len(),
{
    if s.len() > 0 {
        let t = s.drop_last();
        assert forall|i: int| 0 <= i < t.len() implies #[trigger] t[i].score <= 100 by {
            assert(t[i] == s[i]);
        }
        lemma_score_sum_at_most_100(t);
        assert(s.last() == s[s.len() - 1]);
    }
}

} // verus!
