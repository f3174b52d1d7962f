use vstd::prelude::*;
use crate::match_app::{apply_op, model_wf, run_ops, MatchModel, MatchOperation};
use crate::scores::{points_of, POINTS_PER_ANSWER};
use crate::status::{status_rank, MatchError, MatchStatus};

verus! {

/// Every operation keeps a well-formed match well-formed.
pub proof fn lemma_step_keeps_wf(m: MatchModel, op: MatchOperation)
    requires
        model_wf(m),
    ensures
        model_wf(apply_op(m, op).0),
{
}

/// Every sequence of operations keeps a well-formed match well-formed.
pub proof fn lemma_run_keeps_wf(m: MatchModel, ops: Seq<MatchOperation>)
    requires
        model_wf(m),
    ensures
        model_wf(run_ops(m, ops)),
    decreases ops.len(),
{
    if ops.len() > 0 {
        lemma_run_keeps_wf(m, ops.drop_last());
        lemma_step_keeps_wf(run_ops(m, ops.drop_last()), ops.last());
    }
}

/// One operation never moves the status backwards.
pub proof fn lemma_step_status_monotone(m: MatchModel, op: MatchOperation)
    requires
        model_wf(m),
    ensures
        status_rank(m.status) <= status_rank(apply_op(m, op).0.status),
{
}

/// Along any sequence of operations the status only moves forward through
/// `Waiting`, `Active`, `Finished`: the match after a longer prefix is never
/// in an earlier phase than the match after a shorter one.
pub proof fn lemma_status_never_regresses(m: MatchModel, ops: Seq<MatchOperation>, i: int, j: int)
    requires
        model_wf(m),
        0 <= i <= j <= ops.len(),
    ensures
        status_rank(run_ops(m, ops.take(i)).status) <= status_rank(run_ops(m, ops.take(j)).status),
    decreases j - i,
{
    if i < j {
        lemma_status_never_regresses(m, ops, i, j - 1);
        let p = ops.take(j);
        assert(p.drop_last() =~= ops.take(j - 1));
        lemma_run_keeps_wf(m, ops.take(j - 1));
        lemma_step_status_monotone(run_ops(m, ops.take(j - 1)), p.last());
    }
}

/// The same operation `k` times in a row.
pub open spec fn repeated(op: MatchOperation, k: nat) -> Seq<MatchOperation> {
    Seq::new(k, |_i: int| op)
}

/// `k` answers by one player, all accepted (the match is active and the
/// question index is in range), add ten points each to that player's score
/// (a player with no score yet ends with `10 * k`) and leave every other
/// player's score as it was, as long as the total fits in a `u32`.
pub proof fn lemma_repeated_answers(
    m: MatchModel,
    player: String,
    question_index: u8,
    answer: String,
    k: nat,
)
    requires
        model_wf(m),
        m.created,
        m.status == MatchStatus::Active,
        question_index < m.total_questions,
        points_of(m.scores, player@) + POINTS_PER_ANSWER * k <= u32::MAX,
    ensures
        ({
            let after = run_ops(
                m,
                repeated(MatchOperation::SubmitAnswer { player, question_index, answer }, k),
            );
            &&& points_of(after.scores, player@) == points_of(m.scores, player@) + POINTS_PER_ANSWER * k
            &&& forall|p: Seq<char>| p != player@ ==> points_of(after.scores, p) == points_of(m.scores, p)
            &&& after.status == MatchStatus::Active
            &&& after.total_questions == m.total_questions
        }),
    decreases k,
{
    let op = MatchOperation::SubmitAnswer { player, question_index, answer };
    let ops = repeated(op, k);
    if k > 0 {
        let prev = repeated(op, (k - 1) as nat);
        assert(ops.drop_last() =~= prev);
        assert(ops.last() == op);
        lemma_repeated_answers(m, player, question_index, answer, (k - 1) as nat);
        lemma_run_keeps_wf(m, prev);
    } else {
        assert(ops.len() == 0);
    }
}

/// `StartMatch` is rejected, and changes nothing, unless the match is
/// waiting; `FinalizeMatch` likewise unless it is active.
pub proof fn lemma_guarded_transitions(m: MatchModel, op: MatchOperation)
    requires
        m.created,
    ensures
        op == MatchOperation::StartMatch && m.status != MatchStatus::Waiting ==> apply_op(m, op)
            == (m, Err::<(), MatchError>(MatchError::InvalidTransition)),
        op == MatchOperation::FinalizeMatch && m.status != MatchStatus::Active ==> apply_op(m, op)
            == (m, Err::<(), MatchError>(MatchError::InvalidTransition)),
{
}

} // verus!
