//! Answer settlement: the state machine that turns evaluator verdicts into
//! quiz progress and determines the winner exactly once.
//!
//! Callbacks may arrive in any order, duplicated, or for requests that were
//! never queued; settlement is written so that progress only ever grows,
//! each question is credited at most once, and the single irreversible
//! winner assignment happens on exactly the step that brings progress to
//! the full question count.

use vstd::prelude::*;

use crate::account::AccountId;
use crate::errors::{ErrorCode, QuizError};
use crate::gateway::{ComputationGateway, ComputationOutputs};
use crate::quiz::{
    lemma_count_true_bounds, lemma_count_true_update_true, QuizCompleted, QuizSet, QuizView,
};

verus! {

/// Record of one answer verdict having been applied on an accepted
/// callback.
#[derive(Clone, Copy, PartialEq, Eq, Structural, Debug)]
pub struct AnswerVerifiedEvent {
    pub question_index: u32,
    pub is_correct: bool,
    pub timestamp: i64,
}

/// How a delivered callback was settled.
#[derive(Debug)]
pub enum CallbackOutcome {
    /// The callback did not correlate with this quiz: an unknown or
    /// already consumed request identity, or one queued for another quiz.
    /// Nothing changed.
    Ignored,
    /// The callback correlated, but settlement failed closed: the quiz is
    /// not initialized, or the question index is outside the quiz or
    /// already credited. Nothing changed.
    Rejected(QuizError),
    /// The verdict was applied; completing the quiz also announces the
    /// winner.
    Verified(AnswerVerifiedEvent, Option<QuizCompleted>),
}

/// Why settlement fails closed for this state and question, if it does.
/// `None` means the verdict is applied (possibly as a no-op: a decided quiz
/// ignores further verdicts, and a wrong answer leaves progress untouched).
pub open spec fn settle_rejection(q: QuizView, index: int, verdict: bool) -> Option<QuizError> {
    if !q.is_initialized {
        Some(QuizError::QuizNotInitialized)
    } else if index < 1 || index > q.question_count {
        Some(QuizError::InvalidQuestionIndex)
    } else if q.winner is Some {
        None
    } else if !verdict {
        None
    } else if q.credited[index - 1] {
        Some(QuizError::InvalidQuestionIndex)
    } else {
        None
    }
}

/// Whether this step credits the question: a correct verdict for an
/// in-range, not yet credited question of an initialized, undecided quiz.
pub open spec fn settle_credits(q: QuizView, index: int, verdict: bool) -> bool {
    &&& q.is_initialized
    &&& 1 <= index <= q.question_count
    &&& q.winner is None
    &&& verdict
    &&& !q.credited[index - 1]
}

/// Whether this step brings progress to the full question count and so
/// completes the quiz.
pub open spec fn settle_completes(q: QuizView, index: int, verdict: bool) -> bool {
    settle_credits(q, index, verdict) && q.correct_answers_count + 1 == q.question_count
}

/// The quiz state after one callback settles: the crediting step marks the
/// question, counts it, and — exactly when progress reaches the question
/// count — sets the winner to the caller that delivered the callback.
/// Every other case leaves the state as it is.
pub open spec fn settle_step(q: QuizView, index: int, verdict: bool, payer: AccountId) -> QuizView {
    if settle_credits(q, index, verdict) {
        QuizView {
            credited: q.credited.update(index - 1, true),
            correct_answers_count: (q.correct_answers_count + 1) as u8,
            winner: if q.correct_answers_count + 1 == q.question_count {
                Some(payer)
            } else {
                q.winner
            },
            ..q
        }
    } else {
        q
    }
}

/// What a delivered, correlated callback returns.
pub open spec fn callback_outcome_spec(
    q: QuizView,
    index: int,
    verdict: bool,
    payer: AccountId,
    now: i64,
) -> CallbackOutcome {
    match settle_rejection(q, index, verdict) {
        Some(e) => CallbackOutcome::Rejected(e),
        None => CallbackOutcome::Verified(
            AnswerVerifiedEvent { question_index: index as u32, is_correct: verdict, timestamp: now },
            if settle_completes(q, index, verdict) {
                Some(QuizCompleted { winner: payer, reward_amount: q.reward_amount, timestamp: now })
            } else {
                None
            },
        ),
    }
}

/// One settlement step preserves the quiz invariants; progress never
/// decreases, never grows by more than one, and never exceeds the question
/// count; the question count itself never changes; a winner, once set, is
/// never changed; and a winner is only ever set by the step that brings
/// progress to the full question count.
pub proof fn lemma_settle_step(q: QuizView, index: int, verdict: bool, payer: AccountId)
    requires
        q.wf(),
    ensures
        settle_step(q, index, verdict, payer).wf(),
        q.correct_answers_count <= settle_step(q, index, verdict, payer).correct_answers_count
            <= q.question_count,
        settle_step(q, index, verdict, payer).question_count == q.question_count,
        q.winner is Some ==> settle_step(q, index, verdict, payer).winner == q.winner,
        settle_step(q, index, verdict, payer).winner != q.winner ==> q.winner is None
            && settle_step(q, index, verdict, payer).winner == Some(payer) && settle_step(
            q,
            index,
            verdict,
            payer,
        ).correct_answers_count == q.question_count,
{
    lemma_count_true_bounds(q.credited);
    if settle_credits(q, index, verdict) {
        lemma_count_true_update_true(q.credited, index - 1);
        lemma_count_true_bounds(q.credited.update(index - 1, true));
    }
}

/// One callback's worth of settlement input: which question was evaluated,
/// what the evaluator answered, and who delivered the callback.
#[derive(Clone, Copy, PartialEq, Eq, Structural, Debug)]
pub struct SettleEvent {
    pub question_index: u8,
    pub verdict: bool,
    pub payer: AccountId,
}

/// The quiz state after a whole sequence of callbacks settles, first to
/// last.
pub open spec fn settle_many(q: QuizView, events: Seq<SettleEvent>) -> QuizView
    decreases events.len(),
{
    if events.len() == 0 {
        q
    } else {
        settle_many(
            settle_step(q, events.first().question_index as int, events.first().verdict, events.first().payer),
            events.drop_first(),
        )
    }
}

/// Across any sequence of callbacks — out of order, duplicated, correct or
/// wrong — a quiz's progress counter never decreases and never exceeds its
/// question count, the question count never changes, and the invariants are
/// preserved throughout.
pub proof fn lemma_progress_monotonic(q: QuizView, events: Seq<SettleEvent>)
    requires
        q.wf(),
    ensures
        settle_many(q, events).wf(),
        q.correct_answers_count <= settle_many(q, events).correct_answers_count
            <= q.question_count,
        settle_many(q, events).question_count == q.question_count,
    decreases events.len(),
{
    lemma_count_true_bounds(q.credited);
    if events.len() > 0 {
        let e = events.first();
        lemma_settle_step(q, e.question_index as int, e.verdict, e.payer);
        lemma_progress_monotonic(
            settle_step(q, e.question_index as int, e.verdict, e.payer),
            events.drop_first(),
        );
    }
}

/// The winner is set at most once: however many further callbacks settle,
/// in whatever order, a quiz whose winner is `w` keeps exactly that winner.
/// Together with `lemma_settle_step` — which shows that a step changes the
/// winner only from none to the one caller that completes the quiz — no
/// two callbacks can ever install two different winners.
pub proof fn lemma_winner_set_at_most_once(q: QuizView, w: AccountId, events: Seq<SettleEvent>)
    requires
        q.wf(),
        q.winner == Some(w),
    ensures
        settle_many(q, events).winner == Some(w),
    decreases events.len(),
{
    if events.len() > 0 {
        let e = events.first();
        lemma_settle_step(q, e.question_index as int, e.verdict, e.payer);
        lemma_winner_set_at_most_once(
            settle_step(q, e.question_index as int, e.verdict, e.payer),
            w,
            events.drop_first(),
        );
    }
}

/// Settles the evaluator's outcome for an answer-validation request against
/// the quiz stored under `quiz_key`.
///
/// A `Failure` outcome surfaces as `AbortedComputation` and changes nothing
/// at all. A success first correlates the callback: an unknown or already
/// consumed request identity, or one queued for a different quiz, is
/// ignored without any state change. A correlated callback consumes its
/// pending computation exactly once and settles as [`settle_step`]
/// describes, with the verdict applied for the question fixed at queue
/// time and the winner — when this callback completes the quiz — set to
/// `payer`, the caller that delivered the callback.
pub fn validate_answer_callback(
    gateway: &mut ComputationGateway,
    quiz_key: AccountId,
    quiz: &mut QuizSet,
    request_id: u64,
    output: ComputationOutputs<bool>,
    payer: AccountId,
    now: i64,
) -> (r: Result<CallbackOutcome, ErrorCode>)
    requires
        old(quiz)@.wf(),
        old(gateway).wf(),
    ensures
        final(gateway).wf(),
        final(quiz)@.wf(),
        r is Err <==> output is Failure,
        r matches Err(e) ==> e == ErrorCode::AbortedComputation && *final(quiz) == *old(quiz)
            && *final(gateway) == *old(gateway),
        output is Success && !old(gateway).has_request_id(request_id) ==> r == Ok::<
            CallbackOutcome,
            ErrorCode,
        >(CallbackOutcome::Ignored) && *final(quiz) == *old(quiz) && *final(gateway) == *old(
            gateway,
        ),
        output is Success && old(gateway).has_request_id(request_id) && old(
            gateway,
        ).pending_context(request_id).quiz_set != quiz_key ==> r == Ok::<
            CallbackOutcome,
            ErrorCode,
        >(CallbackOutcome::Ignored) && *final(quiz) == *old(quiz) && *final(gateway) == *old(
            gateway,
        ),
        output matches ComputationOutputs::Success(verdict) ==> (old(gateway).has_request_id(
            request_id,
        ) && old(gateway).pending_context(request_id).quiz_set == quiz_key ==> final(quiz)@
            == settle_step(
            old(quiz)@,
            old(gateway).pending_context(request_id).question_index as int,
            verdict,
            payer,
        ) && (r matches Ok(out) && out == callback_outcome_spec(
            old(quiz)@,
            old(gateway).pending_context(request_id).question_index as int,
            verdict,
            payer,
            now,
        )) && final(gateway).next_request_id == old(gateway).next_request_id && (exists|i: int|
            0 <= i < old(gateway).pending@.len() && (#[trigger] old(
                gateway,
            ).pending@[i]).request_id == request_id && final(gateway).pending@ == old(
                gateway,
            ).pending@.remove(i))),
{
    let verdict = match output {
        ComputationOutputs::Success(v) => v,
        ComputationOutputs::Failure => {
            return Err(ErrorCode::AbortedComputation);
        },
    };
    let context = match gateway.find(request_id) {
        None => {
            return Ok(CallbackOutcome::Ignored);
        },
        Some(p) => {
            proof {
                let i = choose|i: int|
                    0 <= i < gateway.pending@.len() && (#[trigger] gateway.pending@[i]).request_id
                        == request_id && gateway.pending@[i] == *p;
                let j = choose|i: int|
                    0 <= i < gateway.pending@.len() && (#[trigger] gateway.pending@[i]).request_id
                        == request_id;
                assert(gateway.pending@[i].request_id == request_id);
                assert(gateway.pending@[j].request_id == request_id);
                if i != j {
                    assert(false);
                }
                assert(gateway.pending_context(request_id) == p.context);
            }
            p.context
        },
    };
    if !(context.quiz_set == quiz_key) {
        return Ok(CallbackOutcome::Ignored);
    }
    let taken = gateway.take(request_id);
    proof {
        assert(taken is Some);
    }
    let question_index = context.question_index;
    if !quiz.is_initialized {
        return Ok(CallbackOutcome::Rejected(QuizError::QuizNotInitialized));
    }
    if question_index == 0 || question_index > quiz.question_count {
        return Ok(CallbackOutcome::Rejected(QuizError::InvalidQuestionIndex));
    }
    let event = AnswerVerifiedEvent {
        question_index: question_index as u32,
        is_correct: verdict,
        timestamp: now,
    };
    if quiz.winner.is_some() {
        return Ok(CallbackOutcome::Verified(event, None));
    }
    if !verdict {
        return Ok(CallbackOutcome::Verified(event, None));
    }
    let idx = (question_index - 1) as usize;
    if quiz.credited[idx] {
        return Ok(CallbackOutcome::Rejected(QuizError::InvalidQuestionIndex));
    }
    proof {
        lemma_settle_step(old(quiz)@, question_index as int, verdict, payer);
        lemma_count_true_update_true(quiz@.credited, idx as int);
        lemma_count_true_bounds(quiz@.credited.update(idx as int, true));
    }
    quiz.credited[idx] = true;
    quiz.correct_answers_count = quiz.correct_answers_count + 1;
    let completion = if quiz.correct_answers_count == quiz.question_count {
        quiz.winner = Some(payer);
        Some(QuizCompleted { winner: payer, reward_amount: quiz.reward_amount, timestamp: now })
    } else {
        None
    };
    proof {
        assert(quiz@ == settle_step(old(quiz)@, question_index as int, verdict, payer));
    }
    Ok(CallbackOutcome::Verified(event, completion))
}

} // verus!
