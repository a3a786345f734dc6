//! The reward vault: an escrow holding exactly the quiz's reward from
//! creation until a single authorized claim debits it fully.

use vstd::prelude::*;

use crate::account::AccountId;
use crate::errors::QuizError;
use crate::quiz::{QuizSet, QuizView};

verus! {

/// An escrow for one quiz's reward.
#[derive(Debug)]
pub struct RewardVault {
    pub balance: u64,
}

impl RewardVault {
    /// Funds the vault with the full reward. Called once, at quiz creation;
    /// no other path ever credits the vault.
    pub fn fund(amount: u64) -> (v: Self)
        ensures
            v.balance == amount,
    {
        RewardVault { balance: amount }
    }
}

/// The balance invariant of a quiz's vault: the full reward while the
/// reward is unclaimed, and nothing afterwards.
pub open spec fn vault_in_sync(q: QuizView, v: RewardVault) -> bool {
    v.balance == if q.is_reward_claimed {
        0u64
    } else {
        q.reward_amount
    }
}

/// Whether `caller` may claim the quiz's reward: the quiz is completed, the
/// reward is still unclaimed, and the caller is the winner.
pub open spec fn claim_allowed(q: QuizView, caller: AccountId) -> bool {
    &&& q.is_initialized
    &&& q.winner is Some
    &&& !q.is_reward_claimed
    &&& q.winner == Some(caller)
}

/// The rejection a disallowed claim receives.
pub open spec fn claim_error(q: QuizView, caller: AccountId) -> QuizError {
    if !q.is_initialized {
        QuizError::QuizNotInitialized
    } else if q.winner is None {
        QuizError::QuizNotCompleted
    } else if q.is_reward_claimed {
        QuizError::RewardAlreadyClaimed
    } else {
        QuizError::NotWinner
    }
}

/// The quiz state after a successful claim: settled, permanently.
pub open spec fn claim_step(q: QuizView) -> QuizView {
    QuizView { is_reward_claimed: true, ..q }
}

/// Pays the escrowed reward out to the winner. Succeeds exactly when the
/// quiz is completed, the reward is unclaimed, and `claimer` is the winner;
/// on success the vault's full balance moves to the claimer (the returned
/// record carries the amount) and the quiz becomes settled, in one step.
/// Any rejection leaves the quiz and the vault untouched.
pub fn claim_reward(quiz: &mut QuizSet, vault: &mut RewardVault, claimer: AccountId, now: i64) -> (r:
    Result<RewardClaimed, QuizError>)
    requires
        old(quiz)@.wf(),
        vault_in_sync(old(quiz)@, *old(vault)),
    ensures
        r is Ok <==> claim_allowed(old(quiz)@, claimer),
        r matches Err(e) ==> e == claim_error(old(quiz)@, claimer) && *final(quiz) == *old(quiz)
            && *final(vault) == *old(vault),
        r matches Ok(ev) ==> final(quiz)@ == claim_step(old(quiz)@) && final(quiz)@.wf()
            && final(vault).balance == 0 && vault_in_sync(final(quiz)@, *final(vault)) && ev == (
        RewardClaimed {
            winner: claimer,
            reward_amount: old(quiz)@.reward_amount,
            timestamp: now,
        }),
{
    if !quiz.is_initialized {
        return Err(QuizError::QuizNotInitialized);
    }
    let winner = match quiz.winner {
        None => { return Err(QuizError::QuizNotCompleted) },
        Some(w) => w,
    };
    if quiz.is_reward_claimed {
        return Err(QuizError::RewardAlreadyClaimed);
    }
    if !(winner == claimer) {
        return Err(QuizError::NotWinner);
    }
    let reward_amount = quiz.reward_amount;
    // The vault invariant guarantees the full reward is still escrowed, so
    // the debit cannot underflow.
    vault.balance = vault.balance - reward_amount;
    quiz.is_reward_claimed = true;
    Ok(RewardClaimed { winner: claimer, reward_amount, timestamp: now })
}

/// Record of the reward having been paid out.
#[derive(Clone, Copy, PartialEq, Eq, Structural, Debug)]
pub struct RewardClaimed {
    pub winner: AccountId,
    pub reward_amount: u64,
    pub timestamp: i64,
}

/// A claim succeeds at most once per quiz: once a claim has settled the
/// quiz, no further claim is allowed for anyone, and every further attempt
/// is rejected as `RewardAlreadyClaimed`.
pub proof fn lemma_claim_exactly_once(q: QuizView, winner: AccountId, other: AccountId)
    requires
        q.wf(),
        claim_allowed(q, winner),
    ensures
        !claim_allowed(claim_step(q), other),
        claim_error(claim_step(q), other) == QuizError::RewardAlreadyClaimed,
{
}

/// A caller other than the winner can never claim: on a completed, still
/// unclaimed quiz the attempt is rejected as `NotWinner`.
pub proof fn lemma_non_winner_cannot_claim(q: QuizView, caller: AccountId)
    requires
        q.wf(),
        q.winner is Some,
        !q.is_reward_claimed,
        q.winner != Some(caller),
    ensures
        !claim_allowed(q, caller),
        claim_error(q, caller) == QuizError::NotWinner,
{
}

} // verus!
