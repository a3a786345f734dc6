//! Score bookkeeping: per-user, per-topic totals and the per-completion
//! history record.

use vstd::prelude::*;

use crate::account::AccountId;

verus! {

/// A user's running totals within one topic. Freshly allocated storage
/// reads as all zeroes with the all-zero user identity; the first recorded
/// completion initializes it.
#[derive(Clone, Copy, PartialEq, Eq, Structural, Debug)]
pub struct UserScore {
    pub user: AccountId,
    pub topic: AccountId,
    pub score: u32,
    pub total_completed: u32,
    pub last_activity: i64,
    pub total_rewards: u64,
}

/// The record of one user finishing one quiz.
#[derive(Clone, Copy, PartialEq, Eq, Structural, Debug)]
pub struct QuizHistory {
    pub user: AccountId,
    pub quiz_set: AccountId,
    pub topic: AccountId,
    pub completed_at: i64,
    pub score: u8,
    pub total_questions: u8,
    pub is_winner: bool,
    pub reward_claimed: u64,
}

/// Record of a completion having been written into the score books.
#[derive(Clone, Copy, PartialEq, Eq, Structural, Debug)]
pub struct QuizCompletionRecorded {
    pub user: AccountId,
    pub is_winner: bool,
    pub score: u8,
    pub total_questions: u8,
    pub reward_amount: u64,
    pub timestamp: i64,
}

/// The score record `record_quiz_completion` starts from: the stored one,
/// or a fresh zeroed one when the storage has never been written.
pub open spec fn score_base(s: UserScore, user: AccountId, topic: AccountId) -> UserScore {
    if s.user == (AccountId { value: 0 }) {
        UserScore { user, topic, score: 0, total_completed: 0, last_activity: 0, total_rewards: 0 }
    } else {
        s
    }
}

/// Records that `user` finished the quiz stored under `quiz_key`:
/// initializes the score record on first use, counts the completion, and —
/// only for a winner — counts the win and the reward. Returns the history
/// record and the announcement.
pub fn record_quiz_completion(
    user_score: &mut UserScore,
    user: AccountId,
    topic_key: AccountId,
    quiz_key: AccountId,
    is_winner: bool,
    score: u8,
    total_questions: u8,
    reward_amount: u64,
    now: i64,
) -> (r: (QuizHistory, QuizCompletionRecorded))
    requires
        score_base(*old(user_score), user, topic_key).total_completed < u32::MAX,
        is_winner ==> score_base(*old(user_score), user, topic_key).score < u32::MAX,
        is_winner ==> score_base(*old(user_score), user, topic_key).total_rewards + reward_amount
            <= u64::MAX,
    ensures
        *final(user_score) == (UserScore {
            total_completed: (score_base(*old(user_score), user, topic_key).total_completed
                + 1) as u32,
            last_activity: now,
            score: if is_winner {
                (score_base(*old(user_score), user, topic_key).score + 1) as u32
            } else {
                score_base(*old(user_score), user, topic_key).score
            },
            total_rewards: if is_winner {
                (score_base(*old(user_score), user, topic_key).total_rewards
                    + reward_amount) as u64
            } else {
                score_base(*old(user_score), user, topic_key).total_rewards
            },
            ..score_base(*old(user_score), user, topic_key)
        }),
        r.0 == (QuizHistory {
            user,
            quiz_set: quiz_key,
            topic: topic_key,
            completed_at: now,
            score,
            total_questions,
            is_winner,
            reward_claimed: if is_winner {
                reward_amount
            } else {
                0u64
            },
        }),
        r.1 == (QuizCompletionRecorded {
            user,
            is_winner,
            score,
            total_questions,
            reward_amount: if is_winner {
                reward_amount
            } else {
                0u64
            },
            timestamp: now,
        }),
{
    if user_score.user == AccountId::default() {
        user_score.user = user;
        user_score.topic = topic_key;
        user_score.score = 0;
        user_score.total_completed = 0;
        user_score.last_activity = 0;
        user_score.total_rewards = 0;
    }
    user_score.total_completed = user_score.total_completed + 1;
    user_score.last_activity = now;
    if is_winner {
        user_score.score = user_score.score + 1;
        user_score.total_rewards = user_score.total_rewards + reward_amount;
    }
    let history = QuizHistory {
        user,
        quiz_set: quiz_key,
        topic: topic_key,
        completed_at: now,
        score,
        total_questions,
        is_winner,
        reward_claimed: if is_winner {
            reward_amount
        } else {
            0
        },
    };
    let event = QuizCompletionRecorded {
        user,
        is_winner,
        score,
        total_questions,
        reward_amount: if is_winner {
            reward_amount
        } else {
            0
        },
        timestamp: now,
    };
    (history, event)
}

} // verus!
