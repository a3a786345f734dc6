//! Claims, manual winner overrides, and score bookkeeping.

use quiz_escrow::account::AccountId;
use quiz_escrow::errors::QuizError;
use quiz_escrow::quiz::{
    add_encrypted_question_block, create_quiz_set, set_winner_for_devnet, set_winner_for_user,
    QuestionBlockStore, QuizSet,
};
use quiz_escrow::scoring::{record_quiz_completion, UserScore};
use quiz_escrow::vault::{claim_reward, RewardVault};

fn acct(value: u64) -> AccountId {
    AccountId { value }
}

/// An initialized quiz with one question block per index.
fn active_quiz(n: u8, reward: u64) -> (QuizSet, RewardVault, AccountId) {
    let authority = acct(10);
    let quiz_key = acct(99);
    let (mut quiz, vault, _) =
        create_quiz_set(authority, None, None, String::from("quiz"), n, 0, reward, 0).unwrap();
    let mut store = QuestionBlockStore::new(quiz_key);
    for i in 1..=n {
        add_encrypted_question_block(
            &mut quiz,
            quiz_key,
            &mut store,
            authority,
            i,
            vec![0u8; 64],
            vec![0u8; 64],
            vec![0u8; 32],
            7,
            0,
        )
        .unwrap();
    }
    (quiz, vault, authority)
}

#[test]
fn claim_requires_completion() {
    let (mut quiz, mut vault, _) = active_quiz(2, 500);
    assert_eq!(
        claim_reward(&mut quiz, &mut vault, acct(1), 0).unwrap_err(),
        QuizError::QuizNotCompleted
    );
    assert_eq!(vault.balance, 500);
}

#[test]
fn claim_requires_initialization() {
    let (mut quiz, mut vault, _) =
        create_quiz_set(acct(10), None, None, String::from("quiz"), 2, 0, 500, 0).unwrap();
    assert_eq!(
        claim_reward(&mut quiz, &mut vault, acct(1), 0).unwrap_err(),
        QuizError::QuizNotInitialized
    );
}

#[test]
fn non_winner_claim_always_fails_after_completion() {
    let (mut quiz, mut vault, _) = active_quiz(2, 500);
    let winner = acct(3);
    set_winner_for_user(&mut quiz, winner, 2, 1).unwrap();
    // Completed, unclaimed: anyone who is not the winner gets NotWinner.
    assert_eq!(
        claim_reward(&mut quiz, &mut vault, acct(4), 2).unwrap_err(),
        QuizError::NotWinner
    );
    assert_eq!(
        claim_reward(&mut quiz, &mut vault, acct(10), 2).unwrap_err(),
        QuizError::NotWinner
    );
    assert_eq!(vault.balance, 500);
    assert!(!quiz.is_reward_claimed);
    // The winner's claim goes through exactly once.
    let ev = claim_reward(&mut quiz, &mut vault, winner, 3).unwrap();
    assert_eq!(ev.winner, winner);
    assert_eq!(ev.reward_amount, 500);
    assert_eq!(vault.balance, 0);
    // Afterwards, everyone — the winner included — gets RewardAlreadyClaimed.
    assert_eq!(
        claim_reward(&mut quiz, &mut vault, winner, 4).unwrap_err(),
        QuizError::RewardAlreadyClaimed
    );
    assert_eq!(
        claim_reward(&mut quiz, &mut vault, acct(4), 4).unwrap_err(),
        QuizError::RewardAlreadyClaimed
    );
}

#[test]
fn set_winner_for_user_is_set_once() {
    let (mut quiz, _, _) = active_quiz(3, 500);
    assert_eq!(
        set_winner_for_user(&mut quiz, acct(5), 2, 0).unwrap_err(),
        QuizError::InvalidAnswerCount
    );
    let ev = set_winner_for_user(&mut quiz, acct(5), 3, 0).unwrap();
    assert_eq!(ev.winner, acct(5));
    assert_eq!(ev.reward_amount, 500);
    assert_eq!(quiz.winner, Some(acct(5)));
    assert_eq!(quiz.correct_answers_count, 3);
    // The winner is set at most once; a second attempt cannot overwrite.
    assert_eq!(
        set_winner_for_user(&mut quiz, acct(6), 3, 1).unwrap_err(),
        QuizError::WinnerAlreadySet
    );
    assert_eq!(quiz.winner, Some(acct(5)));
}

#[test]
fn set_winner_for_user_requires_initialization() {
    let (mut quiz, _, _) =
        create_quiz_set(acct(10), None, None, String::from("quiz"), 2, 0, 500, 0).unwrap();
    assert_eq!(
        set_winner_for_user(&mut quiz, acct(5), 2, 0).unwrap_err(),
        QuizError::QuizNotInitialized
    );
}

#[test]
fn set_winner_for_devnet_is_authority_gated() {
    let (mut quiz, _, authority) = active_quiz(2, 500);
    let answers = vec![String::from("a"), String::from("b")];
    assert_eq!(
        set_winner_for_devnet(&mut quiz, acct(2), &answers, &answers).unwrap_err(),
        QuizError::Unauthorized
    );
    let short = vec![String::from("a")];
    assert_eq!(
        set_winner_for_devnet(&mut quiz, authority, &short, &answers).unwrap_err(),
        QuizError::InvalidAnswerCount
    );
    set_winner_for_devnet(&mut quiz, authority, &answers, &answers).unwrap();
    assert_eq!(quiz.winner, Some(authority));
    assert_eq!(quiz.correct_answers_count, 2);
    // Still set-once, even for the authority.
    assert_eq!(
        set_winner_for_devnet(&mut quiz, authority, &answers, &answers).unwrap_err(),
        QuizError::WinnerAlreadySet
    );
}

#[test]
fn record_quiz_completion_initializes_and_accumulates() {
    let mut score = UserScore {
        user: acct(0),
        topic: acct(0),
        score: 0,
        total_completed: 0,
        last_activity: 0,
        total_rewards: 0,
    };
    let user = acct(8);
    let topic_key = acct(70);
    let quiz_key = acct(71);
    let (history, event) =
        record_quiz_completion(&mut score, user, topic_key, quiz_key, true, 3, 3, 900, 50);
    assert_eq!(score.user, user);
    assert_eq!(score.topic, topic_key);
    assert_eq!(score.score, 1);
    assert_eq!(score.total_completed, 1);
    assert_eq!(score.last_activity, 50);
    assert_eq!(score.total_rewards, 900);
    assert_eq!(history.user, user);
    assert_eq!(history.quiz_set, quiz_key);
    assert_eq!(history.score, 3);
    assert_eq!(history.total_questions, 3);
    assert!(history.is_winner);
    assert_eq!(history.reward_claimed, 900);
    assert_eq!(event.reward_amount, 900);
    assert_eq!(event.timestamp, 50);

    // A lost quiz counts the completion but neither the win nor a reward.
    let (history, event) =
        record_quiz_completion(&mut score, user, topic_key, quiz_key, false, 1, 3, 900, 60);
    assert_eq!(score.score, 1);
    assert_eq!(score.total_completed, 2);
    assert_eq!(score.last_activity, 60);
    assert_eq!(score.total_rewards, 900);
    assert!(!history.is_winner);
    assert_eq!(history.reward_claimed, 0);
    assert_eq!(event.reward_amount, 0);
}
