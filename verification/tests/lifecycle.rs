//! Topic and quiz lifecycle: creation policy, question blocks, and the
//! one-way initialization flag.

use quiz_escrow::account::AccountId;
use quiz_escrow::errors::QuizError;
use quiz_escrow::quiz::{
    add_encrypted_question_block, create_quiz_set, QuestionBlockStore, QuizPhase,
};
use quiz_escrow::topic::{create_topic, toggle_topic_status, transfer_topic_ownership};

fn acct(value: u64) -> AccountId {
    AccountId { value }
}

fn make_topic(owner: AccountId) -> quiz_escrow::topic::Topic {
    create_topic(owner, String::from("history"), 5).unwrap().0
}

#[test]
fn create_topic_sets_defaults() {
    let owner = acct(1);
    let (topic, event) = create_topic(owner, String::from("history"), 42).unwrap();
    assert_eq!(topic.owner, owner);
    assert_eq!(topic.name, "history");
    assert_eq!(topic.created_at, 42);
    assert_eq!(topic.total_quizzes, 0);
    assert_eq!(topic.total_participants, 0);
    assert!(topic.is_active);
    assert_eq!(topic.min_reward_amount, 10_000_000);
    assert_eq!(topic.min_question_count, 3);
    assert_eq!(event.owner, owner);
    assert_eq!(event.name, "history");
    assert_eq!(event.timestamp, 42);
}

#[test]
fn create_topic_rejects_empty_name() {
    assert_eq!(create_topic(acct(1), String::new(), 0).unwrap_err(), QuizError::EmptyName);
}

#[test]
fn create_topic_rejects_long_name() {
    let long = "x".repeat(101);
    assert_eq!(create_topic(acct(1), long, 0).unwrap_err(), QuizError::NameTooLong);
    let just_fits = "x".repeat(100);
    assert!(create_topic(acct(1), just_fits, 0).is_ok());
}

#[test]
fn transfer_topic_ownership_requires_owner() {
    let mut topic = make_topic(acct(1));
    let err = transfer_topic_ownership(&mut topic, acct(2), acct(3), 9).unwrap_err();
    assert_eq!(err, QuizError::NotTopicOwner);
    assert_eq!(topic.owner, acct(1));

    let event = transfer_topic_ownership(&mut topic, acct(1), acct(3), 9).unwrap();
    assert_eq!(topic.owner, acct(3));
    assert_eq!(event.old_owner, acct(1));
    assert_eq!(event.new_owner, acct(3));

    // The previous owner has no say anymore.
    let err = transfer_topic_ownership(&mut topic, acct(1), acct(4), 10).unwrap_err();
    assert_eq!(err, QuizError::NotTopicOwner);
}

#[test]
fn toggle_topic_status_requires_owner() {
    let mut topic = make_topic(acct(1));
    assert_eq!(
        toggle_topic_status(&mut topic, acct(2), false, 1).unwrap_err(),
        QuizError::NotTopicOwner
    );
    assert!(topic.is_active);
    let event = toggle_topic_status(&mut topic, acct(1), false, 1).unwrap();
    assert!(!topic.is_active);
    assert!(!event.is_active);
}

#[test]
fn create_quiz_set_validates_absolute_bounds() {
    let a = acct(1);
    let name = || String::from("quiz");
    assert_eq!(
        create_quiz_set(a, None, None, String::new(), 3, 0, 1, 0).unwrap_err(),
        QuizError::EmptyName
    );
    assert_eq!(
        create_quiz_set(a, None, None, "x".repeat(101), 3, 0, 1, 0).unwrap_err(),
        QuizError::NameTooLong
    );
    assert_eq!(
        create_quiz_set(a, None, None, name(), 0, 0, 1, 0).unwrap_err(),
        QuizError::InvalidQuestionCount
    );
    assert_eq!(
        create_quiz_set(a, None, None, name(), 51, 0, 1, 0).unwrap_err(),
        QuizError::InvalidQuestionCount
    );
    assert_eq!(
        create_quiz_set(a, None, None, name(), 50, 0, 0, 0).unwrap_err(),
        QuizError::InvalidRewardAmount
    );
    assert!(create_quiz_set(a, None, None, name(), 50, 0, 1, 0).is_ok());
}

#[test]
fn create_quiz_set_validates_topic_policy() {
    let owner = acct(1);
    let topic = make_topic(owner);
    let topic_key = Some(acct(77));
    let name = || String::from("quiz");

    let mut inactive = make_topic(owner);
    toggle_topic_status(&mut inactive, owner, false, 0).unwrap();
    assert_eq!(
        create_quiz_set(owner, Some(&inactive), topic_key, name(), 3, 0, 10_000_000, 0)
            .unwrap_err(),
        QuizError::TopicNotActive
    );
    assert_eq!(
        create_quiz_set(acct(2), Some(&topic), topic_key, name(), 3, 0, 10_000_000, 0)
            .unwrap_err(),
        QuizError::NotTopicOwner
    );
    assert_eq!(
        create_quiz_set(owner, Some(&topic), topic_key, name(), 2, 0, 10_000_000, 0).unwrap_err(),
        QuizError::InsufficientQuestions
    );
    assert_eq!(
        create_quiz_set(owner, Some(&topic), topic_key, name(), 3, 0, 9_999_999, 0).unwrap_err(),
        QuizError::InsufficientReward
    );
    let (quiz, vault, event) =
        create_quiz_set(owner, Some(&topic), topic_key, name(), 3, 4, 10_000_000, 8).unwrap();
    assert_eq!(vault.balance, 10_000_000);
    assert_eq!(quiz.authority, owner);
    assert_eq!(quiz.topic, topic_key);
    assert_eq!(quiz.question_count, 3);
    assert_eq!(quiz.unique_id, 4);
    assert_eq!(quiz.reward_amount, 10_000_000);
    assert!(!quiz.is_initialized);
    assert!(!quiz.is_reward_claimed);
    assert_eq!(quiz.winner, None);
    assert_eq!(quiz.correct_answers_count, 0);
    assert_eq!(event.question_count, 3);
    assert_eq!(event.reward_amount, 10_000_000);
}

#[test]
fn add_question_block_gates_and_initializes() {
    let authority = acct(1);
    let quiz_key = acct(50);
    let (mut quiz, _, _) =
        create_quiz_set(authority, None, None, String::from("quiz"), 2, 0, 5, 0).unwrap();
    let mut store = QuestionBlockStore::new(quiz_key);
    let x = || vec![0u8; 64];
    let y = || vec![0u8; 64];
    let key = || vec![0u8; 32];

    assert_eq!(
        add_encrypted_question_block(
            &mut quiz,
            quiz_key,
            &mut store,
            acct(2),
            1,
            x(),
            y(),
            key(),
            7,
            0
        )
        .unwrap_err(),
        QuizError::Unauthorized
    );
    assert_eq!(
        add_encrypted_question_block(
            &mut quiz,
            quiz_key,
            &mut store,
            authority,
            0,
            x(),
            y(),
            key(),
            7,
            0
        )
        .unwrap_err(),
        QuizError::InvalidQuestionIndex
    );
    assert_eq!(
        add_encrypted_question_block(
            &mut quiz,
            quiz_key,
            &mut store,
            authority,
            3,
            x(),
            y(),
            key(),
            7,
            0
        )
        .unwrap_err(),
        QuizError::InvalidQuestionIndex
    );

    let event = add_encrypted_question_block(
        &mut quiz,
        quiz_key,
        &mut store,
        authority,
        1,
        x(),
        y(),
        key(),
        7,
        3,
    )
    .unwrap();
    assert_eq!(event.question_index, 1);
    assert!(!quiz.is_initialized);
    assert_eq!(quiz.phase(), QuizPhase::Open);

    // The same index cannot be added twice.
    assert_eq!(
        add_encrypted_question_block(
            &mut quiz,
            quiz_key,
            &mut store,
            authority,
            1,
            x(),
            y(),
            key(),
            7,
            4
        )
        .unwrap_err(),
        QuizError::InvalidQuestionIndex
    );

    // Adding the final index initializes the quiz.
    add_encrypted_question_block(
        &mut quiz,
        quiz_key,
        &mut store,
        authority,
        2,
        x(),
        y(),
        key(),
        7,
        5,
    )
    .unwrap();
    assert!(quiz.is_initialized);
    assert_eq!(quiz.phase(), QuizPhase::Active);
    assert_eq!(store.get(1).unwrap().question_index, 1);
    assert_eq!(store.get(2).unwrap().question_index, 2);
    assert!(store.get(3).is_none());
}

#[test]
fn add_question_block_after_initialized_fails() {
    let authority = acct(1);
    let quiz_key = acct(50);
    let (mut quiz, _, _) =
        create_quiz_set(authority, None, None, String::from("quiz"), 1, 0, 5, 0).unwrap();
    let mut store = QuestionBlockStore::new(quiz_key);
    add_encrypted_question_block(
        &mut quiz,
        quiz_key,
        &mut store,
        authority,
        1,
        vec![0u8; 64],
        vec![0u8; 64],
        vec![0u8; 32],
        7,
        0,
    )
    .unwrap();
    assert!(quiz.is_initialized);
    // Once initialized, every further attempt fails, at any index.
    let err = add_encrypted_question_block(
        &mut quiz,
        quiz_key,
        &mut store,
        authority,
        1,
        vec![0u8; 64],
        vec![0u8; 64],
        vec![0u8; 32],
        7,
        1,
    )
    .unwrap_err();
    assert_eq!(err, QuizError::QuizSetAlreadyInitialized);
}
