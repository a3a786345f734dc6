//! Error taxonomy: validation, authorization and state-conflict errors of the
//! quiz state machine, and the errors of the computation gateway.

use vstd::prelude::*;

verus! {

/// Synchronous rejections of quiz operations. Validation errors and
/// authorization errors leave all state unchanged; state-conflict errors
/// signal an ordering bug by the caller and likewise change nothing.
#[derive(Clone, Copy, PartialEq, Eq, Structural, Debug)]
pub enum QuizError {
    /// A name was empty.
    EmptyName,
    /// A name exceeded the maximum length.
    NameTooLong,
    /// A question count outside the accepted bounds.
    InvalidQuestionCount,
    /// A question index outside the quiz, a duplicate, or one already credited.
    InvalidQuestionIndex,
    /// The caller is not the authority of the quiz.
    Unauthorized,
    /// The quiz already holds its final question block.
    QuizSetAlreadyInitialized,
    /// A reward amount outside the accepted bounds.
    InvalidRewardAmount,
    /// The quiz does not yet hold its final question block.
    QuizNotInitialized,
    /// No winner has been determined yet.
    QuizNotCompleted,
    /// The reward has already been paid out.
    RewardAlreadyClaimed,
    /// The caller is not the winner.
    NotWinner,
    /// A winner has already been determined.
    WinnerAlreadySet,
    /// An answer count that does not match the quiz.
    InvalidAnswerCount,
    /// The vault does not hold the full reward. Never reached while the
    /// vault invariant holds.
    InsufficientVaultBalance,
    /// The topic is not accepting new quizzes.
    TopicNotActive,
    /// The caller is not the owner of the topic.
    NotTopicOwner,
    /// Fewer questions than the topic's policy minimum.
    InsufficientQuestions,
    /// A smaller reward than the topic's policy minimum.
    InsufficientReward,
}

/// Errors of the computation gateway and of the evaluator protocol.
#[derive(Clone, Copy, PartialEq, Eq, Structural, Debug)]
pub enum ErrorCode {
    /// The evaluator reported failure; no quiz state was changed.
    AbortedComputation,
    /// No evaluator cluster is available to serve the request.
    ClusterNotSet,
    /// A queued request had the wrong payload size or format.
    InvalidArgument,
}

} // verus!
