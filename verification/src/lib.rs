//! A multi-party quiz contest over an account-based ledger.
//!
//! Question and answer material is held in confidentially encoded blocks and
//! compared by an external evaluator; the library tracks per-quiz progress,
//! determines a single winner exactly once, and releases an escrowed reward
//! exactly once to exactly one party.
//!
//! The pieces, roughly in the order a contest touches them: [`topic`] fixes
//! the policy under which [`quiz`] creates a quiz and its question blocks;
//! [`gateway`] queues confidential requests for the evaluator, whose pure
//! transforms [`evaluator`] models; [`settlement`] turns each delivered
//! verdict into progress and the single completion; [`vault`] escrows and
//! releases the reward; [`scoring`] keeps the books afterwards. The runtime
//! that stores accounts, timestamps operations, moves funds, and delivers
//! callbacks is outside the library: operations take the values they need
//! (ledger addresses, the current time, the evaluator's outcome) as plain
//! arguments and return the events they would announce.

pub mod account;
pub mod errors;
pub mod evaluator;
pub mod gateway;
pub mod quiz;
pub mod scoring;
pub mod settlement;
pub mod topic;
pub mod vault;
