//! Topics: the policy scope under which quizzes are created.
//!
//! A topic is created once by an owner, who may later transfer ownership or
//! toggle whether the topic accepts new quizzes. A topic fixes the minimum
//! reward and the minimum question count for quizzes created under it.

use vstd::prelude::*;
use vstd::string::StrSliceExecFns;

use crate::account::AccountId;
use crate::errors::QuizError;

verus! {

/// Longest accepted name, in characters.
pub const MAX_NAME_LEN: usize = 100;

/// Minimum reward, in base units of the ledger's currency, that a newly
/// created topic demands of its quizzes.
pub const DEFAULT_MIN_REWARD_AMOUNT: u64 = 10_000_000;

/// Minimum question count that a newly created topic demands of its quizzes.
pub const DEFAULT_MIN_QUESTION_COUNT: u8 = 3;

/// A policy scope for quizzes. The name is the topic's unique key.
#[derive(Debug)]
pub struct Topic {
    pub owner: AccountId,
    pub name: String,
    pub created_at: i64,
    pub total_quizzes: u32,
    pub total_participants: u32,
    pub is_active: bool,
    pub min_reward_amount: u64,
    pub min_question_count: u8,
}

impl Topic {
    /// A topic is well formed when its name is non-empty and fits the
    /// maximum length.
    pub open spec fn wf(&self) -> bool {
        1 <= self.name@.len() <= MAX_NAME_LEN
    }
}

/// Record of a topic having been created.
#[derive(Debug)]
pub struct TopicCreated {
    pub owner: AccountId,
    pub name: String,
    pub timestamp: i64,
}

/// Record of a topic's ownership having moved.
#[derive(Clone, Copy, PartialEq, Eq, Structural, Debug)]
pub struct TopicOwnershipTransferred {
    pub old_owner: AccountId,
    pub new_owner: AccountId,
    pub timestamp: i64,
}

/// Record of a topic having been opened or closed for new quizzes.
#[derive(Clone, Copy, PartialEq, Eq, Structural, Debug)]
pub struct TopicStatusToggled {
    pub is_active: bool,
    pub timestamp: i64,
}

/// Creates a topic owned by `owner`, active, with the default policy
/// minimums. Rejects an empty name and a name over [`MAX_NAME_LEN`]
/// characters; nothing else is validated.
pub fn create_topic(owner: AccountId, name: String, now: i64) -> (r: Result<
    (Topic, TopicCreated),
    QuizError,
>)
    ensures
        (1 <= name@.len() <= MAX_NAME_LEN) <==> r is Ok,
        name@.len() == 0 ==> (r matches Err(e) && e == QuizError::EmptyName),
        name@.len() > MAX_NAME_LEN ==> (r matches Err(e) && e == QuizError::NameTooLong),
        r matches Ok(p) ==> p.0 == (Topic {
            owner,
            name,
            created_at: now,
            total_quizzes: 0,
            total_participants: 0,
            is_active: true,
            min_reward_amount: DEFAULT_MIN_REWARD_AMOUNT,
            min_question_count: DEFAULT_MIN_QUESTION_COUNT,
        }) && p.1 == (TopicCreated { owner, name, timestamp: now }) && p.0.wf(),
{
    let len = name.as_str().unicode_len();
    if len == 0 {
        return Err(QuizError::EmptyName);
    }
    if len > MAX_NAME_LEN {
        return Err(QuizError::NameTooLong);
    }
    let event = TopicCreated { owner, name: name.clone(), timestamp: now };
    let topic = Topic {
        owner,
        name,
        created_at: now,
        total_quizzes: 0,
        total_participants: 0,
        is_active: true,
        min_reward_amount: DEFAULT_MIN_REWARD_AMOUNT,
        min_question_count: DEFAULT_MIN_QUESTION_COUNT,
    };
    Ok((topic, event))
}

/// Moves ownership of the topic to `new_owner`. Only the current owner may
/// do so; any other caller is rejected and the topic is left unchanged.
pub fn transfer_topic_ownership(
    topic: &mut Topic,
    caller: AccountId,
    new_owner: AccountId,
    now: i64,
) -> (r: Result<TopicOwnershipTransferred, QuizError>)
    ensures
        r is Ok <==> caller == old(topic).owner,
        r matches Err(e) ==> e == QuizError::NotTopicOwner && *final(topic) == *old(topic),
        r matches Ok(ev) ==> *final(topic) == (Topic { owner: new_owner, ..*old(topic) }) && ev
            == (TopicOwnershipTransferred {
            old_owner: old(topic).owner,
            new_owner,
            timestamp: now,
        }),
{
    if !(caller == topic.owner) {
        return Err(QuizError::NotTopicOwner);
    }
    let old_owner = topic.owner;
    topic.owner = new_owner;
    Ok(TopicOwnershipTransferred { old_owner, new_owner, timestamp: now })
}

/// Opens or closes the topic for new quizzes. Only the owner may do so.
pub fn toggle_topic_status(topic: &mut Topic, caller: AccountId, is_active: bool, now: i64) -> (r:
    Result<TopicStatusToggled, QuizError>)
    ensures
        r is Ok <==> caller == old(topic).owner,
        r matches Err(e) ==> e == QuizError::NotTopicOwner && *final(topic) == *old(topic),
        r matches Ok(ev) ==> *final(topic) == (Topic { is_active, ..*old(topic) }) && ev
            == (TopicStatusToggled { is_active, timestamp: now }),
{
    if !(caller == topic.owner) {
        return Err(QuizError::NotTopicOwner);
    }
    topic.is_active = is_active;
    Ok(TopicStatusToggled { is_active, timestamp: now })
}

} // verus!
