//! Quizzes: creation under topic policy, question blocks, and the manual
//! winner overrides.
//!
//! A quiz fixes its question count and reward at creation, collects one
//! confidentially encoded question block per index until the final index is
//! added (at which point it becomes initialized, permanently), and then
//! accepts answer verdicts through the settlement path until a winner is
//! determined exactly once.

use vstd::prelude::*;
use vstd::string::StrSliceExecFns;

use crate::account::AccountId;
use crate::errors::QuizError;
use crate::topic::{Topic, MAX_NAME_LEN};
use crate::vault::{vault_in_sync, RewardVault};

verus! {

/// Largest accepted question count of a quiz.
pub const MAX_QUESTION_COUNT: u8 = 50;

/// Length, in bytes, of one confidentially encoded payload block.
pub const BLOCK_LEN: usize = 64;

/// Length, in bytes, of an evaluator public key.
pub const EVALUATOR_KEY_LEN: usize = 32;

/// How many entries of a boolean sequence are true.
pub open spec fn count_true(s: Seq<bool>) -> int
    decreases s.len(),
{
    if s.len() == 0 {
        0
    } else {
        count_true(s.drop_last()) + if s.last() {
            1int
        } else {
            0int
        }
    }
}

/// `count_true` never exceeds the length of the sequence.
pub proof fn lemma_count_true_bounds(s: Seq<bool>)
    ensures
        0 <= count_true(s) <= s.len(),
    decreases s.len(),
{
    if s.len() > 0 {
        lemma_count_true_bounds(s.drop_last());
    }
}

/// Setting a false entry to true raises `count_true` by exactly one.
pub proof fn lemma_count_true_update_true(s: Seq<bool>, i: int)
    requires
        0 <= i < s.len(),
        !s[i],
    ensures
        count_true(s.update(i, true)) == count_true(s) + 1,
    decreases s.len(),
{
    let t = s.update(i, true);
    if i == s.len() - 1 {
        assert(t.drop_last() =~= s.drop_last());
    } else {
        assert(t.drop_last() =~= s.drop_last().update(i, true));
        lemma_count_true_update_true(s.drop_last(), i);
    }
}

/// On a constant sequence, `count_true` is everything or nothing.
pub proof fn lemma_count_true_uniform(s: Seq<bool>, b: bool)
    requires
        forall|j: int| 0 <= j < s.len() ==> s[j] == b,
    ensures
        count_true(s) == if b {
            s.len() as int
        } else {
            0int
        },
    decreases s.len(),
{
    if s.len() > 0 {
        lemma_count_true_uniform(s.drop_last(), b);
    }
}

/// The abstract state of a quiz, over which the contracts and the state
/// machine's transition functions are stated.
pub struct QuizView {
    pub authority: AccountId,
    pub topic: Option<AccountId>,
    pub name: Seq<char>,
    pub question_count: u8,
    pub created_at: i64,
    pub is_initialized: bool,
    pub reward_amount: u64,
    pub is_reward_claimed: bool,
    pub winner: Option<AccountId>,
    pub correct_answers_count: u8,
    pub unique_id: u8,
    pub credited: Seq<bool>,
}

impl QuizView {
    /// The invariants of a quiz.
    ///
    /// `credited[i]` records whether question `i + 1` has already been
    /// credited; `correct_answers_count` is exactly the number of credited
    /// questions, so it can never exceed `question_count`. A winner exists
    /// only once every question is credited, on an initialized quiz, and the
    /// reward can only have been claimed once a winner exists.
    pub open spec fn wf(self) -> bool {
        &&& 1 <= self.name.len() <= MAX_NAME_LEN
        &&& 1 <= self.question_count <= MAX_QUESTION_COUNT
        &&& self.reward_amount > 0
        &&& self.credited.len() == self.question_count
        &&& self.correct_answers_count == count_true(self.credited)
        &&& (self.winner is Some ==> self.correct_answers_count == self.question_count
            && self.is_initialized)
        &&& (self.is_reward_claimed ==> self.winner is Some)
    }
}

/// The four phases a quiz moves through, in order; `Settled` is terminal.
#[derive(Clone, Copy, PartialEq, Eq, Structural, Debug)]
pub enum QuizPhase {
    /// Accepting question blocks.
    Open,
    /// Initialized; accepting answers.
    Active,
    /// Winner determined; reward unclaimed.
    Completed,
    /// Reward claimed.
    Settled,
}

/// Which phase a quiz state is in.
pub open spec fn phase_of(q: QuizView) -> QuizPhase {
    if !q.is_initialized {
        QuizPhase::Open
    } else if q.winner is None {
        QuizPhase::Active
    } else if !q.is_reward_claimed {
        QuizPhase::Completed
    } else {
        QuizPhase::Settled
    }
}

/// A quiz: the sole authority mutated by the settlement path.
#[derive(Debug)]
pub struct QuizSet {
    pub authority: AccountId,
    pub topic: Option<AccountId>,
    pub name: String,
    pub question_count: u8,
    pub created_at: i64,
    pub is_initialized: bool,
    pub reward_amount: u64,
    pub is_reward_claimed: bool,
    pub winner: Option<AccountId>,
    pub correct_answers_count: u8,
    pub unique_id: u8,
    pub credited: Vec<bool>,
}

impl View for QuizSet {
    type V = QuizView;

    open spec fn view(&self) -> QuizView {
        QuizView {
            authority: self.authority,
            topic: self.topic,
            name: self.name@,
            question_count: self.question_count,
            created_at: self.created_at,
            is_initialized: self.is_initialized,
            reward_amount: self.reward_amount,
            is_reward_claimed: self.is_reward_claimed,
            winner: self.winner,
            correct_answers_count: self.correct_answers_count,
            unique_id: self.unique_id,
            credited: self.credited@,
        }
    }
}

impl QuizSet {
    /// Which phase the quiz is in.
    pub fn phase(&self) -> (p: QuizPhase)
        ensures
            p == phase_of(self@),
    {
        if !self.is_initialized {
            QuizPhase::Open
        } else if self.winner.is_none() {
            QuizPhase::Active
        } else if !self.is_reward_claimed {
            QuizPhase::Completed
        } else {
            QuizPhase::Settled
        }
    }
}

/// One confidentially encoded question of a quiz. Immutable after creation.
#[derive(Debug)]
pub struct QuestionBlock {
    pub quiz_set: AccountId,
    pub question_index: u32,
    pub encrypted_x_coordinate: Vec<u8>,
    pub encrypted_y_coordinate: Vec<u8>,
    pub evaluator_pubkey: Vec<u8>,
    pub nonce: u128,
    pub created_at: i64,
}

impl QuestionBlock {
    /// Both payloads fill one block; the key has its fixed width; indices
    /// are one-based.
    pub open spec fn wf(&self) -> bool {
        &&& self.encrypted_x_coordinate@.len() == BLOCK_LEN
        &&& self.encrypted_y_coordinate@.len() == BLOCK_LEN
        &&& self.evaluator_pubkey@.len() == EVALUATOR_KEY_LEN
        &&& 1 <= self.question_index
    }
}

/// The question blocks of one quiz, each index held at most once.
#[derive(Debug)]
pub struct QuestionBlockStore {
    pub quiz_set: AccountId,
    pub blocks: Vec<QuestionBlock>,
}

impl QuestionBlockStore {
    /// Every block is well formed, belongs to this store's quiz, and no
    /// index occurs twice.
    pub open spec fn wf(&self) -> bool {
        &&& forall|i: int|
            0 <= i < self.blocks@.len() ==> (#[trigger] self.blocks@[i]).wf()
                && self.blocks@[i].quiz_set == self.quiz_set
        &&& forall|i: int, j: int|
            0 <= i < j < self.blocks@.len() ==> (#[trigger] self.blocks@[i]).question_index != (
            #[trigger] self.blocks@[j]).question_index
    }

    /// Whether a block with this index is already held.
    pub open spec fn has_index(&self, question_index: u32) -> bool {
        exists|i: int|
            0 <= i < self.blocks@.len() && (#[trigger] self.blocks@[i]).question_index
                == question_index
    }

    /// An empty store for the quiz stored under `quiz_key`.
    pub fn new(quiz_key: AccountId) -> (s: Self)
        ensures
            s.quiz_set == quiz_key,
            s.blocks@.len() == 0,
            s.wf(),
    {
        QuestionBlockStore { quiz_set: quiz_key, blocks: Vec::new() }
    }

    /// The block with the given index, if the store holds one.
    pub fn get(&self, question_index: u32) -> (r: Option<&QuestionBlock>)
        ensures
            r is Some <==> self.has_index(question_index),
            r matches Some(b) ==> b.question_index == question_index && exists|i: int|
                0 <= i < self.blocks@.len() && self.blocks@[i] == *b,
    {
        let n = self.blocks.len();
        let mut i: usize = 0;
        while i < n
            invariant
                n == self.blocks@.len(),
                i <= n,
                forall|j: int|
                    0 <= j < i ==> (#[trigger] self.blocks@[j]).question_index != question_index,
            decreases n - i,
        {
            if self.blocks[i].question_index == question_index {
                return Some(&self.blocks[i]);
            }
            i += 1;
        }
        None
    }
}

/// Record of a quiz having been created.
#[derive(Debug)]
pub struct QuizSetCreated {
    pub topic: Option<AccountId>,
    pub authority: AccountId,
    pub name: String,
    pub question_count: u8,
    pub reward_amount: u64,
    pub timestamp: i64,
}

/// Record of a question block having been added.
#[derive(Clone, Copy, PartialEq, Eq, Structural, Debug)]
pub struct QuestionBlockAdded {
    pub question_index: u32,
    pub timestamp: i64,
}

/// Record of a quiz having been completed: the winner and the reward that
/// now awaits the winner's claim.
#[derive(Clone, Copy, PartialEq, Eq, Structural, Debug)]
pub struct QuizCompleted {
    pub winner: AccountId,
    pub reward_amount: u64,
    pub timestamp: i64,
}

/// The first rejection `create_quiz_set` raises for these arguments, if any.
pub open spec fn create_quiz_error(
    topic: Option<&Topic>,
    authority: AccountId,
    name: Seq<char>,
    question_count: u8,
    reward_amount: u64,
) -> Option<QuizError> {
    if name.len() == 0 {
        Some(QuizError::EmptyName)
    } else if name.len() > MAX_NAME_LEN {
        Some(QuizError::NameTooLong)
    } else if question_count == 0 || question_count > MAX_QUESTION_COUNT {
        Some(QuizError::InvalidQuestionCount)
    } else if reward_amount == 0 {
        Some(QuizError::InvalidRewardAmount)
    } else if topic matches Some(t) && !t.is_active {
        Some(QuizError::TopicNotActive)
    } else if topic matches Some(t) && t.owner != authority {
        Some(QuizError::NotTopicOwner)
    } else if topic matches Some(t) && question_count < t.min_question_count {
        Some(QuizError::InsufficientQuestions)
    } else if topic matches Some(t) && reward_amount < t.min_reward_amount {
        Some(QuizError::InsufficientReward)
    } else {
        None
    }
}

/// Creates a quiz under an optional topic policy. The question count and the
/// reward are validated against fixed absolute bounds and, when a topic is
/// given, against its policy minimums; `topic_key` is the ledger address of
/// that topic. The returned quiz is open (not yet initialized), with no
/// progress, no winner, and its reward unclaimed; the returned vault is
/// funded with the full reward, so the vault's balance invariant holds from
/// the quiz's first moment.
pub fn create_quiz_set(
    authority: AccountId,
    topic: Option<&Topic>,
    topic_key: Option<AccountId>,
    name: String,
    question_count: u8,
    unique_id: u8,
    reward_amount: u64,
    now: i64,
) -> (r: Result<(QuizSet, RewardVault, QuizSetCreated), QuizError>)
    requires
        topic is Some <==> topic_key is Some,
    ensures
        r is Ok <==> create_quiz_error(topic, authority, name@, question_count, reward_amount)
            is None,
        r matches Err(e) ==> Some(e) == create_quiz_error(
            topic,
            authority,
            name@,
            question_count,
            reward_amount,
        ),
        r matches Ok(out) ==> out.0@ == (QuizView {
            authority,
            topic: topic_key,
            name: name@,
            question_count,
            created_at: now,
            is_initialized: false,
            reward_amount,
            is_reward_claimed: false,
            winner: None,
            correct_answers_count: 0,
            unique_id,
            credited: Seq::new(question_count as nat, |i: int| false),
        }) && out.0@.wf() && out.1.balance == reward_amount && vault_in_sync(out.0@, out.1)
            && out.2 == (QuizSetCreated {
            topic: topic_key,
            authority,
            name,
            question_count,
            reward_amount,
            timestamp: now,
        }),
{
    let len = name.as_str().unicode_len();
    if len == 0 {
        return Err(QuizError::EmptyName);
    }
    if len > MAX_NAME_LEN {
        return Err(QuizError::NameTooLong);
    }
    if question_count == 0 || question_count > MAX_QUESTION_COUNT {
        return Err(QuizError::InvalidQuestionCount);
    }
    if reward_amount == 0 {
        return Err(QuizError::InvalidRewardAmount);
    }
    match topic {
        Some(t) => {
            if !t.is_active {
                return Err(QuizError::TopicNotActive);
            }
            if !(t.owner == authority) {
                return Err(QuizError::NotTopicOwner);
            }
            if question_count < t.min_question_count {
                return Err(QuizError::InsufficientQuestions);
            }
            if reward_amount < t.min_reward_amount {
                return Err(QuizError::InsufficientReward);
            }
        },
        None => {},
    }
    let mut credited: Vec<bool> = Vec::new();
    let mut i: usize = 0;
    while i < question_count as usize
        invariant
            i <= question_count as usize,
            credited@.len() == i,
            forall|j: int| 0 <= j < i ==> !(#[trigger] credited@[j]),
        decreases question_count as usize - i,
    {
        credited.push(false);
        i += 1;
    }
    proof {
        assert(credited@ =~= Seq::new(question_count as nat, |i: int| false));
        lemma_count_true_uniform(credited@, false);
    }
    let event = QuizSetCreated {
        topic: topic_key,
        authority,
        name: name.clone(),
        question_count,
        reward_amount,
        timestamp: now,
    };
    let quiz = QuizSet {
        authority,
        topic: topic_key,
        name,
        question_count,
        created_at: now,
        is_initialized: false,
        reward_amount,
        is_reward_claimed: false,
        winner: None,
        correct_answers_count: 0,
        unique_id,
        credited,
    };
    Ok((quiz, RewardVault::fund(reward_amount), event))
}

/// The first rejection `add_encrypted_question_block` raises, if any.
pub open spec fn add_question_error(
    q: QuizView,
    store: QuestionBlockStore,
    authority: AccountId,
    question_index: u8,
) -> Option<QuizError> {
    if q.authority != authority {
        Some(QuizError::Unauthorized)
    } else if question_index == 0 || question_index > q.question_count {
        Some(QuizError::InvalidQuestionIndex)
    } else if q.is_initialized {
        Some(QuizError::QuizSetAlreadyInitialized)
    } else if store.has_index(question_index as u32) {
        Some(QuizError::InvalidQuestionIndex)
    } else {
        None
    }
}

/// Adds one question block to an open quiz. Only the quiz's authority may
/// add blocks, only at indices within the quiz, only while the quiz is not
/// yet initialized, and only once per index. Adding the block whose index
/// equals `question_count` initializes the quiz, permanently.
#[verifier::loop_isolation(false)]
pub fn add_encrypted_question_block(
    quiz: &mut QuizSet,
    quiz_key: AccountId,
    store: &mut QuestionBlockStore,
    authority: AccountId,
    question_index: u8,
    encrypted_x_coordinate: Vec<u8>,
    encrypted_y_coordinate: Vec<u8>,
    evaluator_pubkey: Vec<u8>,
    nonce: u128,
    now: i64,
) -> (r: Result<QuestionBlockAdded, QuizError>)
    requires
        old(quiz)@.wf(),
        old(store).wf(),
        old(store).quiz_set == quiz_key,
        encrypted_x_coordinate@.len() == BLOCK_LEN,
        encrypted_y_coordinate@.len() == BLOCK_LEN,
        evaluator_pubkey@.len() == EVALUATOR_KEY_LEN,
    ensures
        r is Ok <==> add_question_error(old(quiz)@, *old(store), authority, question_index)
            is None,
        r matches Err(e) ==> Some(e) == add_question_error(
            old(quiz)@,
            *old(store),
            authority,
            question_index,
        ) && *final(quiz) == *old(quiz) && *final(store) == *old(store),
        r matches Ok(ev) ==> final(quiz)@ == (QuizView {
            is_initialized: question_index == old(quiz)@.question_count,
            ..old(quiz)@
        }) && final(quiz)@.wf() && final(store).quiz_set == quiz_key && final(store).wf()
            && final(store).blocks@ == old(store).blocks@.push(
            (QuestionBlock {
                quiz_set: quiz_key,
                question_index: question_index as u32,
                encrypted_x_coordinate,
                encrypted_y_coordinate,
                evaluator_pubkey,
                nonce,
                created_at: now,
            }),
        ) && ev == (QuestionBlockAdded { question_index: question_index as u32, timestamp: now }),
{
    if !(quiz.authority == authority) {
        return Err(QuizError::Unauthorized);
    }
    if question_index == 0 || question_index > quiz.question_count {
        return Err(QuizError::InvalidQuestionIndex);
    }
    if quiz.is_initialized {
        return Err(QuizError::QuizSetAlreadyInitialized);
    }
    let n = store.blocks.len();
    let mut i: usize = 0;
    while i < n
        invariant
            n == store.blocks@.len(),
            i <= n,
            forall|j: int|
                0 <= j < i ==> (#[trigger] store.blocks@[j]).question_index
                    != question_index as u32,
        decreases n - i,
    {
        if store.blocks[i].question_index == question_index as u32 {
            proof {
                assert((store.blocks@[i as int]).question_index == question_index as u32);
            }
            return Err(QuizError::InvalidQuestionIndex);
        }
        i += 1;
    }
    let block = QuestionBlock {
        quiz_set: quiz_key,
        question_index: question_index as u32,
        encrypted_x_coordinate,
        encrypted_y_coordinate,
        evaluator_pubkey,
        nonce,
        created_at: now,
    };
    store.blocks.push(block);
    if question_index == quiz.question_count {
        quiz.is_initialized = true;
    }
    Ok(QuestionBlockAdded { question_index: question_index as u32, timestamp: now })
}

/// The first rejection `set_winner_for_user` raises, if any.
pub open spec fn set_winner_error(q: QuizView, correct_answers_count: u8) -> Option<QuizError> {
    if !q.is_initialized {
        Some(QuizError::QuizNotInitialized)
    } else if q.winner is Some {
        Some(QuizError::WinnerAlreadySet)
    } else if correct_answers_count != q.question_count {
        Some(QuizError::InvalidAnswerCount)
    } else {
        None
    }
}

/// The quiz state after a winner has been recorded directly: every question
/// credited and `winner` set.
pub open spec fn set_winner_step(q: QuizView, winner: AccountId) -> QuizView {
    QuizView {
        winner: Some(winner),
        correct_answers_count: q.question_count,
        credited: Seq::new(q.question_count as nat, |i: int| true),
        is_reward_claimed: false,
        ..q
    }
}

/// Records `winner_pubkey` as the winner directly, bypassing the evaluator.
/// This operator path still respects the quiz's invariants: the quiz must be
/// initialized, the winner must not have been set before (rejected as
/// `WinnerAlreadySet` otherwise), and the reported count must equal the full
/// question count. On success every question is credited and the completion
/// is announced.
pub fn set_winner_for_user(
    quiz: &mut QuizSet,
    winner_pubkey: AccountId,
    correct_answers_count: u8,
    now: i64,
) -> (r: Result<QuizCompleted, QuizError>)
    requires
        old(quiz)@.wf(),
    ensures
        r is Ok <==> set_winner_error(old(quiz)@, correct_answers_count) is None,
        r matches Err(e) ==> Some(e) == set_winner_error(old(quiz)@, correct_answers_count)
            && *final(quiz) == *old(quiz),
        r matches Ok(ev) ==> final(quiz)@ == set_winner_step(old(quiz)@, winner_pubkey)
            && final(quiz)@.wf() && ev == (QuizCompleted {
            winner: winner_pubkey,
            reward_amount: old(quiz)@.reward_amount,
            timestamp: now,
        }),
{
    if !quiz.is_initialized {
        return Err(QuizError::QuizNotInitialized);
    }
    if quiz.winner.is_some() {
        return Err(QuizError::WinnerAlreadySet);
    }
    if correct_answers_count != quiz.question_count {
        return Err(QuizError::InvalidAnswerCount);
    }
    let mut credited: Vec<bool> = Vec::new();
    let mut i: usize = 0;
    while i < quiz.question_count as usize
        invariant
            i <= quiz.question_count as usize,
            credited@.len() == i,
            forall|j: int| 0 <= j < i ==> #[trigger] credited@[j],
        decreases quiz.question_count as usize - i,
    {
        credited.push(true);
        i += 1;
    }
    proof {
        assert(credited@ =~= Seq::new(quiz.question_count as nat, |i: int| true));
        lemma_count_true_uniform(credited@, true);
    }
    quiz.winner = Some(winner_pubkey);
    quiz.correct_answers_count = quiz.question_count;
    quiz.credited = credited;
    quiz.is_reward_claimed = false;
    Ok(QuizCompleted { winner: winner_pubkey, reward_amount: quiz.reward_amount, timestamp: now })
}

/// The first rejection `set_winner_for_devnet` raises, if any.
pub open spec fn set_winner_devnet_error(
    q: QuizView,
    caller: AccountId,
    user_answers: Seq<String>,
    correct_answers: Seq<String>,
) -> Option<QuizError> {
    if q.authority != caller {
        Some(QuizError::Unauthorized)
    } else if !q.is_initialized {
        Some(QuizError::QuizNotInitialized)
    } else if q.winner is Some {
        Some(QuizError::WinnerAlreadySet)
    } else if user_answers.len() != correct_answers.len() || user_answers.len()
        != q.question_count {
        Some(QuizError::InvalidAnswerCount)
    } else {
        None
    }
}

/// Records the quiz's own authority as the winner, bypassing the evaluator:
/// an authority-gated escape hatch for networks without an evaluator
/// cluster. The submitted answer lists must pair up and cover every
/// question; the set-once winner invariant still holds, so a quiz whose
/// winner exists is rejected with `WinnerAlreadySet` rather than
/// overwritten.
pub fn set_winner_for_devnet(
    quiz: &mut QuizSet,
    caller: AccountId,
    user_answers: &Vec<String>,
    correct_answers: &Vec<String>,
) -> (r: Result<(), QuizError>)
    requires
        old(quiz)@.wf(),
    ensures
        r is Ok <==> set_winner_devnet_error(old(quiz)@, caller, user_answers@, correct_answers@)
            is None,
        r matches Err(e) ==> Some(e) == set_winner_devnet_error(
            old(quiz)@,
            caller,
            user_answers@,
            correct_answers@,
        ) && *final(quiz) == *old(quiz),
        r is Ok ==> final(quiz)@ == set_winner_step(old(quiz)@, caller) && final(quiz)@.wf(),
{
    if !(quiz.authority == caller) {
        return Err(QuizError::Unauthorized);
    }
    if !quiz.is_initialized {
        return Err(QuizError::QuizNotInitialized);
    }
    if quiz.winner.is_some() {
        return Err(QuizError::WinnerAlreadySet);
    }
    if user_answers.len() != correct_answers.len() || user_answers.len()
        != quiz.question_count as usize {
        return Err(QuizError::InvalidAnswerCount);
    }
    let mut credited: Vec<bool> = Vec::new();
    let mut i: usize = 0;
    while i < quiz.question_count as usize
        invariant
            i <= quiz.question_count as usize,
            credited@.len() == i,
            forall|j: int| 0 <= j < i ==> #[trigger] credited@[j],
        decreases quiz.question_count as usize - i,
    {
        credited.push(true);
        i += 1;
    }
    proof {
        assert(credited@ =~= Seq::new(quiz.question_count as nat, |i: int| true));
        lemma_count_true_uniform(credited@, true);
    }
    quiz.winner = Some(caller);
    quiz.correct_answers_count = quiz.question_count;
    quiz.credited = credited;
    quiz.is_reward_claimed = false;
    Ok(())
}

} // verus!
