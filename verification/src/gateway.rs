//! The computation gateway: queues confidential requests for the external
//! evaluator and correlates each eventual callback with the state it may
//! touch.
//!
//! A queued request is held as a pending computation, keyed by an opaque
//! request identifier, between queue time and callback delivery. Queueing is
//! idempotent: a retried request with identical logical content (nonce,
//! payload and correlation context) maps to the computation identity it
//! already holds rather than double-queueing.

use vstd::prelude::*;

use crate::account::AccountId;
use crate::errors::{ErrorCode, QuizError};
use crate::quiz::{QuestionBlock, QuizSet, BLOCK_LEN};

verus! {

/// What a callback is permitted to touch: the quiz, the question within it,
/// and the account that requested the evaluation.
#[derive(Clone, Copy, PartialEq, Eq, Structural, Debug)]
pub struct CorrelationContext {
    pub quiz_set: AccountId,
    pub question_index: u8,
    pub requester: AccountId,
}

/// What the evaluator eventually delivers for a request: exactly one of a
/// success carrying a value, or a failure.
#[derive(Debug)]
pub enum ComputationOutputs<T> {
    Success(T),
    Failure,
}

/// A request that has been queued and whose callback has not yet arrived.
/// Between those two moments this record is the only live state of the
/// computation.
#[derive(Debug)]
pub struct PendingComputation {
    pub request_id: u64,
    pub nonce: u128,
    pub payload: Vec<u8>,
    pub context: CorrelationContext,
}

/// Whether a pending computation has exactly this logical content.
pub open spec fn matches_request(
    p: PendingComputation,
    nonce: u128,
    payload: Seq<u8>,
    context: CorrelationContext,
) -> bool {
    p.nonce == nonce && p.payload@ == payload && p.context == context
}

/// A payload is either one encoded block or two (an answer block followed
/// by a correct-answer block).
pub open spec fn valid_payload_len(n: int) -> bool {
    n == BLOCK_LEN || n == 2 * BLOCK_LEN
}

/// The pending-request table, plus the counter from which fresh computation
/// identities are reserved.
#[derive(Debug)]
pub struct ComputationGateway {
    pub pending: Vec<PendingComputation>,
    pub next_request_id: u64,
}

impl ComputationGateway {
    /// Every pending identity was reserved below the counter, no identity
    /// occurs twice, and no logical content occurs twice.
    pub open spec fn wf(&self) -> bool {
        &&& forall|i: int|
            0 <= i < self.pending@.len() ==> (#[trigger] self.pending@[i]).request_id
                < self.next_request_id
        &&& forall|i: int, j: int|
            0 <= i < j < self.pending@.len() ==> (#[trigger] self.pending@[i]).request_id != (
            #[trigger] self.pending@[j]).request_id
        &&& forall|i: int, j: int|
            0 <= i < j < self.pending@.len() ==> !((#[trigger] self.pending@[i]).nonce == (
            #[trigger] self.pending@[j]).nonce && self.pending@[i].payload@
                == self.pending@[j].payload@ && self.pending@[i].context
                == self.pending@[j].context)
    }

    /// Whether some pending computation has this logical content.
    pub open spec fn has_pending(
        &self,
        nonce: u128,
        payload: Seq<u8>,
        context: CorrelationContext,
    ) -> bool {
        exists|i: int|
            0 <= i < self.pending@.len() && matches_request(
                #[trigger] self.pending@[i],
                nonce,
                payload,
                context,
            )
    }

    /// Whether some pending computation holds this identity.
    pub open spec fn has_request_id(&self, request_id: u64) -> bool {
        exists|i: int|
            0 <= i < self.pending@.len() && (#[trigger] self.pending@[i]).request_id == request_id
    }

    /// The correlation context of the pending computation holding this
    /// identity. Meaningful only while `has_request_id` holds; the
    /// identity's uniqueness makes it unambiguous.
    pub open spec fn pending_context(&self, request_id: u64) -> CorrelationContext {
        self.pending@[choose|i: int|
            0 <= i < self.pending@.len() && (#[trigger] self.pending@[i]).request_id
                == request_id].context
    }

    /// The pending computation with this identity, if any, left in place.
    #[verifier::loop_isolation(false)]
    pub fn find(&self, request_id: u64) -> (r: Option<&PendingComputation>)
        ensures
            r is Some <==> self.has_request_id(request_id),
            r matches Some(p) ==> p.request_id == request_id && exists|i: int|
                0 <= i < self.pending@.len() && (#[trigger] self.pending@[i]).request_id
                    == request_id && self.pending@[i] == *p,
    {
        let n = self.pending.len();
        let mut i: usize = 0;
        while i < n
            invariant
                i <= n,
                forall|j: int|
                    0 <= j < i ==> (#[trigger] self.pending@[j]).request_id != request_id,
            decreases n - i,
        {
            if self.pending[i].request_id == request_id {
                return Some(&self.pending[i]);
            }
            i += 1;
        }
        None
    }

    /// An empty gateway.
    pub fn new() -> (g: Self)
        ensures
            g.pending@.len() == 0,
            g.next_request_id == 0,
            g.wf(),
    {
        ComputationGateway { pending: Vec::new(), next_request_id: 0 }
    }

    /// How many computations are pending.
    pub fn pending_count(&self) -> (n: usize)
        ensures
            n == self.pending@.len(),
    {
        self.pending.len()
    }

    /// Queues a request for the evaluator, reserving a computation identity
    /// for it. A payload of the wrong size is rejected as `InvalidArgument`
    /// with nothing queued. A request whose logical content is already
    /// pending is not queued again: its existing identity is returned and
    /// the gateway is unchanged.
    #[verifier::loop_isolation(false)]
    pub fn queue(&mut self, nonce: u128, payload: Vec<u8>, context: CorrelationContext) -> (r:
        Result<u64, ErrorCode>)
        requires
            old(self).wf(),
            old(self).next_request_id < u64::MAX,
        ensures
            final(self).wf(),
            r is Ok <==> valid_payload_len(payload@.len() as int),
            r matches Err(e) ==> e == ErrorCode::InvalidArgument && *final(self) == *old(self),
            r matches Ok(id) ==> queue_effect(*old(self), *final(self), id, nonce, payload@, context),
    {
        if !(payload.len() == BLOCK_LEN || payload.len() == 2 * BLOCK_LEN) {
            return Err(ErrorCode::InvalidArgument);
        }
        let n = self.pending.len();
        let mut i: usize = 0;
        while i < n
            invariant
                n == self.pending@.len(),
                i <= n,
                forall|j: int|
                    0 <= j < i ==> !matches_request(
                        #[trigger] self.pending@[j],
                        nonce,
                        payload@,
                        context,
                    ),
            decreases n - i,
        {
            if self.pending[i].nonce == nonce && self.pending[i].context == context && bytes_eq(
                &self.pending[i].payload,
                &payload,
            ) {
                return Ok(self.pending[i].request_id);
            }
            i += 1;
        }
        let id = self.next_request_id;
        self.next_request_id = id + 1;
        self.pending.push(PendingComputation { request_id: id, nonce, payload, context });
        proof {
            assert(self.pending@.subrange(0, old(self).pending@.len() as int) =~= old(
                self,
            ).pending@);
        }
        Ok(id)
    }

    /// Consumes the pending computation with this identity, if one exists.
    /// An unknown identity (never reserved, or already consumed) changes
    /// nothing, making consumption replay-safe.
    #[verifier::loop_isolation(false)]
    pub fn take(&mut self, request_id: u64) -> (r: Option<PendingComputation>)
        requires
            old(self).wf(),
        ensures
            final(self).wf(),
            r is Some <==> old(self).has_request_id(request_id),
            r is None ==> *final(self) == *old(self),
            r matches Some(p) ==> p.request_id == request_id && final(self).next_request_id
                == old(self).next_request_id && (exists|i: int|
                0 <= i < old(self).pending@.len() && old(self).pending@[i] == p
                    && final(self).pending@ == old(self).pending@.remove(i)),
    {
        let n = self.pending.len();
        let mut i: usize = 0;
        while i < n
            invariant
                *self == *old(self),
                n == self.pending@.len(),
                i <= n,
                forall|j: int|
                    0 <= j < i ==> (#[trigger] self.pending@[j]).request_id != request_id,
            decreases n - i,
        {
            if self.pending[i].request_id == request_id {
                let p = self.pending.remove(i);
                proof {
                    let s0 = old(self).pending@;
                    let k = i as int;
                    s0.remove_ensures(k);
                    assert forall|a: int, b: int|
                        0 <= a < b < self.pending@.len() implies (
                    #[trigger] self.pending@[a]).request_id != (
                    #[trigger] self.pending@[b]).request_id && !(self.pending@[a].nonce
                        == self.pending@[b].nonce && self.pending@[a].payload@
                        == self.pending@[b].payload@ && self.pending@[a].context
                        == self.pending@[b].context) by {
                        let a0 = if a < k {
                            a
                        } else {
                            a + 1
                        };
                        let b0 = if b < k {
                            b
                        } else {
                            b + 1
                        };
                        assert(self.pending@[a] == s0[a0]);
                        assert(self.pending@[b] == s0[b0]);
                    }
                }
                return Some(p);
            }
            i += 1;
        }
        None
    }
}

/// How a successful queue call relates the gateway's state after the call
/// to its state before: either the content was already pending and `id` is
/// its identity with nothing changed, or the request was appended under the
/// freshly reserved identity.
pub open spec fn queue_effect(
    pre: ComputationGateway,
    post: ComputationGateway,
    id: u64,
    nonce: u128,
    payload: Seq<u8>,
    context: CorrelationContext,
) -> bool {
    if pre.has_pending(nonce, payload, context) {
        &&& post == pre
        &&& exists|i: int|
            0 <= i < pre.pending@.len() && matches_request(
                #[trigger] pre.pending@[i],
                nonce,
                payload,
                context,
            ) && pre.pending@[i].request_id == id
    } else {
        &&& id == pre.next_request_id
        &&& post.next_request_id == pre.next_request_id + 1
        &&& post.pending@.len() == pre.pending@.len() + 1
        &&& post.pending@.subrange(0, pre.pending@.len() as int) == pre.pending@
        &&& post.pending@.last().request_id == id
        &&& matches_request(post.pending@.last(), nonce, payload, context)
    }
}

/// The first `n` bytes of `s`, or all of `s` if it is shorter.
pub open spec fn clip(s: Seq<u8>, n: int) -> Seq<u8> {
    if s.len() <= n {
        s
    } else {
        s.take(n)
    }
}

/// `s` extended with zero bytes to length `n`.
pub open spec fn zero_pad(s: Seq<u8>, n: int) -> Seq<u8>
    recommends
        s.len() <= n,
{
    s + Seq::new((n - s.len()) as nat, |i: int| 0u8)
}

/// One answer option appended to a partially packed block: the option is
/// clipped to eight bytes and appended only while the block stays strictly
/// under its full length.
pub open spec fn pack_option(acc: Seq<u8>, option: Seq<u8>) -> Seq<u8> {
    let o = clip(option, 8);
    if acc.len() + o.len() < BLOCK_LEN {
        acc + o
    } else {
        acc
    }
}

/// A question and its four answer options combined into a single encoded
/// block: up to 32 bytes of question text, then each option in turn, zero
/// padded to the block length.
pub open spec fn packed_question_data(
    q: Seq<u8>,
    o1: Seq<u8>,
    o2: Seq<u8>,
    o3: Seq<u8>,
    o4: Seq<u8>,
) -> Seq<u8> {
    zero_pad(pack_option(pack_option(pack_option(pack_option(clip(q, 32), o1), o2), o3), o4), 64)
}

/// The payload of an answer-validation request: the user's answer clipped
/// and zero padded to one block, followed by the encoded correct answer.
pub open spec fn validate_request_payload(user: Seq<u8>, correct: Seq<u8>) -> Seq<u8> {
    zero_pad(clip(user, BLOCK_LEN as int), BLOCK_LEN as int) + correct
}

/// Appends at most `limit` leading bytes of `data` to `out`.
#[verifier::loop_isolation(false)]
fn push_prefix(out: &mut Vec<u8>, data: &Vec<u8>, limit: usize)
    ensures
        final(out)@ == old(out)@ + clip(data@, limit as int),
{
    let m = if data.len() <= limit {
        data.len()
    } else {
        limit
    };
    let mut i: usize = 0;
    while i < m
        invariant
            i <= m,
            out@ == old(out)@ + data@.take(i as int),
        decreases m - i,
    {
        out.push(data[i]);
        proof {
            assert(out@ =~= old(out)@ + data@.take(i + 1));
        }
        i += 1;
    }
    proof {
        assert(data@.take(m as int) =~= clip(data@, limit as int));
    }
}

/// Appends zero bytes to `out` until it is `n` bytes long.
#[verifier::loop_isolation(false)]
fn pad_to(out: &mut Vec<u8>, n: usize)
    requires
        old(out)@.len() <= n,
    ensures
        final(out)@ == zero_pad(old(out)@, n as int),
        final(out)@.len() == n,
{
    while out.len() < n
        invariant
            old(out)@.len() <= out@.len() <= n,
            out@.take(old(out)@.len() as int) == old(out)@,
            forall|j: int| old(out)@.len() <= j < out@.len() ==> out@[j] == 0,
        decreases n - out@.len(),
    {
        out.push(0);
        proof {
            assert(out@.take(old(out)@.len() as int) =~= old(out)@);
        }
    }
    proof {
        assert(out@ =~= zero_pad(old(out)@, n as int));
    }
}

/// Appends one answer option to a partially packed block, as
/// [`pack_option`] describes.
fn append_option(out: &mut Vec<u8>, option: &Vec<u8>)
    requires
        old(out)@.len() <= BLOCK_LEN,
    ensures
        final(out)@ == pack_option(old(out)@, option@),
        final(out)@.len() <= BLOCK_LEN,
{
    let o_len = if option.len() <= 8 {
        option.len()
    } else {
        8
    };
    if out.len() + o_len < BLOCK_LEN {
        push_prefix(out, option, 8);
    }
}

/// Combines a question and its four answer options into one encoded block,
/// exactly as [`packed_question_data`] describes.
pub fn pack_question_data(
    question_text: &Vec<u8>,
    option_a: &Vec<u8>,
    option_b: &Vec<u8>,
    option_c: &Vec<u8>,
    option_d: &Vec<u8>,
) -> (r: Vec<u8>)
    ensures
        r@ == packed_question_data(question_text@, option_a@, option_b@, option_c@, option_d@),
        r@.len() == BLOCK_LEN,
{
    let mut out: Vec<u8> = Vec::new();
    push_prefix(&mut out, question_text, 32);
    append_option(&mut out, option_a);
    append_option(&mut out, option_b);
    append_option(&mut out, option_c);
    append_option(&mut out, option_d);
    pad_to(&mut out, BLOCK_LEN);
    out
}

/// The user's answer bytes as one block: clipped and zero padded.
fn build_answer_block(user_answer: &Vec<u8>) -> (r: Vec<u8>)
    ensures
        r@ == zero_pad(clip(user_answer@, BLOCK_LEN as int), BLOCK_LEN as int),
        r@.len() == BLOCK_LEN,
{
    let mut out: Vec<u8> = Vec::new();
    push_prefix(&mut out, user_answer, BLOCK_LEN);
    pad_to(&mut out, BLOCK_LEN);
    out
}

/// Queues the encoding of a question and its options for the evaluator.
/// The packed block always has a valid size, so the request is always
/// accepted, idempotently.
pub fn encrypt_quiz_data(
    gateway: &mut ComputationGateway,
    question_text: &Vec<u8>,
    option_a: &Vec<u8>,
    option_b: &Vec<u8>,
    option_c: &Vec<u8>,
    option_d: &Vec<u8>,
    nonce: u128,
    context: CorrelationContext,
) -> (r: Result<u64, ErrorCode>)
    requires
        old(gateway).wf(),
        old(gateway).next_request_id < u64::MAX,
    ensures
        final(gateway).wf(),
        r is Ok,
        r matches Ok(id) ==> queue_effect(
            *old(gateway),
            *final(gateway),
            id,
            nonce,
            packed_question_data(question_text@, option_a@, option_b@, option_c@, option_d@),
            context,
        ),
{
    let payload = pack_question_data(question_text, option_a, option_b, option_c, option_d);
    gateway.queue(nonce, payload, context)
}

/// Queues the decoding of one encoded block for the evaluator. Anything but
/// a full block is rejected as `InvalidArgument` with nothing queued.
pub fn decrypt_quiz_data(
    gateway: &mut ComputationGateway,
    encrypted_data: Vec<u8>,
    nonce: u128,
    context: CorrelationContext,
) -> (r: Result<u64, ErrorCode>)
    requires
        old(gateway).wf(),
        old(gateway).next_request_id < u64::MAX,
    ensures
        final(gateway).wf(),
        r is Ok <==> encrypted_data@.len() == BLOCK_LEN,
        r matches Err(e) ==> e == ErrorCode::InvalidArgument && *final(gateway) == *old(gateway),
        r matches Ok(id) ==> queue_effect(
            *old(gateway),
            *final(gateway),
            id,
            nonce,
            encrypted_data@,
            context,
        ),
{
    if encrypted_data.len() != BLOCK_LEN {
        return Err(ErrorCode::InvalidArgument);
    }
    gateway.queue(nonce, encrypted_data, context)
}

/// Queues an answer of `payer` for confidential comparison against the
/// question block's encoded correct answer. The question index must lie
/// within the quiz; the correlation context fixes, at queue time, which
/// quiz and question the eventual callback may settle, and for whom.
pub fn validate_answer_onchain(
    gateway: &mut ComputationGateway,
    quiz: &QuizSet,
    quiz_key: AccountId,
    question_block: &QuestionBlock,
    user_answer: &Vec<u8>,
    question_index: u8,
    payer: AccountId,
) -> (r: Result<u64, QuizError>)
    requires
        old(gateway).wf(),
        old(gateway).next_request_id < u64::MAX,
        question_block.wf(),
    ensures
        final(gateway).wf(),
        r is Ok <==> 1 <= question_index <= quiz.question_count,
        r matches Err(e) ==> e == QuizError::InvalidQuestionIndex && *final(gateway) == *old(
            gateway,
        ),
        r matches Ok(id) ==> queue_effect(
            *old(gateway),
            *final(gateway),
            id,
            question_block.nonce,
            validate_request_payload(user_answer@, question_block.encrypted_y_coordinate@),
            (CorrelationContext { quiz_set: quiz_key, question_index, requester: payer }),
        ),
{
    if question_index == 0 || question_index > quiz.question_count {
        return Err(QuizError::InvalidQuestionIndex);
    }
    let mut payload = build_answer_block(user_answer);
    push_prefix(&mut payload, &question_block.encrypted_y_coordinate, BLOCK_LEN);
    proof {
        assert(clip(question_block.encrypted_y_coordinate@, BLOCK_LEN as int)
            =~= question_block.encrypted_y_coordinate@);
    }
    let context = CorrelationContext { quiz_set: quiz_key, question_index, requester: payer };
    match gateway.queue(question_block.nonce, payload, context) {
        Ok(id) => Ok(id),
        Err(_) => Err(QuizError::InvalidQuestionIndex),
    }
}

/// The fixed acknowledgement bytes an encoding or decoding callback
/// reports: a leading one, then zeros.
pub open spec fn done_marker() -> Seq<u8> {
    Seq::new(8, |i: int| if i == 0 { 1u8 } else { 0u8 })
}

/// Record of a question block having been encoded by the evaluator.
#[derive(Debug)]
pub struct QuizDataEncryptedEvent {
    pub encrypted_data: Vec<u8>,
    pub timestamp: i64,
}

/// Record of a question block having been decoded by the evaluator.
#[derive(Debug)]
pub struct QuizDataDecryptedEvent {
    pub decrypted_data: Vec<u8>,
    pub timestamp: i64,
}

/// Builds the acknowledgement bytes.
fn make_done_marker() -> (r: Vec<u8>)
    ensures
        r@ == done_marker(),
{
    let mut result_bytes: Vec<u8> = Vec::new();
    result_bytes.push(1);
    let mut i: usize = 1;
    while i < 8
        invariant
            1 <= i <= 8,
            result_bytes@.len() == i,
            forall|j: int| 0 <= j < i ==> result_bytes@[j] == done_marker()[j],
        decreases 8 - i,
    {
        result_bytes.push(0);
        i += 1;
    }
    proof {
        assert(result_bytes@ =~= done_marker());
    }
    result_bytes
}

/// Consumes the evaluator's outcome for a question-encoding request. A
/// failure surfaces as `AbortedComputation`; a success is acknowledged.
pub fn encrypt_quiz_callback(output: ComputationOutputs<Vec<u8>>, now: i64) -> (r: Result<
    QuizDataEncryptedEvent,
    ErrorCode,
>)
    ensures
        r is Ok <==> output is Success,
        output is Failure ==> (r matches Err(e) && e == ErrorCode::AbortedComputation),
        r matches Ok(ev) ==> ev.encrypted_data@ == done_marker() && ev.timestamp == now,
{
    match output {
        ComputationOutputs::Success(_) => Ok(
            QuizDataEncryptedEvent { encrypted_data: make_done_marker(), timestamp: now },
        ),
        ComputationOutputs::Failure => Err(ErrorCode::AbortedComputation),
    }
}

/// Consumes the evaluator's outcome for a question-decoding request. A
/// failure surfaces as `AbortedComputation`; a success is acknowledged.
pub fn decrypt_quiz_callback(output: ComputationOutputs<Vec<u8>>, now: i64) -> (r: Result<
    QuizDataDecryptedEvent,
    ErrorCode,
>)
    ensures
        r is Ok <==> output is Success,
        output is Failure ==> (r matches Err(e) && e == ErrorCode::AbortedComputation),
        r matches Ok(ev) ==> ev.decrypted_data@ == done_marker() && ev.timestamp == now,
{
    match output {
        ComputationOutputs::Success(_) => Ok(
            QuizDataDecryptedEvent { decrypted_data: make_done_marker(), timestamp: now },
        ),
        ComputationOutputs::Failure => Err(ErrorCode::AbortedComputation),
    }
}

/// Whether two byte vectors hold the same bytes.
fn bytes_eq(a: &Vec<u8>, b: &Vec<u8>) -> (r: bool)
    ensures
        r <==> a@ == b@,
{
    if a.len() != b.len() {
        return false;
    }
    let n = a.len();
    let mut i: usize = 0;
    while i < n
        invariant
            n == a@.len(),
            n == b@.len(),
            i <= n,
            forall|j: int| 0 <= j < i ==> a@[j] == b@[j],
        decreases n - i,
    {
        if a[i] != b[i] {
            return false;
        }
        i += 1;
    }
    proof {
        assert(a@ =~= b@);
    }
    true
}

} // verus!
