//! The confidential evaluator's circuits, as plain byte transforms.
//!
//! Question and answer material is encoded by adding a nonce-derived byte
//! stream, modulo 256, and decoded by subtracting it again; an answer is
//! judged by decoding the stored correct answer and comparing the
//! meaningful (non-zero-terminated) parts of the two blocks. The evaluator
//! cluster runs these transforms confidentially; here they are specified
//! and proved so the rest of the protocol has an exact model of the
//! verdict.

use vstd::arithmetic::div_mod::{lemma_mod_multiples_vanish, lemma_small_mod};
use vstd::prelude::*;

use crate::quiz::BLOCK_LEN;

verus! {

/// Length, in bytes, of the nonce-derived byte stream before it repeats.
pub const NONCE_LEN: usize = 16;

/// Byte `k` of the nonce, little-endian.
pub open spec fn byte_of(nonce: u128, k: nat) -> u8
    decreases k,
{
    if k == 0 {
        (nonce % 256) as u8
    } else {
        byte_of((nonce / 256) as u128, (k - 1) as nat)
    }
}

/// Addition of two bytes, wrapping modulo 256.
pub open spec fn byte_add(a: u8, b: u8) -> u8 {
    ((a + b) % 256) as u8
}

/// Subtraction of two bytes, wrapping modulo 256.
pub open spec fn byte_sub(a: u8, b: u8) -> u8 {
    ((a - b + 256) % 256) as u8
}

/// Wrapping subtraction undoes wrapping addition.
pub proof fn lemma_byte_roundtrip(a: u8, b: u8)
    ensures
        byte_sub(byte_add(a, b), b) == a,
{
    if a + b < 256 {
        lemma_small_mod((a + b) as nat, 256);
        assert(byte_add(a, b) == a + b);
        lemma_mod_multiples_vanish(1, a as int, 256);
        lemma_small_mod(a as nat, 256);
    } else {
        lemma_mod_multiples_vanish(1, a + b - 256, 256);
        lemma_small_mod((a + b - 256) as nat, 256);
        assert(byte_add(a, b) == a + b - 256);
        lemma_small_mod(a as nat, 256);
    }
}

/// A data block encoded under a nonce: each byte is shifted by the
/// corresponding byte of the repeating nonce stream.
pub open spec fn encrypt_bytes(data: Seq<u8>, nonce: u128) -> Seq<u8> {
    Seq::new(data.len(), |i: int| byte_add(data[i], byte_of(nonce, (i % 16) as nat)))
}

/// An encoded block decoded under a nonce.
pub open spec fn decrypt_bytes(data: Seq<u8>, nonce: u128) -> Seq<u8> {
    Seq::new(data.len(), |i: int| byte_sub(data[i], byte_of(nonce, (i % 16) as nat)))
}

/// Decoding inverts encoding under the same nonce.
pub proof fn lemma_encrypt_decrypt_roundtrip(data: Seq<u8>, nonce: u128)
    ensures
        decrypt_bytes(encrypt_bytes(data, nonce), nonce) == data,
{
    let e = encrypt_bytes(data, nonce);
    assert forall|i: int| 0 <= i < data.len() implies decrypt_bytes(e, nonce)[i] == data[i] by {
        lemma_byte_roundtrip(data[i], byte_of(nonce, (i % 16) as nat));
    }
    assert(decrypt_bytes(e, nonce) =~= data);
}

/// The length of the meaningful part of a block: everything up to and
/// including its last non-zero byte.
pub open spec fn text_end(s: Seq<u8>) -> int
    decreases s.len(),
{
    if s.len() == 0 {
        0
    } else if s.last() != 0 {
        s.len() as int
    } else {
        text_end(s.drop_last())
    }
}

/// The meaningful part never reaches past the block.
pub proof fn lemma_text_end_bound(s: Seq<u8>)
    ensures
        0 <= text_end(s) <= s.len(),
    decreases s.len(),
{
    if s.len() > 0 {
        lemma_text_end_bound(s.drop_last());
    }
}

/// How one more byte moves the meaningful end.
proof fn lemma_text_end_push(t: Seq<u8>, x: u8)
    ensures
        text_end(t.push(x)) == if x != 0 {
            t.len() + 1int
        } else {
            text_end(t)
        },
{
    assert(t.push(x).drop_last() =~= t);
    assert(t.push(x).last() == x);
}

/// Whether an answer matches the correct one: the two blocks agree on
/// every position inside either block's meaningful part.
pub open spec fn answers_match(user: Seq<u8>, correct: Seq<u8>) -> bool {
    forall|i: int|
        0 <= i && (i < text_end(user) || i < text_end(correct)) ==> user[i] == correct[i]
}

/// An answer always matches itself.
pub proof fn lemma_answers_match_reflexive(s: Seq<u8>)
    ensures
        answers_match(s, s),
{
}

/// An answer equal to the stored plaintext validates against its own
/// encoding: decode what was encoded, and the comparison succeeds.
pub proof fn lemma_correct_answer_validates(answer: Seq<u8>, nonce: u128)
    ensures
        answers_match(answer, decrypt_bytes(encrypt_bytes(answer, nonce), nonce)),
{
    lemma_encrypt_decrypt_roundtrip(answer, nonce);
}

/// A question block and its nonce, ready for encoding.
pub struct QuizEncryptInput {
    pub question_data: Vec<u8>,
    pub nonce: u128,
}

/// An encoded block and its nonce, ready for decoding.
pub struct QuizDecryptInput {
    pub encrypted_data: Vec<u8>,
    pub nonce: u128,
}

/// An answer to judge: the user's block, the encoded correct block, and
/// the nonce the correct block was encoded under.
pub struct AnswerValidationInput {
    pub user_answer: Vec<u8>,
    pub correct_answer: Vec<u8>,
    pub nonce: u128,
}

/// The first `NONCE_LEN` bytes of the nonce stream.
#[verifier::loop_isolation(false)]
fn nonce_block(nonce: u128) -> (r: Vec<u8>)
    ensures
        r@.len() == NONCE_LEN,
        forall|k: int| 0 <= k < NONCE_LEN ==> r@[k] == byte_of(nonce, k as nat),
{
    let mut r: Vec<u8> = Vec::new();
    let mut x = nonce;
    let mut i: usize = 0;
    while i < NONCE_LEN
        invariant
            i <= NONCE_LEN,
            r@.len() == i,
            forall|j: int| 0 <= j < i ==> r@[j] == byte_of(nonce, j as nat),
            forall|m: nat| byte_of(nonce, (i + m) as nat) == #[trigger] byte_of(x, m),
        decreases NONCE_LEN - i,
    {
        proof {
            assert(byte_of(nonce, (i + 0) as nat) == byte_of(x, 0));
        }
        r.push((x % 256) as u8);
        proof {
            assert forall|m: nat|
                byte_of(nonce, ((i + 1) + m) as nat) == #[trigger] byte_of(
                    (x / 256) as u128,
                    m,
                ) by {
                assert(byte_of(nonce, (i + (m + 1)) as nat) == byte_of(x, (m + 1) as nat));
            }
        }
        x = x / 256;
        i += 1;
    }
    r
}

/// Wrapping byte addition.
fn badd(a: u8, b: u8) -> (r: u8)
    ensures
        r == byte_add(a, b),
{
    (((a as u16) + (b as u16)) % 256) as u8
}

/// Wrapping byte subtraction.
fn bsub(a: u8, b: u8) -> (r: u8)
    ensures
        r == byte_sub(a, b),
{
    (((a as u16) + 256 - (b as u16)) % 256) as u8
}

/// Decodes one block under a nonce.
#[verifier::loop_isolation(false)]
fn decrypt_block(data: &Vec<u8>, nonce: u128) -> (r: Vec<u8>)
    requires
        data@.len() == BLOCK_LEN,
    ensures
        r@ == decrypt_bytes(data@, nonce),
        r@.len() == BLOCK_LEN,
{
    let nb = nonce_block(nonce);
    let mut out: Vec<u8> = Vec::new();
    let mut i: usize = 0;
    while i < BLOCK_LEN
        invariant
            i <= BLOCK_LEN,
            out@.len() == i,
            forall|j: int|
                0 <= j < i ==> out@[j] == byte_sub(data@[j], byte_of(nonce, (j % 16) as nat)),
        decreases BLOCK_LEN - i,
    {
        out.push(bsub(data[i], nb[i % 16]));
        i += 1;
    }
    proof {
        assert(out@ =~= decrypt_bytes(data@, nonce));
    }
    out
}

/// Encodes a question block under its nonce, exactly as
/// [`encrypt_bytes`] describes.
#[verifier::loop_isolation(false)]
pub fn encrypt_quiz(input: &QuizEncryptInput) -> (r: Vec<u8>)
    requires
        input.question_data@.len() == BLOCK_LEN,
    ensures
        r@ == encrypt_bytes(input.question_data@, input.nonce),
        r@.len() == BLOCK_LEN,
{
    let nb = nonce_block(input.nonce);
    let mut out: Vec<u8> = Vec::new();
    let mut i: usize = 0;
    while i < BLOCK_LEN
        invariant
            i <= BLOCK_LEN,
            out@.len() == i,
            forall|j: int|
                0 <= j < i ==> out@[j] == byte_add(
                    input.question_data@[j],
                    byte_of(input.nonce, (j % 16) as nat),
                ),
        decreases BLOCK_LEN - i,
    {
        out.push(badd(input.question_data[i], nb[i % 16]));
        i += 1;
    }
    proof {
        assert(out@ =~= encrypt_bytes(input.question_data@, input.nonce));
    }
    out
}

/// Decodes an encoded block under its nonce, exactly as
/// [`decrypt_bytes`] describes.
pub fn decrypt_quiz(input: &QuizDecryptInput) -> (r: Vec<u8>)
    requires
        input.encrypted_data@.len() == BLOCK_LEN,
    ensures
        r@ == decrypt_bytes(input.encrypted_data@, input.nonce),
        r@.len() == BLOCK_LEN,
{
    decrypt_block(&input.encrypted_data, input.nonce)
}

/// Judges an answer: decodes the stored correct answer under the nonce and
/// compares the meaningful parts of the two blocks, as [`answers_match`]
/// describes.
#[verifier::loop_isolation(false)]
pub fn validate_answer(input: &AnswerValidationInput) -> (r: bool)
    requires
        input.user_answer@.len() == BLOCK_LEN,
        input.correct_answer@.len() == BLOCK_LEN,
    ensures
        r == answers_match(input.user_answer@, decrypt_bytes(input.correct_answer@, input.nonce)),
{
    let decrypted = decrypt_block(&input.correct_answer, input.nonce);
    let user = &input.user_answer;
    let mut user_answer_end: usize = 0;
    let mut correct_answer_end: usize = 0;
    let mut i: usize = 0;
    while i < BLOCK_LEN
        invariant
            i <= BLOCK_LEN,
            user_answer_end == text_end(user@.take(i as int)),
            correct_answer_end == text_end(decrypted@.take(i as int)),
        decreases BLOCK_LEN - i,
    {
        proof {
            assert(user@.take(i + 1) =~= user@.take(i as int).push(user@[i as int]));
            assert(decrypted@.take(i + 1) =~= decrypted@.take(i as int).push(
                decrypted@[i as int],
            ));
            lemma_text_end_push(user@.take(i as int), user@[i as int]);
            lemma_text_end_push(decrypted@.take(i as int), decrypted@[i as int]);
            lemma_text_end_bound(user@.take(i as int));
            lemma_text_end_bound(decrypted@.take(i as int));
        }
        if user[i] != 0 {
            user_answer_end = i + 1;
        }
        if decrypted[i] != 0 {
            correct_answer_end = i + 1;
        }
        i += 1;
    }
    proof {
        assert(user@.take(BLOCK_LEN as int) =~= user@);
        assert(decrypted@.take(BLOCK_LEN as int) =~= decrypted@);
        lemma_text_end_bound(user@);
        lemma_text_end_bound(decrypted@);
    }
    let max_len = if user_answer_end > correct_answer_end {
        user_answer_end
    } else {
        correct_answer_end
    };
    let mut is_correct = true;
    let mut i: usize = 0;
    while i < BLOCK_LEN
        invariant
            i <= BLOCK_LEN,
            max_len == if text_end(user@) > text_end(decrypted@) {
                text_end(user@)
            } else {
                text_end(decrypted@)
            },
            max_len <= BLOCK_LEN,
            is_correct == (forall|j: int|
                0 <= j < i && j < max_len ==> user@[j] == decrypted@[j]),
        decreases BLOCK_LEN - i,
    {
        if i < max_len && user[i] != decrypted[i] {
            is_correct = false;
        }
        i += 1;
    }
    is_correct
}

} // verus!
