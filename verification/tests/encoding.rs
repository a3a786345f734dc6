//! The evaluator's byte transforms: encoding, decoding, and answer
//! comparison.

use quiz_escrow::evaluator::{
    decrypt_quiz, encrypt_quiz, validate_answer, AnswerValidationInput, QuizDecryptInput,
    QuizEncryptInput,
};
use quiz_escrow::gateway::pack_question_data;

fn block(text: &[u8]) -> Vec<u8> {
    let mut b = text.to_vec();
    while b.len() < 64 {
        b.push(0);
    }
    b
}

#[test]
fn encrypt_adds_nonce_bytes() {
    // Nonce 1 shifts byte positions 0, 16, 32 and 48 by one and leaves the
    // rest alone.
    let mut data = vec![0u8; 64];
    data[0] = 5;
    data[1] = 7;
    let out = encrypt_quiz(&QuizEncryptInput { question_data: data, nonce: 1 });
    assert_eq!(out[0], 6);
    assert_eq!(out[1], 7);
    assert_eq!(out[16], 1);
    assert_eq!(out[32], 1);
    assert_eq!(out[48], 1);
    assert_eq!(out[2], 0);
    assert_eq!(out.len(), 64);
}

#[test]
fn encrypt_wraps_around() {
    let mut data = vec![0u8; 64];
    data[0] = 250;
    let out = encrypt_quiz(&QuizEncryptInput { question_data: data, nonce: 10 });
    // 250 + 10 wraps to 4.
    assert_eq!(out[0], 4);
}

#[test]
fn encrypt_uses_all_sixteen_nonce_bytes() {
    // The highest nonce byte shifts positions 15, 31, 47 and 63.
    let nonce: u128 = 3u128 << 120;
    let out = encrypt_quiz(&QuizEncryptInput { question_data: vec![0u8; 64], nonce });
    for (i, &b) in out.iter().enumerate() {
        if i % 16 == 15 {
            assert_eq!(b, 3);
        } else {
            assert_eq!(b, 0);
        }
    }
}

#[test]
fn decrypt_inverts_encrypt() {
    let data = block(b"what is the largest moon? ganymede");
    let nonce: u128 = 0x0123_4567_89ab_cdef_0011_2233_4455_6677;
    let encrypted = encrypt_quiz(&QuizEncryptInput { question_data: data.clone(), nonce });
    assert_ne!(encrypted, data);
    let decrypted = decrypt_quiz(&QuizDecryptInput { encrypted_data: encrypted, nonce });
    assert_eq!(decrypted, data);
}

#[test]
fn validate_answer_accepts_exact_answer() {
    let nonce: u128 = 987_654_321;
    let correct = block(b"ganymede");
    let stored = encrypt_quiz(&QuizEncryptInput { question_data: correct.clone(), nonce });
    assert!(validate_answer(&AnswerValidationInput {
        user_answer: block(b"ganymede"),
        correct_answer: stored,
        nonce,
    }));
}

#[test]
fn validate_answer_rejects_wrong_answer() {
    let nonce: u128 = 987_654_321;
    let stored = encrypt_quiz(&QuizEncryptInput { question_data: block(b"ganymede"), nonce });
    assert!(!validate_answer(&AnswerValidationInput {
        user_answer: block(b"callisto"),
        correct_answer: stored.clone(),
        nonce,
    }));
    // A strict prefix is not a match either: the comparison runs to the
    // longer meaningful part.
    assert!(!validate_answer(&AnswerValidationInput {
        user_answer: block(b"gany"),
        correct_answer: stored,
        nonce,
    }));
}

#[test]
fn validate_answer_ignores_trailing_zeroes() {
    // Two all-zero blocks have no meaningful part and compare equal.
    assert!(validate_answer(&AnswerValidationInput {
        user_answer: vec![0u8; 64],
        correct_answer: encrypt_quiz(&QuizEncryptInput { question_data: vec![0u8; 64], nonce: 5 }),
        nonce: 5,
    }));
}

#[test]
fn pack_question_data_lays_out_question_and_options() {
    let packed = pack_question_data(
        &b"why?".to_vec(),
        &b"AA".to_vec(),
        &b"B".to_vec(),
        &b"CCC".to_vec(),
        &b"D".to_vec(),
    );
    assert_eq!(packed.len(), 64);
    assert_eq!(&packed[0..4], b"why?");
    assert_eq!(&packed[4..6], b"AA");
    assert_eq!(&packed[6..7], b"B");
    assert_eq!(&packed[7..10], b"CCC");
    assert_eq!(&packed[10..11], b"D");
    assert!(packed[11..].iter().all(|&b| b == 0));
}

#[test]
fn pack_question_data_clips_long_fields() {
    let long_question = vec![9u8; 40];
    let long_option = vec![8u8; 20];
    let packed = pack_question_data(
        &long_question,
        &long_option,
        &b"".to_vec(),
        &b"".to_vec(),
        &b"".to_vec(),
    );
    assert_eq!(packed.len(), 64);
    // The question is clipped to 32 bytes, each option to 8.
    assert!(packed[0..32].iter().all(|&b| b == 9));
    assert!(packed[32..40].iter().all(|&b| b == 8));
    assert!(packed[40..].iter().all(|&b| b == 0));
}
