//! Tracking-code generation: length, alphabet, and the bounded retry.

use croptrack::errors::AppError;
use croptrack::misc::utils::generate_token;
use croptrack::services::batch_service::{BatchService, CodeGenerator};

#[test]
fn generated_code_must_have_12_characters() {
    let service = BatchService::new();
    for _ in 0..500 {
        let code = service.generate_code().unwrap();
        assert_eq!(code.len(), 12);
    }
}

#[test]
fn generated_code_must_be_alphanumeric() {
    let service = BatchService::new();

    let code = service.generate_code().unwrap();
    assert!(code.chars().all(char::is_alphanumeric));
}

#[test]
fn generated_token_has_requested_length_and_ascii_alphabet() {
    assert_eq!(generate_token(0).len(), 0);
    let token = generate_token(40);
    assert_eq!(token.len(), 40);
    assert!(token.chars().all(|c| c.is_ascii_alphanumeric()));
}

#[test]
fn two_tokens_rarely_equal() {
    // 62^24 outcomes: a collision here would point at a broken generator.
    let a = generate_token(24);
    let b = generate_token(24);
    assert_ne!(a, b);
}

#[test]
fn generator_gives_up_after_500_colliding_candidates() {
    // A store in which every candidate collides: the driver discards all of
    // them. The budget must be exactly 500 candidates.
    let mut generator = CodeGenerator::new();
    for _ in 0..500 {
        let candidate = generator.next_candidate();
        assert!(candidate.is_some());
        assert_eq!(candidate.unwrap().len(), 12);
    }
    assert!(generator.next_candidate().is_none());
    let err = CodeGenerator::exhausted_error();
    assert_eq!(err.status_code(), 400);
    assert_eq!(err.message(), "Could not generate a tracking code");
    assert!(matches!(err, AppError::BadRequest(_)));
}
