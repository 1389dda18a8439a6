use salvo_captcha::{
    answer_matches, check_request, eq_ignore_ascii_case_str, outcome_of_lookup, CaptchaState,
    CaptchaStorage, MemoryStorage, StorageError, Verifier,
};

fn some(s: &str) -> Option<Option<String>> {
    Some(Some(s.to_string()))
}

#[test]
fn consumed_token_gives_wrong_token() {
    let mut storage = MemoryStorage::new();
    storage.store_answer_at("abc123".to_string(), 10, "7fQ2".to_string());
    let verifier = Verifier::new();
    assert_eq!(
        verifier.verify(&mut storage, false, some("abc123"), some("7fQ2")),
        CaptchaState::Passed
    );
    assert_eq!(
        verifier.verify(&mut storage, false, some("abc123"), some("7fQ2")),
        CaptchaState::WrongToken
    );
}

#[test]
fn wrong_answer_keeps_token() {
    let mut storage = MemoryStorage::new();
    storage.store_answer_at("t1".to_string(), 10, "xyz".to_string());
    let verifier = Verifier::new();
    assert_eq!(
        verifier.verify(&mut storage, false, some("t1"), some("wrong")),
        CaptchaState::WrongAnswer
    );
    assert_eq!(
        verifier.verify(&mut storage, false, some("t1"), some("xyz")),
        CaptchaState::Passed
    );
}

#[test]
fn missing_and_unknown_tokens() {
    let mut storage = MemoryStorage::new();
    let verifier = Verifier::new();
    assert_eq!(
        verifier.verify(&mut storage, false, None, some("any")),
        CaptchaState::TokenNotFound
    );
    assert_eq!(
        verifier.verify(&mut storage, false, some("unknown-token"), some("any")),
        CaptchaState::WrongToken
    );
}

#[test]
fn token_checked_before_answer() {
    let mut storage = MemoryStorage::new();
    let verifier = Verifier::new();
    assert_eq!(
        verifier.verify(&mut storage, false, None, None),
        CaptchaState::TokenNotFound
    );
    assert_eq!(
        verifier.verify(&mut storage, false, Some(None), Some(None)),
        CaptchaState::WrongToken
    );
    assert_eq!(
        verifier.verify(&mut storage, false, some("t"), None),
        CaptchaState::AnswerNotFound
    );
    assert_eq!(
        verifier.verify(&mut storage, false, some("t"), Some(None)),
        CaptchaState::WrongAnswer
    );
}

#[test]
fn skip_touches_no_storage() {
    let mut storage = MemoryStorage::new();
    storage.store_answer_at("t".to_string(), 10, "a".to_string());
    let verifier = Verifier::new();
    assert_eq!(
        verifier.verify(&mut storage, true, some("t"), some("a")),
        CaptchaState::Skipped
    );
    assert_eq!(storage.get_answer("t").unwrap(), Some("a".to_string()));
}

#[test]
fn case_sensitive_by_default() {
    let mut storage = MemoryStorage::new();
    storage.store_answer_at("t".to_string(), 10, "Hello".to_string());
    let verifier = Verifier::new();
    assert_eq!(
        verifier.verify(&mut storage, false, some("t"), some("hello")),
        CaptchaState::WrongAnswer
    );
    assert_eq!(
        verifier.verify(&mut storage, false, some("t"), some("HELLO")),
        CaptchaState::WrongAnswer
    );
    assert_eq!(
        verifier.verify(&mut storage, false, some("t"), some("Hello")),
        CaptchaState::Passed
    );
}

#[test]
fn case_insensitive_policy() {
    let verifier = Verifier::new().case_insensitive();
    for submitted in ["hello", "HELLO", "Hello"] {
        let mut storage = MemoryStorage::new();
        storage.store_answer_at("t".to_string(), 10, "Hello".to_string());
        assert_eq!(
            verifier.verify(&mut storage, false, some("t"), some(submitted)),
            CaptchaState::Passed
        );
        assert_eq!(storage.get_answer("t").unwrap(), None);
    }
    let mut storage = MemoryStorage::new();
    storage.store_answer_at("t".to_string(), 10, "Hello".to_string());
    assert_eq!(
        verifier.verify(&mut storage, false, some("t"), some("hell")),
        CaptchaState::WrongAnswer
    );
}

#[test]
fn ascii_case_folding() {
    assert!(eq_ignore_ascii_case_str("AbC", "aBc"));
    assert!(eq_ignore_ascii_case_str("", ""));
    assert!(!eq_ignore_ascii_case_str("ab", "abc"));
    assert!(!eq_ignore_ascii_case_str("[", "{"));
    assert!(!eq_ignore_ascii_case_str("É", "é"));
    assert!(answer_matches(&"Ab".to_string(), &"Ab".to_string(), true));
    assert!(!answer_matches(&"Ab".to_string(), &"ab".to_string(), true));
    assert!(answer_matches(&"Ab".to_string(), &"ab".to_string(), false));
}

#[test]
fn request_precedence() {
    assert_eq!(check_request(true, None, None), Err(CaptchaState::Skipped));
    assert_eq!(check_request(false, None, None), Err(CaptchaState::TokenNotFound));
    assert_eq!(check_request(false, Some(None), None), Err(CaptchaState::WrongToken));
    assert_eq!(check_request(false, some("t"), None), Err(CaptchaState::AnswerNotFound));
    assert_eq!(check_request(false, some("t"), Some(None)), Err(CaptchaState::WrongAnswer));
    assert_eq!(
        check_request(false, some("t"), some("a")),
        Ok(("t".to_string(), "a".to_string()))
    );
}

#[test]
fn lookup_outcomes() {
    let answer = "Ab".to_string();
    let failed: Result<Option<String>, StorageError> = Err(StorageError::InvalidUtf8);
    assert_eq!(outcome_of_lookup(&failed, &answer, true), CaptchaState::StorageError);
    let missing: Result<Option<String>, StorageError> = Ok(None);
    assert_eq!(outcome_of_lookup(&missing, &answer, true), CaptchaState::WrongToken);
    let found: Result<Option<String>, StorageError> = Ok(Some("ab".to_string()));
    assert_eq!(outcome_of_lookup(&found, &answer, true), CaptchaState::WrongAnswer);
    assert_eq!(outcome_of_lookup(&found, &answer, false), CaptchaState::Passed);
}

#[test]
fn verifier_settings() {
    let v = Verifier::new();
    assert!(v.case_sensitive);
    assert_eq!(v.expired_after, 300_000);
    assert_eq!(v.clean_interval, 60_000);
    let v = v.case_insensitive().expired_after(10).clean_interval(2);
    assert!(!v.case_sensitive);
    assert_eq!(v.expired_after, 10);
    assert_eq!(v.clean_interval, 2);
}

#[test]
fn default_state_is_skipped() {
    assert_eq!(CaptchaState::default(), CaptchaState::Skipped);
}
