use salvo_captcha::{
    answer_from_read, expired_keys, now, now_millis, removal_step, stored_token, CaptchaStorage,
    MemoryStorage, ReadOutcome, StorageError,
};

#[test]
fn store_then_get_round_trip() {
    let mut storage = MemoryStorage::new();
    for answer in ["", "a", "Hello", "7fQ2", "ünï"] {
        let token = storage.store_answer(answer.to_string()).unwrap();
        assert_eq!(token.len(), 36);
        for (i, c) in token.chars().enumerate() {
            if [8, 13, 18, 23].contains(&i) {
                assert_eq!(c, '-');
            } else {
                assert!(c.is_ascii_digit() || ('a'..='f').contains(&c));
            }
        }
        assert_eq!(token.chars().nth(14), Some('4'));
        assert!(matches!(token.chars().nth(19), Some('8' | '9' | 'a' | 'b')));
        assert_eq!(storage.get_answer(&token).unwrap(), Some(answer.to_string()));
    }
}

#[test]
fn fresh_tokens_differ() {
    let mut storage = MemoryStorage::new();
    let a = storage.store_answer("x".to_string()).unwrap();
    let b = storage.store_answer("x".to_string()).unwrap();
    assert_ne!(a, b);
}

#[test]
fn store_replaces_record_of_same_token() {
    let mut storage = MemoryStorage::new();
    storage.store_answer_at("t".to_string(), 1, "old".to_string());
    storage.store_answer_at("t".to_string(), 2, "new".to_string());
    assert_eq!(storage.lookup("t"), Some("new".to_string()));
    storage.remove_token("t");
    assert_eq!(storage.lookup("t"), None);
}

#[test]
fn clear_by_unknown_token_is_no_error() {
    let mut storage = MemoryStorage::new();
    storage.store_answer_at("t".to_string(), 1, "a".to_string());
    assert!(storage.clear_by_token("other").is_ok());
    assert_eq!(storage.lookup("t"), Some("a".to_string()));
}

#[test]
fn expiry_by_age() {
    let mut storage = MemoryStorage::new();
    storage.store_answer_at("old".to_string(), 100_000, "a".to_string());
    storage.store_answer_at("edge".to_string(), 150_000, "b".to_string());
    storage.store_answer_at("new".to_string(), 150_001, "c".to_string());
    storage.expire_at(200_000, 50_000);
    assert_eq!(storage.lookup("old"), None);
    assert_eq!(storage.lookup("edge"), None);
    assert_eq!(storage.lookup("new"), Some("c".to_string()));
}

#[test]
fn expiry_at_zero_age_removes_immediately() {
    let mut storage = MemoryStorage::new();
    storage.store_answer_at("t".to_string(), 7, "a".to_string());
    storage.expire_at(7, 0);
    assert_eq!(storage.lookup("t"), None);
}

#[test]
fn expiry_age_larger_than_clock() {
    let mut storage = MemoryStorage::new();
    storage.store_answer_at("t".to_string(), 0, "a".to_string());
    storage.expire_at(5, u64::MAX);
    assert_eq!(storage.lookup("t"), Some("a".to_string()));
}

#[test]
fn expired_keys_of_listing() {
    let entries = vec![
        Some(("a".to_string(), 1000u128)),
        None,
        Some(("b".to_string(), 1500u128)),
        Some(("c".to_string(), 1501u128)),
        Some(("d".to_string(), 3000u128)),
    ];
    assert_eq!(
        expired_keys(&entries, 2500, 1000),
        vec!["a".to_string(), "b".to_string()]
    );
    assert_eq!(expired_keys(&entries, 500, 0), Vec::<String>::new());
    assert_eq!(expired_keys(&entries, 3000, u128::MAX), Vec::<String>::new());
    assert_eq!(expired_keys(&Vec::new(), 3000, 0), Vec::<String>::new());
}

#[test]
fn read_outcomes_to_answers() {
    assert_eq!(
        answer_from_read(ReadOutcome::Found(b"7fQ2".to_vec())).unwrap(),
        Some("7fQ2".to_string())
    );
    assert_eq!(answer_from_read(ReadOutcome::Missing).unwrap(), None);
    assert!(matches!(
        answer_from_read(ReadOutcome::Found(vec![0xff, 0xfe])),
        Err(StorageError::InvalidUtf8)
    ));
    assert!(matches!(
        answer_from_read(ReadOutcome::Failed(cacache::Error::SizeMismatch(1, 2))),
        Err(StorageError::Cache(cacache::Error::SizeMismatch(1, 2)))
    ));
}

#[test]
fn clock_reads_after_epoch() {
    let secs = now();
    let millis = now_millis();
    assert!(secs > 1_600_000_000);
    assert!(millis / 1000 >= secs as u128);
}

#[test]
fn expiry_keeps_milliseconds() {
    let mut storage = MemoryStorage::new();
    storage.store_answer_at("t".to_string(), 1_999, "a".to_string());
    storage.expire_at(2_001, 1_000);
    assert_eq!(storage.lookup("t"), Some("a".to_string()));
    storage.expire_at(2_998, 1_000);
    assert_eq!(storage.lookup("t"), Some("a".to_string()));
    storage.expire_at(2_999, 1_000);
    assert_eq!(storage.lookup("t"), None);
}

#[test]
fn write_results_to_tokens() {
    assert_eq!(stored_token("t".to_string(), Ok(())).unwrap(), "t".to_string());
    assert!(matches!(
        stored_token("t".to_string(), Err(cacache::Error::SizeMismatch(3, 4))),
        Err(StorageError::Cache(cacache::Error::SizeMismatch(3, 4)))
    ));
}

#[test]
fn removal_steps() {
    assert!(matches!(removal_step(Ok(false)), Some(Ok(()))));
    assert!(removal_step(Ok(true)).is_none());
    assert!(matches!(
        removal_step(Err(cacache::Error::SizeMismatch(5, 6))),
        Some(Err(StorageError::Cache(cacache::Error::SizeMismatch(5, 6))))
    ));
}

#[test]
fn disk_removal_of_missing_token_is_no_error() {
    let dir = tempfile::tempdir().expect("failed to create temp file");
    let mut storage =
        salvo_captcha::CacacheStorage::new(dir.path().to_str().unwrap().to_string());
    assert!(storage.clear_by_token("never-issued").is_ok());
    let token = storage.store_answer("a".to_string()).unwrap();
    assert!(storage.clear_by_token(&token).is_ok());
    assert!(storage.clear_by_token(&token).is_ok());
    assert_eq!(storage.get_answer(&token).unwrap(), None);
}
