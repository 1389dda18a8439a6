use salvo_captcha::{
    issue, puzzle_result, store_puzzle, CacacheStorage, CaptchaDifficulty, CaptchaFormFinder, CaptchaGenerator, CaptchaName,
    CaptchaQueryFinder, CaptchaState, CaptchaStorage, IssueError, MemoryStorage, SimpleGenerator,
    SimpleGeneratorError, Verifier,
};

struct FailingGenerator;

impl CaptchaGenerator for FailingGenerator {
    type Error = SimpleGeneratorError;

    fn new_captcha(&self) -> Result<(String, Vec<u8>), SimpleGeneratorError> {
        Err(SimpleGeneratorError::FaildEncodedToPng)
    }
}

#[test]
fn simple_generator_makes_png_puzzle() {
    let generator = SimpleGenerator::new(CaptchaName::Normal, CaptchaDifficulty::Medium);
    assert_eq!(generator.name, CaptchaName::Normal);
    assert_eq!(generator.difficulty, CaptchaDifficulty::Medium);
    let (answer, image) = generator.new_captcha().expect("failed to render");
    assert!(answer.len() >= 4 && answer.len() <= 6);
    assert_eq!(&image[1..4], b"PNG");
}

#[test]
fn issued_challenge_can_be_verified() {
    let generator = SimpleGenerator::new(CaptchaName::VeryTwisted, CaptchaDifficulty::Hard);
    let mut storage = MemoryStorage::new();
    let (token, image) = issue(&generator, &mut storage).expect("failed to issue");
    assert!(!image.is_empty());
    let answer = storage.get_answer(&token).unwrap().expect("answer not stored");
    let verifier = Verifier::new();
    assert_eq!(
        verifier.verify(&mut storage, false, Some(Some(token.clone())), Some(Some(answer))),
        CaptchaState::Passed
    );
}

#[test]
fn issue_on_disk() {
    let dir = tempfile::tempdir().expect("failed to create temp file");
    let mut storage = CacacheStorage::new(dir.path().to_str().unwrap().to_string());
    let generator = SimpleGenerator::new(CaptchaName::SlightlyTwisted, CaptchaDifficulty::Easy);
    let (token, _) = issue(&generator, &mut storage).expect("failed to issue");
    let answer = storage.get_answer(&token).unwrap().expect("answer not stored");
    let verifier = Verifier::new();
    assert_eq!(
        verifier.verify(&mut storage, false, Some(Some(token.clone())), Some(Some("-".to_string()))),
        CaptchaState::WrongAnswer
    );
    assert_eq!(
        verifier.verify(&mut storage, false, Some(Some(token.clone())), Some(Some(answer.clone()))),
        CaptchaState::Passed
    );
    assert_eq!(
        verifier.verify(&mut storage, false, Some(Some(token)), Some(Some(answer))),
        CaptchaState::WrongToken
    );
}

#[test]
fn generator_failure_stores_nothing() {
    let mut storage = MemoryStorage::new();
    let r = issue(&FailingGenerator, &mut storage);
    assert!(matches!(r, Err(IssueError::Generator(SimpleGeneratorError::FaildEncodedToPng))));
    assert_eq!(
        SimpleGeneratorError::FaildEncodedToPng.message(),
        "Faild to encode the captcha to png image"
    );
}

#[test]
fn finder_names() {
    let form = CaptchaFormFinder::new();
    assert_eq!(form.token_name, "captcha_token");
    assert_eq!(form.answer_name, "captcha_answer");
    let form = form.token_name("t".to_string()).answer_name("a".to_string());
    assert_eq!((form.token_name.as_str(), form.answer_name.as_str()), ("t", "a"));
    let query = CaptchaQueryFinder::new();
    assert_eq!(query.token_name, "c_t");
    assert_eq!(query.answer_name, "c_a");
    let query = CaptchaQueryFinder::default().answer_name("x".to_string());
    assert_eq!((query.token_name.as_str(), query.answer_name.as_str()), ("c_t", "x"));
}

#[test]
fn render_results_to_puzzles() {
    let p = puzzle_result(Some(("ab".to_string(), vec![1, 2])));
    assert_eq!(p, Ok(("ab".to_string(), vec![1, 2])));
    assert_eq!(puzzle_result(None), Err(SimpleGeneratorError::FaildEncodedToPng));
}

#[test]
fn stored_puzzle_keeps_answer_and_image() {
    let mut storage = MemoryStorage::new();
    let (token, image) =
        store_puzzle(("k9Z".to_string(), vec![7, 8, 9]), &mut storage).expect("failed to store");
    assert_eq!(image, vec![7, 8, 9]);
    assert_eq!(storage.get_answer(&token).unwrap(), Some("k9Z".to_string()));
}
