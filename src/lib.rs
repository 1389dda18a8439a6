//! A challenge/response verification engine: stores the answer of a generated
//! puzzle under a fresh token, and classifies a later (token, answer) pair
//! into an outcome, consuming the token on success.

pub mod clock;
pub mod finder;
pub mod generator;
pub mod laws;
pub mod state;
pub mod storage;
pub mod verification;

pub use clock::{now, now_millis};
pub use finder::{CaptchaFormFinder, CaptchaQueryFinder};
pub use generator::{
    issue, puzzle_result, store_puzzle, CaptchaDifficulty, CaptchaGenerator, CaptchaName, IssueError, SimpleGenerator,
    SimpleGeneratorError,
};
pub use state::CaptchaState;
pub use storage::{
    answer_from_read, expired_keys, removal_step, stored_token, CacacheStorage, CaptchaStorage,
    MemoryStorage, ReadOutcome, StorageError,
};
pub use verification::{
    answer_matches, check_request, eq_ignore_ascii_case_str, outcome_of_lookup, Verifier,
};
