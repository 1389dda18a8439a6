use vstd::prelude::*;

verus! {

/// The outcome of one verification attempt.
#[derive(Debug, Clone, Copy, PartialEq, Eq, Structural)]
pub enum CaptchaState {
    /// The check was skipped by the caller's skip predicate; storage was not touched.
    Skipped,
    /// The answer matched the one stored for the token, and the token was consumed.
    Passed,
    /// The request carries no token.
    TokenNotFound,
    /// The request carries no answer.
    AnswerNotFound,
    /// The token is malformed, unknown, consumed or expired.
    WrongToken,
    /// The answer is malformed, or differs from the stored one.
    WrongAnswer,
    /// The storage failed while looking the token up.
    StorageError,
}

impl Default for CaptchaState {
    fn default() -> (r: CaptchaState)
        ensures
            r == CaptchaState::Skipped,
    {
        CaptchaState::Skipped
    }
}

} // verus!
