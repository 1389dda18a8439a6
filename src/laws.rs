use vstd::prelude::*;

use crate::state::CaptchaState;
use crate::storage::memory_storage::live_records;
use crate::storage::{CaptchaStorage, MemoryStorage};
use std::convert::Infallible;
use crate::verification::{answers_match, lookup_state, request_check, verify_answers};

verus! {

/// In a modelled store, once an answer is stored under a token (the effect
/// of `store_answer`), a lookup of the token (`get_answer`) gives that answer.
pub proof fn lemma_round_trip<S: CaptchaStorage>(before: S, after: S, token: Seq<char>, answer: Seq<char>)
    requires
        S::is_modelled(),
        after.answers() == before.answers().insert(token, answer),
    ensures
        after.answers().get(token) == Some(answer),
{
}

/// Once a verification of a token passes, a second verification of the same
/// token with the same answer finds no record: it gives `WrongToken`.
pub proof fn lemma_single_consumption(
    answers: Map<Seq<char>, Seq<char>>,
    token: Seq<char>,
    answer: Seq<char>,
    case_sensitive: bool,
)
    requires
        verify_answers(answers, token, answer, case_sensitive).0 == CaptchaState::Passed,
    ensures
        verify_answers(verify_answers(answers, token, answer, case_sensitive).1, token, answer, case_sensitive).0
            == CaptchaState::WrongToken,
{
}

/// In the in-memory store, once the record of a token has been removed
/// (what a passing verification does), a lookup of the token finds nothing,
/// so a verification of it gives `WrongToken` whatever the answer.
pub proof fn lemma_removed_token_is_wrong(
    before: MemoryStorage,
    after: MemoryStorage,
    token: Seq<char>,
    removal: Result<(), Infallible>,
    lookup: Result<Option<String>, Infallible>,
    answer: Seq<char>,
    case_sensitive: bool,
)
    requires
        MemoryStorage::removed(&before, &after, token, removal),
        after.looked_up(token, lookup),
    ensures
        lookup_state(lookup, answer, case_sensitive) == CaptchaState::WrongToken,
{
}

/// A wrong answer for a stored token gives `WrongAnswer` and keeps the
/// record, so that the stored answer then still passes.
pub proof fn lemma_mismatch_keeps_token(
    answers: Map<Seq<char>, Seq<char>>,
    token: Seq<char>,
    wrong: Seq<char>,
    case_sensitive: bool,
)
    requires
        answers.contains_key(token),
        !answers_match(answers[token], wrong, case_sensitive),
    ensures
        verify_answers(answers, token, wrong, case_sensitive) == (CaptchaState::WrongAnswer, answers),
        verify_answers(answers, token, answers[token], case_sensitive).0 == CaptchaState::Passed,
{
    let s = answers[token];
    assert(answers_match(s, s, case_sensitive));
}

/// With an expiry age of zero, a sweep at any time no earlier than a
/// record's creation removes it.
pub proof fn lemma_expiry_at_zero(
    records: Map<Seq<char>, (u128, Seq<char>)>,
    token: Seq<char>,
    created_at: u128,
    answer: Seq<char>,
    now: u128,
)
    requires
        created_at <= now,
    ensures
        !live_records(records.insert(token, (created_at, answer)), now, 0).contains_key(token),
{
}

/// Under the case-sensitive policy an answer matches exactly when it is
/// equal to the stored one; whatever matches under it also matches under the
/// case-insensitive policy.
pub proof fn lemma_case_policy(stored: Seq<char>, submitted: Seq<char>)
    ensures
        answers_match(stored, submitted, true) <==> stored == submitted,
        answers_match(stored, submitted, true) ==> answers_match(stored, submitted, false),
{
}

/// The token is checked before the answer: without a token the outcome is
/// `TokenNotFound`, whatever the answer.
pub proof fn lemma_token_checked_first(answer: Option<Option<Seq<char>>>)
    ensures
        request_check(false, None, answer) == Some(CaptchaState::TokenNotFound),
{
}

} // verus!
