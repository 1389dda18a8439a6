use vstd::prelude::*;

use crate::state::CaptchaState;
use crate::storage::{answer_view, CaptchaStorage};

verus! {

/// What a finder extracted from a request, as a view: `None` when the value
/// is absent, `Some(None)` when it is present but malformed, `Some(Some(v))`
/// when it is present with value `v`.
pub open spec fn presence_view(p: Option<Option<String>>) -> Option<Option<Seq<char>>> {
    match p {
        None => None,
        Some(None) => Some(None),
        Some(Some(v)) => Some(Some(v@)),
    }
}

/// Two characters are equal once ASCII letters are folded to one case.
pub open spec fn chars_match_ignoring_ascii_case(a: char, b: char) -> bool {
    let x = a as u32;
    let y = b as u32;
    ||| x == y
    ||| (65 <= x <= 90 && y == x + 32)
    ||| (97 <= x <= 122 && x == y + 32)
}

/// Two strings are equal once ASCII letters are folded to one case.
pub open spec fn eq_ignore_ascii_case(a: Seq<char>, b: Seq<char>) -> bool {
    &&& a.len() == b.len()
    &&& forall|i: int| 0 <= i < a.len() ==> chars_match_ignoring_ascii_case(#[trigger] a[i], b[i])
}

/// Whether a submitted answer matches the stored one under the case policy.
pub open spec fn answers_match(stored: Seq<char>, submitted: Seq<char>, case_sensitive: bool) -> bool {
    if case_sensitive {
        stored == submitted
    } else {
        eq_ignore_ascii_case(stored, submitted)
    }
}

/// The outcome decided before any storage access, if any: the skip flag
/// first, then the token, then the answer.
pub open spec fn request_check(
    skip: bool,
    token: Option<Option<Seq<char>>>,
    answer: Option<Option<Seq<char>>>,
) -> Option<CaptchaState> {
    if skip {
        Some(CaptchaState::Skipped)
    } else {
        match token {
            None => Some(CaptchaState::TokenNotFound),
            Some(None) => Some(CaptchaState::WrongToken),
            Some(Some(_)) => match answer {
                None => Some(CaptchaState::AnswerNotFound),
                Some(None) => Some(CaptchaState::WrongAnswer),
                Some(Some(_)) => None,
            },
        }
    }
}

/// The outcome once the stored answer for the token has been looked up.
pub open spec fn lookup_outcome(
    stored: Option<Seq<char>>,
    submitted: Seq<char>,
    case_sensitive: bool,
) -> CaptchaState {
    match stored {
        None => CaptchaState::WrongToken,
        Some(s) => if answers_match(s, submitted, case_sensitive) {
            CaptchaState::Passed
        } else {
            CaptchaState::WrongAnswer
        },
    }
}

/// Verification of a present token and answer against the stored answers:
/// the outcome, and the answers afterwards (the token is consumed on a pass).
pub open spec fn verify_answers(
    answers: Map<Seq<char>, Seq<char>>,
    token: Seq<char>,
    answer: Seq<char>,
    case_sensitive: bool,
) -> (CaptchaState, Map<Seq<char>, Seq<char>>) {
    let o = lookup_outcome(answers.get(token), answer, case_sensitive);
    (o, if o == CaptchaState::Passed { answers.remove(token) } else { answers })
}

/// The outcome for the result of a lookup: a storage failure, no record,
/// or the stored answer compared with the submitted one.
pub open spec fn lookup_state<E>(
    lookup: Result<Option<String>, E>,
    submitted: Seq<char>,
    case_sensitive: bool,
) -> CaptchaState {
    match lookup {
        Err(_) => CaptchaState::StorageError,
        Ok(stored) => lookup_outcome(answer_view(stored), submitted, case_sensitive),
    }
}

/// Compares two strings ignoring ASCII case.
pub fn eq_ignore_ascii_case_str(a: &str, b: &str) -> (r: bool)
    ensures
        r == eq_ignore_ascii_case(a@, b@),
{
    let n = a.unicode_len();
    if n != b.unicode_len() {
        return false;
    }
    let mut i: usize = 0;
    while i < n
        invariant
            n == a@.len(),
            n == b@.len(),
            i <= n,
            forall|j: int| 0 <= j < i ==> chars_match_ignoring_ascii_case(#[trigger] a@[j], b@[j]),
        decreases n - i,
    {
        let x = a.get_char(i) as u32;
        let y = b.get_char(i) as u32;
        let same = x == y || (65 <= x && x <= 90 && x + 32 == y) || (97 <= x && x <= 122 && x == y
            + 32);
        if !same {
            assert(!chars_match_ignoring_ascii_case(a@[i as int], b@[i as int]));
            return false;
        }
        i = i + 1;
    }
    true
}

/// Whether a submitted answer matches the stored one under the case policy.
pub fn answer_matches(stored: &String, submitted: &String, case_sensitive: bool) -> (r: bool)
    ensures
        r == answers_match(stored@, submitted@, case_sensitive),
{
    if case_sensitive {
        stored.eq(submitted)
    } else {
        eq_ignore_ascii_case_str(stored.as_str(), submitted.as_str())
    }
}

/// Classifies what a finder extracted before any storage access: either the
/// outcome that ends the attempt, or the token and answer to check.
pub fn check_request(skip: bool, token: Option<Option<String>>, answer: Option<Option<String>>) -> (r:
    Result<(String, String), CaptchaState>)
    ensures
        match request_check(skip, presence_view(token), presence_view(answer)) {
            Some(o) => r == Err::<(String, String), CaptchaState>(o),
            None => r matches Ok((t, a)) && token == Some(Some(t)) && answer == Some(Some(a)),
        },
{
    if skip {
        return Err(CaptchaState::Skipped);
    }
    let t = match token {
        None => return Err(CaptchaState::TokenNotFound),
        Some(None) => return Err(CaptchaState::WrongToken),
        Some(Some(t)) => t,
    };
    let a = match answer {
        None => return Err(CaptchaState::AnswerNotFound),
        Some(None) => return Err(CaptchaState::WrongAnswer),
        Some(Some(a)) => a,
    };
    Ok((t, a))
}

/// The outcome for the result of looking a token up in storage: a storage
/// failure, no record, or the stored answer compared with the submitted one.
pub fn outcome_of_lookup<E>(lookup: &Result<Option<String>, E>, submitted: &String, case_sensitive: bool) -> (r:
    CaptchaState)
    ensures
        r == lookup_state(*lookup, submitted@, case_sensitive),
{
    match lookup {
        Err(_) => CaptchaState::StorageError,
        Ok(None) => CaptchaState::WrongToken,
        Ok(Some(stored)) => if answer_matches(stored, submitted, case_sensitive) {
            CaptchaState::Passed
        } else {
            CaptchaState::WrongAnswer
        },
    }
}

/// The value of a present value, the empty sequence otherwise.
pub open spec fn present_value(p: Option<Option<String>>) -> Seq<char> {
    match p {
        Some(Some(v)) => v@,
        _ => Seq::empty(),
    }
}

/// The verification policy: the case policy of the comparison, and the
/// expiry settings that the sweeper runs with.
#[derive(Debug, Clone, Copy)]
pub struct Verifier {
    /// Whether answers are compared exactly (otherwise ASCII case is ignored).
    pub case_sensitive: bool,
    /// The age in milliseconds from which a record is removed by a sweep.
    pub expired_after: u64,
    /// The pause in milliseconds between two sweeps.
    pub clean_interval: u64,
}

impl Verifier {
    /// The default policy: case-sensitive, records expire after five minutes,
    /// a sweep every minute (both in milliseconds).
    pub fn new() -> (r: Self)
        ensures
            r.case_sensitive,
            r.expired_after == 300_000,
            r.clean_interval == 60_000,
    {
        Verifier { case_sensitive: true, expired_after: 300_000, clean_interval: 60_000 }
    }

    /// Compares answers ignoring ASCII case.
    pub fn case_insensitive(self) -> (r: Self)
        ensures
            !r.case_sensitive,
            r.expired_after == self.expired_after,
            r.clean_interval == self.clean_interval,
    {
        Verifier { case_sensitive: false, ..self }
    }

    /// Sets the age in milliseconds from which records expire.
    pub fn expired_after(self, expired_after: u64) -> (r: Self)
        ensures
            r.case_sensitive == self.case_sensitive,
            r.expired_after == expired_after,
            r.clean_interval == self.clean_interval,
    {
        Verifier { expired_after, ..self }
    }

    /// Sets the pause in milliseconds between two sweeps.
    pub fn clean_interval(self, clean_interval: u64) -> (r: Self)
        ensures
            r.case_sensitive == self.case_sensitive,
            r.expired_after == self.expired_after,
            r.clean_interval == clean_interval,
    {
        Verifier { clean_interval, ..self }
    }

    /// Classifies a token and an answer as extracted from a request (`None`:
    /// absent, `Some(None)`: malformed), consuming the token when the answer
    /// matches. `skip` is the caller's skip predicate for the request.
    ///
    /// Before any storage access: a skip gives `Skipped`, then an absent or
    /// malformed token `TokenNotFound` or `WrongToken`, then an absent or
    /// malformed answer `AnswerNotFound` or `WrongAnswer`. Then the stored
    /// answer is looked up: a storage failure gives `StorageError`, no record
    /// `WrongToken`, a match `Passed` (and the record is removed, whether or
    /// not the removal succeeds), a mismatch `WrongAnswer` (the record stays).
    pub fn verify<S: CaptchaStorage>(
        &self,
        storage: &mut S,
        skip: bool,
        token: Option<Option<String>>,
        answer: Option<Option<String>>,
    ) -> (r: CaptchaState)
        requires
            old(storage).well_formed(),
        ensures
            final(storage).well_formed(),
            match request_check(skip, presence_view(token), presence_view(answer)) {
                Some(o) => r == o && *final(storage) == *old(storage),
                None => {
                    &&& exists|l: Result<Option<String>, S::Error>|
                        #[trigger] old(storage).looked_up(present_value(token), l) && r == lookup_state(
                            l,
                            present_value(answer),
                            self.case_sensitive,
                        )
                    &&& r == CaptchaState::Passed ==> exists|d: Result<(), S::Error>|
                        #[trigger] S::removed(old(storage), final(storage), present_value(token), d)
                    &&& r != CaptchaState::Passed ==> *final(storage) == *old(storage)
                    &&& S::is_modelled() ==> (r, final(storage).answers()) == verify_answers(
                        old(storage).answers(),
                        present_value(token),
                        present_value(answer),
                        self.case_sensitive,
                    )
                },
            },
    {
        let ghost tv = present_value(token);
        let ghost av = present_value(answer);
        let (t, a) = match check_request(skip, token, answer) {
            Err(o) => return o,
            Ok(pair) => pair,
        };
        let lookup = storage.get_answer(t.as_str());
        let o = outcome_of_lookup(&lookup, &a, self.case_sensitive);
        assert(tv == t@ && av == a@);
        assert(old(storage).looked_up(tv, lookup) && o == lookup_state(lookup, av, self.case_sensitive));
        if o == CaptchaState::Passed {
            let ghost before = *storage;
            let removal = storage.clear_by_token(t.as_str());
            assert(S::removed(&before, storage, t@, removal));
        }
        o
    }
}

} // verus!
