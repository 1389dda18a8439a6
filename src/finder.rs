use vstd::prelude::*;
use vstd::string::StringExecFns;

verus! {

/// Where a token and an answer are found in the fields of a submitted form:
/// the names of the two fields.
#[derive(Debug, Clone)]
pub struct CaptchaFormFinder {
    /// The form name of the captcha token. Default: "captcha_token"
    pub token_name: String,
    /// The form name of the captcha answer. Default: "captcha_answer"
    pub answer_name: String,
}

impl CaptchaFormFinder {
    /// Creates a finder with the default field names.
    pub fn new() -> (r: Self)
        ensures
            r.token_name@ == "captcha_token"@,
            r.answer_name@ == "captcha_answer"@,
    {
        Self::default()
    }

    /// Sets the field name of the token.
    pub fn token_name(self, token_name: String) -> (r: Self)
        ensures
            r.token_name == token_name,
            r.answer_name == self.answer_name,
    {
        CaptchaFormFinder { token_name, ..self }
    }

    /// Sets the field name of the answer.
    pub fn answer_name(self, answer_name: String) -> (r: Self)
        ensures
            r.token_name == self.token_name,
            r.answer_name == answer_name,
    {
        CaptchaFormFinder { answer_name, ..self }
    }
}

impl Default for CaptchaFormFinder {
    fn default() -> (r: Self)
        ensures
            r.token_name@ == "captcha_token"@,
            r.answer_name@ == "captcha_answer"@,
    {
        CaptchaFormFinder {
            token_name: String::from_str("captcha_token"),
            answer_name: String::from_str("captcha_answer"),
        }
    }
}

/// Where a token and an answer are found in the query of a request: the
/// names of the two parameters.
#[derive(Debug, Clone)]
pub struct CaptchaQueryFinder {
    /// The query name of the captcha token. Default: "c_t"
    pub token_name: String,
    /// The query name of the captcha answer. Default: "c_a"
    pub answer_name: String,
}

impl CaptchaQueryFinder {
    /// Creates a finder with the default parameter names.
    pub fn new() -> (r: Self)
        ensures
            r.token_name@ == "c_t"@,
            r.answer_name@ == "c_a"@,
    {
        Self::default()
    }

    /// Sets the parameter name of the token.
    pub fn token_name(self, token_name: String) -> (r: Self)
        ensures
            r.token_name == token_name,
            r.answer_name == self.answer_name,
    {
        CaptchaQueryFinder { token_name, ..self }
    }

    /// Sets the parameter name of the answer.
    pub fn answer_name(self, answer_name: String) -> (r: Self)
        ensures
            r.token_name == self.token_name,
            r.answer_name == answer_name,
    {
        CaptchaQueryFinder { answer_name, ..self }
    }
}

impl Default for CaptchaQueryFinder {
    fn default() -> (r: Self)
        ensures
            r.token_name@ == "c_t"@,
            r.answer_name@ == "c_a"@,
    {
        CaptchaQueryFinder { token_name: String::from_str("c_t"), answer_name: String::from_str("c_a") }
    }
}

} // verus!
