//! Login-response handling for the upstream's two historical response
//! shapes, and the decision rules of bulk token acquisition. The HTTP POST
//! itself happens outside the library; this module turns a status and a body
//! into a token or a precise failure.
//!
//! Shape X: `{"userToken": "...", "resultCode": 0, "msg": "..."}` — success
//! iff `resultCode` is 0 or absent; the token sits at `userToken`.
//! Shape Y: `{"session": "...", "user": "...", "code": "0"|"1",
//! "message": "...", "result": ["<token>", ...]}` — success iff `code` is
//! `"0"` or absent; the token is the first element of `result`.

use vstd::prelude::*;
use vstd::string::*;

use crate::error::TppError;
use crate::text::dec_str;

verus! {

/// The fields a login response body may carry, across both shapes. A field
/// is `None` when it is absent or not of the expected JSON type.
pub struct LoginFields {
    /// Shape X: the token itself.
    pub user_token: Option<String>,
    /// Shape X: 0 on success.
    pub result_code: Option<i64>,
    /// Shape X: error description.
    pub msg: Option<String>,
    /// Shape Y: `"0"` on success.
    pub code: Option<String>,
    /// Shape Y: error description.
    pub message: Option<String>,
    /// Shape Y: the first element of the `result` array.
    pub result_first: Option<String>,
}

/// The mathematical value of an optional string.
pub open spec fn opt_str_view(o: Option<String>) -> Option<Seq<char>> {
    match o {
        Some(s) => Some(s@),
        None => None,
    }
}

/// The mathematical value of a `LoginFields`.
pub struct LoginFieldsV {
    pub user_token: Option<Seq<char>>,
    pub result_code: Option<i64>,
    pub msg: Option<Seq<char>>,
    pub code: Option<Seq<char>>,
    pub message: Option<Seq<char>>,
    pub result_first: Option<Seq<char>>,
}

impl View for LoginFields {
    type V = LoginFieldsV;

    open spec fn view(&self) -> LoginFieldsV {
        LoginFieldsV {
            user_token: opt_str_view(self.user_token),
            result_code: self.result_code,
            msg: opt_str_view(self.msg),
            code: opt_str_view(self.code),
            message: opt_str_view(self.message),
            result_first: opt_str_view(self.result_first),
        }
    }
}

/// Why a login attempt yielded no token.
#[derive(Debug)]
pub enum LoginFailure {
    /// The upstream answered with a non-success HTTP status.
    BadStatus(u16),
    /// The response body was not valid JSON.
    Unparseable,
    /// The upstream reported failure; carries the message it sent, possibly
    /// empty.
    Rejected(String),
    /// The response reported success but carried no token field.
    MissingToken,
}

/// The mathematical value of a `LoginFailure`.
pub enum LoginFailureV {
    BadStatus(u16),
    Unparseable,
    Rejected(Seq<char>),
    MissingToken,
}

impl View for LoginFailure {
    type V = LoginFailureV;

    open spec fn view(&self) -> LoginFailureV {
        match self {
            LoginFailure::BadStatus(s) => LoginFailureV::BadStatus(*s),
            LoginFailure::Unparseable => LoginFailureV::Unparseable,
            LoginFailure::Rejected(m) => LoginFailureV::Rejected(m@),
            LoginFailure::MissingToken => LoginFailureV::MissingToken,
        }
    }
}

/// The mathematical value of a login attempt's outcome.
pub open spec fn login_result_view(r: Result<String, LoginFailure>) -> Result<
    Seq<char>,
    LoginFailureV,
> {
    match r {
        Ok(s) => Ok(s@),
        Err(f) => Err(f@),
    }
}

/// A response is treated as shape X when either shape-X field is present.
pub open spec fn is_shape_x(f: LoginFieldsV) -> bool {
    f.user_token is Some || f.result_code is Some
}

/// What a parsed login response yields: the token on success, and the exact
/// failure otherwise. Shape X succeeds iff `resultCode` is 0 or absent;
/// shape Y succeeds iff `code` is `"0"` or absent; a success without its
/// token field is a missing token.
pub open spec fn spec_evaluate(f: LoginFieldsV) -> Result<Seq<char>, LoginFailureV> {
    if is_shape_x(f) {
        match f.result_code {
            Some(rc) => if rc != 0 {
                Err(
                    LoginFailureV::Rejected(
                        match f.msg {
                            Some(m) => m,
                            None => Seq::empty(),
                        },
                    ),
                )
            } else {
                match f.user_token {
                    Some(t) => Ok(t),
                    None => Err(LoginFailureV::MissingToken),
                }
            },
            None => match f.user_token {
                Some(t) => Ok(t),
                None => Err(LoginFailureV::MissingToken),
            },
        }
    } else {
        match f.code {
            Some(c) => if c != "0"@ {
                Err(
                    LoginFailureV::Rejected(
                        match f.message {
                            Some(m) => m,
                            None => Seq::empty(),
                        },
                    ),
                )
            } else {
                match f.result_first {
                    Some(t) => Ok(t),
                    None => Err(LoginFailureV::MissingToken),
                }
            },
            None => match f.result_first {
                Some(t) => Ok(t),
                None => Err(LoginFailureV::MissingToken),
            },
        }
    }
}

/// Extracts the token from parsed login fields, or says exactly why there
/// is none.
pub fn evaluate_login(fields: &LoginFields) -> (r: Result<String, LoginFailure>)
    ensures
        login_result_view(r) == spec_evaluate(fields@),
{
    let shape_x = fields.user_token.is_some() || fields.result_code.is_some();
    if shape_x {
        let rejected = match &fields.result_code {
            Some(rc) => *rc != 0,
            None => false,
        };
        if rejected {
            let m = match &fields.msg {
                Some(m) => m.clone(),
                None => String::new(),
            };
            return Err(LoginFailure::Rejected(m));
        }
        match &fields.user_token {
            Some(t) => Ok(t.clone()),
            None => Err(LoginFailure::MissingToken),
        }
    } else {
        let zero = "0".to_owned();
        let rejected = match &fields.code {
            Some(c) => !(*c == zero),
            None => false,
        };
        if rejected {
            let m = match &fields.message {
                Some(m) => m.clone(),
                None => String::new(),
            };
            return Err(LoginFailure::Rejected(m));
        }
        match &fields.result_first {
            Some(t) => Ok(t.clone()),
            None => Err(LoginFailure::MissingToken),
        }
    }
}

/// The fields that parsing a login body yields, or `None` when the body is
/// not valid JSON. A function of the body text alone.
pub uninterp spec fn login_fields_of(s: Seq<char>) -> Option<LoginFieldsV>;

/// Relies on `serde_json::from_str` and `serde_json::Value`'s accessors
/// (`get`, `as_str`, `as_i64`, `as_array`): what they yield depends on the
/// body text alone; `from_str` errs exactly on invalid JSON.
#[verifier::external_body]
fn parse_login_fields(body: &str) -> (r: Option<LoginFields>)
    ensures
        r is Some <==> login_fields_of(body@) is Some,
        r matches Some(f) ==> (login_fields_of(body@) matches Some(fv) && f@ == fv),
{
    let v: serde_json::Value = match serde_json::from_str(body) {
        Ok(v) => v,
        Err(_) => return None,
    };
    let text = |k: &str| v.get(k).and_then(|x| x.as_str()).map(|x| x.to_owned());
    Some(LoginFields {
        user_token: text("userToken"),
        result_code: v.get("resultCode").and_then(|x| x.as_i64()),
        msg: text("msg"),
        code: text("code"),
        message: text("message"),
        result_first: v.get("result").and_then(|x| x.as_array()).and_then(|a| a.first()).and_then(
            |x| x.as_str(),
        ).map(|x| x.to_owned()),
    })
}

/// An HTTP status that counts as success: the 2xx range.
pub open spec fn status_success(status: u16) -> bool {
    200 <= status < 300
}

/// What handling a login response yields, as a function of the HTTP status
/// and the body text.
pub open spec fn spec_login_outcome(status: u16, body: Seq<char>) -> Result<
    Seq<char>,
    LoginFailureV,
> {
    if !status_success(status) {
        Err(LoginFailureV::BadStatus(status))
    } else {
        match login_fields_of(body) {
            None => Err(LoginFailureV::Unparseable),
            Some(f) => spec_evaluate(f),
        }
    }
}

/// Turns a login response — HTTP status and body text — into the token it
/// carries, or the exact failure.
pub fn process_login_response(status: u16, body: &str) -> (r: Result<String, LoginFailure>)
    ensures
        login_result_view(r) == spec_login_outcome(status, body@),
{
    if !(200 <= status && status < 300) {
        return Err(LoginFailure::BadStatus(status));
    }
    match parse_login_fields(body) {
        None => Err(LoginFailure::Unparseable),
        Some(f) => evaluate_login(&f),
    }
}

/// The login endpoint under a base URL.
pub fn login_url(base_url: &str) -> (r: String)
    ensures
        r@ == base_url@ + "/api/login"@,
{
    let mut s = base_url.to_owned();
    s.append("/api/login");
    s
}

/// The message a login failure is reported with, naming the user it
/// happened for.
pub open spec fn spec_failure_message(f: LoginFailureV, username: Seq<char>) -> Seq<char> {
    match f {
        LoginFailureV::BadStatus(s) => "Login failed for user '"@ + username + "': HTTP "@
            + dec_str(s as int),
        LoginFailureV::Unparseable => "Failed to parse login response for user '"@ + username
            + "'"@,
        LoginFailureV::Rejected(m) => "Login failed for user '"@ + username + "': "@ + (if m.len()
            == 0 {
            "Unknown error"@
        } else {
            m
        }),
        LoginFailureV::MissingToken => "Login response for user '"@ + username
            + "' missing token in result"@,
    }
}

impl LoginFailure {
    /// Renders the failure as the message it is logged and reported with.
    pub fn message_for(&self, username: &str) -> (r: String)
        ensures
            r@ == spec_failure_message(self@, username@),
    {
        match self {
            LoginFailure::BadStatus(s) => {
                let mut out = "Login failed for user '".to_owned();
                out.append(username);
                out.append("': HTTP ");
                crate::text::push_decimal(&mut out, *s as u64);
                proof {
                    assert(out@ =~= spec_failure_message(self@, username@));
                }
                out
            },
            LoginFailure::Unparseable => {
                let mut out = "Failed to parse login response for user '".to_owned();
                out.append(username);
                out.append("'");
                proof {
                    assert(out@ =~= spec_failure_message(self@, username@));
                }
                out
            },
            LoginFailure::Rejected(m) => {
                let mut out = "Login failed for user '".to_owned();
                out.append(username);
                out.append("': ");
                if m.as_str().is_empty() {
                    out.append("Unknown error");
                } else {
                    out.append(m.as_str());
                }
                proof {
                    assert(out@ =~= spec_failure_message(self@, username@));
                }
                out
            },
            LoginFailure::MissingToken => {
                let mut out = "Login response for user '".to_owned();
                out.append(username);
                out.append("' missing token in result");
                proof {
                    assert(out@ =~= spec_failure_message(self@, username@));
                }
                out
            },
        }
    }

    /// Wraps the failure into the library's error type.
    pub fn into_error(self, username: &str) -> (r: TppError)
        ensures
            r matches TppError::TokenPool(m) && m@ == spec_failure_message(self@, username@),
    {
        TppError::TokenPool(self.message_for(username))
    }
}

/// The token values among a run of login outcomes, in order.
pub open spec fn successes(outcomes: Seq<Option<String>>) -> Seq<Seq<char>>
    decreases outcomes.len(),
{
    if outcomes.len() == 0 {
        Seq::empty()
    } else {
        let rest = successes(outcomes.drop_last());
        match outcomes.last() {
            Some(t) => rest.push(t@),
            None => rest,
        }
    }
}

/// The mathematical values of a vector of strings.
pub open spec fn strings_view(s: Seq<String>) -> Seq<Seq<char>> {
    Seq::new(s.len(), |i: int| s[i]@)
}

/// The decision at the end of bulk acquisition: keep every token that was
/// obtained, in order, and fail only when none was. Each entry of
/// `outcomes` is one login attempt's token, or `None` where the attempt
/// failed.
pub fn collect_tokens(outcomes: &Vec<Option<String>>) -> (r: Result<Vec<String>, TppError>)
    ensures
        successes(outcomes@).len() > 0 ==> (r matches Ok(v) && strings_view(v@) == successes(
            outcomes@,
        )),
        successes(outcomes@).len() == 0 ==> (r matches Err(TppError::TokenPool(m)) && m@
            == "Failed to acquire any tokens. Check credentials and DolphinDB connectivity."@),
{
    let n = outcomes.len();
    let mut acc: Vec<String> = Vec::new();
    let mut i: usize = 0;
    while i < n
        invariant
            i <= n,
            n == outcomes@.len(),
            strings_view(acc@) =~= successes(outcomes@.subrange(0, i as int)),
        decreases n - i,
    {
        proof {
            assert(outcomes@.subrange(0, i + 1).drop_last() =~= outcomes@.subrange(0, i as int));
            assert(outcomes@.subrange(0, i + 1).last() == outcomes@[i as int]);
        }
        match &outcomes[i] {
            Some(t) => {
                acc.push(t.clone());
                proof {
                    assert(strings_view(acc@) =~= successes(outcomes@.subrange(0, i + 1)));
                }
            },
            None => {
                proof {
                    assert(strings_view(acc@) =~= successes(outcomes@.subrange(0, i + 1)));
                }
            },
        }
        i = i + 1;
    }
    proof {
        assert(outcomes@.subrange(0, n as int) =~= outcomes@);
    }
    if acc.len() == 0 {
        proof {
            assert(successes(outcomes@).len() == strings_view(acc@).len());
        }
        Err(
            TppError::TokenPool(
                "Failed to acquire any tokens. Check credentials and DolphinDB connectivity.".to_owned(),
            ),
        )
    } else {
        Ok(acc)
    }
}

} // verus!
