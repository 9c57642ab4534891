use vstd::prelude::*;

use crate::json::{
    parse_json, spec_is_message_obj, spec_json_parse, spec_obj_lookup, find_key, message_obj, Json,
};
use crate::text::{spec_decimal, u16_to_decimal};

verus! {

/// The HTTP methods the relay forwards.
#[derive(Debug, Clone, Copy, PartialEq, Eq, Structural)]
pub enum Method {
    Get,
    Post,
    Put,
    Delete,
    Patch,
}

/// Whether `a` reads as `b` up to ASCII case, where `b` is an upper-case
/// letter: either the same character, or its lower-case counterpart.
pub open spec fn spec_char_ci(a: char, b: char) -> bool {
    a == b || a as u32 == b as u32 + 32
}

/// Whether `s` reads as the upper-case word `t` up to ASCII case.
pub open spec fn spec_matches_ci(s: Seq<char>, t: Seq<char>) -> bool {
    s.len() == t.len() && forall|i: int| 0 <= i < s.len() ==> spec_char_ci(s[i], t[i])
}

/// The method a request string names, matched without regard to ASCII case;
/// `None` for every string outside the five the relay supports.
pub open spec fn spec_method_of(s: Seq<char>) -> Option<Method> {
    if spec_matches_ci(s, "GET"@) {
        Some(Method::Get)
    } else if spec_matches_ci(s, "POST"@) {
        Some(Method::Post)
    } else if spec_matches_ci(s, "PUT"@) {
        Some(Method::Put)
    } else if spec_matches_ci(s, "DELETE"@) {
        Some(Method::Delete)
    } else if spec_matches_ci(s, "PATCH"@) {
        Some(Method::Patch)
    } else {
        None
    }
}

fn matches_ci(s: &str, t: &str) -> (r: bool)
    ensures
        r == spec_matches_ci(s@, t@),
{
    let n = s.unicode_len();
    let m = t.unicode_len();
    if n != m {
        return false;
    }
    let mut i: usize = 0;
    while i < n
        invariant
            i <= n,
            n == s@.len(),
            n == t@.len(),
            forall|j: int| 0 <= j < i ==> spec_char_ci(s@[j], t@[j]),
        decreases n - i,
    {
        let a = s.get_char(i);
        let b = t.get_char(i);
        if !(a == b || (a as u32) == (b as u32) + 32) {
            return false;
        }
        i = i + 1;
    }
    true
}

/// Maps a method string to the method it names, or `None` for an
/// unsupported one.
pub fn parse_method(s: &str) -> (r: Option<Method>)
    ensures
        r == spec_method_of(s@),
{
    if matches_ci(s, "GET") {
        Some(Method::Get)
    } else if matches_ci(s, "POST") {
        Some(Method::Post)
    } else if matches_ci(s, "PUT") {
        Some(Method::Put)
    } else if matches_ci(s, "DELETE") {
        Some(Method::Delete)
    } else if matches_ci(s, "PATCH") {
        Some(Method::Patch)
    } else {
        None
    }
}

/// Whether an HTTP status code counts as success (the 2xx range).
pub open spec fn spec_is_success(status: u16) -> bool {
    200 <= status < 300
}

/// Executable check for the 2xx range.
pub fn is_success(status: u16) -> (r: bool)
    ensures
        r == spec_is_success(status),
{
    200 <= status && status < 300
}

/// The canonical reason phrase of a status code, or the empty string where
/// none is registered; a fixed table lookup on the code alone.
pub uninterp spec fn spec_reason_of(status: u16) -> Seq<char>;

/// Relies on http's StatusCode::from_u16 and StatusCode::canonical_reason
/// (reached through reqwest): the reason phrase is a constant table lookup,
/// a function of the code alone, with `None` for unregistered codes and an
/// error for codes outside 100..=999.
#[verifier::external_body]
fn status_reason(status: u16) -> (r: String)
    ensures
        r@ == spec_reason_of(status),
{
    match reqwest::StatusCode::from_u16(status) {
        Ok(c) => c.canonical_reason().unwrap_or("").to_owned(),
        Err(_) => String::new(),
    }
}

/// What a relay call hands back to the front end: the remote status, its
/// reason phrase, and the body as a JSON document.
#[derive(Debug, PartialEq, Eq)]
pub struct ApiResponse {
    pub status: u16,
    pub status_text: String,
    pub data: Json,
}

/// Normalizes a response the transport delivered. A body that parses is
/// passed through as parsed, whatever the status; on a successful status an
/// unparseable body degrades to `null`, on a failing status it is wrapped
/// as `{"message": <body>}`. The call never fails: a non-2xx status is
/// data, not an error of the relay.
pub fn api_response_of(status: u16, body: &str) -> (r: ApiResponse)
    ensures
        r.status == status,
        r.status_text@ == spec_reason_of(status),
        spec_json_parse(body@) matches Some(j) ==> r.data == j,
        spec_json_parse(body@) is None && spec_is_success(status) ==> r.data == Json::Null,
        spec_json_parse(body@) is None && !spec_is_success(status) ==> spec_is_message_obj(
            r.data,
            body@,
        ),
{
    let data = match parse_json(body) {
        Some(j) => j,
        None => {
            if is_success(status) {
                Json::Null
            } else {
                message_obj(body)
            }
        },
    };
    ApiResponse { status, status_text: status_reason(status), data }
}

/// The ways a relay call fails. A human-readable string for each is given
/// by `message`; callers that need to branch go by the variant, never by
/// the string.
#[derive(Debug, PartialEq, Eq)]
pub enum RelayError {
    /// The request named a method outside the five supported ones; nothing
    /// was sent.
    UnsupportedMethod(String),
    /// The transport failed before any response arrived; the string is the
    /// transport's own description.
    Transport(String),
    /// A login call got a response with a status outside the 2xx range.
    Http { status: u16, body: String },
    /// A login call got a successful status but a body that does not parse
    /// as the expected shape.
    Parse,
}

impl RelayError {
    /// The human-readable description of the failure.
    pub open spec fn spec_message(&self) -> Seq<char> {
        match self {
            RelayError::UnsupportedMethod(m) => "Unsupported HTTP method: "@ + m@,
            RelayError::Transport(e) => "Request failed: "@ + e@,
            RelayError::Http { status, body } => "HTTP "@ + spec_decimal(*status as nat) + ": "@
                + body@,
            RelayError::Parse => "Failed to parse response"@,
        }
    }

    /// Renders the failure as the error string handed across the boundary.
    pub fn message(&self) -> (r: String)
        ensures
            r@ == self.spec_message(),
    {
        match self {
            RelayError::UnsupportedMethod(m) => {
                let mut s = String::from_str("Unsupported HTTP method: ");
                s.append(m.as_str());
                s
            },
            RelayError::Transport(e) => {
                let mut s = String::from_str("Request failed: ");
                s.append(e.as_str());
                s
            },
            RelayError::Http { status, body } => {
                let mut s = String::from_str("HTTP ");
                let digits = u16_to_decimal(*status);
                s.append(digits.as_str());
                s.append(": ");
                s.append(body.as_str());
                s
            },
            RelayError::Parse => String::from_str("Failed to parse response"),
        }
    }
}

/// What the front end hands the relay: a method string, a URL, optional
/// headers (keys unique), and an optional JSON body.
#[derive(Debug, PartialEq, Eq)]
pub struct ApiRequestOptions {
    pub method: String,
    pub url: String,
    pub headers: Option<Vec<(String, String)>>,
    pub body: Option<Json>,
}

/// A validated request, ready for the transport: the parsed method, the
/// URL and headers passed through verbatim, and the body as given.
#[derive(Debug, PartialEq, Eq)]
pub struct RequestPlan {
    pub method: Method,
    pub url: String,
    pub headers: Vec<(String, String)>,
    pub body: Option<Json>,
}

/// Validates a request before any network work. Fails exactly on a method
/// outside the supported five, with nothing sent; otherwise passes the
/// URL, every header, and the body through unchanged.
pub fn prepare_request(options: ApiRequestOptions) -> (r: Result<RequestPlan, RelayError>)
    ensures
        r is Ok <==> spec_method_of(options.method@) is Some,
        r matches Ok(p) ==> {
            &&& Some(p.method) == spec_method_of(options.method@)
            &&& p.url == options.url
            &&& match options.headers {
                Some(h) => p.headers == h,
                None => p.headers@ == Seq::<(String, String)>::empty(),
            }
            &&& p.body == options.body
        },
        r matches Err(e) ==> e == (RelayError::UnsupportedMethod(options.method)),
{
    match parse_method(options.method.as_str()) {
        None => Err(RelayError::UnsupportedMethod(options.method)),
        Some(method) => {
            let headers = match options.headers {
                Some(h) => h,
                None => Vec::new(),
            };
            Ok(RequestPlan { method, url: options.url, headers, body: options.body })
        },
    }
}

/// Whether `j` is the object `{"userId": <uid>, "password": <pw>}`.
pub open spec fn spec_is_login_body(j: Json, uid: Seq<char>, pw: Seq<char>) -> bool {
    match j {
        Json::Obj(fields) => {
            &&& fields@.len() == 2
            &&& fields@[0].0@ == "userId"@
            &&& match fields@[0].1 {
                Json::Str(u) => u@ == uid,
                _ => false,
            }
            &&& fields@[1].0@ == "password"@
            &&& match fields@[1].1 {
                Json::Str(p) => p@ == pw,
                _ => false,
            }
        },
        _ => false,
    }
}

/// Builds the JSON body a login call posts.
pub fn login_body(user_id: &str, password: &str) -> (r: Json)
    ensures
        spec_is_login_body(r, user_id@, password@),
{
    let mut fields: Vec<(String, Json)> = Vec::new();
    fields.push((String::from_str("userId"), Json::Str(String::from_str(user_id))));
    fields.push((String::from_str("password"), Json::Str(String::from_str(password))));
    Json::Obj(fields)
}

/// What a successful login hands back: the access token and the user
/// record, passed through as the server sent it.
#[derive(Debug, PartialEq, Eq)]
pub struct LoginResponse {
    pub access_token: String,
    pub user: Json,
}

/// The login shape read out of a parsed body: an object with an
/// "accessToken" member holding a string and a "user" member holding any
/// value; `None` for every other document.
pub open spec fn spec_login_from_json(j: Json) -> Option<LoginResponse> {
    match j {
        Json::Obj(fields) => match spec_obj_lookup(fields@, "accessToken"@) {
            Some(Json::Str(tok)) => match spec_obj_lookup(fields@, "user"@) {
                Some(u) => Some(LoginResponse { access_token: tok, user: u }),
                None => None,
            },
            _ => None,
        },
        _ => None,
    }
}

/// The login response a body text denotes, if it parses as the expected
/// shape.
pub open spec fn spec_login_of(s: Seq<char>) -> Option<LoginResponse> {
    match spec_json_parse(s) {
        Some(j) => spec_login_from_json(j),
        None => None,
    }
}

/// Reads the login shape out of a parsed document.
pub fn extract_login(j: Json) -> (r: Option<LoginResponse>)
    ensures
        r == spec_login_from_json(j),
{
    match j {
        Json::Obj(mut fields) => {
            let tok_key = String::from_str("accessToken");
            let user_key = String::from_str("user");
            let ia = match find_key(&fields, &tok_key) {
                Some(i) => i,
                None => {
                    return None;
                },
            };
            let tok_is_str = match &fields[ia].1 {
                Json::Str(_) => true,
                _ => false,
            };
            if !tok_is_str {
                return None;
            }
            let iu = match find_key(&fields, &user_key) {
                Some(i) => i,
                None => {
                    return None;
                },
            };
            proof {
                reveal_strlit("accessToken");
                reveal_strlit("user");
                assert(fields@[ia as int].0@.len() == 11);
                assert(fields@[iu as int].0@.len() == 4);
                assert(ia != iu);
            }
            let ghost fields0 = fields@;
            let hi: usize = if ia > iu { ia } else { iu };
            let lo: usize = if ia > iu { iu } else { ia };
            let p_hi = fields.remove(hi);
            let p_lo = fields.remove(lo);
            proof {
                assert(fields0.remove(hi as int)[lo as int] == fields0[lo as int]);
            }
            let (tok_pair, user_pair) = if ia > iu {
                (p_hi, p_lo)
            } else {
                (p_lo, p_hi)
            };
            match tok_pair.1 {
                Json::Str(t) => Some(LoginResponse { access_token: t, user: user_pair.1 }),
                _ => {
                    proof {
                        assert(false);
                    }
                    None
                },
            }
        },
        _ => None,
    }
}

/// Interprets what the transport delivered for a login call. A status
/// outside the 2xx range fails with the status and the body text; a
/// successful status fails exactly when the body does not parse as the
/// login shape, and otherwise hands that shape back.
pub fn interpret_login_response(status: u16, body: &str) -> (r: Result<LoginResponse, RelayError>)
    ensures
        !spec_is_success(status) ==> match r {
            Err(RelayError::Http { status: s, body: b }) => s == status && b@ == body@,
            _ => false,
        },
        spec_is_success(status) ==> match spec_login_of(body@) {
            Some(lr) => r == Ok::<LoginResponse, RelayError>(lr),
            None => r == Err::<LoginResponse, RelayError>(RelayError::Parse),
        },
{
    if !is_success(status) {
        return Err(RelayError::Http { status, body: String::from_str(body) });
    }
    match parse_json(body) {
        None => Err(RelayError::Parse),
        Some(j) => match extract_login(j) {
            Some(lr) => Ok(lr),
            None => Err(RelayError::Parse),
        },
    }
}

} // verus!
