//! Requests to the account service and the checks on its answers.
use vstd::prelude::*;
use vstd::string::StringExecFns;

use crate::error::{Error, RequestKind};

verus! {

/// Whether an account is logged into or registered.
#[derive(Debug, Clone, Copy, PartialEq, Eq, Structural)]
pub enum AuthMode {
    Login,
    Register,
}

impl AuthMode {
    pub open spec fn spec_kind(self) -> RequestKind {
        match self {
            AuthMode::Login => RequestKind::Login,
            AuthMode::Register => RequestKind::Register,
        }
    }

    /// The request kind that authenticates in this mode.
    pub fn kind(&self) -> (r: RequestKind)
        ensures
            r == self.spec_kind(),
    {
        match self {
            AuthMode::Login => RequestKind::Login,
            AuthMode::Register => RequestKind::Register,
        }
    }
}

/// A request to send: `POST url` with the JSON document `body`.
#[derive(Debug)]
pub struct Request {
    pub kind: RequestKind,
    pub url: String,
    pub body: String,
}

/// The path of each request under the server endpoint.
pub open spec fn path_of(kind: RequestKind) -> Seq<char> {
    match kind {
        RequestKind::Login => "login"@,
        RequestKind::Register => "register"@,
        RequestKind::CreateCharacter => "character/create"@,
    }
}

/// Lower-case hexadecimal digit of `n` (below sixteen).
pub open spec fn hex_digit(n: u32) -> char {
    "0123456789abcdef"@[n as int]
}

/// How a JSON string literal writes the character `c`: `"` and `\` with a
/// backslash, the usual short escapes for backspace, tab, line feed, form
/// feed and carriage return, other control characters as `\u00XX`, and any
/// other character as it is.
pub open spec fn escaped_char(c: char) -> Seq<char> {
    if c == '"' {
        "\\\""@
    } else if c == '\\' {
        "\\\\"@
    } else if c == '\u{8}' {
        "\\b"@
    } else if c == '\t' {
        "\\t"@
    } else if c == '\n' {
        "\\n"@
    } else if c == '\u{c}' {
        "\\f"@
    } else if c == '\r' {
        "\\r"@
    } else if (c as u32) < 0x20 {
        "\\u00"@ + seq![hex_digit((c as u32) / 16), hex_digit((c as u32) % 16)]
    } else {
        seq![c]
    }
}

/// The characters of `s`, each as a JSON string literal writes it.
pub open spec fn escaped(s: Seq<char>) -> Seq<char>
    decreases s.len(),
{
    if s.len() == 0 {
        Seq::empty()
    } else {
        escaped(s.drop_last()) + escaped_char(s.last())
    }
}

/// The JSON string literal for `s`.
pub open spec fn json_text(s: Seq<char>) -> Seq<char> {
    "\""@ + escaped(s) + "\""@
}

/// Relies on serde_json::to_string applied to a `str`: the JSON string
/// literal for `s`, written with serde_json's escape table. Writing a `str`
/// into a buffer does not fail.
#[verifier::external_body]
fn json_string(s: &str) -> (r: String)
    ensures
        r@ == json_text(s@),
{
    serde_json::to_string(s).unwrap_or_default()
}

/// The URL of a request of kind `kind` on the endpoint `server`.
pub open spec fn url_of(server: Seq<char>, kind: RequestKind) -> Seq<char> {
    server + "/"@ + path_of(kind)
}

/// The JSON body that carries a user's credentials.
pub open spec fn credentials_json(username: Seq<char>, password: Seq<char>) -> Seq<char> {
    "{\"username\":"@ + json_text(username) + ",\"password\":"@ + json_text(password) + "}"@
}

/// The JSON body that carries a session token.
pub open spec fn token_json(token: Seq<char>) -> Seq<char> {
    "{\"token\":"@ + json_text(token) + "}"@
}

/// The URL of a request of kind `kind` on the endpoint `server`.
pub fn request_url(server: &str, kind: RequestKind) -> (r: String)
    ensures
        r@ == url_of(server@, kind),
{
    let mut url = server.to_owned();
    url.append("/");
    match kind {
        RequestKind::Login => url.append("login"),
        RequestKind::Register => url.append("register"),
        RequestKind::CreateCharacter => url.append("character/create"),
    }
    url
}

/// The login or registration request for the given credentials.
pub fn auth_request(server: &str, mode: AuthMode, username: &str, password: &str) -> (r: Request)
    ensures
        r.kind == mode.spec_kind(),
        r.url@ == url_of(server@, mode.spec_kind()),
        r.body@ == credentials_json(username@, password@),
{
    let kind = mode.kind();
    let url = request_url(server, kind);
    let mut body = "{\"username\":".to_owned();
    let user = json_string(username);
    body.append(user.as_str());
    body.append(",\"password\":");
    let pass = json_string(password);
    body.append(pass.as_str());
    body.append("}");
    Request { kind, url, body }
}

/// The request that creates a character for the session `token`.
pub fn create_character_request(server: &str, token: &str) -> (r: Request)
    ensures
        r.kind == RequestKind::CreateCharacter,
        r.url@ == url_of(server@, RequestKind::CreateCharacter),
        r.body@ == token_json(token@),
{
    let url = request_url(server, RequestKind::CreateCharacter);
    let mut body = "{\"token\":".to_owned();
    let quoted = json_string(token);
    body.append(quoted.as_str());
    body.append("}");
    Request { kind: RequestKind::CreateCharacter, url, body }
}

/// Whether an HTTP status is a success (2xx).
pub open spec fn is_success(status: u16) -> bool {
    200 <= status <= 299
}

/// Accepts a response with a success status and hands its body on for
/// decoding; any other status is a server error that carries the status and
/// the body text.
pub fn check_status(kind: RequestKind, status: u16, body: String) -> (r: Result<String, Error>)
    ensures
        is_success(status) ==> r == Ok::<String, Error>(body),
        !is_success(status) ==> r == Err::<String, Error>(Error::ServerError { request: kind, status, body }),
{
    if 200 <= status && status <= 299 {
        Ok(body)
    } else {
        Err(Error::ServerError { request: kind, status, body })
    }
}

} // verus!
