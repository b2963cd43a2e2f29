//! The backend registrar: the request that binds a new database to the
//! coordination backend, and the classification of the backend's reply.
//!
//! The request is a POST of `{"ipAddr": <address>}` to
//! `http://<backend>:8000/api/add-db`. A reply whose status is not 2xx fails
//! with that status and its body is not read. Otherwise the body is parsed as
//! JSON: an `error` member fails with its text, else a `success` member is
//! returned as its text, else the reply is malformed.
use vstd::prelude::*;

verus! {

#[verifier::external_type_specification]
#[verifier::external_body]
pub struct ExJsonValue(serde_json::Value);

#[verifier::external_type_specification]
#[verifier::external_body]
pub struct ExJsonError(serde_json::Error);

/// Whether serde_json accepts the text as one JSON value.
pub uninterp spec fn is_json(text: Seq<char>) -> bool;

/// The member under `key` of the JSON object that serde_json reads from
/// `text`, stringified: a JSON string gives its content, any other value its
/// compact JSON text. `None` where the text holds no such member.
pub uninterp spec fn json_member_text(text: Seq<char>, key: Seq<char>) -> Option<Seq<char>>;

/// The hexadecimal digit of `n`, in lower case.
pub open spec fn hex_digit(n: u32) -> char {
    "0123456789abcdef"@[n as int]
}

/// How serde_json writes one character inside a JSON string literal.
pub open spec fn escape_char(c: char) -> Seq<char> {
    if c == '"' {
        seq!['\\', '"']
    } else if c == '\\' {
        seq!['\\', '\\']
    } else if c == '\x08' {
        seq!['\\', 'b']
    } else if c == '\t' {
        seq!['\\', 't']
    } else if c == '\n' {
        seq!['\\', 'n']
    } else if c == '\x0C' {
        seq!['\\', 'f']
    } else if c == '\r' {
        seq!['\\', 'r']
    } else if (c as u32) < 0x20 {
        seq!['\\', 'u', '0', '0', hex_digit((c as u32) / 16), hex_digit((c as u32) % 16)]
    } else {
        seq![c]
    }
}

/// The characters of a text, each escaped.
pub open spec fn escaped(s: Seq<char>) -> Seq<char>
    decreases s.len(),
{
    if s.len() == 0 {
        seq![]
    } else {
        escape_char(s[0]) + escaped(s.drop_first())
    }
}

/// The JSON string literal of a text: its escaped characters between quotes.
pub open spec fn json_string_literal(text: Seq<char>) -> Seq<char> {
    seq!['"'] + escaped(text) + seq!['"']
}

/// Relies on `serde_json::from_str` into a `Value`: it succeeds exactly on
/// the texts that hold one JSON value, which depends on the text alone.
#[verifier::external_body]
fn parse_json(text: &str) -> (r: Result<serde_json::Value, serde_json::Error>)
    ensures
        r is Ok <==> is_json(text@),
{
    serde_json::from_str(text)
}

/// Relies on `serde_json::from_str` into a `Value`, on `Value::get` with a
/// string key, and on the `Display` of `Value`: the member under `key`,
/// stringified, which depends on the text and the key alone.
#[verifier::external_body]
fn member_text(text: &str, key: &str) -> (r: Option<String>)
    ensures
        r is Some <==> json_member_text(text@, key@) is Some,
        r matches Some(m) ==> json_member_text(text@, key@) == Some(m@),
{
    let v: serde_json::Value = serde_json::from_str(text).ok()?;
    match v.get(key)? {
        serde_json::Value::String(s) => Some(s.clone()),
        m => Some(m.to_string()),
    }
}

/// Relies on the `Display` of `serde_json::Value`, applied to a string value:
/// the text written as a JSON string literal (serde_json's `format_escaped_str`).
#[verifier::external_body]
fn json_quote(text: &str) -> (r: String)
    ensures
        r@ == json_string_literal(text@),
{
    serde_json::Value::String(text.to_string()).to_string()
}

/// Why a registration failed.
#[derive(PartialEq, Eq, Debug)]
pub enum RegistrationError {
    /// The backend could not be reached.
    Unreachable,
    /// The backend answered with a status that is not 2xx.
    Status(u16),
    /// The body of the reply could not be read.
    UnreadableBody,
    /// The body of the reply is not JSON.
    InvalidJson,
    /// The backend reported an error; this is its payload, stringified.
    Backend(String),
    /// The reply holds neither an `error` nor a `success` member.
    MalformedResponse,
}

/// The members of a JSON reply that decide the result, each stringified.
pub struct BackendReply {
    pub error: Option<String>,
    pub success: Option<String>,
}

pub open spec fn spec_registration_url(backend_addr: Seq<char>) -> Seq<char> {
    "http://"@ + backend_addr + ":8000/api/add-db"@
}

pub open spec fn spec_registration_body(ip_addr: Seq<char>) -> Seq<char> {
    "{\"ipAddr\":"@ + json_string_literal(ip_addr) + "}"@
}

pub open spec fn is_success_status(status: u16) -> bool {
    200 <= status < 300
}

/// The result that a parsed reply stands for.
pub open spec fn spec_classify(reply: BackendReply) -> Result<String, RegistrationError> {
    match reply.error {
        Some(e) => Err(RegistrationError::Backend(e)),
        None => match reply.success {
            Some(s) => Ok(s),
            None => Err(RegistrationError::MalformedResponse),
        },
    }
}

/// The URL that the registration is posted to.
pub fn registration_url(backend_addr: &str) -> (r: String)
    ensures
        r@ == spec_registration_url(backend_addr@),
{
    let mut r = String::from_str("http://");
    r.append(backend_addr);
    r.append(":8000/api/add-db");
    r
}

/// The JSON body of the registration: `{"ipAddr":<address>}`.
pub fn registration_body(ip_addr: &str) -> (r: String)
    ensures
        r@ == spec_registration_body(ip_addr@),
{
    let quoted = json_quote(ip_addr);
    let mut r = String::from_str("{\"ipAddr\":");
    r.append(quoted.as_str());
    r.append("}");
    r
}

/// Accepts a 2xx status and fails with any other.
pub fn check_status(status: u16) -> (r: Result<(), RegistrationError>)
    ensures
        is_success_status(status) ==> r is Ok,
        !is_success_status(status) ==> r == Err::<(), RegistrationError>(
            RegistrationError::Status(status),
        ),
{
    if 200 <= status && status < 300 {
        Ok(())
    } else {
        Err(RegistrationError::Status(status))
    }
}

/// The result that a parsed reply stands for: its `error` member first, then
/// its `success` member, else a malformed reply.
pub fn classify_reply(reply: BackendReply) -> (r: Result<String, RegistrationError>)
    ensures
        r == spec_classify(reply),
{
    match reply.error {
        Some(e) => Err(RegistrationError::Backend(e)),
        None => match reply.success {
            Some(s) => Ok(s),
            None => Err(RegistrationError::MalformedResponse),
        },
    }
}

/// Whether `r` is the result that a JSON body stands for: its `error`
/// member as the error payload, else its `success` member, else a malformed reply.
pub open spec fn is_reply_result(body: Seq<char>, r: Result<String, RegistrationError>) -> bool {
    match json_member_text(body, "error"@) {
        Some(e) => r matches Err(RegistrationError::Backend(x)) && x@ == e,
        None => match json_member_text(body, "success"@) {
            Some(v) => r matches Ok(x) && x@ == v,
            None => r == Err::<String, RegistrationError>(RegistrationError::MalformedResponse),
        },
    }
}

/// Parses the body of a 2xx reply and classifies it.
pub fn interpret_body(body: &str) -> (r: Result<String, RegistrationError>)
    ensures
        !is_json(body@) ==> r == Err::<String, RegistrationError>(RegistrationError::InvalidJson),
        is_json(body@) ==> is_reply_result(body@, r),
{
    match parse_json(body) {
        Err(_) => Err(RegistrationError::InvalidJson),
        Ok(_) => {
            let error = member_text(body, "error");
            let success = member_text(body, "success");
            classify_reply(BackendReply { error, success })
        },
    }
}

/// The result of a registration from the status and body of the reply: the
/// status is checked first, and the body is parsed only after a 2xx status.
pub fn registration_outcome(status: u16, body: &str) -> (r: Result<String, RegistrationError>)
    ensures
        !is_success_status(status) ==> r == Err::<String, RegistrationError>(
            RegistrationError::Status(status),
        ),
        is_success_status(status) && !is_json(body@) ==> r == Err::<String, RegistrationError>(
            RegistrationError::InvalidJson,
        ),
        is_success_status(status) && is_json(body@) ==> is_reply_result(body@, r),
{
    match check_status(status) {
        Err(e) => Err(e),
        Ok(()) => interpret_body(body),
    }
}

} // verus!
