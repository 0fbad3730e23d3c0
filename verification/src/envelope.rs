//! The response envelope and its two builders.
//!
//! Every handler answers with the same wrapper: a status tag plus either a
//! payload (`success`) or a human-readable message (`error`). The builders
//! are pure; serialization omits an absent member entirely rather than
//! writing `null`.

use crate::json::{
    chars_to_string, push_escaped, push_json, push_str_chars, spec_escaped, spec_json, Json,
};
use vstd::prelude::*;

verus! {

/// The tag that tells a success envelope from an error envelope.
#[derive(Debug, Clone, Copy, PartialEq, Eq, Structural)]
pub enum Status {
    Success,
    Error,
}

/// The uniform response envelope.
///
/// A success envelope carries a payload and no message; an error envelope
/// carries a message and no payload. Which member is populated is decided
/// solely by the constructor path, never changed afterwards.
#[derive(Debug)]
pub struct ApiResponse {
    pub status: Status,
    pub data: Option<Json>,
    pub message: Option<String>,
}

impl ApiResponse {
    /// The envelope invariant: the status tag decides which member is
    /// populated, and exactly one of them is.
    pub open spec fn wf(self) -> bool {
        match self.status {
            Status::Success => self.data is Some && self.message is None,
            Status::Error => self.data is None && self.message is Some,
        }
    }
}

/// What building a success response returns: transport status 200 and the
/// envelope that wraps the payload.
pub open spec fn spec_success(data: Json) -> (u16, ApiResponse) {
    (200u16, ApiResponse { status: Status::Success, data: Some(data), message: None })
}

/// What building an error response returns: the caller's transport status,
/// unchanged, and the envelope that wraps the message.
pub open spec fn spec_error(status_code: u16, message: String) -> (u16, ApiResponse) {
    (status_code, ApiResponse { status: Status::Error, data: None, message: Some(message) })
}

/// Builds a success response: transport status 200 paired with an envelope
/// whose tag is `success`, whose payload is `data`, and which carries no
/// message. Construction cannot fail and inspects nothing but its input.
pub fn success(data: Json) -> (r: (u16, ApiResponse))
    ensures
        r == spec_success(data),
        r.1.wf(),
{
    (200, ApiResponse { status: Status::Success, data: Some(data), message: None })
}

/// Builds an error response: the caller-supplied transport status code,
/// passed through without validation, paired with an envelope whose tag is
/// `error`, which carries `message` and no payload. Construction cannot fail.
pub fn error(status_code: u16, message: String) -> (r: (u16, ApiResponse))
    ensures
        r == spec_error(status_code, message),
        r.1.wf(),
{
    (status_code, ApiResponse { status: Status::Error, data: None, message: Some(message) })
}

/// The text of the envelope's status tag.
pub open spec fn spec_status_text(s: Status) -> Seq<char> {
    match s {
        Status::Success => "success"@,
        Status::Error => "error"@,
    }
}

/// The text the payload member contributes: nothing at all when absent.
pub open spec fn spec_data_part(d: Option<Json>) -> Seq<char> {
    match d {
        Option::None => Seq::<char>::empty(),
        Option::Some(j) => ",\"data\":"@ + spec_json(j),
    }
}

/// The text the message member contributes: nothing at all when absent.
pub open spec fn spec_message_part(m: Option<String>) -> Seq<char> {
    match m {
        Option::None => Seq::<char>::empty(),
        Option::Some(s) => ",\"message\":\""@ + spec_escaped(s@) + "\""@,
    }
}

/// The JSON text of an envelope: the status tag, then the payload member if
/// present, then the message member if present. An absent member is omitted
/// from the text entirely — it never appears as `null`.
pub open spec fn spec_envelope_json(env: ApiResponse) -> Seq<char> {
    "{\"status\":\""@ + spec_status_text(env.status) + "\""@ + spec_data_part(env.data)
        + spec_message_part(env.message) + "}"@
}

/// Serializes an envelope to its JSON text.
pub fn envelope_to_json(env: &ApiResponse) -> (r: String)
    ensures
        r@ == spec_envelope_json(*env),
{
    let mut out: Vec<char> = Vec::new();
    push_str_chars(&mut out, "{\"status\":\"");
    match &env.status {
        Status::Success => push_str_chars(&mut out, "success"),
        Status::Error => push_str_chars(&mut out, "error"),
    }
    push_str_chars(&mut out, "\"");
    match &env.data {
        Option::Some(j) => {
            push_str_chars(&mut out, ",\"data\":");
            push_json(&mut out, j);
        },
        Option::None => {},
    }
    match &env.message {
        Option::Some(m) => {
            push_str_chars(&mut out, ",\"message\":\"");
            push_escaped(&mut out, m.as_str());
            push_str_chars(&mut out, "\"");
        },
        Option::None => {},
    }
    push_str_chars(&mut out, "}");
    proof {
        assert(out@ =~= spec_envelope_json(*env));
    }
    chars_to_string(&out)
}

/// Law: for every payload `p`, building a success response yields transport
/// status 200 and an envelope that serializes to exactly
/// `{"status":"success","data":` followed by the payload's JSON text and `}` —
/// in particular, no message member appears.
pub proof fn lemma_success_envelope(p: Json)
    ensures
        spec_success(p).0 == 200,
        spec_success(p).1.wf(),
        spec_success(p).1.message is None,
        spec_envelope_json(spec_success(p).1) == "{\"status\":\"success\",\"data\":"@
            + spec_json(p) + "}"@,
{
    reveal_strlit("{\"status\":\"");
    reveal_strlit("success");
    reveal_strlit("\"");
    reveal_strlit(",\"data\":");
    reveal_strlit("}");
    reveal_strlit("{\"status\":\"success\",\"data\":");
    assert(spec_envelope_json(spec_success(p).1) =~= "{\"status\":\"success\",\"data\":"@
        + spec_json(p) + "}"@);
}

/// Law: for every transport status code `c` and message `m`, building an
/// error response yields `c` unchanged and an envelope that serializes to
/// exactly `{"status":"error","message":"` followed by the escaped message
/// and `"}` — in particular, no payload member appears.
pub proof fn lemma_error_envelope(c: u16, m: String)
    ensures
        spec_error(c, m).0 == c,
        spec_error(c, m).1.wf(),
        spec_error(c, m).1.data is None,
        spec_envelope_json(spec_error(c, m).1) == "{\"status\":\"error\",\"message\":\""@
            + spec_escaped(m@) + "\"}"@,
{
    reveal_strlit("{\"status\":\"");
    reveal_strlit("error");
    reveal_strlit("\"");
    reveal_strlit(",\"message\":\"");
    reveal_strlit("}");
    reveal_strlit("\"}");
    reveal_strlit("{\"status\":\"error\",\"message\":\"");
    assert(spec_envelope_json(spec_error(c, m).1) =~= "{\"status\":\"error\",\"message\":\""@
        + spec_escaped(m@) + "\"}"@);
}

/// Law: omission, not null. An error envelope, whose payload member is
/// absent, serializes to different text than the same envelope carrying an
/// explicit JSON `null` payload: the absent member leaves no `"data":null`
/// behind.
pub proof fn lemma_absent_data_is_not_null(c: u16, m: String)
    ensures
        spec_envelope_json(spec_error(c, m).1) != spec_envelope_json(
            (ApiResponse { status: Status::Error, data: Some(Json::Null), message: Some(m) }),
        ),
{
    reveal_strlit(",\"data\":");
    reveal_strlit("null");
    let with_null = ApiResponse { status: Status::Error, data: Some(Json::Null), message: Some(m) };
    assert(spec_envelope_json(with_null).len() == spec_envelope_json(spec_error(c, m).1).len()
        + 12);
}

/// Law: omission, not null, on the message side. A success envelope, whose
/// message member is absent, serializes to different text than the same
/// envelope carrying any message at all: the absent member leaves nothing
/// behind.
pub proof fn lemma_absent_message_is_omitted(p: Json, m: String)
    ensures
        spec_envelope_json(spec_success(p).1) != spec_envelope_json(
            (ApiResponse { status: Status::Success, data: Some(p), message: Some(m) }),
        ),
{
    reveal_strlit(",\"message\":\"");
    reveal_strlit("\"");
    let with_message = ApiResponse { status: Status::Success, data: Some(p), message: Some(m) };
    assert(spec_envelope_json(with_message).len() >= spec_envelope_json(spec_success(p).1).len()
        + 13);
}

/// Law: construction is idempotent. Two success builds from identical
/// payloads are structurally identical — no hidden id, timestamp or
/// randomness flows into the envelope.
pub proof fn lemma_success_idempotent(p: Json, r1: (u16, ApiResponse), r2: (u16, ApiResponse))
    requires
        r1 == spec_success(p),
        r2 == spec_success(p),
    ensures
        r1 == r2,
{
}

/// Law: construction is idempotent. Two error builds from an identical code
/// and message are structurally identical.
pub proof fn lemma_error_idempotent(
    c: u16,
    m: String,
    r1: (u16, ApiResponse),
    r2: (u16, ApiResponse),
)
    requires
        r1 == spec_error(c, m),
        r2 == spec_error(c, m),
    ensures
        r1 == r2,
{
}

} // verus!
