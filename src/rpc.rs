use vstd::prelude::*;
use crate::hex::{decode_spec, parse_hex_to_u64, ParseError};

verus! {

/// The JSON-RPC request that asks a node for its chain head.
pub const BLOCK_NUMBER_REQUEST: &'static str = "{\"jsonrpc\":\"2.0\",\"method\":\"eth_blockNumber\",\"params\":[],\"id\":1}";

/// The detail of a protocol error whose `error` object carries no string `message`.
pub const UNKNOWN_RPC_ERROR: &'static str = "Unknown RPC error";

/// The detail given when a reply carries neither `error` nor a string `result`.
pub const MISSING_RESULT: &'static str = "Invalid response: 'result' field missing or not a string";

/// The detail given when a reply body is not JSON.
pub const NOT_JSON: &'static str = "Invalid response: body is not JSON";

/// Why a node's chain head could not be obtained.
#[derive(Debug, Clone)]
pub enum RpcError {
    /// The request never completed: connection refused, name resolution, timeout.
    Transport { detail: String },
    /// The node answered with a status outside 200..=299.
    HttpStatus { status: u16 },
    /// The body is not JSON, or holds neither an `error` nor a string `result`.
    MalformedBody { detail: String },
    /// The body holds a top-level `error` object.
    Protocol { message: String },
    /// The `result` string is not a hexadecimal number.
    HexDecode { error: ParseError },
}

/// The members of a JSON-RPC reply body that decide its outcome.
#[derive(Debug, Clone)]
pub struct RpcReply {
    /// `Some` when the body has a top-level `error` member; inside it, that
    /// member's `message` when it is a string.
    pub error: Option<Option<String>>,
    /// The top-level `result` member, when it is present and a string.
    pub result: Option<String>,
}

#[verifier::external_type_specification]
#[verifier::external_body]
pub struct ExJsonValue(serde_json::Value);

/// The member named `key` of a JSON value, when it is an object that has one.
pub uninterp spec fn json_member(v: serde_json::Value, key: Seq<char>) -> Option<serde_json::Value>;

/// The JSON value that a byte string holds as one document, if it holds one.
pub uninterp spec fn parsed_json(b: Seq<u8>) -> Option<serde_json::Value>;

/// Relies on serde_json::from_slice into a `Value`: the document that the
/// bytes hold, `None` where it returns an error.
#[verifier::external_body]
fn parse_json(bytes: &[u8]) -> (r: Option<serde_json::Value>)
    ensures
        r == parsed_json(bytes@),
{
    serde_json::from_slice::<serde_json::Value>(bytes).ok()
}

/// The text of a JSON value, when it is a string.
pub uninterp spec fn json_text(v: serde_json::Value) -> Option<Seq<char>>;

/// Relies on serde_json::Value::get with a `&str` key: the member of that
/// name when `v` is an object holding it, else `None`.
#[verifier::external_body]
fn json_get(v: &serde_json::Value, key: &str) -> (r: Option<serde_json::Value>)
    ensures
        r == json_member(*v, key@),
{
    v.get(key).cloned()
}

/// Relies on serde_json::Value::as_str: the text of `v` when it is a string.
#[verifier::external_body]
fn json_as_str(v: &serde_json::Value) -> (r: Option<String>)
    ensures
        text_view(r) == json_text(*v),
{
    v.as_str().map(|s| s.to_string())
}

pub open spec fn text_view(t: Option<String>) -> Option<Seq<char>> {
    match t {
        Some(s) => Some(s@),
        None => None,
    }
}

/// The text of the member `key` of `v`, when there is one and it is a string.
pub open spec fn member_text(v: serde_json::Value, key: Seq<char>) -> Option<Seq<char>> {
    match json_member(v, key) {
        Some(m) => json_text(m),
        None => None,
    }
}

/// Picks out of a reply body its top-level `error` member, with that member's
/// `message` text, and its top-level `result` text.
pub fn reply_of(body: &serde_json::Value) -> (r: RpcReply)
    ensures
        r.error_view() == body_error(*body),
        text_view(r.result) == member_text(*body, "result"@),
{
    let error = match json_get(body, "error") {
        Some(e) => match json_get(&e, "message") {
            Some(m) => Some(json_as_str(&m)),
            None => Some(None),
        },
        None => None,
    };
    let result = match json_get(body, "result") {
        Some(v) => json_as_str(&v),
        None => None,
    };
    RpcReply { error, result }
}

/// The `error` member of a body as the logic reads it: `Some` when present,
/// holding the text of its `message` when that is a string.
pub open spec fn body_error(body: serde_json::Value) -> Option<Option<Seq<char>>> {
    match json_member(body, "error"@) {
        Some(e) => Some(member_text(e, "message"@)),
        None => None,
    }
}

impl RpcReply {
    pub open spec fn error_view(self) -> Option<Option<Seq<char>>> {
        match self.error {
            Some(m) => Some(text_view(m)),
            None => None,
        }
    }
}

/// What a reply yields from its `error` member and its `result` text: an
/// `error` member wins, then a missing `result`, then the decoded height.
pub open spec fn outcome_ok(
    error: Option<Option<Seq<char>>>,
    result: Option<Seq<char>>,
    r: Result<u64, RpcError>,
) -> bool {
    match error {
        Some(m) => {
            &&& r matches Err(RpcError::Protocol { message })
            &&& message@ == match m {
                Some(t) => t,
                None => UNKNOWN_RPC_ERROR@,
            }
        },
        None => match result {
            None => r matches Err(RpcError::MalformedBody { detail }) && detail@ == MISSING_RESULT@,
            Some(s) => match decode_spec(s) {
                Ok(v) => r == Ok::<u64, RpcError>(v),
                Err(e) => r == Err::<u64, RpcError>(RpcError::HexDecode { error: e }),
            },
        },
    }
}

pub open spec fn reply_outcome_ok(reply: RpcReply, r: Result<u64, RpcError>) -> bool {
    outcome_ok(reply.error_view(), text_view(reply.result), r)
}

/// Turns the decisive members of a reply body into a chain head or an error.
/// An `error` member wins over any `result`.
pub fn interpret_reply(reply: &RpcReply) -> (r: Result<u64, RpcError>)
    ensures
        reply_outcome_ok(*reply, r),
{
    match &reply.error {
        Some(Some(m)) => Err(RpcError::Protocol { message: m.clone() }),
        Some(None) => Err(RpcError::Protocol { message: UNKNOWN_RPC_ERROR.to_string() }),
        None => match &reply.result {
            None => Err(RpcError::MalformedBody { detail: MISSING_RESULT.to_string() }),
            Some(s) => match parse_hex_to_u64(s.as_str()) {
                Ok(v) => Ok(v),
                Err(e) => Err(RpcError::HexDecode { error: e }),
            },
        },
    }
}

pub open spec fn is_success_status(status: u16) -> bool {
    200 <= status <= 299
}

/// The outcome of an answered request, from its HTTP status and its body as
/// parsed (`None` when the body is not JSON).
pub fn interpret_parsed_response(status: u16, body: &Option<serde_json::Value>) -> (r: Result<u64, RpcError>)
    ensures
        !is_success_status(status) ==> r == Err::<u64, RpcError>(RpcError::HttpStatus { status }),
        is_success_status(status) && body is None ==> (r matches Err(RpcError::MalformedBody {
            detail,
        }) && detail@ == NOT_JSON@),
        is_success_status(status) && body is Some ==> outcome_ok(
            body_error(body->0),
            member_text(body->0, "result"@),
            r,
        ),
{
    if status < 200 || status > 299 {
        return Err(RpcError::HttpStatus { status });
    }
    match body {
        None => Err(RpcError::MalformedBody { detail: NOT_JSON.to_string() }),
        Some(v) => {
            let reply = reply_of(v);
            interpret_reply(&reply)
        },
    }
}

/// The outcome of an answered request, from its HTTP status and the bytes
/// of its body.
pub fn interpret_response(status: u16, body: &[u8]) -> (r: Result<u64, RpcError>)
    ensures
        !is_success_status(status) ==> r == Err::<u64, RpcError>(RpcError::HttpStatus { status }),
        is_success_status(status) && parsed_json(body@) is None ==> (r matches Err(
            RpcError::MalformedBody { detail },
        ) && detail@ == NOT_JSON@),
        is_success_status(status) && parsed_json(body@) is Some ==> outcome_ok(
            body_error(parsed_json(body@)->0),
            member_text(parsed_json(body@)->0, "result"@),
            r,
        ),
{
    if status < 200 || status > 299 {
        return Err(RpcError::HttpStatus { status });
    }
    let parsed = parse_json(body);
    interpret_parsed_response(status, &parsed)
}

} // verus!
