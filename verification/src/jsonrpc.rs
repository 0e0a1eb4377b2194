//! JSON-RPC message envelopes.
//!
//! Outbound requests and notifications are built character-exactly around a
//! caller-supplied, already-serialised `params` document.  Inbound payloads
//! are read through a JSON library into an [`IncomingMessage`], and the
//! request/response correlation decision over such a message is verified
//! exactly.

use vstd::prelude::*;

use crate::text::spec_dec_chars;
use crate::text::u64_to_string;

verus! {

/// Whether the bytes parse as one JSON document.
pub uninterp spec fn spec_json_doc(bytes: Seq<u8>) -> bool;

/// The numeric `id` member of the JSON document in the bytes, if any.
pub uninterp spec fn spec_message_id(bytes: Seq<u8>) -> Option<u64>;

/// The string `method` member of the JSON document in the bytes, if any.
pub uninterp spec fn spec_message_method(bytes: Seq<u8>) -> Option<Seq<char>>;

/// The `error` member of the JSON document in the bytes, if any: its
/// numeric `code` and its string `message`, each absent when not of that
/// shape.
pub uninterp spec fn spec_message_error(bytes: Seq<u8>) -> Option<(Option<i64>, Option<Seq<char>>)>;

/// The `result` member of the JSON document in the bytes, rendered back to
/// JSON text, if present.
pub uninterp spec fn spec_message_result(bytes: Seq<u8>) -> Option<Seq<char>>;

/// Relies on `serde_json::from_slice`: whether the bytes are one JSON
/// document, a function of the bytes alone.
#[verifier::external_body]
fn json_is_document(payload: &[u8]) -> (r: bool)
    ensures
        r == spec_json_doc(payload@),
{
    serde_json::from_slice::<serde_json::Value>(payload).is_ok()
}

/// Relies on `serde_json::from_slice`, `Value::get` and `Value::as_u64`:
/// the numeric `id` member, a function of the bytes alone.
#[verifier::external_body]
fn json_message_id(payload: &[u8]) -> (r: Option<u64>)
    ensures
        r == spec_message_id(payload@),
{
    let v: serde_json::Value = serde_json::from_slice(payload).ok()?;
    v.get("id").and_then(|x| x.as_u64())
}

/// Relies on `serde_json::from_slice`, `Value::get` and `Value::as_str`:
/// the string `method` member, a function of the bytes alone.
#[verifier::external_body]
fn json_message_method(payload: &[u8]) -> (r: Option<String>)
    ensures
        match r {
            Some(m) => spec_message_method(payload@) == Some(m@),
            None => spec_message_method(payload@) is None,
        },
{
    let v: serde_json::Value = serde_json::from_slice(payload).ok()?;
    v.get("method").and_then(|x| x.as_str()).map(|s| s.to_owned())
}

/// Relies on `serde_json::from_slice`, `Value::get`, `Value::as_i64` and
/// `Value::as_str`: the `error` member's raw code and message, functions
/// of the bytes alone.
#[verifier::external_body]
fn json_message_error(payload: &[u8]) -> (r: Option<(Option<i64>, Option<String>)>)
    ensures
        match r {
            Some(raw) => spec_message_error(payload@) matches Some(s) && s.0 == raw.0 && (match (
                raw.1,
                s.1,
            ) {
                (Some(m), Some(t)) => m@ == t,
                (None, None) => true,
                _ => false,
            }),
            None => spec_message_error(payload@) is None,
        },
{
    let v: serde_json::Value = serde_json::from_slice(payload).ok()?;
    let e = v.get("error")?;
    let code = e.get("code").and_then(|c| c.as_i64());
    let message = e.get("message").and_then(|m| m.as_str()).map(|s| s.to_owned());
    Some((code, message))
}

/// Relies on `serde_json::from_slice`, `Value::get` and
/// `serde_json::to_string`: the `result` member rendered back to JSON
/// text.  A parsed value is rendered the same way every time, so this is
/// a function of the bytes alone.
#[verifier::external_body]
fn json_message_result(payload: &[u8]) -> (r: Option<String>)
    ensures
        match r {
            Some(s) => spec_message_result(payload@) == Some(s@),
            None => spec_message_result(payload@) is None,
        },
{
    let v: serde_json::Value = serde_json::from_slice(payload).ok()?;
    let res = v.get("result")?;
    serde_json::to_string(res).ok()
}

/// The characters of a request envelope: `{"jsonrpc":"2.0","id":<id>,
/// "method":"<method>","params":<params>}`.
pub open spec fn spec_request_json(id: nat, method: Seq<char>, params: Seq<char>) -> Seq<char> {
    "{\"jsonrpc\":\"2.0\",\"id\":"@ + spec_dec_chars(id) + ",\"method\":\""@ + method
        + "\",\"params\":"@ + params + "}"@
}

/// The characters of a notification envelope: as a request, but without an
/// id.
pub open spec fn spec_notification_json(method: Seq<char>, params: Seq<char>) -> Seq<char> {
    "{\"jsonrpc\":\"2.0\",\"method\":\""@ + method + "\",\"params\":"@ + params + "}"@
}

/// Builds the request envelope around the serialised `params_json`.
///
/// `method` must be a bare method name and `params_json` a serialised JSON
/// document; neither is escaped here.
pub fn build_request(id: u64, method: &str, params_json: &str) -> (r: String)
    ensures
        r@ == spec_request_json(id as nat, method@, params_json@),
{
    let mut m = String::from_str("{\"jsonrpc\":\"2.0\",\"id\":");
    let id_str = u64_to_string(id);
    m.append(id_str.as_str());
    m.append(",\"method\":\"");
    m.append(method);
    m.append("\",\"params\":");
    m.append(params_json);
    m.append("}");
    proof {
        assert(m@ =~= spec_request_json(id as nat, method@, params_json@));
    }
    m
}

/// Builds the notification envelope around the serialised `params_json`.
///
/// `method` must be a bare method name and `params_json` a serialised JSON
/// document; neither is escaped here.
pub fn build_notification(method: &str, params_json: &str) -> (r: String)
    ensures
        r@ == spec_notification_json(method@, params_json@),
{
    let mut m = String::from_str("{\"jsonrpc\":\"2.0\",\"method\":\"");
    m.append(method);
    m.append("\",\"params\":");
    m.append(params_json);
    m.append("}");
    proof {
        assert(m@ =~= spec_notification_json(method@, params_json@));
    }
    m
}

/// A structured error carried in a response.
#[derive(Debug, Clone)]
pub struct RpcError {
    pub code: i64,
    pub message: String,
}

/// One decoded inbound message, reduced to the fields the correlation and
/// failure-surfacing logic reads.
#[derive(Debug, Clone)]
pub struct IncomingMessage {
    /// The response id, when the message is a response.
    pub id: Option<u64>,
    /// The method name, when the message is a notification or request.
    pub method: Option<String>,
    /// The structured error, when the response carries one.
    pub error: Option<RpcError>,
    /// The `result` member rendered back to JSON text, when present.
    pub result_json: Option<String>,
}

/// Reads one frame payload into an [`IncomingMessage`], `None` exactly
/// when the payload is not a JSON document.
///
/// The message's fields are the document's: its id, its method, its
/// `result` text, and its structured error — a present error is always
/// surfaced, with its code falling back to -1 and its message to
/// `"Unknown error"` when the member is malformed, as the protocol's
/// readers conventionally do.
pub fn classify_payload(payload: &[u8]) -> (r: Option<IncomingMessage>)
    ensures
        (r is Some) == spec_json_doc(payload@),
        match r {
            Some(msg) => {
                &&& msg.id == spec_message_id(payload@)
                &&& match msg.method {
                    Some(m) => spec_message_method(payload@) == Some(m@),
                    None => spec_message_method(payload@) is None,
                }
                &&& match spec_message_error(payload@) {
                    Some(raw) => msg.error matches Some(e) && e.code == (match raw.0 {
                        Some(c) => c,
                        None => -1i64,
                    }) && e.message@ == (match raw.1 {
                        Some(t) => t,
                        None => "Unknown error"@,
                    }),
                    None => msg.error is None,
                }
                &&& match msg.result_json {
                    Some(s) => spec_message_result(payload@) == Some(s@),
                    None => spec_message_result(payload@) is None,
                }
            },
            None => true,
        },
{
    if !json_is_document(payload) {
        return None;
    }
    let id = json_message_id(payload);
    let method = json_message_method(payload);
    let error = match json_message_error(payload) {
        Some(raw) => {
            let code = match raw.0 {
                Some(c) => c,
                None => -1,
            };
            let message = match raw.1 {
                Some(m) => m,
                None => String::from_str("Unknown error"),
            };
            Some(RpcError { code, message })
        },
        None => None,
    };
    let result_json = json_message_result(payload);
    Some(IncomingMessage { id, method, error, result_json })
}

/// What to do with one inbound message while waiting for a response.
pub enum MessageDisposition {
    /// The awaited response arrived, carrying this `result` document (or
    /// none).
    Reply { result_json: Option<String> },
    /// The awaited response arrived, carrying a structured error.
    ReplyError { code: i64, message: String },
    /// A notification, or a response to some other id: set it aside and
    /// keep reading.
    SetAside,
}

/// Decides what one inbound message means for the caller awaiting
/// `expected_id`.
///
/// Only a response carrying exactly the awaited id ends the wait; a
/// structured error in it is surfaced, never dropped.  Everything else —
/// notifications, responses to other ids — is set aside and the read loop
/// continues.
pub fn correlate(expected_id: u64, msg: IncomingMessage) -> (r: MessageDisposition)
    ensures
        match msg.id {
            Some(mid) => {
                if mid == expected_id {
                    match msg.error {
                        Some(e) => r == (MessageDisposition::ReplyError {
                            code: e.code,
                            message: e.message,
                        }),
                        None => r == (MessageDisposition::Reply { result_json: msg.result_json }),
                    }
                } else {
                    r == MessageDisposition::SetAside
                }
            },
            None => r == MessageDisposition::SetAside,
        },
{
    match msg.id {
        Some(mid) => {
            if mid == expected_id {
                match msg.error {
                    Some(e) => MessageDisposition::ReplyError { code: e.code, message: e.message },
                    None => MessageDisposition::Reply { result_json: msg.result_json },
                }
            } else {
                MessageDisposition::SetAside
            }
        },
        None => MessageDisposition::SetAside,
    }
}

} // verus!
