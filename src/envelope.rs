//! The backend's JSON envelopes: the reply `{id?, success, data?, error?}`
//! (or any JSON, taken as the data of a success), the named-command request
//! `{id, command, data}`, and the direct HTTP-forwarding request.
use vstd::prelude::*;
use vstd::utf8::{decode_utf8, valid_utf8};
use crate::error::BridgeError;
use crate::frame::FrameError;
use crate::json::{Json, json_of, member, parse_value, value_as_bool, value_as_str, value_get, value_string};

verus! {

/// The model of a reply envelope.
pub ghost struct EnvelopeModel {
    pub id: Option<Seq<char>>,
    pub success: bool,
    pub data: Option<Json>,
    pub error: Option<Seq<char>>,
}

/// A reply of the backend.
#[derive(Debug)]
pub struct PhpResponse {
    pub id: Option<String>,
    pub success: bool,
    pub data: Option<serde_json::Value>,
    pub error: Option<String>,
}

pub open spec fn opt_text(o: Option<String>) -> Option<Seq<char>> {
    match o {
        Some(s) => Some(s@),
        None => None,
    }
}

impl PhpResponse {
    pub open spec fn model(&self) -> EnvelopeModel {
        EnvelopeModel {
            id: opt_text(self.id),
            success: self.success,
            data: match self.data {
                Some(v) => Some(json_of(v)),
                None => None,
            },
            error: opt_text(self.error),
        }
    }

    /// A successful reply carrying `data`.
    pub fn new_success(id: Option<String>, data: Option<serde_json::Value>) -> (r: PhpResponse)
        ensures
            r.id == id,
            r.success,
            r.data == data,
            r.error is None,
    {
        PhpResponse { id, success: true, data, error: None }
    }

    /// A failed reply carrying an error message.
    pub fn new_error(id: Option<String>, error: String) -> (r: PhpResponse)
        ensures
            r.id == id,
            !r.success,
            r.data is None,
            r.error == Some(error),
    {
        PhpResponse { id, success: false, data: None, error: Some(error) }
    }
}

/// An optional text member: absent or `null` is no text, a string is that
/// text, anything else does not fit the envelope.
pub open spec fn optional_text(o: Option<Json>) -> Option<Option<Seq<char>>> {
    match o {
        None => Some(None),
        Some(Json::Null) => Some(None),
        Some(Json::Str(s)) => Some(Some(s)),
        _ => None,
    }
}

/// An optional value member: absent or `null` is no value.
pub open spec fn optional_value(o: Option<Json>) -> Option<Json> {
    match o {
        None => None,
        Some(Json::Null) => None,
        Some(j) => Some(j),
    }
}

/// The envelope a JSON value is, if it is one: an object whose `success` is a
/// boolean and whose `id` and `error` are absent, `null` or strings.
pub open spec fn envelope_of(j: Json) -> Option<EnvelopeModel> {
    let id = optional_text(member(j, "id"@));
    let error = optional_text(member(j, "error"@));
    match member(j, "success"@) {
        Some(Json::Bool(b)) => if id is Some && error is Some {
            Some(EnvelopeModel { id: id->0, success: b, data: optional_value(member(j, "data"@)), error: error->0 })
        } else {
            None
        },
        _ => None,
    }
}

/// A success whose data is `j`, for a reply that is not an envelope.
pub open spec fn opaque_success(j: Json) -> EnvelopeModel {
    EnvelopeModel { id: None, success: true, data: Some(j), error: None }
}

/// What a reply payload means. It must be UTF-8 text. JSON that is an
/// envelope is taken as one; other JSON is the data of a success; text that
/// is not JSON at all is the data of a success as a JSON string.
pub open spec fn reply_of(b: Seq<u8>) -> Result<EnvelopeModel, BridgeError> {
    if !valid_utf8(b) {
        Err(BridgeError::ProtocolError(FrameError::NotUtf8))
    } else {
        let t = decode_utf8(b);
        match crate::json::parsed_json(t) {
            None => Ok(opaque_success(Json::Str(t))),
            Some(j) => match envelope_of(j) {
                Some(e) => Ok(e),
                None => Ok(opaque_success(j)),
            },
        }
    }
}

/// Relies on `std::str::from_utf8`: text exactly when the bytes are UTF-8.
#[verifier::external_body]
pub(crate) fn utf8_text(b: &[u8]) -> (r: Option<String>)
    ensures
        r is Some <==> valid_utf8(b@),
        r matches Some(s) ==> s@ == decode_utf8(b@),
{
    match std::str::from_utf8(b) {
        Ok(s) => Some(s.to_string()),
        Err(_) => None,
    }
}

/// An optional text member, as `optional_text` reads it.
fn optional_text_of(v: Option<&serde_json::Value>) -> (r: Option<Option<String>>)
    ensures
        match (r, optional_text(
            match v {
                Some(x) => Some(json_of(*x)),
                None => None,
            },
        )) {
            (Some(a), Some(b)) => opt_text(a) == b,
            (None, None) => true,
            _ => false,
        },
{
    match v {
        None => Some(None),
        Some(x) => {
            if crate::json::value_is_null(x) {
                Some(None)
            } else {
                match value_as_str(x) {
                    Some(s) => Some(Some(s.to_owned())),
                    None => None,
                }
            }
        },
    }
}

/// Reads a JSON value as a reply envelope, if it is one.
pub fn envelope_from(v: &serde_json::Value) -> (r: Option<PhpResponse>)
    ensures
        match (r, envelope_of(json_of(*v))) {
            (Some(p), Some(e)) => p.model() == e,
            (None, None) => true,
            _ => false,
        },
{
    let success = match value_get(v, "success") {
        Some(s) => match value_as_bool(s) {
            Some(b) => b,
            None => return None,
        },
        None => return None,
    };
    let id = match optional_text_of(value_get(v, "id")) {
        Some(id) => id,
        None => return None,
    };
    let error = match optional_text_of(value_get(v, "error")) {
        Some(e) => e,
        None => return None,
    };
    let data = match value_get(v, "data") {
        Some(d) => if crate::json::value_is_null(d) {
            None
        } else {
            Some(crate::json::value_clone(d))
        },
        None => None,
    };
    Some(PhpResponse { id, success, data, error })
}

/// Interprets the payload of a reply frame.
pub fn interpret_reply(payload: &[u8]) -> (r: Result<PhpResponse, BridgeError>)
    ensures
        match (r, reply_of(payload@)) {
            (Ok(p), Ok(e)) => p.model() == e,
            (Err(a), Err(b)) => a == b,
            _ => false,
        },
{
    let text = match utf8_text(payload) {
        Some(t) => t,
        None => return Err(BridgeError::ProtocolError(FrameError::NotUtf8)),
    };
    match parse_value(text.as_str()) {
        None => Ok(PhpResponse::new_success(None, Some(value_string(text)))),
        Some(v) => match envelope_from(&v) {
            Some(e) => Ok(e),
            None => Ok(PhpResponse::new_success(None, Some(v))),
        },
    }
}

} // verus!
