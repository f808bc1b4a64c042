//! Turning a canonical response into what goes back to the HTTP client: the
//! status checked, the headers that can go on the wire, and the body
//! materialized according to its content type.
use vstd::prelude::*;
use crate::error::BridgeError;
use crate::json::{distinct_keys, json_text, parse_value, parsed_json, value_text};
use crate::response::{HttpResponsePayload, header_map, text_pairs};
use crate::text::{before, contains, str_before, str_contains, str_eq};

verus! {

/// The lower-case form of a text, as `str::to_lowercase` gives it.
pub uninterp spec fn lower_of(s: Seq<char>) -> Seq<char>;

/// The bytes that standard base64 (with padding) decodes a text to, if it is
/// valid base64.
pub uninterp spec fn base64_decoded(s: Seq<char>) -> Option<Seq<u8>>;

/// Whether a text is a valid HTTP header name.
pub uninterp spec fn header_name_accepted(s: Seq<char>) -> bool;

/// A text without leading and trailing whitespace, as `str::trim` gives it.
pub uninterp spec fn trim_of(s: Seq<char>) -> Seq<char>;

/// Relies on `str::to_lowercase`.
#[verifier::external_body]
pub(crate) fn to_lower(s: &str) -> (r: String)
    ensures
        r@ == lower_of(s@),
{
    s.to_lowercase()
}

/// Relies on base64's `STANDARD` engine: `None` where decoding fails.
#[verifier::external_body]
fn decode_base64(s: &str) -> (r: Option<Vec<u8>>)
    ensures
        r is Some <==> base64_decoded(s@) is Some,
        r matches Some(b) ==> base64_decoded(s@) == Some(b@),
{
    base64::Engine::decode(&base64::engine::general_purpose::STANDARD, s).ok()
}

/// Relies on hyper's `HeaderName::from_bytes` accepting the name.
#[verifier::external_body]
fn is_valid_header_name(s: &str) -> (r: bool)
    ensures
        r == header_name_accepted(s@),
{
    hyper::header::HeaderName::from_bytes(s.as_bytes()).is_ok()
}

/// Relies on `str::trim`.
#[verifier::external_body]
fn trim(s: &str) -> (r: String)
    ensures
        r@ == trim_of(s@),
{
    s.trim().to_string()
}

/// Relies on hyper's `StatusCode::from_u16`, which accepts 100 to 999.
#[verifier::external_body]
fn is_valid_status(s: u16) -> (r: bool)
    ensures
        r == (100 <= s && s < 1000),
{
    hyper::StatusCode::from_u16(s).is_ok()
}

/// A response body: text, or bytes decoded from base64.
#[derive(Debug, Clone, PartialEq, Eq)]
pub enum ResponseBody {
    Text(String),
    Bytes(Vec<u8>),
}

/// The model of a response body.
pub ghost enum BodyModel {
    Text(Seq<char>),
    Bytes(Seq<u8>),
}

impl ResponseBody {
    pub open spec fn model(&self) -> BodyModel {
        match self {
            ResponseBody::Text(s) => BodyModel::Text(s@),
            ResponseBody::Bytes(b) => BodyModel::Bytes(b@),
        }
    }
}

/// The content type that drives the body: the `content-type` header, else
/// `Content-Type`, else `text/html`; its part before any `;`, lower-cased.
pub open spec fn content_type_of(h: Map<Seq<char>, Seq<char>>) -> Seq<char> {
    let raw = if h.contains_key("content-type"@) {
        h["content-type"@]
    } else if h.contains_key("Content-Type"@) {
        h["Content-Type"@]
    } else {
        "text/html"@
    };
    lower_of(before(raw, ';'))
}

/// JSON is re-serialized when it parses; text and unknown types pass as they
/// are; binary types are base64-decoded when that succeeds.
pub open spec fn materialized(ct: Seq<char>, body: Seq<char>) -> BodyModel {
    if contains(ct, "application/json"@) {
        match parsed_json(body) {
            Some(j) => BodyModel::Text(json_text(j)),
            None => BodyModel::Text(body),
        }
    } else if contains(ct, "text/"@) || contains(ct, "application/javascript"@) {
        BodyModel::Text(body)
    } else if contains(ct, "application/octet-stream"@) || contains(ct, "image/"@) || contains(ct, "audio/"@)
        || contains(ct, "video/"@) {
        match base64_decoded(body) {
            Some(b) => BodyModel::Bytes(b),
            None => BodyModel::Text(body),
        }
    } else {
        BodyModel::Text(body)
    }
}

/// A binary content type with a body that is not valid base64: decoding is
/// given up and the body goes out as the original text.
pub proof fn lemma_undecodable_binary_body_unchanged(ct: Seq<char>, body: Seq<char>)
    requires
        contains(ct, "application/octet-stream"@) || contains(ct, "image/"@) || contains(ct, "audio/"@)
            || contains(ct, "video/"@),
        !contains(ct, "application/json"@),
        base64_decoded(body) is None,
    ensures
        materialized(ct, body) == BodyModel::Text(body),
{
}

/// The headers that go on the wire, in order: those with a valid name and a
/// value that is not blank, with the value trimmed.
pub open spec fn wire_headers(h: Seq<(Seq<char>, Seq<char>)>) -> Seq<(Seq<char>, Seq<char>)>
    decreases h.len(),
{
    if h.len() == 0 {
        Seq::empty()
    } else {
        let rest = wire_headers(h.drop_last());
        let (k, v) = h.last();
        if header_name_accepted(k) && trim_of(v).len() > 0 {
            rest.push((k, trim_of(v)))
        } else {
            rest
        }
    }
}

/// The names dropped as invalid, in order.
pub open spec fn rejected_names(h: Seq<(Seq<char>, Seq<char>)>) -> Seq<Seq<char>>
    decreases h.len(),
{
    if h.len() == 0 {
        Seq::empty()
    } else {
        let rest = rejected_names(h.drop_last());
        if header_name_accepted(h.last().0) {
            rest
        } else {
            rest.push(h.last().0)
        }
    }
}

/// What is sent back to the HTTP client.
#[derive(Debug)]
pub struct OutgoingResponse {
    pub status: u16,
    pub headers: Vec<(String, String)>,
    pub body: ResponseBody,
    /// Header names that were dropped because they are not valid on the wire.
    pub rejected_header_names: Vec<String>,
}

/// The materialized body for a content type.
pub fn materialize_body(content_type: &str, body: &String) -> (r: ResponseBody)
    ensures
        r.model() == materialized(content_type@, body@),
{
    if str_contains(content_type, "application/json") {
        match parse_value(body.as_str()) {
            Some(v) => ResponseBody::Text(value_text(&v)),
            None => ResponseBody::Text(body.clone()),
        }
    } else if str_contains(content_type, "text/") || str_contains(content_type, "application/javascript") {
        ResponseBody::Text(body.clone())
    } else if str_contains(content_type, "application/octet-stream") || str_contains(content_type, "image/")
        || str_contains(content_type, "audio/") || str_contains(content_type, "video/") {
        match decode_base64(body.as_str()) {
            Some(bytes) => ResponseBody::Bytes(bytes),
            None => ResponseBody::Text(body.clone()),
        }
    } else {
        ResponseBody::Text(body.clone())
    }
}

/// The position of the header named `name`, if there is one.
fn find_header(h: &Vec<(String, String)>, name: &str) -> (r: Option<usize>)
    requires
        distinct_keys(text_pairs(h@)),
    ensures
        r matches Some(i) ==> i < h@.len() && header_map(h@).contains_key(name@) && header_map(h@)[name@]
            == h@[i as int].1@,
        r is None ==> !header_map(h@).contains_key(name@),
{
    let mut i: usize = 0;
    while i < h.len()
        invariant
            i <= h@.len(),
            distinct_keys(text_pairs(h@)),
            forall|j: int| 0 <= j < i ==> h@[j].0@ != name@,
        decreases h.len() - i,
    {
        if str_eq(h[i].0.as_str(), name) {
            proof {
                crate::json::lemma_map_from_distinct_pairs(text_pairs(h@), i as int);
            }
            return Some(i);
        }
        i = i + 1;
    }
    proof {
        crate::json::lemma_map_from_pairs_keys(text_pairs(h@), name@);
        assert forall|j: int| 0 <= j < text_pairs(h@).len() implies text_pairs(h@)[j].0 != name@ by {
            assert(text_pairs(h@)[j].0 == h@[j].0@);
        }
    }
    None
}

/// The content type of a canonical response, as `content_type_of` reads it.
pub fn content_type(p: &HttpResponsePayload) -> (r: String)
    requires
        p.wf(),
    ensures
        r@ == content_type_of(header_map(p.headers@)),
{
    let raw: &str = match find_header(&p.headers, "content-type") {
        Some(i) => p.headers[i].1.as_str(),
        None => match find_header(&p.headers, "Content-Type") {
            Some(i) => p.headers[i].1.as_str(),
            None => "text/html",
        },
    };
    let main = str_before(raw, ';');
    to_lower(main.as_str())
}

/// The headers of a canonical response that can go on the wire, and the
/// names refused as invalid.
pub fn wire_headers_of(h: &Vec<(String, String)>) -> (r: (Vec<(String, String)>, Vec<String>))
    ensures
        text_pairs(r.0@) == wire_headers(text_pairs(h@)),
        r.1@.map_values(|s: String| s@) == rejected_names(text_pairs(h@)),
{
    let mut kept: Vec<(String, String)> = Vec::new();
    let mut rejected: Vec<String> = Vec::new();
    let mut i: usize = 0;
    while i < h.len()
        invariant
            i <= h@.len(),
            text_pairs(kept@) == wire_headers(text_pairs(h@).subrange(0, i as int)),
            rejected@.map_values(|s: String| s@) == rejected_names(text_pairs(h@).subrange(0, i as int)),
        decreases h.len() - i,
    {
        let ghost prefix = text_pairs(h@).subrange(0, i + 1);
        assert(prefix.drop_last() =~= text_pairs(h@).subrange(0, i as int));
        assert(prefix.last() == (h@[i as int].0@, h@[i as int].1@));
        let name = &h[i].0;
        if is_valid_header_name(name.as_str()) {
            let value = trim(h[i].1.as_str());
            if value.as_str().is_empty() {
            } else {
                let ghost old_kept = kept@;
                kept.push((name.clone(), value));
                assert(text_pairs(kept@) =~= text_pairs(old_kept).push((name@, trim_of(h@[i as int].1@))));
            }
        } else {
            let ghost old_rejected = rejected@;
            rejected.push(name.clone());
            assert(rejected@.map_values(|s: String| s@) =~= old_rejected.map_values(|s: String| s@).push(name@));
        }
        i = i + 1;
    }
    assert(text_pairs(h@).subrange(0, h@.len() as int) =~= text_pairs(h@));
    (kept, rejected)
}

/// The outgoing response for a canonical one; a status outside 100..=999 is
/// refused.
pub fn build_response(p: &HttpResponsePayload) -> (r: Result<OutgoingResponse, BridgeError>)
    requires
        p.wf(),
    ensures
        (100 <= p.status && p.status < 1000) <==> r is Ok,
        r matches Err(e) ==> e == BridgeError::InvalidStatusCode(p.status),
        r matches Ok(o) ==> {
            &&& o.status == p.status
            &&& text_pairs(o.headers@) == wire_headers(text_pairs(p.headers@))
            &&& o.rejected_header_names@.map_values(|s: String| s@) == rejected_names(text_pairs(p.headers@))
            &&& o.body.model() == materialized(content_type_of(header_map(p.headers@)), p.body@)
        },
{
    if !is_valid_status(p.status) {
        return Err(BridgeError::InvalidStatusCode(p.status));
    }
    let ct = content_type(p);
    let body = materialize_body(ct.as_str(), &p.body);
    let (headers, rejected) = wire_headers_of(&p.headers);
    Ok(OutgoingResponse { status: p.status, headers, body, rejected_header_names: rejected })
}

} // verus!
