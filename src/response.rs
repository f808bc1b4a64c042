//! Interpreting whatever the backend answered as a canonical HTTP response:
//! a status, a set of headers with unique names, and a body.
use vstd::prelude::*;
use crate::json::{
    Json, JsonNumber, distinct_keys, json_of, json_text, lemma_map_from_pairs_values, map_from_pairs,
    map_pair_values, member, pairs_model, value_as_array, value_as_str, value_as_u64, value_get,
    value_members, value_text,
};

verus! {

/// The canonical response: status, headers (each name once) and body text.
#[derive(Debug)]
pub struct HttpResponsePayload {
    pub status: u16,
    pub headers: Vec<(String, String)>,
    pub body: String,
}

/// The model of header pairs.
pub open spec fn text_pairs(h: Seq<(String, String)>) -> Seq<(Seq<char>, Seq<char>)> {
    Seq::new(h.len(), |i: int| (h[i].0@, h[i].1@))
}

/// The header map that header pairs describe.
pub open spec fn header_map(h: Seq<(String, String)>) -> Map<Seq<char>, Seq<char>> {
    map_from_pairs(text_pairs(h))
}

impl HttpResponsePayload {
    /// Headers occur once each.
    pub open spec fn wf(&self) -> bool {
        distinct_keys(text_pairs(self.headers@))
    }

    /// The model: status, header map and body text.
    pub open spec fn model(&self) -> (u16, Map<Seq<char>, Seq<char>>, Seq<char>) {
        (self.status, header_map(self.headers@), self.body@)
    }
}

/// The status a backend-declared `status` member stands for: a non-negative
/// integer as given (held at `u16::MAX` when larger, so that it stays out of
/// the valid range), anything else 200.
pub open spec fn status_from(j: Json) -> u16 {
    match j {
        Json::Number(JsonNumber::PosInt(n)) => if n <= u16::MAX {
            n as u16
        } else {
            u16::MAX
        },
        _ => 200,
    }
}

/// The text of one header value: the first element of an array (an empty
/// array gives the empty text), a string as it is, anything else as JSON.
pub open spec fn header_text(j: Json) -> Seq<char> {
    match j {
        Json::Array(a) => if a.len() == 0 {
            Seq::empty()
        } else {
            match a[0] {
                Json::Str(s) => s,
                first => json_text(first),
            }
        },
        Json::Str(s) => s,
        _ => json_text(j),
    }
}

/// The headers a `headers` member stands for: those of an object, none for
/// anything else.
pub open spec fn headers_from(h: Option<Json>) -> Map<Seq<char>, Seq<char>> {
    match h {
        Some(Json::Object(m)) => m.map_values(|x: Json| header_text(x)),
        _ => Map::empty(),
    }
}

/// A value as body text: a string as it is, anything else as JSON.
pub open spec fn body_text(j: Json) -> Seq<char> {
    match j {
        Json::Str(s) => s,
        _ => json_text(j),
    }
}

/// A response with status 200, no headers and the given body.
pub open spec fn plain(body: Seq<char>) -> (u16, Map<Seq<char>, Seq<char>>, Seq<char>) {
    (200, Map::empty(), body)
}

/// The canonical response for the backend's `data`. The first rule that
/// matches decides:
/// an object with `body`, `headers` and `status` gives them directly (a body
/// that is not a string is empty);
/// an object with `status` takes `body` as text, or else the whole object as
/// JSON, and `headers` if present;
/// an object with `originalContent` gives that member as JSON;
/// a string is the body;
/// anything else is the body as JSON text.
pub open spec fn decoded(d: Json) -> (u16, Map<Seq<char>, Seq<char>>, Seq<char>) {
    let status = member(d, "status"@);
    let body = member(d, "body"@);
    let headers = member(d, "headers"@);
    let original = member(d, "originalContent"@);
    if status is Some && body is Some && headers is Some {
        (
            status_from(status->0),
            headers_from(headers),
            match body->0 {
                Json::Str(s) => s,
                _ => Seq::empty(),
            },
        )
    } else if status is Some {
        (
            status_from(status->0),
            headers_from(headers),
            match body {
                Some(b) => body_text(b),
                None => json_text(d),
            },
        )
    } else if original is Some {
        plain(json_text(original->0))
    } else {
        plain(body_text(d))
    }
}

/// The status code a `status` member gives.
fn status_number(v: &serde_json::Value) -> (r: u16)
    ensures
        r == status_from(json_of(*v)),
{
    match value_as_u64(v) {
        Some(n) => if n <= u16::MAX as u64 {
            n as u16
        } else {
            u16::MAX
        },
        None => 200,
    }
}

/// A value as body text.
fn text_of_body(v: &serde_json::Value) -> (r: String)
    ensures
        r@ == body_text(json_of(*v)),
{
    match value_as_str(v) {
        Some(s) => s.to_owned(),
        None => value_text(v),
    }
}

/// The text of one header value.
fn header_value_text(v: &serde_json::Value) -> (r: String)
    ensures
        r@ == header_text(json_of(*v)),
{
    match value_as_array(v) {
        Some(items) => {
            if items.len() == 0 {
                String::new()
            } else {
                assert(json_of(items@[0]) == items@.map_values(|x: serde_json::Value| json_of(x))[0]);
                text_of_body(&items[0])
            }
        },
        None => text_of_body(v),
    }
}

/// The headers a `headers` member gives, each name once.
fn headers_of(v: &serde_json::Value) -> (r: Vec<(String, String)>)
    ensures
        distinct_keys(text_pairs(r@)),
        header_map(r@) == headers_from(Some(json_of(*v))),
{
    let members = match value_members(v) {
        Some(ms) => ms,
        None => {
            let none: Vec<(String, String)> = Vec::new();
            assert(header_map(none@) =~= Map::empty());
            return none;
        },
    };
    let ghost src = pairs_model(members@);
    let ghost f = |x: Json| header_text(x);
    let mut out: Vec<(String, String)> = Vec::new();
    let mut i: usize = 0;
    while i < members.len()
        invariant
            i <= members.len(),
            src == pairs_model(members@),
            distinct_keys(src),
            f == (|x: Json| header_text(x)),
            text_pairs(out@) =~= map_pair_values(src.subrange(0, i as int), f),
        decreases members.len() - i,
    {
        let (name, value) = (&members[i].0, &members[i].1);
        assert(src[i as int] == (name@, json_of(*value)));
        let text = header_value_text(value);
        let ghost before_push = out@;
        out.push((name.clone(), text));
        assert(text_pairs(out@) =~= text_pairs(before_push).push((name@, header_text(json_of(*value)))));
        assert(f(src[i as int].1) == header_text(json_of(*value)));
        assert(map_pair_values(src.subrange(0, i + 1), f) =~= map_pair_values(src.subrange(0, i as int), f).push(
            (src[i as int].0, f(src[i as int].1)),
        ));
        i = i + 1;
    }
    proof {
        assert(src.subrange(0, i as int) =~= src);
        lemma_map_from_pairs_values(src, f);
        assert forall|a: int, b: int| 0 <= a < b < out@.len() implies text_pairs(out@)[a].0 != text_pairs(out@)[b].0 by {
            assert(src[a].0 != src[b].0);
        }
    }
    out
}

/// Reads the backend's `data` as a canonical response. No shape is refused:
/// the rules of `decoded` are tried in order and the last one takes anything.
pub fn parse_laravel_response(data: &serde_json::Value) -> (r: HttpResponsePayload)
    ensures
        r.wf(),
        r.model() == decoded(json_of(*data)),
{
    let status = value_get(data, "status");
    let body = value_get(data, "body");
    let headers = value_get(data, "headers");
    let no_headers: Vec<(String, String)> = Vec::new();
    assert(header_map(no_headers@) =~= Map::empty());
    match status {
        Some(s) => {
            let code = status_number(s);
            let header_pairs = match headers {
                Some(h) => headers_of(h),
                None => no_headers,
            };
            let text = match body {
                Some(b) => {
                    if headers.is_some() {
                        match value_as_str(b) {
                            Some(t) => t.to_owned(),
                            None => String::new(),
                        }
                    } else {
                        text_of_body(b)
                    }
                },
                None => value_text(data),
            };
            HttpResponsePayload { status: code, headers: header_pairs, body: text }
        },
        None => {
            let text = match value_get(data, "originalContent") {
                Some(o) => value_text(o),
                None => text_of_body(data),
            };
            HttpResponsePayload { status: 200, headers: no_headers, body: text }
        },
    }
}

} // verus!
