//! Requests to the backend: the direct HTTP-forwarding envelope, the
//! named-command envelope, and the frame that carries either.
use vstd::prelude::*;
use vstd::string::StrSliceExecFns;
use vstd::utf8::encode_utf8;
use crate::frame::{FrameCodec, FrameError, frame_of};
use crate::json::{
    Json, distinct_keys, json_of, json_text, lemma_map_from_pairs_values, map_from_pairs, map_pair_values,
    pairs_model, value_null, value_object, value_string, value_text,
};
use crate::response::{header_map, text_pairs};
use crate::text::{decimal, decimal_string, str_eq};

verus! {

/// An HTTP request as it is forwarded: method, URI, headers and query
/// parameters (each name once), and the body text if there is one.
#[derive(Debug)]
pub struct HttpRequestPayload {
    pub method: String,
    pub uri: String,
    pub headers: Vec<(String, String)>,
    pub body: Option<String>,
    pub query_params: Vec<(String, String)>,
}

/// A map of texts as a JSON object of strings.
pub open spec fn string_object(m: Map<Seq<char>, Seq<char>>) -> Json {
    Json::Object(m.map_values(|s: Seq<char>| Json::Str(s)))
}

impl HttpRequestPayload {
    pub open spec fn wf(&self) -> bool {
        &&& distinct_keys(text_pairs(self.headers@))
        &&& distinct_keys(text_pairs(self.query_params@))
    }

    /// The `Content-Type` the backend is told: the `content-type` header, or
    /// the empty text.
    pub open spec fn spec_content_type(&self) -> Seq<char> {
        let h = header_map(self.headers@);
        if h.contains_key("content-type"@) {
            h["content-type"@]
        } else {
            Seq::empty()
        }
    }

    /// The `Content-Length` the backend is told: the body's length in UTF-8
    /// bytes, `0` without a body.
    pub open spec fn spec_content_length(&self) -> Seq<char> {
        match self.body {
            Some(b) => decimal(encode_utf8(b@).len()),
            None => "0"@,
        }
    }

    /// The forwarding envelope: method, URI, headers, query parameters, the
    /// body (or `null`), and CGI-style server variables.
    pub open spec fn spec_envelope(&self) -> Json {
        Json::Object(
            map_from_pairs(
                seq![
                    ("uri"@, Json::Str(self.uri@)),
                    ("method"@, Json::Str(self.method@)),
                    ("headers"@, string_object(header_map(self.headers@))),
                    ("parameters"@, string_object(header_map(self.query_params@))),
                    ("content"@, match self.body {
                        Some(b) => Json::Str(b@),
                        None => Json::Null,
                    }),
                    ("server"@, Json::Object(
                        map_from_pairs(
                            seq![
                                ("REQUEST_METHOD"@, Json::Str(self.method@)),
                                ("REQUEST_URI"@, Json::Str(self.uri@)),
                                ("CONTENT_TYPE"@, Json::Str(self.spec_content_type())),
                                ("CONTENT_LENGTH"@, Json::Str(self.spec_content_length())),
                            ],
                        ),
                    )),
                ],
            ),
        )
    }
}

/// Text pairs with distinct names as a JSON object of strings.
fn strings_value(h: &Vec<(String, String)>) -> (r: serde_json::Value)
    requires
        distinct_keys(text_pairs(h@)),
    ensures
        json_of(r) == string_object(header_map(h@)),
{
    let ghost f = |s: Seq<char>| Json::Str(s);
    let mut out: Vec<(String, serde_json::Value)> = Vec::new();
    let mut i: usize = 0;
    while i < h.len()
        invariant
            i <= h@.len(),
            f == (|s: Seq<char>| Json::Str(s)),
            pairs_model(out@) =~= map_pair_values(text_pairs(h@).subrange(0, i as int), f),
        decreases h.len() - i,
    {
        let ghost prev = out@;
        let v = value_string(h[i].1.clone());
        out.push((h[i].0.clone(), v));
        assert(pairs_model(out@) =~= pairs_model(prev).push((h@[i as int].0@, Json::Str(h@[i as int].1@))));
        assert(map_pair_values(text_pairs(h@).subrange(0, i + 1), f) =~= map_pair_values(
            text_pairs(h@).subrange(0, i as int),
            f,
        ).push((h@[i as int].0@, f(h@[i as int].1@))));
        i = i + 1;
    }
    proof {
        assert(text_pairs(h@).subrange(0, h@.len() as int) =~= text_pairs(h@));
        lemma_map_from_pairs_values(text_pairs(h@), f);
        assert forall|a: int, b: int| 0 <= a < b < out@.len() implies pairs_model(out@)[a].0 != pairs_model(out@)[b].0 by {
            assert(text_pairs(h@)[a].0 != text_pairs(h@)[b].0);
        }
    }
    value_object(out)
}

/// The value of the `content-type` header, or the empty text.
fn content_type_value(p: &HttpRequestPayload) -> (r: String)
    requires
        p.wf(),
    ensures
        r@ == p.spec_content_type(),
{
    let mut i: usize = 0;
    while i < p.headers.len()
        invariant
            i <= p.headers@.len(),
            p.wf(),
            forall|j: int| 0 <= j < i ==> p.headers@[j].0@ != "content-type"@,
        decreases p.headers.len() - i,
    {
        if str_eq(p.headers[i].0.as_str(), "content-type") {
            proof {
                crate::json::lemma_map_from_distinct_pairs(text_pairs(p.headers@), i as int);
            }
            return p.headers[i].1.clone();
        }
        i = i + 1;
    }
    proof {
        crate::json::lemma_map_from_pairs_keys(text_pairs(p.headers@), "content-type"@);
        assert forall|j: int| 0 <= j < text_pairs(p.headers@).len() implies text_pairs(p.headers@)[j].0
            != "content-type"@ by {
            assert(text_pairs(p.headers@)[j].0 == p.headers@[j].0@);
        }
    }
    String::new()
}

/// Builds the forwarding envelope of a request.
pub fn request_envelope(p: &HttpRequestPayload) -> (r: serde_json::Value)
    requires
        p.wf(),
    ensures
        json_of(r) == p.spec_envelope(),
{
    let content_length = match &p.body {
        Some(b) => {
            let n = b.as_str().as_bytes_vec().len();
            decimal_string(n as u64)
        },
        None => "0".to_owned(),
    };
    assert(content_length@ == p.spec_content_length());
    let content_type = content_type_value(p);
    let mut server: Vec<(String, serde_json::Value)> = Vec::new();
    server.push(("REQUEST_METHOD".to_owned(), value_string(p.method.clone())));
    server.push(("REQUEST_URI".to_owned(), value_string(p.uri.clone())));
    server.push(("CONTENT_TYPE".to_owned(), value_string(content_type)));
    server.push(("CONTENT_LENGTH".to_owned(), value_string(content_length)));
    proof {
        reveal_strlit("REQUEST_METHOD");
        reveal_strlit("REQUEST_URI");
        reveal_strlit("CONTENT_TYPE");
        reveal_strlit("CONTENT_LENGTH");
        assert("REQUEST_METHOD"@.len() != "REQUEST_URI"@.len());
        assert("CONTENT_TYPE"@.len() != "CONTENT_LENGTH"@.len());
        assert("REQUEST_METHOD"@[0] != "CONTENT_LENGTH"@[0]);
        assert("REQUEST_METHOD"@[0] != "CONTENT_TYPE"@[0]);
        assert("REQUEST_URI"@[0] != "CONTENT_TYPE"@[0]);
        assert("REQUEST_URI"@[0] != "CONTENT_LENGTH"@[0]);
        assert(pairs_model(server@) =~= seq![
            ("REQUEST_METHOD"@, Json::Str(p.method@)),
            ("REQUEST_URI"@, Json::Str(p.uri@)),
            ("CONTENT_TYPE"@, Json::Str(p.spec_content_type())),
            ("CONTENT_LENGTH"@, Json::Str(p.spec_content_length())),
        ]);
    }
    let server_value = value_object(server);
    let content = match &p.body {
        Some(b) => value_string(b.clone()),
        None => value_null(),
    };
    let mut top: Vec<(String, serde_json::Value)> = Vec::new();
    top.push(("uri".to_owned(), value_string(p.uri.clone())));
    top.push(("method".to_owned(), value_string(p.method.clone())));
    top.push(("headers".to_owned(), strings_value(&p.headers)));
    top.push(("parameters".to_owned(), strings_value(&p.query_params)));
    top.push(("content".to_owned(), content));
    top.push(("server".to_owned(), server_value));
    proof {
        reveal_strlit("uri");
        reveal_strlit("method");
        reveal_strlit("headers");
        reveal_strlit("parameters");
        reveal_strlit("content");
        reveal_strlit("server");
        assert("uri"@[0] != "method"@[0] && "uri"@[0] != "headers"@[0] && "uri"@[0] != "parameters"@[0]);
        assert("uri"@[0] != "content"@[0] && "uri"@[0] != "server"@[0]);
        assert("method"@[0] != "headers"@[0] && "method"@[0] != "parameters"@[0] && "method"@[0] != "content"@[0]);
        assert("method"@[0] != "server"@[0] && "headers"@[0] != "parameters"@[0] && "headers"@[0] != "content"@[0]);
        assert("headers"@[0] != "server"@[0] && "parameters"@[0] != "content"@[0] && "parameters"@[0] != "server"@[0]);
        assert("content"@[0] != "server"@[0]);
        assert(pairs_model(top@) =~= seq![
            ("uri"@, Json::Str(p.uri@)),
            ("method"@, Json::Str(p.method@)),
            ("headers"@, string_object(header_map(p.headers@))),
            ("parameters"@, string_object(header_map(p.query_params@))),
            ("content"@, match p.body {
                Some(b) => Json::Str(b@),
                None => Json::Null,
            }),
            ("server"@, json_of(server_value)),
        ]);
    }
    value_object(top)
}

/// The frame that forwards a request: its envelope as compact JSON text,
/// UTF-8 encoded, behind the length prefix.
pub fn request_frame(codec: &FrameCodec, p: &HttpRequestPayload) -> (r: Result<Vec<u8>, FrameError>)
    requires
        p.wf(),
    ensures
        ({
            let bytes = encode_utf8(json_text(p.spec_envelope()));
            &&& bytes.len() <= codec.max_frame_size ==> (r matches Ok(f) && f@ == frame_of(bytes))
            &&& bytes.len() > codec.max_frame_size ==> r is Err
        }),
{
    let envelope = request_envelope(p);
    let text = value_text(&envelope);
    let bytes = text.as_str().as_bytes_vec();
    codec.write_frame(bytes.as_slice())
}

/// A named command for the backend, with optional arguments (each name
/// once).
#[derive(Debug)]
pub struct PhpRequest {
    pub id: Option<String>,
    pub command: String,
    pub data: Option<Vec<(String, serde_json::Value)>>,
}

impl PhpRequest {
    pub open spec fn wf(&self) -> bool {
        self.data matches Some(d) ==> distinct_keys(pairs_model(d@))
    }

    /// The command envelope `{id, command, data}`; what is absent is `null`.
    pub open spec fn spec_envelope(&self) -> Json {
        Json::Object(
            map_from_pairs(
                seq![
                    ("id"@, match self.id {
                        Some(i) => Json::Str(i@),
                        None => Json::Null,
                    }),
                    ("command"@, Json::Str(self.command@)),
                    ("data"@, match self.data {
                        Some(d) => Json::Object(map_from_pairs(pairs_model(d@))),
                        None => Json::Null,
                    }),
                ],
            ),
        )
    }

    /// Builds the command envelope.
    pub fn into_envelope(self) -> (r: serde_json::Value)
        requires
            self.wf(),
        ensures
            json_of(r) == self.spec_envelope(),
    {
        let id = match self.id {
            Some(i) => value_string(i),
            None => value_null(),
        };
        let command = value_string(self.command);
        let data = match self.data {
            Some(d) => value_object(d),
            None => value_null(),
        };
        let mut top: Vec<(String, serde_json::Value)> = Vec::new();
        top.push(("id".to_owned(), id));
        top.push(("command".to_owned(), command));
        top.push(("data".to_owned(), data));
        proof {
            reveal_strlit("id");
            reveal_strlit("command");
            reveal_strlit("data");
            assert("id"@[0] != "command"@[0] && "id"@[0] != "data"@[0] && "command"@[0] != "data"@[0]);
            assert(pairs_model(top@) =~= seq![
                ("id"@, match self.id {
                    Some(i) => Json::Str(i@),
                    None => Json::Null,
                }),
                ("command"@, Json::Str(self.command@)),
                ("data"@, match self.data {
                    Some(d) => Json::Object(map_from_pairs(pairs_model(d@))),
                    None => Json::Null,
                }),
            ]);
        }
        value_object(top)
    }
}

/// The frame that carries a command: its envelope as compact JSON text,
/// UTF-8 encoded, behind the length prefix.
pub fn command_frame(codec: &FrameCodec, req: PhpRequest) -> (r: Result<Vec<u8>, FrameError>)
    requires
        req.wf(),
    ensures
        ({
            let bytes = encode_utf8(json_text(req.spec_envelope()));
            &&& bytes.len() <= codec.max_frame_size ==> (r matches Ok(f) && f@ == frame_of(bytes))
            &&& bytes.len() > codec.max_frame_size ==> r is Err
        }),
{
    let envelope = req.into_envelope();
    let text = value_text(&envelope);
    let bytes = text.as_str().as_bytes_vec();
    codec.write_frame(bytes.as_slice())
}

} // verus!
