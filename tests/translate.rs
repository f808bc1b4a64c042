use laravel_rust_server::envelope::interpret_reply;
use laravel_rust_server::error::BridgeError;
use laravel_rust_server::exchange::{after_socket_check, error_response, finish_exchange, outcome, Step};
use laravel_rust_server::frame::FrameError;
use laravel_rust_server::outgoing::{build_response, materialize_body, ResponseBody};
use laravel_rust_server::response::{parse_laravel_response, HttpResponsePayload};

fn value(text: &str) -> serde_json::Value {
    serde_json::from_str(text).unwrap()
}

fn header<'a>(h: &'a [(String, String)], name: &str) -> Option<&'a str> {
    h.iter().find(|(k, _)| k == name).map(|(_, v)| v.as_str())
}

#[test]
fn full_triple_is_used_directly() {
    let r = parse_laravel_response(&value(r#"{"body":"x","headers":{"Content-Type":["text/plain"]},"status":201}"#));
    assert_eq!(r.status, 201);
    assert_eq!(r.body, "x");
    assert_eq!(r.headers, vec![("Content-Type".to_string(), "text/plain".to_string())]);
}

#[test]
fn bare_string_is_the_body() {
    let r = parse_laravel_response(&value(r#""hello""#));
    assert_eq!(r.status, 200);
    assert_eq!(r.body, "hello");
    assert!(r.headers.is_empty());
}

#[test]
fn status_without_body_serializes_object() {
    let r = parse_laravel_response(&value(r#"{"status":404,"foo":"bar"}"#));
    assert_eq!(r.status, 404);
    assert_eq!(r.body, r#"{"foo":"bar","status":404}"#);
    assert!(r.headers.is_empty());
}

#[test]
fn status_with_non_string_body_and_header_shapes() {
    let r = parse_laravel_response(&value(r#"{"status":202,"body":{"a":[1,2]}}"#));
    assert_eq!(r.status, 202);
    assert_eq!(r.body, r#"{"a":[1,2]}"#);
    assert!(r.headers.is_empty());
    let r = parse_laravel_response(&value(
        r#"{"status":203,"body":"b","headers":{"X-Empty":[],"X-Num":[5],"X-Str":"s","X-Obj":{"k":true}}}"#,
    ));
    assert_eq!(r.status, 203);
    assert_eq!(r.body, "b");
    assert_eq!(header(&r.headers, "X-Empty"), Some(""));
    assert_eq!(header(&r.headers, "X-Num"), Some("5"));
    assert_eq!(header(&r.headers, "X-Str"), Some("s"));
    assert_eq!(header(&r.headers, "X-Obj"), Some(r#"{"k":true}"#));
}

#[test]
fn triple_with_non_string_body_is_empty() {
    let r = parse_laravel_response(&value(r#"{"body":3,"headers":[],"status":"x"}"#));
    assert_eq!(r.status, 200);
    assert_eq!(r.body, "");
    assert!(r.headers.is_empty());
}

#[test]
fn original_content_numbers_booleans_and_rest() {
    let r = parse_laravel_response(&value(r#"{"originalContent":{"z":1}}"#));
    assert_eq!((r.status, r.body.as_str()), (200, r#"{"z":1}"#));
    assert_eq!(parse_laravel_response(&value("12.5")).body, "12.5");
    assert_eq!(parse_laravel_response(&value("true")).body, "true");
    assert_eq!(parse_laravel_response(&value("null")).body, "null");
    assert_eq!(parse_laravel_response(&value("[1,\"a\"]")).body, "[1,\"a\"]");
    assert_eq!(parse_laravel_response(&value(r#"{"other":1}"#)).body, r#"{"other":1}"#);
}

#[test]
fn oversized_status_is_refused() {
    let r = parse_laravel_response(&value(r#"{"status":70000}"#));
    assert_eq!(r.status, u16::MAX);
    match build_response(&r) {
        Err(e) => assert_eq!(e, BridgeError::InvalidStatusCode(u16::MAX)),
        Ok(_) => panic!("status accepted"),
    }
    let out = error_response(&BridgeError::InvalidStatusCode(1000));
    assert_eq!(out.status, 500);
    assert_eq!(out.body, ResponseBody::Text("Invalid status code: 1000".to_string()));
}

#[test]
fn octet_stream_with_non_base64_body_passes_through() {
    let body = "not base64 at all!".to_string();
    assert_eq!(materialize_body("application/octet-stream", &body), ResponseBody::Text(body.clone()));
}

#[test]
fn binary_body_is_base64_decoded() {
    let body = "aGVsbG8=".to_string();
    assert_eq!(materialize_body("image/png", &body), ResponseBody::Bytes(b"hello".to_vec()));
}

#[test]
fn json_body_is_reserialized_or_kept() {
    let body = "{ \"a\" : 1 ,\"b\":[ true ] }".to_string();
    assert_eq!(materialize_body("application/json", &body), ResponseBody::Text("{\"a\":1,\"b\":[true]}".to_string()));
    let broken = "{not json".to_string();
    assert_eq!(materialize_body("application/json", &broken), ResponseBody::Text(broken.clone()));
    assert_eq!(materialize_body("text/plain", &body), ResponseBody::Text(body.clone()));
}

#[test]
fn content_type_is_case_insensitive_and_ignores_parameters() {
    let p = HttpResponsePayload {
        status: 200,
        headers: vec![("Content-Type".to_string(), "Application/JSON; charset=utf-8".to_string())],
        body: "[1, 2]".to_string(),
    };
    let out = build_response(&p).unwrap();
    assert_eq!(out.body, ResponseBody::Text("[1,2]".to_string()));
}

#[test]
fn headers_are_filtered_and_trimmed() {
    let p = HttpResponsePayload {
        status: 201,
        headers: vec![
            ("X-Good".to_string(), "  value \n".to_string()),
            ("Bad Name".to_string(), "v".to_string()),
            ("X-Blank".to_string(), "   ".to_string()),
        ],
        body: "b".to_string(),
    };
    let out = build_response(&p).unwrap();
    assert_eq!(out.status, 201);
    assert_eq!(out.headers, vec![("X-Good".to_string(), "value".to_string())]);
    assert_eq!(out.rejected_header_names, vec!["Bad Name".to_string()]);
    assert_eq!(out.body, ResponseBody::Text("b".to_string()));
}

#[test]
fn missing_socket_answers_unavailable() {
    match after_socket_check(false) {
        Step::Respond(o) => {
            assert_eq!(o.status, 503);
            match o.body {
                ResponseBody::Text(t) => assert!(t.starts_with("Service Unavailable")),
                ResponseBody::Bytes(_) => panic!("binary body"),
            }
        }
        Step::Checkout => panic!("checked out without a socket"),
    }
    assert!(matches!(after_socket_check(true), Step::Checkout));
}

#[test]
fn reply_envelope_and_fallbacks() {
    let e = interpret_reply(br#"{"id":"7","success":true,"data":"hi"}"#).unwrap();
    assert_eq!(e.id, Some("7".to_string()));
    assert!(e.success);
    assert_eq!(e.data, Some(serde_json::Value::String("hi".to_string())));
    let raw = interpret_reply(br#"{"status":204}"#).unwrap();
    assert!(raw.success);
    assert_eq!(raw.data, Some(value(r#"{"status":204}"#)));
    let text = interpret_reply(b"plain words").unwrap();
    assert_eq!(text.data, Some(serde_json::Value::String("plain words".to_string())));
    let bad = interpret_reply(&[0xff, 0xfe]);
    assert!(matches!(bad, Err(BridgeError::ProtocolError(FrameError::NotUtf8))));
}

#[test]
fn failures_become_error_responses() {
    let failed = interpret_reply(br#"{"success":false,"error":"boom"}"#).unwrap();
    match outcome(&failed) {
        Err(BridgeError::BackendReportedFailure(m)) => assert_eq!(m, "boom"),
        _ => panic!("failure not reported"),
    }
    let (keep, out) = finish_exchange(Ok(br#"{"success":false}"#.to_vec()));
    assert!(keep);
    assert_eq!(out.status, 500);
    assert_eq!(out.body, ResponseBody::Text("Unknown error from Laravel".to_string()));
    let (keep, out) = finish_exchange(Ok(br#"{"success":true}"#.to_vec()));
    assert!(keep);
    assert_eq!(out.status, 200);
    assert_eq!(out.body, ResponseBody::Text("Laravel returned empty response".to_string()));
    let (keep, out) = finish_exchange(Err(BridgeError::IoError));
    assert!(!keep);
    assert_eq!(out.status, 503);
}

#[test]
fn full_exchange_reply() {
    let reply = br#"{"success":true,"data":{"body":"<p>hi</p>","headers":{"content-type":["text/html"]},"status":200}}"#;
    let (keep, out) = finish_exchange(Ok(reply.to_vec()));
    assert!(keep);
    assert_eq!(out.status, 200);
    assert_eq!(out.headers, vec![("content-type".to_string(), "text/html".to_string())]);
    assert_eq!(out.body, ResponseBody::Text("<p>hi</p>".to_string()));
}

#[test]
fn null_members_of_an_envelope_are_absent() {
    let e = interpret_reply(br#"{"id":null,"success":true,"data":null,"error":null}"#).unwrap();
    assert_eq!(e.id, None);
    assert!(e.success);
    assert_eq!(e.data, None);
    assert_eq!(e.error, None);
    let not_envelope = interpret_reply(br#"{"id":5,"success":true}"#).unwrap();
    assert_eq!(not_envelope.data, Some(value(r#"{"id":5,"success":true}"#)));
}
