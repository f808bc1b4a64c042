use laravel_rust_server::frame::FrameCodec;
use laravel_rust_server::pool::ConnectionPool;
use laravel_rust_server::query::extract_query_params;
use laravel_rust_server::request::{request_envelope, request_frame, HttpRequestPayload, PhpRequest};
use laravel_rust_server::server::{internal_server_error, request_body_text, SocketBridgeConfig, WorkerLoad};
use laravel_rust_server::static_files::{cache_control, get_content_type, is_static_file_request, static_file_path};

fn param<'a>(h: &'a [(String, String)], name: &str) -> Option<&'a str> {
    h.iter().find(|(k, _)| k == name).map(|(_, v)| v.as_str())
}

#[test]
fn static_paths() {
    assert!(is_static_file_request("/css/app.css"));
    assert!(is_static_file_request("/favicon.ico"));
    assert!(is_static_file_request("/assets/logo"));
    assert!(is_static_file_request("/build/manifest"));
    assert!(!is_static_file_request("/api/users"));
    assert!(!is_static_file_request("/"));
    assert_eq!(static_file_path("/favicon.ico"), "../public/favicon.ico");
}

#[test]
fn static_content_types_and_caching() {
    assert_eq!(get_content_type("../public/img/Logo.PNG"), "image/png");
    assert_eq!(get_content_type("../public/app.mjs"), "application/javascript");
    assert_eq!(get_content_type("../public/archive.zip"), "application/octet-stream");
    assert_eq!(get_content_type("../public/README"), "application/octet-stream");
    assert_eq!(cache_control("/build/app.js"), "public, max-age=31536000");
    assert_eq!(cache_control("/page.html"), "public, max-age=86400");
    assert_eq!(cache_control("/assets/font"), "public, max-age=86400");
}

#[test]
fn query_parameters_are_decoded_and_later_wins() {
    let p = extract_query_params(Some("a=1&b=%20x&c&&a=2&d=x=y"));
    assert_eq!(p.len(), 4);
    assert_eq!(param(&p, "a"), Some("2"));
    assert_eq!(param(&p, "b"), Some(" x"));
    assert_eq!(param(&p, "c"), Some(""));
    assert_eq!(param(&p, "d"), Some("x=y"));
    assert!(extract_query_params(None).is_empty());
    let bad = extract_query_params(Some("k=%FF"));
    assert_eq!(param(&bad, "k"), Some("%FF"));
}

#[test]
fn forwarding_envelope() {
    let payload = HttpRequestPayload {
        method: "POST".to_string(),
        uri: "/submit?x=1".to_string(),
        headers: vec![("content-type".to_string(), "application/json".to_string())],
        body: Some("{\"é\":1}".to_string()),
        query_params: vec![("x".to_string(), "1".to_string())],
    };
    let v = request_envelope(&payload);
    assert_eq!(
        v.to_string(),
        "{\"content\":\"{\\\"é\\\":1}\",\"headers\":{\"content-type\":\"application/json\"},\"method\":\"POST\",\"parameters\":{\"x\":\"1\"},\"server\":{\"CONTENT_LENGTH\":\"8\",\"CONTENT_TYPE\":\"application/json\",\"REQUEST_METHOD\":\"POST\",\"REQUEST_URI\":\"/submit?x=1\"},\"uri\":\"/submit?x=1\"}"
    );
    let frame = request_frame(&FrameCodec::new(1 << 20), &payload).unwrap();
    let text = v.to_string();
    assert_eq!(frame.len(), text.len() + 4);
    assert_eq!(&frame[4..], text.as_bytes());
}

#[test]
fn forwarding_envelope_without_body() {
    let payload = HttpRequestPayload {
        method: "GET".to_string(),
        uri: "/".to_string(),
        headers: Vec::new(),
        body: None,
        query_params: Vec::new(),
    };
    let v = request_envelope(&payload);
    assert_eq!(
        v.to_string(),
        "{\"content\":null,\"headers\":{},\"method\":\"GET\",\"parameters\":{},\"server\":{\"CONTENT_LENGTH\":\"0\",\"CONTENT_TYPE\":\"\",\"REQUEST_METHOD\":\"GET\",\"REQUEST_URI\":\"/\"},\"uri\":\"/\"}"
    );
}

#[test]
fn command_envelope() {
    let req = PhpRequest {
        id: None,
        command: "ping".to_string(),
        data: Some(vec![("n".to_string(), serde_json::Value::from(3u64))]),
    };
    assert_eq!(req.into_envelope().to_string(), "{\"command\":\"ping\",\"data\":{\"n\":3},\"id\":null}");
}

#[test]
fn pool_checkout_skips_dead_and_checkin_is_bounded() {
    let mut pool: ConnectionPool<u32> = ConnectionPool::new(2, 1);
    assert_eq!(pool.warm_up_deficit(), 1);
    assert!(pool.checkin(1, true));
    assert!(pool.checkin(2, true));
    assert!(!pool.checkin(3, true));
    assert_eq!(pool.idle_len(), 2);
    let is_live = |c: &u32| *c != 2;
    assert_eq!(pool.checkout(&is_live), Some(1));
    assert_eq!(pool.idle_len(), 0);
    assert_eq!(pool.checkout(&is_live), None);
    assert!(!pool.checkin(4, false));
    assert!(pool.checkin(5, true));
    pool.close_all();
    pool.close_all();
    assert_eq!(pool.idle_len(), 0);
}

#[test]
fn pool_checkout_probes_at_most_max_idle() {
    let mut pool: ConnectionPool<u32> = ConnectionPool::new(3, 0);
    for c in [10, 11, 12] {
        assert!(pool.checkin(c, true));
    }
    let dead = |_: &u32| false;
    assert_eq!(pool.checkout(&dead), None);
    assert_eq!(pool.idle_len(), 0);
    assert_eq!(pool.warm_up_deficit(), 0);
}

#[test]
fn config_and_bookkeeping() {
    let cfg = SocketBridgeConfig::new("/tmp/bridge.sock".to_string());
    assert_eq!(cfg.get_socket_path(), "/tmp/bridge.sock");
    assert_eq!(cfg.max_idle, 10);
    assert_eq!(cfg.codec().max_frame_size, cfg.max_frame_size);
    let mut load = WorkerLoad::new(4);
    load.end_request();
    assert_eq!(load.active_requests, 0);
    load.begin_request();
    load.begin_request();
    load.end_request();
    assert_eq!(load.active_requests, 1);
    assert_eq!(load.max_workers, 4);
}

#[test]
fn request_body_and_plain_error() {
    assert_eq!(request_body_text(b""), None);
    assert_eq!(request_body_text(b"abc"), Some("abc".to_string()));
    assert_eq!(request_body_text(&[0xc3]), None);
    let r = internal_server_error();
    assert_eq!(r.status, 500);
}
