//! Configuration of the bridge, the bookkeeping of requests in flight, and
//! the smaller decisions of the HTTP side.
use vstd::prelude::*;
use vstd::utf8::{decode_utf8, valid_utf8};
use crate::envelope::utf8_text;
use crate::frame::{DEFAULT_MAX_FRAME_SIZE, FrameCodec};
use crate::outgoing::{OutgoingResponse, ResponseBody};
use crate::pool::DEFAULT_MAX_IDLE;
use crate::retry::RetryPolicy;

verus! {

/// Where the backend listens, and how the bridge talks to it.
#[derive(Debug, Clone)]
pub struct SocketBridgeConfig {
    /// The path of the backend's Unix socket.
    pub socket_path: String,
    /// The bound on idle pooled connections.
    pub max_idle: usize,
    /// How many connections warm-up tries to establish.
    pub min_idle: usize,
    /// The largest frame payload accepted in either direction.
    pub max_frame_size: u32,
    /// How warm-up is retried while the backend is not yet listening.
    pub warm_up_retry: RetryPolicy,
}

/// The default warm-up retry: five attempts, waits doubling from 100 ms up
/// to 2 s.
pub open spec fn default_warm_up_retry() -> RetryPolicy {
    RetryPolicy { max_attempts: 5, base_delay_ms: 100, max_delay_ms: 2000 }
}

impl SocketBridgeConfig {
    /// A configuration for a socket path, with the default pool bound, one
    /// pre-warmed connection, the default frame bound and warm-up retry.
    pub fn new(socket_path: String) -> (r: SocketBridgeConfig)
        ensures
            r.socket_path == socket_path,
            r.max_idle == DEFAULT_MAX_IDLE,
            r.min_idle == 1,
            r.max_frame_size == DEFAULT_MAX_FRAME_SIZE,
            r.warm_up_retry == default_warm_up_retry(),
    {
        SocketBridgeConfig {
            socket_path,
            max_idle: DEFAULT_MAX_IDLE,
            min_idle: 1,
            max_frame_size: DEFAULT_MAX_FRAME_SIZE,
            warm_up_retry: RetryPolicy { max_attempts: 5, base_delay_ms: 100, max_delay_ms: 2000 },
        }
    }

    /// The frame codec this configuration calls for.
    pub fn codec(&self) -> (r: FrameCodec)
        ensures
            r.max_frame_size == self.max_frame_size,
    {
        FrameCodec::new(self.max_frame_size)
    }

    /// The socket path.
    pub fn get_socket_path(&self) -> (r: &str)
        ensures
            r@ == self.socket_path@,
    {
        self.socket_path.as_str()
    }
}

/// The handle an embedding application holds on the server.
#[derive(Debug)]
pub struct LaravelRustServer {}

impl LaravelRustServer {
    pub fn new() -> (r: LaravelRustServer) {
        LaravelRustServer {}
    }
}

/// Requests in flight through a worker manager, and its configured size.
#[derive(Debug, Clone, Copy, PartialEq, Eq, Structural)]
pub struct WorkerLoad {
    pub active_requests: usize,
    pub max_workers: usize,
}

impl WorkerLoad {
    pub fn new(max_workers: usize) -> (r: WorkerLoad)
        ensures
            r.active_requests == 0,
            r.max_workers == max_workers,
    {
        WorkerLoad { active_requests: 0, max_workers }
    }

    /// A request starts (the count stays at its maximum rather than wrap).
    pub fn begin_request(&mut self)
        ensures
            final(self).max_workers == old(self).max_workers,
            final(self).active_requests == if old(self).active_requests < usize::MAX {
                old(self).active_requests + 1
            } else {
                old(self).active_requests as int
            },
    {
        if self.active_requests < usize::MAX {
            self.active_requests = self.active_requests + 1;
        }
    }

    /// A request ends (the count never goes below zero).
    pub fn end_request(&mut self)
        ensures
            final(self).max_workers == old(self).max_workers,
            final(self).active_requests == if old(self).active_requests > 0 {
                old(self).active_requests - 1
            } else {
                0
            },
    {
        if self.active_requests > 0 {
            self.active_requests = self.active_requests - 1;
        }
    }
}

/// The body text of an incoming request: none when empty or not UTF-8.
pub fn request_body_text(bytes: &[u8]) -> (r: Option<String>)
    ensures
        bytes@.len() == 0 ==> r is None,
        bytes@.len() > 0 ==> (r is Some <==> valid_utf8(bytes@)),
        r matches Some(s) ==> s@ == decode_utf8(bytes@),
{
    if bytes.len() == 0 {
        None
    } else {
        utf8_text(bytes)
    }
}

/// The plain 500 response.
pub fn internal_server_error() -> (r: OutgoingResponse)
    ensures
        r.status == 500,
        r.headers@.len() == 0,
        r.body matches ResponseBody::Text(t) && t@ == "Internal Server Error"@,
{
    OutgoingResponse {
        status: 500,
        headers: Vec::new(),
        body: ResponseBody::Text("Internal Server Error".to_owned()),
        rejected_header_names: Vec::new(),
    }
}

} // verus!
