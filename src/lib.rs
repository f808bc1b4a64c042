//! A gateway core that bridges HTTP requests to a backend worker reached over
//! a local stream socket, speaking length-prefixed JSON frames.
//!
//! The library holds the verified logic: the frame codec, the retry policy,
//! the connection pool, the mapping between HTTP and the backend's JSON
//! envelope, and the decisions of one request/response exchange. Sockets,
//! timers and the HTTP listener live with the caller.
pub mod envelope;
pub mod error;
pub mod exchange;
pub mod frame;
pub mod json;
pub mod outgoing;
pub mod pairs;
pub mod pool;
pub mod query;
pub mod request;
pub mod response;
pub mod retry;
pub mod server;
pub mod static_files;
pub mod text;
