//! Request handling for a static file server.
//!
//! The crate holds the decisions of the server: how the response headers are
//! collected, how a request is dispatched, which file it names, and what is
//! answered once the file system has been asked. It performs no I/O itself:
//! the caller reads files and sockets, and hands the results in.

pub mod arguments;
pub mod config;
pub mod exchange;
pub mod handler;
pub mod headers;
pub mod laws;
pub mod message;
pub mod text;

pub use arguments::{
    parse_arguments, parse_header, parse_host, parse_port, ArgumentError, Invocation, Settings,
};
pub use config::{normalize_root, Config};
pub use handler::{
    begin, fallback_read, file_checked, file_read, is_refused, relative_path, request_path, Step,
};
pub use headers::HeaderList;
pub use message::{Method, Reason, Reply, Request, Response};
