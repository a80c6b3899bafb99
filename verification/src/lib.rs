//! Routing HTTP requests through a SOCKS5 proxy and keeping the lifecycle of
//! the proxy-providing service, as verified decision logic.
//!
//! The library does no I/O. Whatever touches a socket, a clock or the
//! service itself is done by the host, which reports what happened and is
//! told what to do next:
//!
//! - `http_client` decides the steps of one HTTP exchange: opening the
//!   tunnel, writing the request, reading until the response is whole or
//!   the deadline has passed. `request` frames the request, `response`
//!   tells when a response is whole and reads it, `target` names the
//!   endpoint of a URL, `tunnel` tells failures of the tunnel apart, and
//!   `deadline` keeps the time.
//! - `service` holds the one active service and decides each lifecycle
//!   operation on it. `lifecycle` makes one operation of starting a service
//!   where none runs and creating a hidden service on it.
//! - `ffi` offers both to foreign callers on flat values.
//! - `headers`, `bytes`, `text` and `decimal` are what the others are built
//!   from.

pub mod bytes;
pub mod deadline;
pub mod decimal;
pub mod ffi;
pub mod headers;
pub mod http_client;
pub mod lifecycle;
pub mod request;
pub mod response;
pub mod service;
pub mod target;
pub mod text;
pub mod tunnel;
