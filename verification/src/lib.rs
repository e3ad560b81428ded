//! The per-connection core of an edge-triggered, non-blocking HTTP/1.x
//! server: buffers, request framing and the connection state machine.
//!
//! The engine makes no system call. It is driven: the reactor's readiness
//! events and the outcomes of receives and sends go in, and what is to be
//! done next comes out.

pub mod adapter;
pub mod buf;
pub mod engine;
pub mod epoll;
pub mod error;
pub mod framing;
pub mod handler;
pub mod laws;
pub mod request;
pub mod resource;

pub use handler::{HttpEvent, HttpHandler, HttpResponseEvent, HttpResult};
