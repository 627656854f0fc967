//! A small, fully verified HTTP request-to-response pipeline.
//!
//! The library models the designed behaviour of a minimal web service:
//! route matching with a single named capture segment, HTML template
//! rendering with escaping of interpolated text, response wrapping,
//! a fixed cross-origin policy evaluated before routing, and the
//! path-safety and content-type rules of a static asset directory.
//! All I/O (sockets, file reads) lives outside the library; callers
//! hand in plain request values and receive plain response values.

pub mod assets;
pub mod cors;
pub mod http;
pub mod query;
pub mod response;
pub mod routing;
pub mod server;
pub mod template;
pub mod text;
