//! The verified core of a single-hop authenticating reverse proxy.
//!
//! The crate holds the decisions of the proxy as functions on plain values:
//! how a configuration document becomes a configuration, which upstream
//! request an inbound path gives, which credential is injected and what
//! answer each upstream outcome is turned into. Sockets, the HTTP server and
//! the HTTP client stay with the program that links this library.

pub mod config;
pub mod credential;
pub mod handlers;
pub mod headers;
pub mod lifecycle;
pub mod loader;
pub mod proxy;
pub mod response;
pub mod startup;
pub mod text;
