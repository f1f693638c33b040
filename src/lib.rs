//! Request-dispatch core of a small HTTP service: routing by path pattern,
//! interceptor chains, per-request context and pluggable session storage.
//!
//! The library decides; the surrounding transport performs the I/O that its
//! decisions call for (store round trips, handler invocations).

pub mod strmap;
pub mod utils;
pub mod route;
pub mod document;
pub mod session;
pub mod response;
pub mod context;
pub mod dispatch;
pub mod middlewares;
pub mod views;
