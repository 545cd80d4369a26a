//! Core logic of a forward HTTP proxy: request dispatch, target-address
//! resolution, and the state machine of a CONNECT byte tunnel.
//!
//! All network I/O lives outside this crate; here are the decisions a proxy
//! makes for each request and the invariants the byte relay must keep.

pub mod addr;
pub mod dispatch;
pub mod error;
pub mod target;
pub mod tunnel;

pub use error::ProxyError;
