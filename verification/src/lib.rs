//! The client side of a daemon that runs Java code: how a request's bytes are
//! chosen and read, how the daemon is reached or started, and how one exchange
//! over the socket proceeds. Every decision is a function from plain values to
//! plain values; the caller does the I/O that the returned effects name.

pub mod connector;
pub mod daemon;
pub mod input;
pub mod invocation;
pub mod paths;
pub mod relay;
pub mod report;
pub mod text;
