//! A fixed-size worker pool for a small HTTP server, together with the
//! request parsing and response formatting that the server's jobs perform.
//!
//! The pool owns `N` long-lived worker threads that drain a shared FIFO job
//! queue; shutting the pool down closes the queue and joins every worker, so
//! no submitted job is abandoned. The protocol the pool follows is stated
//! and proved over an explicit model in `lifecycle`.

pub mod channel;
pub mod http;
pub mod lifecycle;
pub mod parse;
pub mod pool;
