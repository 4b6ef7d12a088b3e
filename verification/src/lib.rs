//! Buffered, filter-composable byte-stream connections.
//!
//! A connection sits between an asynchronous transport and a dispatcher that
//! works on frames. This library holds everything about it that can be
//! decided without doing I/O, and proves it:
//!
//! - [`state`]: the state block of a connection and its state machine;
//!   [`flags`], [`pool`], [`buf`], [`waker`] and [`error`] are its parts.
//! - [`filter`]: the filter chain, its terminal layer and the connection;
//!   [`layer`] and [`tls`] are layers to put on a chain.
//! - [`tasks`], [`read_task`], [`write_task`]: what the two I/O pumps may do
//!   and what they do next.
//! - [`io`], [`dispatch`], [`dispatcher`]: the dispatcher's side.
//! - [`accept`], [`rt`], [`types`]: the acceptor's bookkeeping, and queries.
//! - [`laws`]: what holds of every run.
//!
//! The transport, the timers and the codec stay outside: they report what
//! happened, and are told what to do next.

pub mod accept;
pub mod buf;
pub mod dispatch;
pub mod dispatcher;
pub mod error;
pub mod filter;
pub mod flags;
pub mod io;
pub mod laws;
pub mod layer;
pub mod pool;
pub mod read_task;
pub mod rt;
pub mod state;
pub mod status;
pub mod tasks;
pub mod tls;
pub mod types;
pub mod waker;
pub mod write_task;
