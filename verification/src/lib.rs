//! The runtime of a serverless worker: what goes on between a script engine and its host.
//!
//! A worker runs a script that answers requests and tasks. The script asks its event loop for
//! timers, requests, streams and bindings, and waits with callbacks until the answers are there.
//! Isolates are pooled per thread and kept apart by owner; limits on memory, CPU time and
//! wall-clock time stop a worker that goes too far.
//!
//! The script engine, the network, the clocks and the timers belong to the caller. This crate
//! decides: every step is a function from what is known to what is to be done.

pub mod bindings;
pub mod callback_handlers;
pub mod chunk_channel;
pub mod compression;
pub mod crypto;
pub mod dispatch;
pub mod env;
pub mod evaluation;
pub mod events;
pub mod fetch;
pub mod http_client;
pub mod limits;
pub mod operations;
pub mod pattern_host;
pub mod scheduler;
pub mod security;
pub mod snapshot;
pub mod stream_manager;
pub mod task;
pub mod text;
pub mod text_encoding;
pub mod thread_pinned_pool;
pub mod url_parts;
pub mod url_pattern;
pub mod worker;
pub mod worker_future;
