//! State machines behind a QUIC transport: connections, streams and listeners whose events
//! arrive on foreign threads and whose results are awaited by tasks, in the shape that HTTP/3
//! asks for.
//!
//! A value of this library is owned by one party at a time. A program that shares one between a
//! transport callback and a task keeps it behind a lock and calls these functions under it. What
//! the transport has to be told is returned as a call, which the program makes.
pub mod api;
pub mod awaited;
pub mod buffer;
pub mod channel;
pub mod channel_listener;
pub mod conn;
pub mod error;
pub mod event_laws;
pub mod laws;
pub mod listener;
pub mod msh3;
pub mod msh3_eager;
pub mod oneshot;
pub mod stream;
pub mod sync;
pub mod sync_laws;
pub mod task;
pub mod transport;
pub mod unix_status;
pub mod utils;
pub mod win_status;
