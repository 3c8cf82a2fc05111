//! What the library asks of the transport, and the numbers that the two share.
use crate::api::Handle;
use crate::buffer::Buffer;

use vstd::prelude::*;

verus! {

/// Status of a callback that was handled.
pub const QUIC_STATUS_SUCCESS: u32 = 0;

/// Status of a callback that is still being handled.
pub const QUIC_STATUS_PENDING: u32 = 0x703e5;

pub const STREAM_OPEN_FLAG_NONE: u32 = 0;

/// The stream carries bytes from the one that opens it only.
pub const STREAM_OPEN_FLAG_UNIDIRECTIONAL: u32 = 1;

pub const SEND_FLAG_NONE: u32 = 0;

pub const STREAM_SHUTDOWN_FLAG_NONE: u32 = 0;

/// What was sent is delivered before the sending side ends.
pub const STREAM_SHUTDOWN_FLAG_GRACEFUL: u32 = 1;

pub const CONNECTION_SHUTDOWN_FLAG_NONE: u32 = 0;

/// A call that the transport has to be given for a stream.
#[derive(Debug, Clone, Copy)]
pub enum StreamCall {
    /// Sets the callback of a stream that the peer has started.
    SetCallback,
    /// Opens the stream on its connection, with its callback.
    Open { flags: u32 },
    /// Starts an opened stream.
    Start { flags: u32 },
    /// Sends the buffer that the stream holds.
    Send { flags: u32 },
    /// Shuts the stream, or one side of it, down.
    Shutdown { flags: u32, error_code: u64 },
}

/// A call that the transport has to be given for a connection.
#[derive(Debug, Clone, Copy)]
pub enum ConnectionCall {
    /// Sets the callback of a connection that a peer has opened.
    SetCallback,
    /// Sets the configuration of a connection that a peer has opened.
    SetConfiguration { configuration: Handle },
    /// Opens a connection of this side, with its callback.
    Open { registration: Handle },
    /// Sends a ticket that lets the peer resume the connection.
    SendResumptionTicket { flags: u32 },
    /// Shuts the connection down.
    Shutdown { flags: u32, error_code: u64 },
}

/// The call that starts a connection of this side.
#[derive(Debug, Clone, Copy)]
pub struct ConnectionStart<'a> {
    pub configuration: Handle,
    pub server_name: &'a str,
    pub server_port: u16,
}

/// A call that the transport has to be given for a listener.
#[derive(Debug, Clone, Copy)]
pub enum ListenerCall {
    /// Opens the listener, with its callback.
    Open { registration: Handle },
    /// Stops the listener. Its event may come in this call.
    Stop,
}

/// The call that starts a listener on an address. `A` is how the transport is given an address.
pub struct ListenerStart<'a, A> {
    pub alpn: &'a [Buffer<'a>],
    pub local_address: A,
}

} // verus!
