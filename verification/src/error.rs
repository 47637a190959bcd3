//! Error taxonomy of the client: one variant per distinct fault, so a
//! supervising layer can tell retryable conditions from terminal ones.
use vstd::prelude::*;

verus! {

/// Everything that can go wrong between a caller and the event stream.
#[derive(Clone, Debug, PartialEq, Eq)]
pub enum ClientError {
    /// Transport-level failure to establish the connection.
    ConnectionError(String),
    /// An operation that needs a live stream ran while disconnected.
    NotConnected,
    /// The stream ended cleanly; a fault, because the feed is unbounded.
    StreamExhausted,
    /// The first event of a stream was not the version announcement.
    InvalidHandshake,
    /// A version announcement arrived again mid-stream.
    UnexpectedHandshake,
    /// A wire document could not be decoded into an envelope.
    DeserializationError(String),
    /// The node announced its shutdown; terminal for the connection.
    NodeShutdown,
    /// A caller-side wait expired.
    Timeout,
    /// A command the core does not recognize.
    InvalidCommand,
    /// The command channel to the core is closed.
    CommandSendError,
    /// The caller's acknowledgement receiver was dropped before the reply.
    ReciverDroppedError,
    /// The core died without acknowledging a command.
    CommandRecvError,
    /// A registered handler failed; isolated, never stream-fatal.
    EventHandlerError(String),
    /// A handler registration could not be completed.
    RegisterEventHanbdlerError,
    /// An envelope could not be passed to a waiting caller.
    ChannelInternalError,
    /// The transport reported an error while reading the stream.
    EventStreamError(String),
    /// No event stream is available to read from.
    NoEventStreamAvailable,
}

} // verus!
