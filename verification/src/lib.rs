//! Client-side core of a node's server-sent-event (SSE) feed: the event
//! taxonomy, the wire decoder, the handler registry and the connection state
//! machine, each with a verified contract. The asynchronous plumbing around
//! this core (HTTP transport, channels, timers) lives outside the library and
//! drives it through plain values.

pub mod client_core;
pub mod codec;
pub mod config;
pub mod error;
pub mod reconnect;
pub mod registry;
pub mod types;

pub use client_core::{ClientCore, CommandStep, Dispatch, StreamItem};
pub use error::ClientError;
pub use types::{
    CoreCommand, EventPayload, EventPayloadCodec, EventType, ProtocolVersion, ProxyEventInfo,
    SseData,
};
