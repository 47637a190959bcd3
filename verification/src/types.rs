//! Event taxonomy of the SSE feed: the envelope of one decoded event, its
//! payload, and the event-type discriminator used as the routing key.
use vstd::prelude::*;

verus! {

/// Number of distinct event types, one per `EventType` variant.
pub const NUM_EVENT_TYPES: usize = 11;

/// Routing key derived from an envelope: one entry per `SseData` variant,
/// with payload-carrying variants collapsed to their kind.
#[derive(Clone, Copy, Debug, PartialEq, Eq, Hash, Structural)]
pub enum EventType {
    ApiVersion,
    SidecarVersion,
    BlockAdded,
    TransactionAccepted,
    TransactionProcessed,
    TransactionExpired,
    Fault,
    FinalitySignature,
    Step,
    Shutdown,
    /// Catch-all for event kinds this library does not know by name.
    Other,
}

/// Position of an event type in registry tables; a bijection onto
/// `0 .. NUM_EVENT_TYPES`.
pub open spec fn type_index(t: EventType) -> int {
    match t {
        EventType::ApiVersion => 0,
        EventType::SidecarVersion => 1,
        EventType::BlockAdded => 2,
        EventType::TransactionAccepted => 3,
        EventType::TransactionProcessed => 4,
        EventType::TransactionExpired => 5,
        EventType::Fault => 6,
        EventType::FinalitySignature => 7,
        EventType::Step => 8,
        EventType::Shutdown => 9,
        EventType::Other => 10,
    }
}

impl EventType {
    /// Table slot of this event type.
    pub fn slot(&self) -> (i: usize)
        ensures
            i == type_index(*self),
    {
        match self {
            EventType::ApiVersion => 0,
            EventType::SidecarVersion => 1,
            EventType::BlockAdded => 2,
            EventType::TransactionAccepted => 3,
            EventType::TransactionProcessed => 4,
            EventType::TransactionExpired => 5,
            EventType::Fault => 6,
            EventType::FinalitySignature => 7,
            EventType::Step => 8,
            EventType::Shutdown => 9,
            EventType::Other => 10,
        }
    }
}

/// Protocol version announced by the node in the handshake event, as the
/// plain `major.minor.patch` triple the wire format carries.
#[derive(Clone, Copy, Debug, PartialEq, Eq, Hash, Structural)]
pub struct ProtocolVersion {
    pub major: u32,
    pub minor: u32,
    pub patch: u32,
}

impl ProtocolVersion {
    /// Builds a version from its three components.
    pub fn from_parts(major: u32, minor: u32, patch: u32) -> (v: ProtocolVersion)
        ensures
            v == (ProtocolVersion { major, minor, patch }),
    {
        ProtocolVersion { major, minor, patch }
    }
}

/// Supported payload encodings.
#[derive(Clone, Copy, Debug, PartialEq, Eq, Hash, Structural)]
pub enum EventPayloadCodec {
    Json,
    Binary,
}

/// Opaque payload of an envelope: the raw text of one JSON document, or raw
/// bytes. The library checks the payload's outer syntax and routes it; its
/// meaning is the consumer's concern.
#[derive(Clone, Debug, PartialEq, Eq)]
pub enum EventPayload {
    Json(String),
    Binary(Vec<u8>),
}

/// Mathematical value of a payload.
pub enum EventPayloadView {
    Json(Seq<char>),
    Binary(Seq<u8>),
}

impl View for EventPayload {
    type V = EventPayloadView;

    open spec fn view(&self) -> EventPayloadView {
        match self {
            EventPayload::Json(s) => EventPayloadView::Json(s@),
            EventPayload::Binary(b) => EventPayloadView::Binary(b@),
        }
    }
}

impl EventPayload {
    /// Codec this payload is encoded with.
    pub fn codec(&self) -> (c: EventPayloadCodec)
        ensures
            c == self@.codec(),
    {
        match self {
            EventPayload::Json(_) => EventPayloadCodec::Json,
            EventPayload::Binary(_) => EventPayloadCodec::Binary,
        }
    }
}

impl EventPayloadView {
    /// Codec of a payload value.
    pub open spec fn codec(self) -> EventPayloadCodec {
        match self {
            EventPayloadView::Json(_) => EventPayloadCodec::Json,
            EventPayloadView::Binary(_) => EventPayloadCodec::Binary,
        }
    }
}

/// One decoded event from the feed: a closed set of kinds, each carrying an
/// opaque payload, except the handshake variant, which carries the protocol
/// version, and the shutdown variant, which carries nothing. Unknown kinds
/// land in `Other` with their tag, so an extended feed never breaks routing.
#[derive(Clone, Debug, PartialEq, Eq)]
pub enum SseData {
    ApiVersion(ProtocolVersion),
    SidecarVersion(EventPayload),
    BlockAdded(EventPayload),
    TransactionAccepted(EventPayload),
    TransactionProcessed(EventPayload),
    TransactionExpired(EventPayload),
    Fault(EventPayload),
    FinalitySignature(EventPayload),
    Step(EventPayload),
    Shutdown,
    Other(String, Option<EventPayload>),
}

/// Mathematical value of an envelope.
pub enum SseDataView {
    ApiVersion(ProtocolVersion),
    SidecarVersion(EventPayloadView),
    BlockAdded(EventPayloadView),
    TransactionAccepted(EventPayloadView),
    TransactionProcessed(EventPayloadView),
    TransactionExpired(EventPayloadView),
    Fault(EventPayloadView),
    FinalitySignature(EventPayloadView),
    Step(EventPayloadView),
    Shutdown,
    Other(Seq<char>, Option<EventPayloadView>),
}

impl View for SseData {
    type V = SseDataView;

    open spec fn view(&self) -> SseDataView {
        match self {
            SseData::ApiVersion(v) => SseDataView::ApiVersion(*v),
            SseData::SidecarVersion(p) => SseDataView::SidecarVersion(p@),
            SseData::BlockAdded(p) => SseDataView::BlockAdded(p@),
            SseData::TransactionAccepted(p) => SseDataView::TransactionAccepted(p@),
            SseData::TransactionProcessed(p) => SseDataView::TransactionProcessed(p@),
            SseData::TransactionExpired(p) => SseDataView::TransactionExpired(p@),
            SseData::Fault(p) => SseDataView::Fault(p@),
            SseData::FinalitySignature(p) => SseDataView::FinalitySignature(p@),
            SseData::Step(p) => SseDataView::Step(p@),
            SseData::Shutdown => SseDataView::Shutdown,
            SseData::Other(tag, p) => SseDataView::Other(
                tag@,
                match p {
                    Some(q) => Some(q@),
                    None => None,
                },
            ),
        }
    }
}

impl SseDataView {
    /// The event type of an envelope value: a total mapping, one type per
    /// variant.
    pub open spec fn event_type(self) -> EventType {
        match self {
            SseDataView::ApiVersion(_) => EventType::ApiVersion,
            SseDataView::SidecarVersion(_) => EventType::SidecarVersion,
            SseDataView::BlockAdded(_) => EventType::BlockAdded,
            SseDataView::TransactionAccepted(_) => EventType::TransactionAccepted,
            SseDataView::TransactionProcessed(_) => EventType::TransactionProcessed,
            SseDataView::TransactionExpired(_) => EventType::TransactionExpired,
            SseDataView::Fault(_) => EventType::Fault,
            SseDataView::FinalitySignature(_) => EventType::FinalitySignature,
            SseDataView::Step(_) => EventType::Step,
            SseDataView::Shutdown => EventType::Shutdown,
            SseDataView::Other(_, _) => EventType::Other,
        }
    }
}

impl SseData {
    /// Classifies this envelope. Total and deterministic: the result is a
    /// pure function of the envelope value, so repeated calls on the same
    /// value return the same type.
    pub fn event_type(&self) -> (t: EventType)
        ensures
            t == self@.event_type(),
    {
        match self {
            SseData::ApiVersion(_) => EventType::ApiVersion,
            SseData::SidecarVersion(_) => EventType::SidecarVersion,
            SseData::BlockAdded(_) => EventType::BlockAdded,
            SseData::TransactionAccepted(_) => EventType::TransactionAccepted,
            SseData::TransactionProcessed(_) => EventType::TransactionProcessed,
            SseData::TransactionExpired(_) => EventType::TransactionExpired,
            SseData::Fault(_) => EventType::Fault,
            SseData::FinalitySignature(_) => EventType::FinalitySignature,
            SseData::Step(_) => EventType::Step,
            SseData::Shutdown => EventType::Shutdown,
            SseData::Other(_, _) => EventType::Other,
        }
    }
}

/// Classification is deterministic: envelopes with the same value are given
/// the same event type, on any two calls.
pub proof fn lemma_classify_deterministic(a: SseData, b: SseData)
    requires
        a@ == b@,
    ensures
        a@.event_type() == b@.event_type(),
{
}

/// One raw frame read from the event stream, before the envelope is decoded
/// from its `data` field.
#[derive(Clone, Debug, PartialEq, Eq)]
pub struct ProxyEventInfo {
    /// Kind of event named on the SSE channel.
    pub kind: String,
    /// Associated event data: the wire document the decoder reads.
    pub data: String,
    /// Event identifier, normally a monotonically increasing integer.
    pub id: Option<String>,
    /// Retry hint, if the server sent one.
    pub retry: Option<u64>,
}

/// A mutation request sent to the client core by a caller. Each carries, on
/// the caller's side, an acknowledgement path; the core itself decides only
/// the state change.
#[derive(Clone, Copy, Debug, PartialEq, Eq, Structural)]
pub enum CoreCommand {
    Connect,
    AddOnEventHandler(EventType),
    RemoveEventHandler(u64),
}

} // verus!
