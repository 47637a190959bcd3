//! Connection manager and actor core: owns the handler registry and the
//! connection flag, validates the handshake, classifies stream items, and
//! decides what each inbound command does. The surrounding runtime pulls
//! stream items and commands and hands them in as plain values; the core
//! never touches the transport itself.
//!
//! On a fatal stream condition (a second handshake, or the node's shutdown
//! notice) the core returns to the disconnected state and reports the fault;
//! no further dispatch happens for that connection, and a later connect
//! command may establish a fresh one.
use vstd::prelude::*;
use crate::codec::{decode_sse_data, decode_spec};
use crate::error::ClientError;
use crate::registry::{
    HandlerRegistry, RegistryModel, empty_model, list_for, reg_wf, register_step, remove_step,
};
use crate::types::{CoreCommand, EventType, ProxyEventInfo, SseData};

verus! {

/// One outcome of polling the decoded event stream, as the runtime saw it.
#[derive(Clone, Debug, PartialEq, Eq)]
pub enum StreamItem {
    /// The stream produced a frame.
    Event(ProxyEventInfo),
    /// The stream ended cleanly.
    Closed,
    /// The transport failed; the message describes the fault.
    Failed(String),
}

/// What a command asks the runtime to do next: connect the transport, or
/// acknowledge a finished registry operation to the caller.
#[derive(Clone, Copy, Debug, PartialEq, Eq, Structural)]
pub enum CommandStep {
    /// The command was a connect request: open the transport, pull the first
    /// frame, and hand it to `connect`.
    NeedsConnect,
    /// A handler was registered under this id.
    HandlerAdded(u64),
    /// A removal ran; `true` exactly when the id was active.
    HandlerRemoved(bool),
}

/// One dispatch decision: the decoded envelope and the ids of the handlers
/// it goes to, in registration order.
#[derive(Debug)]
pub struct Dispatch {
    pub event: SseData,
    pub handler_ids: Vec<u64>,
}

/// Mathematical state of the core.
#[verifier::ext_equal]
pub struct CoreModel {
    pub url: Seq<char>,
    pub connected: bool,
    pub reg: RegistryModel,
}

/// The client core: the single owner of the registry and the connection
/// state. All mutation goes through its methods, one call at a time.
pub struct ClientCore {
    url: String,
    is_connected: bool,
    registry: HandlerRegistry,
}

impl View for ClientCore {
    type V = CoreModel;

    closed spec fn view(&self) -> CoreModel {
        CoreModel { url: self.url@, connected: self.is_connected, reg: self.registry@ }
    }
}

impl ClientCore {
    /// The core's invariant: its registry is well formed.
    pub open spec fn wf(&self) -> bool {
        reg_wf(self@.reg)
    }

    /// A fresh, disconnected core for the given endpoint.
    pub fn new(url: &str) -> (core: ClientCore)
        ensures
            core.wf(),
            core@.url == url@,
            !core@.connected,
            core@.reg == empty_model(),
    {
        ClientCore {
            url: url.to_owned(),
            is_connected: false,
            registry: HandlerRegistry::new(),
        }
    }

    /// The endpoint this core connects to.
    pub fn url(&self) -> (u: &str)
        ensures
            u@ == self@.url,
    {
        self.url.as_str()
    }

    /// Whether a stream is currently attached.
    pub fn is_connected(&self) -> (c: bool)
        ensures
            c == self@.connected,
    {
        self.is_connected
    }

    /// Whether another registration can still be issued; false only once
    /// the id space is exhausted.
    pub fn can_register(&self) -> (c: bool)
        ensures
            c == (self@.reg.next < u64::MAX),
    {
        self.registry.next_id() < u64::MAX
    }

    /// Validates the handshake against the first item the fresh stream
    /// produced. Connects exactly when that item is a frame whose document
    /// decodes to the version announcement; any other first event is
    /// `InvalidHandshake`, an end of stream is `StreamExhausted`, a
    /// transport fault is passed through, and a connection that fails
    /// leaves the previous connection state and the registry untouched.
    pub fn connect(&mut self, first: StreamItem) -> (r: Result<(), ClientError>)
        requires
            old(self).wf(),
        ensures
            final(self).wf(),
            final(self)@.url == old(self)@.url,
            final(self)@.reg == old(self)@.reg,
            match first {
                StreamItem::Event(frame) => match decode_spec(frame.data@) {
                    Some(v) => if v is ApiVersion {
                        r is Ok && final(self)@.connected
                    } else {
                        (r matches Err(e) && e is InvalidHandshake) && final(self)@.connected
                            == old(self)@.connected
                    },
                    None => (r matches Err(e) && e is DeserializationError)
                        && final(self)@.connected == old(self)@.connected,
                },
                StreamItem::Closed => (r matches Err(e) && e is StreamExhausted)
                    && final(self)@.connected == old(self)@.connected,
                StreamItem::Failed(m) => (r matches Err(ClientError::EventStreamError(t))
                    && t@ == m@) && final(self)@.connected == old(self)@.connected,
            },
    {
        match first {
            StreamItem::Event(frame) => match decode_sse_data(frame.data.as_str()) {
                Ok(d) => match d {
                    SseData::ApiVersion(_) => {
                        self.is_connected = true;
                        Ok(())
                    },
                    _ => Err(ClientError::InvalidHandshake),
                },
                Err(e) => Err(e),
            },
            StreamItem::Closed => Err(ClientError::StreamExhausted),
            StreamItem::Failed(m) => Err(ClientError::EventStreamError(m)),
        }
    }

    /// Explicit disconnect: returns to the disconnected state and keeps the
    /// endpoint and the registry. Also the supervisor's move once a
    /// transport fault or a clean end has taken the stream away.
    pub fn disconnect(&mut self)
        requires
            old(self).wf(),
        ensures
            final(self).wf(),
            final(self)@.url == old(self)@.url,
            final(self)@.reg == old(self)@.reg,
            !final(self)@.connected,
    {
        self.is_connected = false;
    }

    /// Turns one polled stream item into the next frame or the exact fault
    /// it denotes. Must not be asked while disconnected: that is
    /// `NoEventStreamAvailable`. Fault mapping is one to one: a clean end
    /// is `StreamExhausted`, a transport error keeps its message.
    pub fn run_once(&self, item: StreamItem) -> (r: Result<ProxyEventInfo, ClientError>)
        ensures
            !self@.connected ==> (r matches Err(e) && e is NoEventStreamAvailable),
            self@.connected ==> match item {
                StreamItem::Event(frame) => r matches Ok(f) && f == frame,
                StreamItem::Closed => r matches Err(e) && e is StreamExhausted,
                StreamItem::Failed(m) => r matches Err(ClientError::EventStreamError(t))
                    && t@ == m@,
            },
    {
        if !self.is_connected {
            return Err(ClientError::NoEventStreamAvailable);
        }
        match item {
            StreamItem::Event(frame) => Ok(frame),
            StreamItem::Closed => Err(ClientError::StreamExhausted),
            StreamItem::Failed(m) => Err(ClientError::EventStreamError(m)),
        }
    }

    /// Decodes a frame and decides its dispatch. A second version
    /// announcement is `UnexpectedHandshake` and the shutdown notice is
    /// `NodeShutdown`; both are fatal, disconnect the core, and dispatch to
    /// nobody. Every other envelope goes to the handlers registered for its
    /// type, in registration order, and changes no state.
    pub fn handle_event(&mut self, event: ProxyEventInfo) -> (r: Result<Dispatch, ClientError>)
        requires
            old(self).wf(),
        ensures
            final(self).wf(),
            final(self)@.url == old(self)@.url,
            final(self)@.reg == old(self)@.reg,
            match decode_spec(event.data@) {
                None => (r matches Err(e) && e is DeserializationError)
                    && final(self)@ == old(self)@,
                Some(v) => if v is ApiVersion {
                    (r matches Err(e) && e is UnexpectedHandshake) && !final(self)@.connected
                } else if v is Shutdown {
                    (r matches Err(e) && e is NodeShutdown) && !final(self)@.connected
                } else {
                    (r matches Ok(plan) && plan.event@ == v && plan.handler_ids@ == list_for(
                        old(self)@.reg,
                        v.event_type(),
                    )) && final(self)@ == old(self)@
                },
            },
    {
        match decode_sse_data(event.data.as_str()) {
            Err(e) => Err(e),
            Ok(d) => match d {
                SseData::ApiVersion(_) => {
                    self.is_connected = false;
                    Err(ClientError::UnexpectedHandshake)
                },
                SseData::Shutdown => {
                    self.is_connected = false;
                    Err(ClientError::NodeShutdown)
                },
                d => {
                    let t = d.event_type();
                    let handler_ids = self.registry.targets(t);
                    Ok(Dispatch { event: d, handler_ids })
                },
            },
        }
    }

    /// Registers a handler for an event type and returns its fresh id;
    /// valid while disconnected too, and never fails while ids remain.
    pub fn add_on_event_handler(&mut self, event_type: EventType) -> (id: u64)
        requires
            old(self).wf(),
            old(self)@.reg.next < u64::MAX,
        ensures
            final(self).wf(),
            final(self)@.url == old(self)@.url,
            final(self)@.connected == old(self)@.connected,
            final(self)@.reg == register_step(old(self)@.reg, event_type).0,
            id == register_step(old(self)@.reg, event_type).1,
    {
        self.registry.register(event_type)
    }

    /// Removes a handler by id; `true` exactly when it was active, and a
    /// no-op otherwise.
    pub fn remove_handler(&mut self, id: u64) -> (removed: bool)
        requires
            old(self).wf(),
        ensures
            final(self).wf(),
            final(self)@.url == old(self)@.url,
            final(self)@.connected == old(self)@.connected,
            final(self)@.reg == remove_step(old(self)@.reg, id).0,
            removed == remove_step(old(self)@.reg, id).1,
    {
        self.registry.remove(id)
    }

    /// Applies one command. Registry commands finish here and yield the
    /// value to acknowledge; a connect request changes nothing yet and asks
    /// the runtime to open the transport and call `connect`.
    pub fn handle_command(&mut self, command: CoreCommand) -> (step: CommandStep)
        requires
            old(self).wf(),
            command matches CoreCommand::AddOnEventHandler(_) ==> old(self)@.reg.next < u64::MAX,
        ensures
            final(self).wf(),
            final(self)@.url == old(self)@.url,
            final(self)@.connected == old(self)@.connected,
            match command {
                CoreCommand::Connect => final(self)@ == old(self)@ && step
                    == CommandStep::NeedsConnect,
                CoreCommand::AddOnEventHandler(t) => final(self)@.reg == register_step(
                    old(self)@.reg,
                    t,
                ).0 && step == CommandStep::HandlerAdded(register_step(old(self)@.reg, t).1),
                CoreCommand::RemoveEventHandler(id) => final(self)@.reg == remove_step(
                    old(self)@.reg,
                    id,
                ).0 && step == CommandStep::HandlerRemoved(remove_step(old(self)@.reg, id).1),
            },
    {
        match command {
            CoreCommand::Connect => CommandStep::NeedsConnect,
            CoreCommand::AddOnEventHandler(t) => {
                let id = self.add_on_event_handler(t);
                CommandStep::HandlerAdded(id)
            },
            CoreCommand::RemoveEventHandler(id) => {
                let removed = self.remove_handler(id);
                CommandStep::HandlerRemoved(removed)
            },
        }
    }
}

} // verus!
