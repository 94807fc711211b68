use vstd::prelude::*;

verus! {

/// A decoded server-sent record.
#[derive(Debug, Clone, PartialEq, Eq)]
pub struct MessageEvent {
    /// The event type, empty if none was given.
    pub event: String,
    /// The event data.
    pub data: String,
    /// The event id, empty if none was given.
    pub id: String,
    /// The reconnection time the server asked for, if any.
    pub retry: Option<std::time::Duration>,
}

/// The lifecycle state of a connection.
#[derive(Debug, Clone, Copy, PartialEq, Eq, Structural)]
pub enum ReadyState {
    Connecting,
    Open,
    Closed,
}

/// An item of the event sequence: a (re)connection marker or a message.
#[derive(Debug, Clone, PartialEq, Eq)]
pub enum Event {
    Open,
    Message(MessageEvent),
}

impl From<MessageEvent> for Event {
    fn from(event: MessageEvent) -> (r: Self)
        ensures
            r == Event::Message(event),
    {
        Event::Message(event)
    }
}

impl vstd::std_specs::convert::FromSpecImpl<MessageEvent> for Event {
    open spec fn obeys_from_spec() -> bool {
        true
    }

    open spec fn from_spec(v: MessageEvent) -> Self {
        Event::Message(v)
    }
}

} // verus!
