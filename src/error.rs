use vstd::prelude::*;

verus! {

#[verifier::external_type_specification]
#[verifier::external_body]
#[verifier::reject_recursive_types(E)]
pub struct ExEventStreamError<E>(eventsource_stream::EventStreamError<E>);

/// The request template cannot be duplicated, so no retry could ever be issued.
#[derive(Debug, Clone, Copy, PartialEq, Eq, Structural)]
pub struct CannotCloneRequestError;

/// An error surfaced as an item of the event sequence; `T` is the error type
/// of the HTTP transport.
#[derive(Debug)]
#[verifier::reject_recursive_types(T)]
pub enum Error<T> {
    /// The request could not be sent or no response arrived.
    Transport(T),
    /// The response status was not 200; the status code is kept.
    InvalidStatusCode(u16),
    /// The content type was absent, not text, unparsable or not
    /// `text/event-stream`; the raw header value is kept (empty when absent).
    InvalidContentType(Vec<u8>),
    /// The server ended the body without the client closing the connection.
    StreamEnded,
    /// The event decoder rejected the body.
    Decode(eventsource_stream::EventStreamError<T>),
}

} // verus!
