use crate::error::Error;
use crate::event::{Event, MessageEvent, ReadyState};
use crate::response::{accepts_response, check_response};
use crate::retry::RetryPolicy;
use eventsource_stream::EventStreamError;
use std::time::Duration;
use vstd::prelude::*;

verus! {

/// The one outstanding waitable of a connection. Holding them in one union
/// means that two can never be outstanding at once.
#[derive(Debug, Clone, Copy, PartialEq, Eq)]
pub enum Phase {
    /// Nothing outstanding.
    Idle,
    /// A retry timer of the given delay is armed.
    AwaitingTimer(Duration),
    /// A request has been sent and its response is awaited.
    AwaitingFetch,
    /// The response body is being read as an event stream.
    Streaming,
}

/// What the next poll has to wait on.
#[derive(Debug, Clone, Copy, PartialEq, Eq)]
pub enum Wait {
    /// The sequence has ended: nothing more will be produced.
    End,
    /// The retry timer of the given delay.
    Timer(Duration),
    /// The response to the request in flight.
    Fetch,
    /// The next record of the event stream.
    Stream,
}

/// The reconnect-and-replay state machine of an event-source connection.
///
/// A driver performs the waits that `next_wait` names and reports each outcome
/// through `retry_fetch`, `on_response`, `on_fetch_error` or `on_stream_item`;
/// the item that each of those returns is the next item of the sequence.
pub struct EventSource<P> {
    /// The outstanding waitable.
    pub phase: Phase,
    /// Set for good by `close`, by a rejected response, or when the policy
    /// declines a retry.
    pub is_closed: bool,
    /// Decides whether and when to reconnect after an error.
    pub retry_policy: P,
    /// Attempt count and last delay since the last successful connection.
    pub last_retry: Option<(usize, Duration)>,
}

/// The ready state that a connection shows: `Closed` once stopped, else
/// `Connecting` while a request or a retry timer is outstanding, else `Open`.
pub open spec fn ready_state_of(phase: Phase, is_closed: bool) -> ReadyState {
    if is_closed {
        ReadyState::Closed
    } else {
        match phase {
            Phase::AwaitingTimer(_) | Phase::AwaitingFetch => ReadyState::Connecting,
            _ => ReadyState::Open,
        }
    }
}

/// The view of a content-type header value.
pub open spec fn header_view(content_type: Option<Vec<u8>>) -> Option<Seq<u8>> {
    match content_type {
        Some(v) => Some(v@),
        None => None,
    }
}

impl<P> EventSource<P> {
    /// A new connection, with its first request already sent.
    pub open spec fn spec_new(retry_policy: P) -> Self {
        EventSource {
            phase: Phase::AwaitingFetch,
            is_closed: false,
            retry_policy,
            last_retry: None,
        }
    }

    pub open spec fn spec_ready_state(self) -> ReadyState {
        ready_state_of(self.phase, self.is_closed)
    }

    pub open spec fn spec_next_wait(self) -> Wait {
        if self.is_closed {
            Wait::End
        } else {
            match self.phase {
                Phase::Idle => Wait::End,
                Phase::AwaitingTimer(d) => Wait::Timer(d),
                Phase::AwaitingFetch => Wait::Fetch,
                Phase::Streaming => Wait::Stream,
            }
        }
    }

    pub open spec fn spec_close(self) -> Self {
        EventSource { is_closed: true, ..self }
    }

    /// Releases the request in flight or the open stream; a timer stays.
    pub open spec fn spec_clear_fetch(self) -> Self {
        match self.phase {
            Phase::AwaitingFetch | Phase::Streaming => EventSource { phase: Phase::Idle, ..self },
            _ => self,
        }
    }

    /// A fresh request replaces whatever was outstanding.
    pub open spec fn spec_retry_fetch(self) -> Self {
        EventSource { phase: Phase::AwaitingFetch, ..self }
    }

    /// Failure handling: release the request or stream, then arm a timer for
    /// the delay that the policy gives, or close for good when it gives none.
    pub open spec fn spec_handle_error<T>(self, error: Error<T>) -> Self where P: RetryPolicy<T> {
        let cleared = self.spec_clear_fetch();
        match self.retry_policy.retry_spec(error, self.last_retry) {
            Some(d) => EventSource {
                phase: Phase::AwaitingTimer(d),
                last_retry: Some(
                    (
                        match self.last_retry {
                            Some(l) => l.0,
                            None => 1,
                        },
                        d,
                    ),
                ),
                ..cleared
            },
            None => EventSource { is_closed: true, ..cleared },
        }
    }

    /// The state after a response arrived: streaming with the bookkeeping
    /// cleared when it is accepted, closed for good when it is rejected.
    pub open spec fn spec_on_response(self, status: u16, content_type: Option<Seq<u8>>) -> Self {
        let cleared = self.spec_clear_fetch();
        if accepts_response(status, content_type) {
            EventSource { phase: Phase::Streaming, last_retry: None, ..cleared }
        } else {
            EventSource { is_closed: true, ..cleared }
        }
    }

    /// The state after the stream produced an item, failed, or ended.
    pub open spec fn spec_on_stream_item<T>(
        self,
        item: Option<Result<MessageEvent, EventStreamError<T>>>,
    ) -> Self where P: RetryPolicy<T> {
        match item {
            Some(Ok(_)) => self,
            Some(Err(e)) => self.spec_handle_error(Error::Decode(e)),
            None => self.spec_handle_error(Error::StreamEnded),
        }
    }

    /// Creates a connection whose first request the caller has just sent.
    pub fn new(retry_policy: P) -> (r: Self)
        ensures
            r == Self::spec_new(retry_policy),
    {
        EventSource { phase: Phase::AwaitingFetch, is_closed: false, retry_policy, last_retry: None }
    }

    /// Closes the connection for good; closing again changes nothing.
    pub fn close(&mut self)
        ensures
            *final(self) == old(self).spec_close(),
    {
        self.is_closed = true;
    }

    pub fn ready_state(&self) -> (r: ReadyState)
        ensures
            r == self.spec_ready_state(),
    {
        if self.is_closed {
            ReadyState::Closed
        } else {
            match self.phase {
                Phase::AwaitingTimer(_) | Phase::AwaitingFetch => ReadyState::Connecting,
                _ => ReadyState::Open,
            }
        }
    }

    /// What the next poll waits on; `End` means the sequence is over.
    pub fn next_wait(&self) -> (r: Wait)
        ensures
            r == self.spec_next_wait(),
    {
        if self.is_closed {
            Wait::End
        } else {
            match self.phase {
                Phase::Idle => Wait::End,
                Phase::AwaitingTimer(d) => Wait::Timer(d),
                Phase::AwaitingFetch => Wait::Fetch,
                Phase::Streaming => Wait::Stream,
            }
        }
    }

    pub fn clear_fetch(&mut self)
        ensures
            *final(self) == old(self).spec_clear_fetch(),
    {
        match self.phase {
            Phase::AwaitingFetch | Phase::Streaming => {
                self.phase = Phase::Idle;
            },
            _ => {},
        }
    }

    /// Records that the retry timer elapsed and a fresh request was sent.
    pub fn retry_fetch(&mut self)
        ensures
            *final(self) == old(self).spec_retry_fetch(),
    {
        self.phase = Phase::AwaitingFetch;
    }

    pub fn handle_error<T>(&mut self, error: &Error<T>) where P: RetryPolicy<T>
        ensures
            *final(self) == old(self).spec_handle_error(*error),
    {
        self.clear_fetch();
        match self.retry_policy.retry(error, self.last_retry) {
            Some(retry_delay) => {
                let retry_num = match self.last_retry {
                    Some(l) => l.0,
                    None => 1,
                };
                self.last_retry = Some((retry_num, retry_delay));
                self.phase = Phase::AwaitingTimer(retry_delay);
            },
            None => {
                self.is_closed = true;
            },
        }
    }

    /// Takes the response to the request in flight: `Open` when it is accepted
    /// as an event stream, else the validation error, after which the
    /// connection is closed for good.
    pub fn on_response<T>(&mut self, status: u16, content_type: Option<Vec<u8>>) -> (r: Result<
        Event,
        Error<T>,
    >)
        ensures
            *final(self) == old(self).spec_on_response(status, header_view(content_type)),
            r is Ok <==> accepts_response(status, header_view(content_type)),
            r is Ok ==> r == Ok::<Event, Error<T>>(Event::Open),
            status != 200 ==> (r matches Err(Error::<T>::InvalidStatusCode(c)) && c == status),
            status == 200 && content_type is None ==> (r matches Err(Error::InvalidContentType(v))
                && v@.len() == 0),
            status == 200 && r is Err ==> match content_type {
                Some(v) => (r matches Err(Error::InvalidContentType(w)) && w@ == v@),
                None => true,
            },
    {
        self.clear_fetch();
        match check_response(status, content_type) {
            Err(err) => {
                self.is_closed = true;
                Err(err)
            },
            Ok(()) => {
                self.last_retry = None;
                self.phase = Phase::Streaming;
                Ok(Event::Open)
            },
        }
    }

    /// Takes the failure of the request in flight: the transport error is the
    /// next item, and the policy decides what follows.
    pub fn on_fetch_error<T>(&mut self, error: T) -> (r: Result<Event, Error<T>>) where
        P: RetryPolicy<T>,
        ensures
            r == Err::<Event, Error<T>>(Error::Transport(error)),
            *final(self) == old(self).spec_handle_error(Error::Transport(error)),
    {
        let err = Error::Transport(error);
        self.handle_error(&err);
        Err(err)
    }

    /// Takes what the event stream produced: a record becomes a message, a
    /// decode error or the end of the stream becomes an error item after
    /// which the policy decides what follows.
    pub fn on_stream_item<T>(&mut self, item: Option<Result<MessageEvent, EventStreamError<T>>>) -> (r:
        Result<Event, Error<T>>) where P: RetryPolicy<T>
        ensures
            *final(self) == old(self).spec_on_stream_item(item),
            match item {
                Some(Ok(m)) => r == Ok::<Event, Error<T>>(Event::Message(m)),
                Some(Err(e)) => r == Err::<Event, Error<T>>(Error::Decode(e)),
                None => r == Err::<Event, Error<T>>(Error::StreamEnded),
            },
    {
        match item {
            Some(Ok(event)) => Ok(Event::from(event)),
            Some(Err(e)) => {
                let err = Error::Decode(e);
                self.handle_error(&err);
                Err(err)
            },
            None => {
                let err = Error::StreamEnded;
                self.handle_error(&err);
                Err(err)
            },
        }
    }
}

/// A fresh connection is `Connecting`, waiting on its first response.
pub proof fn lemma_new_is_connecting<P>(retry_policy: P)
    ensures
        EventSource::spec_new(retry_policy).spec_ready_state() == ReadyState::Connecting,
        EventSource::spec_new(retry_policy).spec_next_wait() == Wait::Fetch,
{
}

/// An accepted response (status 200, `text/event-stream`) opens the
/// connection: the state reads `Open`, the stream is read next, and the retry
/// bookkeeping is cleared.
pub proof fn lemma_accepted_response_opens<P>(
    source: EventSource<P>,
    status: u16,
    content_type: Option<Seq<u8>>,
)
    requires
        !source.is_closed,
        accepts_response(status, content_type),
    ensures
        source.spec_on_response(status, content_type).spec_ready_state() == ReadyState::Open,
        source.spec_on_response(status, content_type).spec_next_wait() == Wait::Stream,
        source.spec_on_response(status, content_type).last_retry is None,
{
}

/// After `close` the state reads `Closed` and the sequence has ended; closing
/// again changes nothing, and no outcome reported later reopens it.
pub proof fn lemma_close_is_terminal<P: RetryPolicy<T>, T>(
    source: EventSource<P>,
    error: Error<T>,
    status: u16,
    content_type: Option<Seq<u8>>,
    item: Option<Result<MessageEvent, EventStreamError<T>>>,
)
    ensures
        source.spec_close().spec_ready_state() == ReadyState::Closed,
        source.spec_close().spec_next_wait() == Wait::End,
        source.spec_close().spec_close() == source.spec_close(),
        source.spec_close().spec_clear_fetch().is_closed,
        source.spec_close().spec_handle_error(error).is_closed,
        source.spec_close().spec_on_response(status, content_type).is_closed,
        source.spec_close().spec_on_stream_item(item).is_closed,
{
}

/// When the policy declines to retry, the error closes the connection: the
/// state reads `Closed` and the next poll ends the sequence.
pub proof fn lemma_declined_retry_closes<P: RetryPolicy<T>, T>(
    source: EventSource<P>,
    error: Error<T>,
)
    requires
        source.retry_policy.retry_spec(error, source.last_retry) is None,
    ensures
        source.spec_handle_error(error).is_closed,
        source.spec_handle_error(error).spec_ready_state() == ReadyState::Closed,
        source.spec_handle_error(error).spec_next_wait() == Wait::End,
{
}

/// When the policy grants a delay, the error arms a retry timer of that delay
/// and the connection stays `Connecting`; once the timer elapses a fresh
/// request is in flight.
pub proof fn lemma_granted_retry_refetches<P: RetryPolicy<T>, T>(
    source: EventSource<P>,
    error: Error<T>,
    delay: Duration,
)
    requires
        !source.is_closed,
        source.retry_policy.retry_spec(error, source.last_retry) == Some(delay),
    ensures
        source.spec_handle_error(error).phase == Phase::AwaitingTimer(delay),
        source.spec_handle_error(error).spec_ready_state() == ReadyState::Connecting,
        source.spec_handle_error(error).spec_next_wait() == Wait::Timer(delay),
        source.spec_handle_error(error).spec_retry_fetch().spec_ready_state()
            == ReadyState::Connecting,
        source.spec_handle_error(error).spec_retry_fetch().spec_next_wait() == Wait::Fetch,
{
}

/// The state after an open stream produced the given records, in order.
pub open spec fn after_records<P: RetryPolicy<T>, T>(
    source: EventSource<P>,
    records: Seq<MessageEvent>,
) -> EventSource<P>
    decreases records.len(),
{
    if records.len() == 0 {
        source
    } else {
        after_records::<P, T>(source, records.drop_last()).spec_on_stream_item::<T>(
            Some(Ok(records.last())),
        )
    }
}

/// Records leave an open stream as it was, so any number of them are
/// delivered as messages; the end of the stream then counts as a failure that
/// the policy decides on.
pub proof fn lemma_records_then_end<P: RetryPolicy<T>, T>(
    source: EventSource<P>,
    records: Seq<MessageEvent>,
)
    requires
        source.spec_next_wait() == Wait::Stream,
    ensures
        after_records::<P, T>(source, records) == source,
        after_records::<P, T>(source, records).spec_next_wait() == Wait::Stream,
        after_records::<P, T>(source, records).spec_on_stream_item::<T>(None)
            == source.spec_handle_error(Error::<T>::StreamEnded),
    decreases records.len(),
{
    if records.len() > 0 {
        lemma_records_then_end::<P, T>(source, records.drop_last());
    }
}

} // verus!
