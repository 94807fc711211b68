use reqwest_eventsource::{
    Constant, Error, Event, EventSource, MessageEvent, Never, Phase, ReadyState, RetryPolicy, Wait,
};
use std::time::Duration;

fn message(data: &str) -> MessageEvent {
    MessageEvent {
        event: "message".to_string(),
        data: data.to_string(),
        id: String::new(),
        retry: None,
    }
}

fn stream_header() -> Option<Vec<u8>> {
    Some(b"text/event-stream".to_vec())
}

fn open<P: RetryPolicy<String>>(source: &mut EventSource<P>) {
    assert_eq!(source.on_response::<String>(200, stream_header()).unwrap(), Event::Open);
}

#[test]
fn starts_connecting_until_first_response() {
    let source = EventSource::new(Never);
    assert_eq!(source.ready_state(), ReadyState::Connecting);
    assert_eq!(source.next_wait(), Wait::Fetch);
    assert_eq!(source.phase, Phase::AwaitingFetch);
    assert!(source.last_retry.is_none());
}

#[test]
fn accepted_response_yields_open() {
    let mut source = EventSource::new(Never);
    open(&mut source);
    assert_eq!(source.ready_state(), ReadyState::Open);
    assert_eq!(source.next_wait(), Wait::Stream);
}

#[test]
fn close_ends_the_sequence_and_is_idempotent() {
    let mut source = EventSource::new(Constant::new(Duration::from_millis(5)));
    source.close();
    assert_eq!(source.ready_state(), ReadyState::Closed);
    assert_eq!(source.next_wait(), Wait::End);
    source.close();
    assert_eq!(source.ready_state(), ReadyState::Closed);
    assert_eq!(source.next_wait(), Wait::End);
}

#[test]
fn close_while_streaming() {
    let mut source = EventSource::new(Never);
    open(&mut source);
    source.close();
    assert_eq!(source.ready_state(), ReadyState::Closed);
    assert_eq!(source.next_wait(), Wait::End);
}

#[test]
fn declined_retry_closes_after_the_error() {
    let mut source = EventSource::new(Never);
    let item = source.on_fetch_error("refused".to_string());
    assert!(matches!(item, Err(Error::Transport(ref e)) if e == "refused"));
    assert_eq!(source.ready_state(), ReadyState::Closed);
    assert_eq!(source.next_wait(), Wait::End);
}

#[test]
fn granted_retry_arms_timer_then_refetches() {
    let delay = Duration::from_millis(300);
    let mut source = EventSource::new(Constant::new(delay));
    let item = source.on_fetch_error("reset".to_string());
    assert!(matches!(item, Err(Error::Transport(_))));
    assert_eq!(source.next_wait(), Wait::Timer(delay));
    assert_eq!(source.ready_state(), ReadyState::Connecting);
    assert_eq!(source.last_retry, Some((1, delay)));
    source.retry_fetch();
    assert_eq!(source.next_wait(), Wait::Fetch);
    assert_eq!(source.ready_state(), ReadyState::Connecting);
}

#[test]
fn two_transport_failures_then_success() {
    let delay = Duration::from_millis(10);
    let mut source = EventSource::new(Constant::new(delay));
    let mut states = vec![source.ready_state()];

    let first = source.on_fetch_error("down".to_string());
    assert!(matches!(first, Err(Error::Transport(_))));
    states.push(source.ready_state());
    source.retry_fetch();

    let second = source.on_fetch_error("down".to_string());
    assert!(matches!(second, Err(Error::Transport(_))));
    states.push(source.ready_state());
    assert_eq!(source.last_retry, Some((1, delay)));
    source.retry_fetch();

    let third = source.on_response::<String>(200, stream_header());
    assert_eq!(third.unwrap(), Event::Open);
    states.push(source.ready_state());
    assert!(source.last_retry.is_none());

    let fourth = source.on_stream_item::<String>(Some(Ok(message("hello"))));
    assert_eq!(fourth.unwrap(), Event::Message(message("hello")));
    states.push(source.ready_state());

    assert_eq!(
        states,
        vec![
            ReadyState::Connecting,
            ReadyState::Connecting,
            ReadyState::Connecting,
            ReadyState::Open,
            ReadyState::Open,
        ]
    );
}

#[test]
fn records_then_end_of_stream_then_retry() {
    let delay = Duration::from_secs(1);
    let mut source = EventSource::new(Constant::new(delay));
    open(&mut source);
    for data in ["a", "b", "c"] {
        let item = source.on_stream_item::<String>(Some(Ok(message(data))));
        assert_eq!(item.unwrap(), Event::Message(message(data)));
        assert_eq!(source.next_wait(), Wait::Stream);
    }
    let end = source.on_stream_item::<String>(None);
    assert!(matches!(end, Err(Error::StreamEnded)));
    assert_eq!(source.next_wait(), Wait::Timer(delay));
    assert_eq!(source.ready_state(), ReadyState::Connecting);
}

#[test]
fn end_of_stream_closes_without_retry() {
    let mut source = EventSource::new(Never);
    open(&mut source);
    let item = source.on_stream_item::<String>(Some(Ok(message("only"))));
    assert_eq!(item.unwrap(), Event::Message(message("only")));
    let end = source.on_stream_item::<String>(None);
    assert!(matches!(end, Err(Error::StreamEnded)));
    assert_eq!(source.ready_state(), ReadyState::Closed);
    assert_eq!(source.next_wait(), Wait::End);
}

#[test]
fn decode_error_goes_through_the_policy() {
    let delay = Duration::from_millis(50);
    let mut source = EventSource::new(Constant::new(delay));
    open(&mut source);
    let bad = eventsource_stream::EventStreamError::Transport("broken".to_string());
    let item = source.on_stream_item::<String>(Some(Err(bad)));
    assert!(matches!(item, Err(Error::Decode(_))));
    assert_eq!(source.next_wait(), Wait::Timer(delay));
}

#[test]
fn rejected_response_closes_for_good() {
    let mut source = EventSource::new(Constant::new(Duration::from_millis(1)));
    let item = source.on_response::<String>(201, stream_header());
    assert!(matches!(item, Err(Error::InvalidStatusCode(201))));
    assert_eq!(source.ready_state(), ReadyState::Closed);
    assert_eq!(source.next_wait(), Wait::End);

    let mut other = EventSource::new(Constant::new(Duration::from_millis(1)));
    let item = other.on_response::<String>(200, Some(b"application/json".to_vec()));
    assert!(matches!(item, Err(Error::InvalidContentType(_))));
    assert_eq!(other.ready_state(), ReadyState::Closed);
}

#[test]
fn clear_fetch_keeps_a_timer() {
    let delay = Duration::from_millis(7);
    let mut source = EventSource::new(Constant::new(delay));
    source.clear_fetch();
    assert_eq!(source.phase, Phase::Idle);
    source.phase = Phase::AwaitingTimer(delay);
    source.clear_fetch();
    assert_eq!(source.phase, Phase::AwaitingTimer(delay));
}

#[test]
fn message_from_record() {
    assert_eq!(Event::from(message("x")), Event::Message(message("x")));
}

#[test]
fn policies_decide_as_stated() {
    let err: Error<String> = Error::StreamEnded;
    let delay = Duration::from_millis(3);
    assert_eq!(Constant::new(delay).retry(&err, None), Some(delay));
    assert_eq!(Constant::new(delay).retry(&err, Some((1, delay))), Some(delay));
    assert_eq!(RetryPolicy::<String>::retry(&Never, &err, None), None);
}
