//! A reconnecting Server-Sent-Events client core: the response validator, the
//! retry policy interface and the poll-driven connection state machine.
mod error;
mod event;
mod event_source;
mod response;
mod retry;

pub use error::{CannotCloneRequestError, Error};
pub use event::{Event, MessageEvent, ReadyState};
pub use event_source::{EventSource, Phase, Wait};

pub use retry::{Constant, Never, RetryPolicy};
pub use response::{check_response, content_type_is_text, is_event_stream};

