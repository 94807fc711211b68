use crate::error::Error;
use std::time::Duration;
use vstd::prelude::*;

verus! {

/// Decides, from the last error and the retry bookkeeping (attempt count and
/// last delay), whether to reconnect and after how long. The decision is a
/// function of its inputs: `retry` returns exactly `retry_spec`.
pub trait RetryPolicy<T> {
    /// The delay before the next attempt, or `None` to stop for good.
    spec fn retry_spec(&self, error: Error<T>, last_retry: Option<(usize, Duration)>) -> Option<
        Duration,
    >;

    fn retry(&self, error: &Error<T>, last_retry: Option<(usize, Duration)>) -> (r: Option<
        Duration,
    >)
        ensures
            r == self.retry_spec(*error, last_retry),
    ;
}

/// Reconnects after the same delay, whatever the error.
#[derive(Debug, Clone, Copy)]
pub struct Constant {
    pub delay: Duration,
}

impl Constant {
    pub fn new(delay: Duration) -> (r: Self)
        ensures
            r.delay == delay,
    {
        Constant { delay }
    }
}

impl<T> RetryPolicy<T> for Constant {
    open spec fn retry_spec(&self, error: Error<T>, last_retry: Option<(usize, Duration)>) -> Option<
        Duration,
    > {
        Some(self.delay)
    }

    fn retry(&self, error: &Error<T>, last_retry: Option<(usize, Duration)>) -> (r: Option<
        Duration,
    >) {
        Some(self.delay)
    }
}

/// Never reconnects: the first error closes the connection.
#[derive(Debug, Clone, Copy)]
pub struct Never;

impl<T> RetryPolicy<T> for Never {
    open spec fn retry_spec(&self, error: Error<T>, last_retry: Option<(usize, Duration)>) -> Option<
        Duration,
    > {
        None
    }

    fn retry(&self, error: &Error<T>, last_retry: Option<(usize, Duration)>) -> (r: Option<
        Duration,
    >) {
        None
    }
}

} // verus!
