//! Per-source results that keep the last good value across failures, and
//! the error of a check that ran under a time limit.
use vstd::prelude::*;

verus! {

/// The state of one source of updates: its latest value, an error with no
/// earlier value, or an error that follows an earlier value.
#[derive(Clone, Debug)]
pub enum BasicResultWithHistory<T> {
    Current { value: T },
    Error,
    ErrorWithHistory { last_value: T },
}

/// The state after a check of the source ended in `result`: a success
/// replaces the state; a failure turns a value into history and leaves an
/// error as it was.
pub open spec fn after_result<T, E>(
    prev: BasicResultWithHistory<T>,
    result: Result<T, E>,
) -> BasicResultWithHistory<T> {
    match result {
        Ok(value) => BasicResultWithHistory::Current { value },
        Err(_) => match prev {
            BasicResultWithHistory::Current { value } => BasicResultWithHistory::ErrorWithHistory {
                last_value: value,
            },
            other => other,
        },
    }
}

/// The state after a check that may not have run: one that did not leaves
/// the state as it was.
pub open spec fn after_option_result<T, E>(
    prev: BasicResultWithHistory<T>,
    result: Option<Result<T, E>>,
) -> BasicResultWithHistory<T> {
    match result {
        Some(r) => after_result(prev, r),
        None => prev,
    }
}

/// The value that a state holds, current or from history.
pub open spec fn held_value<T>(s: BasicResultWithHistory<T>) -> Option<T> {
    match s {
        BasicResultWithHistory::Current { value } => Some(value),
        BasicResultWithHistory::Error => None,
        BasicResultWithHistory::ErrorWithHistory { last_value } => Some(last_value),
    }
}

impl<T> BasicResultWithHistory<Vec<T>> {
    /// The number of updates held, current or from history; 0 on an error
    /// with no history.
    pub fn len(&self) -> (r: usize)
        ensures
            r == match held_value(*self) {
                Some(v) => v.len(),
                None => 0,
            },
    {
        match self {
            BasicResultWithHistory::Current { value } => value.len(),
            BasicResultWithHistory::ErrorWithHistory { last_value } => last_value.len(),
            BasicResultWithHistory::Error => 0,
        }
    }
}

impl<T> BasicResultWithHistory<T> {
    /// Whether the latest check failed.
    pub fn has_error(&self) -> (r: bool)
        ensures
            r == !(*self is Current),
    {
        match self {
            BasicResultWithHistory::Current { .. } => false,
            _ => true,
        }
    }

    /// The state after the first check of a source.
    pub fn new_from_result<E>(value: Result<T, E>) -> (r: Self)
        ensures
            r == after_result(BasicResultWithHistory::<T>::Error, value),
    {
        match value {
            Ok(value) => BasicResultWithHistory::Current { value },
            Err(_) => BasicResultWithHistory::Error,
        }
    }

    /// The state after a check of the source ended in `value`.
    pub fn replace_with_result_preserving_history<E>(self, value: Result<T, E>) -> (r: Self)
        ensures
            r == after_result(self, value),
    {
        match value {
            Ok(value) => BasicResultWithHistory::Current { value },
            Err(_) => match self {
                BasicResultWithHistory::Current { value: last_value } => {
                    BasicResultWithHistory::ErrorWithHistory { last_value }
                },
                other => other,
            },
        }
    }

    /// The state after a check that may not have run; `None` leaves it as it
    /// was.
    pub fn replace_with_option_result_preserving_history<E>(
        self,
        value: Option<Result<T, E>>,
    ) -> (r: Self)
        ensures
            r == after_option_result(self, value),
    {
        match value {
            Some(value) => self.replace_with_result_preserving_history(value),
            None => self,
        }
    }
}

/// Two successes in a row leave the latest value; a success then a failure
/// leaves the successful value as history; a failure after an error with
/// history keeps that history unchanged; and no failure loses a value that
/// the state held.
pub proof fn lemma_history_transitions<T, E>(prev: BasicResultWithHistory<T>, a: T, b: T, e: E, v: T)
    ensures
        after_result(after_result(prev, Ok::<T, E>(a)), Ok::<T, E>(b))
            == (BasicResultWithHistory::Current { value: b }),
        after_result(after_result(prev, Ok::<T, E>(a)), Err::<T, E>(e))
            == (BasicResultWithHistory::ErrorWithHistory { last_value: a }),
        after_result(BasicResultWithHistory::ErrorWithHistory { last_value: v }, Err::<T, E>(e))
            == (BasicResultWithHistory::ErrorWithHistory { last_value: v }),
        held_value(prev) is Some ==> held_value(after_result(prev, Err::<T, E>(e))) == held_value(
            prev,
        ),
        !(after_result(prev, Err::<T, E>(e)) is Current),
{
}

/// Why a check that ran under a time limit failed.
#[derive(Clone, Debug)]
pub enum TimeoutError<E> {
    /// The limit passed before the check ended.
    Timeout,
    /// The check itself failed.
    Other(E),
}

/// The result of a check under a time limit, from what the check returned
/// (`None` where the limit passed first).
pub fn flatten_timeout<T, E>(res: Option<Result<T, E>>) -> (r: Result<T, TimeoutError<E>>)
    ensures
        match res {
            None => r matches Err(TimeoutError::Timeout),
            Some(Ok(t)) => r == Ok::<T, TimeoutError<E>>(t),
            Some(Err(e)) => r == Err::<T, TimeoutError<E>>(TimeoutError::Other(e)),
        },
{
    match res {
        None => Err(TimeoutError::Timeout),
        Some(Ok(t)) => Ok(t),
        Some(Err(e)) => Err(TimeoutError::Other(e)),
    }
}

} // verus!
