use vstd::prelude::*;

verus! {

/// Result of a single unit's execution: success carrying a payload, or
/// failure carrying a human-readable error message.
#[derive(Debug, Clone)]
pub enum EventResult<T> {
    Success(T),
    Failure(String),
}

impl<T> EventResult<T> {
    /// Whether this result is a success.
    pub fn is_success(&self) -> (r: bool)
        ensures
            r == (*self is Success),
    {
        matches!(self, EventResult::Success(_))
    }

    /// Whether this result is a failure.
    pub fn is_failure(&self) -> (r: bool)
        ensures
            r == (*self is Failure),
    {
        matches!(self, EventResult::Failure(_))
    }

    /// The success payload, if any.
    pub fn get_data(self) -> (r: Option<T>)
        ensures
            self is Success ==> r == Some(self->Success_0),
            self is Failure ==> r is None,
    {
        match self {
            EventResult::Success(data) => Some(data),
            EventResult::Failure(_) => None,
        }
    }

    /// The error message, if this result is a failure.
    pub fn get_error(&self) -> (r: Option<&str>)
        ensures
            (*self is Failure) == (r is Some),
            *self is Failure ==> r->Some_0@ == (*self)->Failure_0@,
    {
        match self {
            EventResult::Success(_) => None,
            EventResult::Failure(msg) => Some(msg.as_str()),
        }
    }
}

} // verus!
