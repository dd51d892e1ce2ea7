use vstd::prelude::*;

verus! {

/// Record of one failing unit invocation: the unit's name, its error message,
/// and the moment the record was made. Created once, never mutated afterward.
#[derive(Debug, Clone)]
pub struct EventFailure {
    pub event_name: String,
    pub error_message: String,
    /// Seconds since the Unix epoch at the moment the record was created.
    pub timestamp: u64,
}

/// Relies on std::time::SystemTime::now: the clock reading is turned into
/// whole seconds since the Unix epoch; a clock before the epoch yields the
/// epoch itself. Nothing is promised of the value, since it depends on the
/// time of the call.
#[verifier::external_body]
fn now_secs() -> u64 {
    match std::time::SystemTime::now().duration_since(std::time::UNIX_EPOCH) {
        Ok(elapsed) => elapsed.as_secs(),
        Err(_) => 0,
    }
}

impl EventFailure {
    /// Create a failure record for the named unit, stamped with the current
    /// time.
    pub fn new(event_name: String, error_message: String) -> (r: EventFailure)
        ensures
            r.event_name@ == event_name@,
            r.error_message@ == error_message@,
    {
        EventFailure { event_name, error_message, timestamp: now_secs() }
    }
}

} // verus!
