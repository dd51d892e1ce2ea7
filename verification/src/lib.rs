//! A sequential pipeline orchestrator: an ordered list of named units of work
//! ("events") and an ordered stack of cross-cutting wrappers ("middleware")
//! are run against a shared, type-tagged key/value context. Middleware wrap
//! each event in onion style (last registered is outermost), failures are
//! collected in encounter order, and a configurable fault-tolerance policy
//! decides whether a failure aborts the run or is recorded and passed over.

pub mod chain_result;
pub mod chainable_event;
pub mod event_chain;
pub mod event_context;
pub mod event_middleware;
pub mod event_failure;
pub mod event_result;
pub mod fault_tolerance_mode;
