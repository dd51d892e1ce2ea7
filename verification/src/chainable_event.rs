use vstd::prelude::*;
use crate::event_context::EventContext;
use crate::event_result::EventResult;

verus! {

/// A named unit of work executed against the shared context.
///
/// Implementations are supplied by the caller; the orchestrator makes no
/// assumption about what `execute` does to the context or returns, only that
/// `name` always yields the unit's stable name.
pub trait ChainableEvent: Sized {
    /// The unit's stable name, as a sequence of characters. The default is
    /// the empty name; an implementation verified against the `name`
    /// contract overrides it with its own name.
    open spec fn spec_name(&self) -> Seq<char> {
        Seq::empty()
    }

    /// The unit's stable, human-readable name, used in failure reporting.
    fn name(&self) -> (r: String)
        ensures
            r@ == self.spec_name(),
    ;

    /// Perform the unit's work: read or write the context, then report
    /// success or a failure message.
    fn execute(&self, context: &mut EventContext) -> (r: EventResult<()>);
}

} // verus!
