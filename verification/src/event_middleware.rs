use vstd::prelude::*;
use crate::chainable_event::ChainableEvent;
use crate::event_context::EventContext;
use crate::event_result::EventResult;

verus! {

/// The continuation handed to a middleware: invoking it runs the rest of the
/// middleware stack and, innermost, the event itself.
///
/// The stack is walked by position rather than by nested closures: `index`
/// counts how many layers have already been entered, so the layer at
/// `middlewares.len() - 1 - index` (last registered first) is the next one.
pub struct Next<'a, E, M> {
    pub(crate) middlewares: &'a Vec<M>,
    pub(crate) event: &'a E,
    pub(crate) index: usize,
}

/// A cross-cutting wrapper around an event's execution.
///
/// An implementation may run code before and after invoking `next`, may
/// rewrite the result, and may return without invoking `next` at all, which
/// short-circuits the event. Invoking `next` more than once per call is a
/// misuse of the interface and is not guarded against. The event reference is
/// read-only metadata, for example for reporting its name; the event is only
/// ever run through `next`.
pub trait EventMiddleware: Sized {
    fn execute<E: ChainableEvent>(
        &self,
        event: &E,
        context: &mut EventContext,
        next: &Next<'_, E, Self>,
    ) -> (r: EventResult<()>);
}

impl<'a, E: ChainableEvent, M: EventMiddleware> Next<'a, E, M> {
    /// Run the remaining layers of the stack around the event: the next
    /// middleware if one is left, otherwise the event itself.
    pub fn invoke(&self, context: &mut EventContext) -> (r: EventResult<()>) {
        if self.index >= self.middlewares.len() {
            self.event.execute(context)
        } else {
            let pos = self.middlewares.len() - 1 - self.index;
            let middleware = &self.middlewares[pos];
            let next = Next { middlewares: self.middlewares, event: self.event, index: self.index + 1 };
            middleware.execute(self.event, context, &next)
        }
    }
}

} // verus!
