use vstd::prelude::*;
use crate::chain_result::{ChainResult, ChainStatus};
use crate::chainable_event::ChainableEvent;
use crate::event_context::EventContext;
use crate::event_failure::EventFailure;
use crate::event_middleware::{EventMiddleware, Next};
use crate::event_result::EventResult;
use crate::fault_tolerance_mode::FaultToleranceMode;

verus! {

/// The failures that the orchestrator records among the first `n` per-unit
/// outcomes, as (event name, error message) pairs in encounter order: one
/// pair for each failing outcome, tagged with the name of the event at the
/// same position.
pub open spec fn recorded_failures<E: ChainableEvent>(
    events: Seq<E>,
    outcomes: Seq<EventResult<()>>,
    n: int,
) -> Seq<(Seq<char>, Seq<char>)>
    decreases n,
{
    if n <= 0 {
        Seq::empty()
    } else {
        let prev = recorded_failures(events, outcomes, n - 1);
        match outcomes[n - 1] {
            EventResult::Failure(msg) => prev.push((events[n - 1].spec_name(), msg@)),
            EventResult::Success(_) => prev,
        }
    }
}

/// Whether the failure records hold exactly the given (name, message) pairs,
/// in order.
pub open spec fn failure_records_match(
    failures: Seq<EventFailure>,
    pairs: Seq<(Seq<char>, Seq<char>)>,
) -> bool {
    &&& failures.len() == pairs.len()
    &&& forall|i: int|
        0 <= i < failures.len() ==> (#[trigger] failures[i]).event_name@ == pairs[i].0
            && failures[i].error_message@ == pairs[i].1
}

/// The run algorithm, related to what was observed: `outcomes` is the
/// sequence of per-unit results of the wrapped invocations, one for each
/// event that was invoked, in registration order, and `r` is the aggregate
/// the orchestrator returns for them under `policy`.
///
/// Under `Strict`, invocation stops at the first failing outcome, so every
/// outcome but the last is a success, and a failing last outcome means a
/// `Failed` aggregate; otherwise every event was invoked and the aggregate
/// completed. Under `Lenient` and `BestEffort`, every event was invoked and
/// the run completed with a warning for each failure. In every case the
/// failure list holds exactly the recorded (name, message) pairs.
pub open spec fn run_matches<E: ChainableEvent>(
    events: Seq<E>,
    policy: FaultToleranceMode,
    outcomes: Seq<EventResult<()>>,
    r: ChainResult,
) -> bool {
    &&& outcomes.len() <= events.len()
    &&& failure_records_match(r.failures@, recorded_failures(events, outcomes, outcomes.len() as int))
    &&& match policy {
        FaultToleranceMode::Strict => {
            &&& forall|i: int| 0 <= i < outcomes.len() - 1 ==> (#[trigger] outcomes[i]) is Success
            &&& if outcomes.len() > 0 && outcomes[outcomes.len() - 1] is Failure {
                &&& !r.success
                &&& r.status is Failed
            } else {
                &&& outcomes.len() == events.len()
                &&& r.success
                &&& r.status is Completed
            }
        },
        FaultToleranceMode::Lenient | FaultToleranceMode::BestEffort => {
            &&& outcomes.len() == events.len()
            &&& r.success
            &&& if recorded_failures(events, outcomes, outcomes.len() as int).len() == 0 {
                r.status is Completed
            } else {
                r.status is CompletedWithWarnings
            }
        },
    }
}

/// Whether every failure record carries the name of one of the given events.
pub open spec fn names_from_events<E: ChainableEvent>(
    failures: Seq<EventFailure>,
    events: Seq<E>,
) -> bool {
    forall|i: int|
        0 <= i < failures.len() ==> exists|j: int|
            0 <= j < events.len() && (#[trigger] failures[i]).event_name@ == events[j].spec_name()
}

/// Appending a record named after one of the events keeps every record named
/// after one of the events.
proof fn lemma_names_from_events_push<E: ChainableEvent>(
    failures: Seq<EventFailure>,
    events: Seq<E>,
    f: EventFailure,
    j: int,
)
    requires
        names_from_events(failures, events),
        0 <= j < events.len(),
        f.event_name@ == events[j].spec_name(),
    ensures
        names_from_events(failures.push(f), events),
{
    assert forall|i: int| 0 <= i < failures.push(f).len() implies exists|jj: int|
        0 <= jj < events.len() && (#[trigger] failures.push(f)[i]).event_name@
            == events[jj].spec_name() by {
        if i < failures.len() {
            assert(failures.push(f)[i] == failures[i]);
        } else {
            assert(failures.push(f)[i] == f);
            assert(f.event_name@ == events[j].spec_name());
        }
    }
}

/// The recorded failures depend only on the first `n` outcomes.
proof fn lemma_recorded_failures_prefix<E: ChainableEvent>(
    events: Seq<E>,
    o1: Seq<EventResult<()>>,
    o2: Seq<EventResult<()>>,
    n: int,
)
    requires
        0 <= n,
        forall|i: int| 0 <= i < n ==> o1[i] == o2[i],
    ensures
        recorded_failures(events, o1, n) == recorded_failures(events, o2, n),
    decreases n,
{
    if n > 0 {
        lemma_recorded_failures_prefix(events, o1, o2, n - 1);
    }
}

/// Among all-success outcomes nothing is recorded.
proof fn lemma_recorded_failures_all_success<E: ChainableEvent>(
    events: Seq<E>,
    outcomes: Seq<EventResult<()>>,
    n: int,
)
    requires
        forall|i: int| 0 <= i < n ==> (#[trigger] outcomes[i]) is Success,
    ensures
        recorded_failures(events, outcomes, n).len() == 0,
    decreases n,
{
    if n > 0 {
        lemma_recorded_failures_all_success(events, outcomes, n - 1);
    }
}

/// Law: whatever was observed, the aggregate of a run is internally
/// consistent: the success flag denies exactly the `Failed` status, the
/// `Completed` status means exactly that no failure was recorded, a run
/// without events completes cleanly, a continuing policy warns exactly when
/// a failure was recorded, and a strict abort carries exactly one failure.
pub proof fn lemma_outcome_classification<E: ChainableEvent>(
    events: Seq<E>,
    policy: FaultToleranceMode,
    outcomes: Seq<EventResult<()>>,
    r: ChainResult,
)
    requires
        run_matches(events, policy, outcomes, r),
    ensures
        r.success == !(r.status is Failed),
        (r.status is Completed) == (r.failures@.len() == 0),
        (r.status is CompletedWithWarnings) == (r.success && r.failures@.len() > 0),
        events.len() == 0 ==> r.status is Completed && r.failures@.len() == 0,
        policy is Strict && r.status is Failed ==> r.failures@.len() == 1,
        policy is Lenient || policy is BestEffort ==> r.success,
{
    let n = outcomes.len() as int;
    match policy {
        FaultToleranceMode::Strict => {
            if outcomes.len() > 0 && outcomes[n - 1] is Failure {
                lemma_recorded_failures_all_success(events, outcomes, n - 1);
                assert(recorded_failures(events, outcomes, n).len() == 1);
            } else {
                lemma_recorded_failures_all_success(events, outcomes, n);
            }
        },
        FaultToleranceMode::Lenient | FaultToleranceMode::BestEffort => {
            if events.len() == 0 {
                lemma_recorded_failures_all_success(events, outcomes, n);
            }
        },
    }
}

/// Law: when a strict run fails, every earlier invocation succeeded and the
/// failure list holds exactly one record, carrying the name of the event
/// whose invocation failed and the message of that failing outcome.
pub proof fn lemma_strict_abort_identifies_first_failure<E: ChainableEvent>(
    events: Seq<E>,
    outcomes: Seq<EventResult<()>>,
    r: ChainResult,
)
    requires
        run_matches(events, FaultToleranceMode::Strict, outcomes, r),
        r.status is Failed,
    ensures
        0 < outcomes.len() <= events.len(),
        outcomes[outcomes.len() - 1] is Failure,
        forall|i: int| 0 <= i < outcomes.len() - 1 ==> (#[trigger] outcomes[i]) is Success,
        r.failures@.len() == 1,
        r.failures@[0].event_name@ == events[outcomes.len() - 1].spec_name(),
        r.failures@[0].error_message@ == outcomes[outcomes.len() - 1]->Failure_0@,
{
    let n = outcomes.len() as int;
    assert(outcomes.len() > 0 && outcomes[n - 1] is Failure);
    lemma_recorded_failures_all_success(events, outcomes, n - 1);
    let pair = (events[n - 1].spec_name(), outcomes[n - 1]->Failure_0@);
    assert(recorded_failures(events, outcomes, n) == recorded_failures(
        events,
        outcomes,
        n - 1,
    ).push(pair));
    assert(recorded_failures(events, outcomes, n)[0] == pair);
    assert(r.failures@[0].event_name@ == pair.0 && r.failures@[0].error_message@ == pair.1);
}

/// The pipeline orchestrator: an ordered list of events, an ordered stack of
/// middleware, and the fault-tolerance policy.
///
/// Events execute in registration order (first added, first run). Middleware
/// wrap each event in onion style, last registered outermost, so the last
/// registered middleware runs its "before" code first and its "after" code
/// last. With no middleware an event executes directly.
pub struct EventChain<E, M> {
    events: Vec<E>,
    middlewares: Vec<M>,
    fault_tolerance: FaultToleranceMode,
}

impl<E: ChainableEvent, M: EventMiddleware> EventChain<E, M> {
    /// The events, in registration order.
    pub closed spec fn spec_events(&self) -> Seq<E> {
        self.events@
    }

    /// The middleware, in registration order.
    pub closed spec fn spec_middlewares(&self) -> Seq<M> {
        self.middlewares@
    }

    /// The fault-tolerance policy of this chain.
    pub closed spec fn spec_fault_tolerance(&self) -> FaultToleranceMode {
        self.fault_tolerance
    }

    /// Create an empty chain with the strict policy.
    pub fn new() -> (r: Self)
        ensures
            r.spec_events().len() == 0,
            r.spec_middlewares().len() == 0,
            r.spec_fault_tolerance() is Strict,
    {
        EventChain {
            events: Vec::new(),
            middlewares: Vec::new(),
            fault_tolerance: FaultToleranceMode::Strict,
        }
    }

    /// Set the fault-tolerance policy (fluent style).
    pub fn with_fault_tolerance(self, mode: FaultToleranceMode) -> (r: Self)
        ensures
            r.spec_events() == self.spec_events(),
            r.spec_middlewares() == self.spec_middlewares(),
            r.spec_fault_tolerance() == mode,
    {
        let mut this = self;
        this.fault_tolerance = mode;
        this
    }

    /// Append an event to the end of the chain (fluent style).
    pub fn event(self, event: E) -> (r: Self)
        ensures
            r.spec_events() == self.spec_events().push(event),
            r.spec_middlewares() == self.spec_middlewares(),
            r.spec_fault_tolerance() == self.spec_fault_tolerance(),
    {
        let mut this = self;
        this.events.push(event);
        this
    }

    /// Append a middleware to the end of the stack (fluent style). The last
    /// one appended becomes the outermost layer.
    pub fn middleware(self, middleware: M) -> (r: Self)
        ensures
            r.spec_events() == self.spec_events(),
            r.spec_middlewares() == self.spec_middlewares().push(middleware),
            r.spec_fault_tolerance() == self.spec_fault_tolerance(),
    {
        let mut this = self;
        this.middlewares.push(middleware);
        this
    }

    /// Append an event to the end of the chain (in-place style).
    pub fn add_event(&mut self, event: E) -> (r: &mut Self)
        ensures
            r.spec_events() == old(self).spec_events().push(event),
            r.spec_middlewares() == old(self).spec_middlewares(),
            r.spec_fault_tolerance() == old(self).spec_fault_tolerance(),
            *final(self) == *final(r),
    {
        self.events.push(event);
        self
    }

    /// Append a middleware to the end of the stack (in-place style). The
    /// last one appended becomes the outermost layer.
    pub fn use_middleware(&mut self, middleware: M) -> (r: &mut Self)
        ensures
            r.spec_events() == old(self).spec_events(),
            r.spec_middlewares() == old(self).spec_middlewares().push(middleware),
            r.spec_fault_tolerance() == old(self).spec_fault_tolerance(),
            *final(self) == *final(r),
    {
        self.middlewares.push(middleware);
        self
    }

    /// Run one event wrapped in the whole middleware stack, outermost layer
    /// (the last registered middleware) first.
    fn execute_with_middleware(&self, event: &E, context: &mut EventContext) -> EventResult<()> {
        let next = Next { middlewares: &self.middlewares, event, index: 0 };
        next.invoke(context)
    }

    /// Run every event in registration order, each wrapped in the middleware
    /// stack, and aggregate the failures under the fault-tolerance policy.
    ///
    /// The result relates to the per-unit outcomes that were observed as
    /// `run_matches` states; the remaining clauses follow for every possible
    /// sequence of outcomes.
    pub fn execute(&self, context: &mut EventContext) -> (r: ChainResult)
        ensures
            exists|outcomes: Seq<EventResult<()>>|
                run_matches(self.spec_events(), self.spec_fault_tolerance(), outcomes, r),
            r.success == !(r.status is Failed),
            (r.status is Completed) == (r.failures@.len() == 0),
            (r.status is CompletedWithWarnings) == (r.success && r.failures@.len() > 0),
            self.spec_events().len() == 0 ==> r.status is Completed,
            self.spec_fault_tolerance() is Strict ==> !(r.status is CompletedWithWarnings),
            !(self.spec_fault_tolerance() is Strict) ==> r.success,
            r.status is Failed ==> r.failures@.len() == 1 && self.spec_fault_tolerance() is Strict,
            names_from_events(r.failures@, self.spec_events()),
    {
        let mut failures: Vec<EventFailure> = Vec::new();
        let ghost mut outcomes: Seq<EventResult<()>> = Seq::empty();
        let mut idx: usize = 0;
        while idx < self.events.len()
            invariant
                idx <= self.spec_events().len(),
                outcomes.len() == idx,
                self.spec_fault_tolerance() is Strict ==> forall|j: int|
                    0 <= j < outcomes.len() ==> (#[trigger] outcomes[j]) is Success,
                self.spec_fault_tolerance() is Strict ==> failures@.len() == 0,
                failure_records_match(
                    failures@,
                    recorded_failures(self.spec_events(), outcomes, idx as int),
                ),
                names_from_events(failures@, self.spec_events()),
            decreases self.spec_events().len() - idx,
        {
            let event = &self.events[idx];
            let result = self.execute_with_middleware(event, context);
            let ghost prior_outcomes = outcomes;
            proof {
                outcomes = outcomes.push(result);
                lemma_recorded_failures_prefix(
                    self.spec_events(),
                    prior_outcomes,
                    outcomes,
                    idx as int,
                );
            }
            if result.is_failure() {
                let msg: &str = match result.get_error() {
                    Some(m) => m,
                    None => "Unknown error",
                };
                let failure = EventFailure::new(event.name(), String::from_str(msg));
                let ghost prior_failures = failures@;
                failures.push(failure);
                proof {
                    lemma_names_from_events_push(
                        prior_failures,
                        self.spec_events(),
                        failure,
                        idx as int,
                    );
                }
                match self.fault_tolerance {
                    FaultToleranceMode::Strict => {
                        let aborted = ChainResult::failure(failures);
                        proof {
                            assert(run_matches(
                                self.spec_events(),
                                self.spec_fault_tolerance(),
                                outcomes,
                                aborted,
                            ));
                        }
                        return aborted;
                    },
                    FaultToleranceMode::Lenient | FaultToleranceMode::BestEffort => {},
                }
            }
            idx = idx + 1;
        }
        let ghost recorded = failures@;
        let finished = if failures.len() == 0 {
            ChainResult::success()
        } else {
            ChainResult::partial_success(failures)
        };
        proof {
            assert(run_matches(
                self.spec_events(),
                self.spec_fault_tolerance(),
                outcomes,
                finished,
            ));
            assert(finished.failures@ == recorded);
        }
        finished
    }
}

impl<E: ChainableEvent, M: EventMiddleware> Default for EventChain<E, M> {
    /// An empty chain with the strict policy.
    fn default() -> (r: Self)
        ensures
            r.spec_events().len() == 0,
            r.spec_middlewares().len() == 0,
            r.spec_fault_tolerance() is Strict,
    {
        EventChain::new()
    }
}

} // verus!
