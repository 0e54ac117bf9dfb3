//! Action lifecycle orchestration: handler lookup, the fixed order of the
//! lifecycle steps, and the materialization of events from handler drafts.

use vstd::prelude::*;

use crate::foundation::Timestamp;
use crate::protocol::{Action, ActionId, ActionType, ActionView, Event, EventDraft, EventDraftView, EventId, EventView};
use crate::registry::HandlerRegistry;
use crate::runtime_error::{
    AuthorizationError, HandlerError, PipelineError, RegistryError, RuntimeError,
};

verus! {

/// The steps of executing one action, in the order they run.
#[derive(Clone, Copy, Debug, PartialEq, Eq, Structural)]
pub enum ExecutionStep {
    /// The handler validates the action.
    Validate,
    /// The authorizer decides whether the actor may perform the action.
    Authorize,
    /// The handler turns the action into event drafts.
    Handle,
    /// The materialized events are dispatched through the pipeline.
    Dispatch,
    /// Execution has ended, with the events dispatched or with an error.
    Done,
}

/// The step that follows `step` when it succeeded (`ok`) or failed.
pub open spec fn next_step(step: ExecutionStep, ok: bool) -> ExecutionStep {
    if !ok {
        ExecutionStep::Done
    } else {
        match step {
            ExecutionStep::Validate => ExecutionStep::Authorize,
            ExecutionStep::Authorize => ExecutionStep::Handle,
            ExecutionStep::Handle => ExecutionStep::Dispatch,
            _ => ExecutionStep::Done,
        }
    }
}

/// The step reached from validation after the given step outcomes.
pub open spec fn run_steps(outcomes: Seq<bool>) -> ExecutionStep
    decreases outcomes.len(),
{
    if outcomes.len() == 0 {
        ExecutionStep::Validate
    } else {
        next_step(run_steps(outcomes.drop_last()), outcomes.last())
    }
}

/// The event that the runtime makes of `draft` for `action`, with the fresh
/// identifier `id` and the clock reading `at`.
pub open spec fn materialized(action: ActionView, draft: EventDraftView, id: u128, at: i64) -> EventView {
    EventView {
        id,
        session_id: action.session_id,
        actor_id: action.actor_id,
        action_id: action.id,
        event_type: draft.event_type,
        occurred_at: at,
        payload: draft.payload,
        metadata: draft.metadata,
    }
}

/// The progress of executing one action through its lifecycle steps.
pub struct ActionExecution {
    action_id: ActionId,
    step: ExecutionStep,
}

impl ActionExecution {
    /// The action this execution belongs to.
    pub closed spec fn action(&self) -> u128 {
        self.action_id.value
    }

    /// The step that runs next.
    pub closed spec fn current(&self) -> ExecutionStep {
        self.step
    }

    /// Starts executing `action`, with validation.
    pub fn begin(action: &Action) -> (e: Self)
        ensures
            e.action() == action@.id,
            e.current() == ExecutionStep::Validate,
    {
        ActionExecution { action_id: action.id, step: ExecutionStep::Validate }
    }

    /// The step that runs next.
    pub fn step(&self) -> (s: ExecutionStep)
        ensures
            s == self.current(),
    {
        self.step
    }

    /// Records the validation outcome; a rejection ends execution.
    pub fn after_validation(&mut self, outcome: Result<(), HandlerError>) -> (r: Result<(), RuntimeError>)
        requires
            old(self).current() == ExecutionStep::Validate,
        ensures
            final(self).action() == old(self).action(),
            final(self).current() == next_step(ExecutionStep::Validate, outcome is Ok),
            match outcome {
                Ok(()) => r is Ok,
                Err(source) => r matches Err(RuntimeError::ValidationFailed { action_id, source: s })
                    && action_id.value == old(self).action() && s == source,
            },
    {
        match outcome {
            Ok(()) => {
                self.step = ExecutionStep::Authorize;
                Ok(())
            },
            Err(source) => {
                self.step = ExecutionStep::Done;
                Err(RuntimeError::ValidationFailed { action_id: self.action_id, source })
            },
        }
    }

    /// Records the authorization outcome; a rejection ends execution before
    /// the handler runs.
    pub fn after_authorization(&mut self, outcome: Result<(), AuthorizationError>) -> (r: Result<
        (),
        RuntimeError,
    >)
        requires
            old(self).current() == ExecutionStep::Authorize,
        ensures
            final(self).action() == old(self).action(),
            final(self).current() == next_step(ExecutionStep::Authorize, outcome is Ok),
            match outcome {
                Ok(()) => r is Ok,
                Err(source) => r matches Err(
                    RuntimeError::AuthorizationFailed { action_id, source: s },
                ) && action_id.value == old(self).action() && s == source,
            },
    {
        match outcome {
            Ok(()) => {
                self.step = ExecutionStep::Handle;
                Ok(())
            },
            Err(source) => {
                self.step = ExecutionStep::Done;
                Err(RuntimeError::AuthorizationFailed { action_id: self.action_id, source })
            },
        }
    }

    /// Records the handler outcome, passing its drafts on; a failure ends
    /// execution before anything is dispatched.
    pub fn after_handling(&mut self, outcome: Result<Vec<EventDraft>, HandlerError>) -> (r: Result<
        Vec<EventDraft>,
        RuntimeError,
    >)
        requires
            old(self).current() == ExecutionStep::Handle,
        ensures
            final(self).action() == old(self).action(),
            final(self).current() == next_step(ExecutionStep::Handle, outcome is Ok),
            match outcome {
                Ok(drafts) => r matches Ok(d) && d == drafts,
                Err(source) => r matches Err(RuntimeError::HandlerFailed { action_id, source: s })
                    && action_id.value == old(self).action() && s == source,
            },
    {
        match outcome {
            Ok(drafts) => {
                self.step = ExecutionStep::Dispatch;
                Ok(drafts)
            },
            Err(source) => {
                self.step = ExecutionStep::Done;
                Err(RuntimeError::HandlerFailed { action_id: self.action_id, source })
            },
        }
    }

    /// Records the dispatch outcome, which ends execution.
    pub fn after_dispatch(&mut self, outcome: Result<(), PipelineError>) -> (r: Result<(), RuntimeError>)
        requires
            old(self).current() == ExecutionStep::Dispatch,
        ensures
            final(self).action() == old(self).action(),
            final(self).current() == ExecutionStep::Done,
            match outcome {
                Ok(()) => r is Ok,
                Err(source) => r matches Err(RuntimeError::PipelineFailed { action_id, source: s })
                    && action_id.value == old(self).action() && s == source,
            },
    {
        self.step = ExecutionStep::Done;
        match outcome {
            Ok(()) => Ok(()),
            Err(source) => Err(RuntimeError::PipelineFailed { action_id: self.action_id, source }),
        }
    }
}

/// Makes one event of each draft, in order: the event takes the action's
/// session, actor and identifier, the draft's type, payload and metadata, and
/// the fresh identifier and clock reading given for that draft.
pub fn materialize_events(action: &Action, drafts: Vec<EventDraft>, stamps: Vec<(EventId, Timestamp)>) -> (events: Vec<Event>)
    requires
        stamps.len() == drafts.len(),
    ensures
        events.len() == drafts.len(),
        forall|i: int|
            0 <= i < events.len() ==> (#[trigger] events@[i])@ == materialized(
                action@,
                drafts@[i]@,
                stamps@[i].0.value,
                stamps@[i].1.seconds,
            ),
        forall|i: int|
            0 <= i < events.len() ==> {
                &&& (#[trigger] events@[i])@.id == stamps@[i].0.value
                &&& events@[i]@.occurred_at == stamps@[i].1.seconds
                &&& events@[i]@.session_id == action@.session_id
                &&& events@[i]@.actor_id == action@.actor_id
                &&& events@[i]@.action_id == action@.id
                &&& events@[i]@.event_type == drafts@[i]@.event_type
                &&& events@[i]@.payload == drafts@[i]@.payload
                &&& events@[i]@.metadata == drafts@[i]@.metadata
            },
{
    let ghost draft_views = drafts@.map_values(|d: EventDraft| d@);
    let mut events: Vec<Event> = Vec::new();
    let mut drafts = drafts;
    let mut rest: Vec<EventDraft> = Vec::new();
    // Drafts are taken from the back, so collect them in reverse first.
    while drafts.len() > 0
        invariant
            drafts@.len() + rest@.len() == draft_views.len(),
            forall|i: int| 0 <= i < drafts@.len() ==> (#[trigger] drafts@[i])@ == draft_views[i],
            forall|i: int|
                0 <= i < rest@.len() ==> (#[trigger] rest@[i])@ == draft_views[draft_views.len() - 1 - i],
        decreases drafts@.len(),
    {
        let d = drafts.pop().unwrap();
        rest.push(d);
    }
    let n = rest.len();
    let mut k: usize = 0;
    while k < n
        invariant
            k <= n,
            n == draft_views.len(),
            n == stamps@.len(),
            rest@.len() == n - k,
            events@.len() == k,
            forall|i: int| 0 <= i < rest@.len() ==> (#[trigger] rest@[i])@ == draft_views[n - 1 - i],
            forall|i: int|
                0 <= i < k ==> (#[trigger] events@[i])@ == materialized(
                    action@,
                    draft_views[i],
                    stamps@[i].0.value,
                    stamps@[i].1.seconds,
                ),
        decreases n - k,
    {
        let draft = rest.pop().unwrap();
        assert(draft@ == draft_views[k as int]);
        let (event_type, payload, metadata) = draft.into_parts();
        let stamp = &stamps[k];
        let event = Event::new(
            stamp.0,
            action.session_id,
            action.actor_id,
            action.id,
            event_type,
            stamp.1,
            payload,
            metadata,
        );
        events.push(event);
        k = k + 1;
    }
    events
}

/// The protocol execution engine: a handler registry, the context handed to
/// handlers, and the pipeline that dispatches events.
pub struct Runtime<H, C, P> {
    registry: HandlerRegistry<H>,
    context: C,
    pipeline: P,
}

impl<H, C, P> Runtime<H, C, P> {
    /// The registry this runtime looks handlers up in.
    pub closed spec fn handlers(&self) -> HandlerRegistry<H> {
        self.registry
    }

    /// The context handed to handlers.
    pub closed spec fn context_spec(&self) -> C {
        self.context
    }

    /// The pipeline events are dispatched through.
    pub closed spec fn pipeline_spec(&self) -> P {
        self.pipeline
    }

    /// Creates a runtime from its handler registry, context, and event pipeline.
    pub fn new(registry: HandlerRegistry<H>, context: C, pipeline: P) -> (r: Self)
        ensures
            r.handlers() == registry,
            r.context_spec() == context,
            r.pipeline_spec() == pipeline,
    {
        Runtime { registry, context, pipeline }
    }

    /// The handler registry.
    pub fn registry(&self) -> (r: &HandlerRegistry<H>)
        ensures
            *r == self.handlers(),
    {
        &self.registry
    }

    /// Registers `handler` for `action_type` in this runtime's registry, so
    /// that later executions of actions of that type find it; an action type
    /// that already has a handler keeps it, and the registration is refused.
    pub fn register(&mut self, action_type: ActionType, handler: H) -> (r: Result<(), RegistryError>)
        ensures
            final(self).context_spec() == old(self).context_spec(),
            final(self).pipeline_spec() == old(self).pipeline_spec(),
            old(self).handlers()@.contains_key(action_type@) ==> {
                &&& final(self).handlers()@ == old(self).handlers()@
                &&& r matches Err(RegistryError::AlreadyRegistered { action_type: t })
                &&& t@ == action_type@
            },
            !old(self).handlers()@.contains_key(action_type@) ==> {
                &&& r is Ok
                &&& final(self).handlers()@ == old(self).handlers()@.insert(action_type@, handler)
            },
    {
        self.registry.register(action_type, handler)
    }

    /// The runtime dependency context.
    pub fn context(&self) -> (c: &C)
        ensures
            *c == self.context_spec(),
    {
        &self.context
    }

    /// The event pipeline.
    pub fn pipeline(&self) -> (p: &P)
        ensures
            *p == self.pipeline_spec(),
    {
        &self.pipeline
    }

    /// The handler for `action`'s type; a type without one is reported with
    /// that type.
    pub fn resolve_handler(&self, action: &Action) -> (r: Result<&H, RuntimeError>)
        ensures
            match r {
                Ok(h) => self.handlers()@.contains_key(action@.action_type) && *h == self.handlers()@[action@.action_type],
                Err(e) => {
                    &&& !self.handlers()@.contains_key(action@.action_type)
                    &&& e matches RuntimeError::HandlerNotFound { action_type }
                    &&& action_type@ == action@.action_type
                },
            },
    {
        match self.registry.get(&action.action_type) {
            Some(h) => Ok(h),
            None => Err(RuntimeError::HandlerNotFound { action_type: action.action_type.clone() }),
        }
    }
}

/// The step reached after `n` successful steps.
pub open spec fn step_after_successes(n: nat) -> ExecutionStep {
    if n == 0 {
        ExecutionStep::Validate
    } else if n == 1 {
        ExecutionStep::Authorize
    } else if n == 2 {
        ExecutionStep::Handle
    } else if n == 3 {
        ExecutionStep::Dispatch
    } else {
        ExecutionStep::Done
    }
}

proof fn lemma_run_steps_shape(outcomes: Seq<bool>)
    ensures
        run_steps(outcomes) == if outcomes.contains(false) {
            ExecutionStep::Done
        } else {
            step_after_successes(outcomes.len())
        },
    decreases outcomes.len(),
{
    if outcomes.len() > 0 {
        let init = outcomes.drop_last();
        lemma_run_steps_shape(init);
        if outcomes.contains(false) && !init.contains(false) {
            let j = choose|j: int| 0 <= j < outcomes.len() && outcomes[j] == false;
            if j < init.len() {
                assert(init[j] == false);
            }
        }
        if init.contains(false) {
            let j = choose|j: int| 0 <= j < init.len() && init[j] == false;
            assert(outcomes[j] == false);
        }
        if !outcomes.last() {
            assert(outcomes[outcomes.len() - 1] == false);
        }
    }
}

/// The lifecycle steps run in a fixed order, each only after every earlier
/// one succeeded: the handler runs only after validation and authorization
/// succeeded, events are dispatched only after the handler succeeded, and
/// any failure ends execution for good.
pub proof fn law_steps_in_order(outcomes: Seq<bool>)
    ensures
        run_steps(outcomes) == ExecutionStep::Authorize <==> outcomes == seq![true],
        run_steps(outcomes) == ExecutionStep::Handle <==> outcomes == seq![true, true],
        run_steps(outcomes) == ExecutionStep::Dispatch <==> outcomes == seq![true, true, true],
        outcomes.contains(false) ==> run_steps(outcomes) == ExecutionStep::Done,
{
    lemma_run_steps_shape(outcomes);
    if !outcomes.contains(false) {
        assert forall|i: int| 0 <= i < outcomes.len() implies outcomes[i] == true by {
            if !outcomes[i] {
                assert(outcomes.contains(false));
            }
        }
        if outcomes.len() == 1 {
            assert(outcomes =~= seq![true]);
        }
        if outcomes.len() == 2 {
            assert(outcomes =~= seq![true, true]);
        }
        if outcomes.len() == 3 {
            assert(outcomes =~= seq![true, true, true]);
        }
    }
    if outcomes == seq![true] {
        assert(!outcomes.contains(false));
    }
    if outcomes == seq![true, true] {
        assert(!outcomes.contains(false));
    }
    if outcomes == seq![true, true, true] {
        assert(!outcomes.contains(false));
    }
}

/// The position of each step in the fixed order.
pub open spec fn step_rank(step: ExecutionStep) -> int {
    match step {
        ExecutionStep::Validate => 0,
        ExecutionStep::Authorize => 1,
        ExecutionStep::Handle => 2,
        ExecutionStep::Dispatch => 3,
        ExecutionStep::Done => 4,
    }
}

/// Every step's outcome moves execution strictly forward, until it is done.
proof fn lemma_runs_move_forward(outcomes: Seq<bool>, i: int, j: int)
    requires
        0 <= i < j <= outcomes.len(),
    ensures
        run_steps(outcomes.take(i)) != ExecutionStep::Done ==> step_rank(
            run_steps(outcomes.take(j)),
        ) > step_rank(run_steps(outcomes.take(i))),
        step_rank(run_steps(outcomes.take(j))) >= step_rank(run_steps(outcomes.take(i))),
    decreases j - i,
{
    let tj = outcomes.take(j);
    assert(tj.drop_last() =~= outcomes.take(j - 1));
    assert(run_steps(tj) == next_step(run_steps(outcomes.take(j - 1)), tj.last()));
    if j - 1 > i {
        lemma_runs_move_forward(outcomes, i, j - 1);
    }
}

/// Each lifecycle step runs at most once: along any run, a step that is not
/// the end is never reached again, since every outcome moves execution
/// strictly forward in the order validate, authorize, handle, dispatch.
pub proof fn law_each_step_at_most_once(outcomes: Seq<bool>, i: int, j: int)
    requires
        0 <= i < j <= outcomes.len(),
        run_steps(outcomes.take(i)) != ExecutionStep::Done,
    ensures
        run_steps(outcomes.take(j)) != run_steps(outcomes.take(i)),
        step_rank(run_steps(outcomes.take(j))) > step_rank(run_steps(outcomes.take(i))),
{
    lemma_runs_move_forward(outcomes, i, j);
}

/// A materialized event takes its identifier and time from its stamp, its
/// session, actor and action identifier from the action, and its type,
/// payload and metadata from its draft exactly as the draft holds them.
pub proof fn law_materialized_event(action: ActionView, draft: EventDraftView, id: u128, at: i64)
    ensures
        materialized(action, draft, id, at).id == id,
        materialized(action, draft, id, at).occurred_at == at,
        materialized(action, draft, id, at).session_id == action.session_id,
        materialized(action, draft, id, at).actor_id == action.actor_id,
        materialized(action, draft, id, at).action_id == action.id,
        materialized(action, draft, id, at).event_type == draft.event_type,
        materialized(action, draft, id, at).payload == draft.payload,
        materialized(action, draft, id, at).metadata == draft.metadata,
{
}

/// The action's own type, time, payload and metadata do not reach its events:
/// two actions with the same identifier, session and actor materialize the
/// same event from the same draft and stamp.
pub proof fn law_materialized_ignores_action_content(
    a: ActionView,
    b: ActionView,
    draft: EventDraftView,
    id: u128,
    at: i64,
)
    requires
        a.id == b.id,
        a.session_id == b.session_id,
        a.actor_id == b.actor_id,
    ensures
        materialized(a, draft, id, at) == materialized(b, draft, id, at),
{
}

} // verus!
