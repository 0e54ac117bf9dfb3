use orbitrelay::{
    materialize_events, Action, ActionExecution, ActionId, ActionType, ActorId,
    AuthorizationError, EventDraft, EventId, EventType, ExecutionStep, HandlerError,
    HandlerRegistry, Metadata, Payload, RegistryError, Runtime, RuntimeError, SessionId,
    Timestamp,
};

/// A handler described by what it answers: a validation error, a handler
/// error, or the event types it drafts.
#[derive(Clone)]
struct TestHandler {
    validation_error: Option<&'static str>,
    handler_error: Option<&'static str>,
}

fn action(action_type: &str, actor_id: ActorId, session_id: SessionId) -> Action {
    Action::new(
        ActionId::from_u128(77),
        session_id,
        actor_id,
        ActionType::new(action_type),
        Timestamp::from_unix_timestamp(1_600_000_000),
        Payload::new(),
        Metadata::new(),
    )
}

fn handler() -> TestHandler {
    TestHandler { validation_error: None, handler_error: None }
}

/// Runs the lifecycle steps the way the asynchronous runtime does, with the
/// given authorizer answer, recording whether the handler ran and what was
/// dispatched.
fn execute(
    runtime: &Runtime<TestHandler, (), ()>,
    action: &Action,
    authorized: Result<(), AuthorizationError>,
    now: Timestamp,
    handled: &mut bool,
    dispatched: &mut Vec<orbitrelay::Event>,
) -> Result<Vec<orbitrelay::Event>, RuntimeError> {
    let handler = runtime.resolve_handler(action)?;
    let mut execution = ActionExecution::begin(action);
    let validation = match handler.validation_error {
        Some(message) => Err(HandlerError::new(message)),
        None => Ok(()),
    };
    execution.after_validation(validation)?;
    execution.after_authorization(authorized)?;
    *handled = true;
    let outcome = match handler.handler_error {
        Some(message) => Err(HandlerError::new(message)),
        None => Ok(vec![EventDraft::new(
            EventType::new("canvas.drawn"),
            Payload::new(),
            Metadata::new(),
        )]),
    };
    let drafts = execution.after_handling(outcome)?;
    let stamps = (0..drafts.len())
        .map(|i| (EventId::from_u128(500 + i as u128), now))
        .collect::<Vec<_>>();
    let events = materialize_events(action, drafts, stamps);
    dispatched.extend(events.iter().cloned());
    execution.after_dispatch(Ok(()))?;
    assert_eq!(execution.step(), ExecutionStep::Done);
    Ok(events)
}

#[test]
fn finds_handler_and_materializes_complete_event() {
    let mut registry = HandlerRegistry::new();
    registry
        .register(ActionType::new("canvas.draw"), handler())
        .expect("handler registration should succeed");
    let occurred_at = Timestamp::from_unix_timestamp(1_700_000_000);
    let runtime = Runtime::new(registry, (), ());
    let actor_id = ActorId::from_u128(1);
    let session_id = SessionId::from_u128(2);
    let action = action("canvas.draw", actor_id, session_id);
    let action_id = *action.id();
    let mut handled = false;
    let mut pipeline = Vec::new();

    let events = execute(&runtime, &action, Ok(()), occurred_at, &mut handled, &mut pipeline)
        .expect("action should execute");

    assert!(handled);
    assert_eq!(events.len(), 1);
    let event = &events[0];
    assert_eq!(event.actor_id(), &actor_id);
    assert_eq!(event.session_id(), &session_id);
    assert_eq!(event.action_id(), &action_id);
    assert_eq!(event.occurred_at(), &occurred_at);
    assert_eq!(event.event_type().as_str(), "canvas.drawn");
    assert_eq!(pipeline, events);
}

#[test]
fn returns_error_when_handler_is_missing() {
    let runtime: Runtime<TestHandler, (), ()> = Runtime::new(HandlerRegistry::new(), (), ());
    let mut handled = false;
    let mut pipeline = Vec::new();

    let error = execute(
        &runtime,
        &action("unknown.action", ActorId::from_u128(1), SessionId::from_u128(2)),
        Ok(()),
        Timestamp::from_unix_timestamp(0),
        &mut handled,
        &mut pipeline,
    )
    .expect_err("unregistered action should fail");

    assert!(matches!(error, RuntimeError::HandlerNotFound { .. }));
}

#[test]
fn stops_before_handler_when_authorization_is_rejected() {
    let mut registry = HandlerRegistry::new();
    registry
        .register(ActionType::new("canvas.draw"), handler())
        .expect("handler registration should succeed");
    let runtime = Runtime::new(registry, (), ());
    let mut handled = false;
    let mut pipeline = Vec::new();

    let error = execute(
        &runtime,
        &action("canvas.draw", ActorId::from_u128(1), SessionId::from_u128(2)),
        Err(AuthorizationError::new("action denied")),
        Timestamp::from_unix_timestamp(0),
        &mut handled,
        &mut pipeline,
    )
    .expect_err("rejected action should fail");

    assert!(matches!(error, RuntimeError::AuthorizationFailed { .. }));
    assert!(!handled);
    assert!(pipeline.is_empty());
}

#[test]
fn reports_validation_failure_before_authorization() {
    let mut registry = HandlerRegistry::new();
    registry
        .register(
            ActionType::new("invalid.action"),
            TestHandler { validation_error: Some("invalid action"), handler_error: None },
        )
        .expect("handler registration should succeed");
    let runtime = Runtime::new(registry, (), ());
    let mut handled = false;
    let mut pipeline = Vec::new();

    let error = execute(
        &runtime,
        &action("invalid.action", ActorId::from_u128(1), SessionId::from_u128(2)),
        Ok(()),
        Timestamp::from_unix_timestamp(0),
        &mut handled,
        &mut pipeline,
    )
    .expect_err("invalid action should fail");

    assert!(matches!(error, RuntimeError::ValidationFailed { .. }));
}

#[test]
fn handler_failure_dispatches_nothing() {
    let mut registry = HandlerRegistry::new();
    registry
        .register(
            ActionType::new("canvas.draw"),
            TestHandler { validation_error: None, handler_error: Some("boom") },
        )
        .expect("handler registration should succeed");
    let runtime = Runtime::new(registry, (), ());
    let mut handled = false;
    let mut pipeline = Vec::new();
    let error = execute(
        &runtime,
        &action("canvas.draw", ActorId::from_u128(1), SessionId::from_u128(2)),
        Ok(()),
        Timestamp::from_unix_timestamp(0),
        &mut handled,
        &mut pipeline,
    )
    .expect_err("failing handler");
    assert_eq!(
        error,
        RuntimeError::HandlerFailed { action_id: ActionId::from_u128(77), source: HandlerError::new("boom") }
    );
    assert!(pipeline.is_empty());
}

#[test]
fn pipeline_failure_is_reported_with_action() {
    let action = action("canvas.draw", ActorId::from_u128(1), SessionId::from_u128(2));
    let mut execution = ActionExecution::begin(&action);
    execution.after_validation(Ok(())).expect("valid");
    execution.after_authorization(Ok(())).expect("authorized");
    execution.after_handling(Ok(Vec::new())).expect("handled");
    assert_eq!(execution.step(), ExecutionStep::Dispatch);
    let error = execution
        .after_dispatch(Err(orbitrelay::PipelineError::new("unavailable")))
        .expect_err("pipeline down");
    assert_eq!(
        error,
        RuntimeError::PipelineFailed {
            action_id: ActionId::from_u128(77),
            source: orbitrelay::PipelineError::new("unavailable")
        }
    );
    assert_eq!(execution.step(), ExecutionStep::Done);
}

#[test]
fn registering_twice_is_refused() {
    let mut registry = HandlerRegistry::new();
    registry.register(ActionType::new("a"), 1u8).expect("first registration");
    let error = registry.register(ActionType::new("a"), 2u8).expect_err("duplicate");
    assert_eq!(error, RegistryError::AlreadyRegistered { action_type: ActionType::new("a") });
    assert_eq!(registry.get(&ActionType::new("a")), Some(&1u8));
    assert!(registry.contains(&ActionType::new("a")));
    assert!(!registry.contains(&ActionType::new("unregistered.action")));
}

#[test]
fn materializes_one_event_per_draft_in_order() {
    let action = action("canvas.draw", ActorId::from_u128(3), SessionId::from_u128(4));
    let drafts = vec![
        EventDraft::new(EventType::new("first"), Payload::from_bytes(vec![1]), Metadata::new()),
        EventDraft::new(EventType::new("second"), Payload::new(), Metadata::new().with_entry("k", "v")),
    ];
    let stamps = vec![
        (EventId::from_u128(10), Timestamp::from_unix_timestamp(5)),
        (EventId::from_u128(11), Timestamp::from_unix_timestamp(6)),
    ];
    let events = materialize_events(&action, drafts, stamps);
    assert_eq!(events.len(), 2);
    assert_eq!(events[0].id().value, 10);
    assert_eq!(events[0].event_type().as_str(), "first");
    assert_eq!(events[0].payload().as_bytes(), &[1]);
    assert_eq!(events[1].id().value, 11);
    assert_eq!(events[1].occurred_at().unix_timestamp(), 6);
    assert_eq!(events[1].metadata().len(), 1);
    assert_eq!(events[1].action_id().value, 77);
}

#[test]
fn registers_handler_after_runtime_is_built() {
    let mut runtime: Runtime<TestHandler, (), ()> = Runtime::new(HandlerRegistry::new(), (), ());
    let action = action("canvas.draw", ActorId::from_u128(1), SessionId::from_u128(2));
    assert!(matches!(
        runtime.resolve_handler(&action),
        Err(RuntimeError::HandlerNotFound { .. })
    ));
    runtime
        .register(ActionType::new("canvas.draw"), handler())
        .expect("registration should succeed");
    assert!(runtime.resolve_handler(&action).is_ok());
    assert!(runtime.registry().contains(&ActionType::new("canvas.draw")));
    let error = runtime
        .register(ActionType::new("canvas.draw"), handler())
        .expect_err("second registration is refused");
    assert!(matches!(error, RegistryError::AlreadyRegistered { .. }));
}
