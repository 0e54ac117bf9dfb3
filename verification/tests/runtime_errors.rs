use orbitrelay::{AuthorizationError, HandlerError, PipelineError};

#[test]
fn preserves_boundary_error_messages() {
    assert_eq!(
        HandlerError::new("invalid payload").message(),
        "invalid payload"
    );
    assert_eq!(AuthorizationError::new("denied").message(), "denied");
    assert_eq!(PipelineError::new("unavailable").message(), "unavailable");
}

#[test]
fn boundary_errors_render_exactly_their_message() {
    assert_eq!(HandlerError::new("invalid payload").to_string(), "invalid payload");
    assert_eq!(AuthorizationError::new("denied").to_string(), "denied");
    assert_eq!(PipelineError::new("unavailable").to_string(), "unavailable");
}
