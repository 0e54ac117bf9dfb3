//! Errors produced by the protocol runtime and its extension ports.

use vstd::prelude::*;

use crate::protocol::{ActionId, ActionType};

verus! {

/// An error returned while validating or handling an action.
#[derive(Debug, PartialEq, Eq)]
pub struct HandlerError {
    message: String,
}

impl View for HandlerError {
    type V = Seq<char>;

    closed spec fn view(&self) -> Seq<char> {
        self.message@
    }
}

impl HandlerError {
    /// A handler error with a stable, human-readable message.
    pub fn new(message: &str) -> (e: Self)
        ensures
            e@ == message@,
    {
        HandlerError { message: message.to_owned() }
    }

    /// The handler error message.
    pub fn message(&self) -> (m: &str)
        ensures
            m@ == self@,
    {
        self.message.as_str()
    }

    /// The error rendered as text: exactly its message, nothing added.
    pub fn to_string(&self) -> (s: String)
        ensures
            s@ == self@,
    {
        self.message.clone()
    }
}

/// An error returned by an external action authorizer.
#[derive(Debug, PartialEq, Eq)]
pub struct AuthorizationError {
    message: String,
}

impl View for AuthorizationError {
    type V = Seq<char>;

    closed spec fn view(&self) -> Seq<char> {
        self.message@
    }
}

impl AuthorizationError {
    /// An authorization error with the given message.
    pub fn new(message: &str) -> (e: Self)
        ensures
            e@ == message@,
    {
        AuthorizationError { message: message.to_owned() }
    }

    /// The authorization error message.
    pub fn message(&self) -> (m: &str)
        ensures
            m@ == self@,
    {
        self.message.as_str()
    }

    /// The error rendered as text: exactly its message, nothing added.
    pub fn to_string(&self) -> (s: String)
        ensures
            s@ == self@,
    {
        self.message.clone()
    }
}

/// An error returned while dispatching generated events.
#[derive(Debug, PartialEq, Eq)]
pub struct PipelineError {
    message: String,
}

impl View for PipelineError {
    type V = Seq<char>;

    closed spec fn view(&self) -> Seq<char> {
        self.message@
    }
}

impl PipelineError {
    /// An event pipeline error with the given message.
    pub fn new(message: &str) -> (e: Self)
        ensures
            e@ == message@,
    {
        PipelineError { message: message.to_owned() }
    }

    /// The pipeline error message.
    pub fn message(&self) -> (m: &str)
        ensures
            m@ == self@,
    {
        self.message.as_str()
    }

    /// The error rendered as text: exactly its message, nothing added.
    pub fn to_string(&self) -> (s: String)
        ensures
            s@ == self@,
    {
        self.message.clone()
    }
}

/// Errors produced while changing the handler registry.
#[derive(Debug, PartialEq, Eq)]
#[non_exhaustive]
pub enum RegistryError {
    /// An action type already has a registered handler.
    AlreadyRegistered { action_type: ActionType },
}

/// Errors produced while executing an action lifecycle.
#[derive(Debug, PartialEq, Eq)]
#[non_exhaustive]
#[allow(inconsistent_fields)]
pub enum RuntimeError {
    /// No handler is registered for the requested action type.
    HandlerNotFound { action_type: ActionType },
    /// The selected handler rejected the action during validation.
    ValidationFailed { action_id: ActionId, source: HandlerError },
    /// The external authorizer rejected the action.
    AuthorizationFailed { action_id: ActionId, source: AuthorizationError },
    /// The selected handler failed while producing event drafts.
    HandlerFailed { action_id: ActionId, source: HandlerError },
    /// Generated events could not be dispatched through the pipeline.
    PipelineFailed { action_id: ActionId, source: PipelineError },
}

} // verus!
