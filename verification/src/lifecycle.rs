//! The process lifecycle state machine and the health view derived from it.

use vstd::prelude::*;

verus! {

/// The lifecycle state of one server process.
#[derive(Clone, Copy, Debug, PartialEq, Eq, Hash, Structural)]
pub enum LifecycleState {
    Created,
    Starting,
    Ready,
    Draining,
    Stopped,
}

/// The health a process reports.
#[derive(Clone, Copy, Debug, PartialEq, Eq, Hash, Structural)]
pub enum HealthState {
    Starting,
    Ready,
    Draining,
    Stopped,
}

/// A lifecycle transition that is not allowed from the current state.
#[derive(Clone, Copy, Debug, PartialEq, Eq, Structural)]
pub enum LifecycleError {
    InvalidTransition { from: LifecycleState, to: LifecycleState },
}

/// The order of lifecycle states: every allowed transition increases it.
pub open spec fn lifecycle_rank(s: LifecycleState) -> int {
    match s {
        LifecycleState::Created => 0,
        LifecycleState::Starting => 1,
        LifecycleState::Ready => 2,
        LifecycleState::Draining => 3,
        LifecycleState::Stopped => 4,
    }
}

/// Whether a process may move from `from` to `to`.
pub open spec fn transition_allowed(from: LifecycleState, to: LifecycleState) -> bool {
    match to {
        LifecycleState::Starting => from == LifecycleState::Created,
        LifecycleState::Ready => from == LifecycleState::Starting,
        LifecycleState::Draining => from == LifecycleState::Starting || from
            == LifecycleState::Ready,
        LifecycleState::Stopped => from == LifecycleState::Draining,
        LifecycleState::Created => false,
    }
}

/// The health reported in each lifecycle state.
pub open spec fn health_of(s: LifecycleState) -> HealthState {
    match s {
        LifecycleState::Created => HealthState::Starting,
        LifecycleState::Starting => HealthState::Starting,
        LifecycleState::Ready => HealthState::Ready,
        LifecycleState::Draining => HealthState::Draining,
        LifecycleState::Stopped => HealthState::Stopped,
    }
}

/// A read-only health view of a process.
#[derive(Clone, Copy, Debug, PartialEq, Eq, Structural)]
pub struct HealthStatus {
    state: HealthState,
}

impl HealthStatus {
    /// The reported health state.
    pub closed spec fn spec_state(&self) -> HealthState {
        self.state
    }

    /// The health reported in lifecycle state `s`.
    pub fn for_lifecycle(s: LifecycleState) -> (h: Self)
        ensures
            h.spec_state() == health_of(s),
    {
        let state = match s {
            LifecycleState::Created => HealthState::Starting,
            LifecycleState::Starting => HealthState::Starting,
            LifecycleState::Ready => HealthState::Ready,
            LifecycleState::Draining => HealthState::Draining,
            LifecycleState::Stopped => HealthState::Stopped,
        };
        HealthStatus { state }
    }

    /// The reported health state.
    pub fn state(&self) -> (s: HealthState)
        ensures
            s == self.spec_state(),
    {
        self.state
    }

    /// Whether the process is ready to serve.
    pub fn is_ready(&self) -> (r: bool)
        ensures
            r == (self.spec_state() == HealthState::Ready),
    {
        self.state == HealthState::Ready
    }
}

/// The lifecycle state machine of one server process.
#[derive(Clone, Copy, Debug, PartialEq, Eq, Structural)]
pub struct ServerLifecycle {
    state: LifecycleState,
    health: HealthStatus,
}

impl ServerLifecycle {
    /// The current lifecycle state.
    pub closed spec fn current(&self) -> LifecycleState {
        self.state
    }

    /// The health view always mirrors the lifecycle state.
    #[verifier::type_invariant]
    pub closed spec fn wf(&self) -> bool {
        self.health.spec_state() == health_of(self.state)
    }

    /// A process that has not started yet.
    pub fn new() -> (l: Self)
        ensures
            l.current() == LifecycleState::Created,
    {
        Self::from_state(LifecycleState::Created)
    }

    /// A process already in state `state`.
    pub fn from_state(state: LifecycleState) -> (l: Self)
        ensures
            l.current() == state,
    {
        ServerLifecycle { state, health: HealthStatus::for_lifecycle(state) }
    }

    /// The current lifecycle state.
    pub fn state(&self) -> (s: LifecycleState)
        ensures
            s == self.current(),
    {
        self.state
    }

    /// The health view of the process.
    pub fn health(&self) -> (h: &HealthStatus)
        ensures
            h.spec_state() == health_of(self.current()),
    {
        proof {
            use_type_invariant(self);
        }
        &self.health
    }

    /// Moves to `to` when that is allowed; otherwise reports the refused
    /// transition and stays where it is.
    pub fn transition(&mut self, to: LifecycleState) -> (r: Result<(), LifecycleError>)
        ensures
            transition_allowed(old(self).current(), to) ==> r is Ok && final(self).current()
                == to,
            !transition_allowed(old(self).current(), to) ==> *final(self) == *old(self) && r
                == Err::<(), LifecycleError>(
                LifecycleError::InvalidTransition { from: old(self).current(), to },
            ),
    {
        let from = self.state;
        let allowed = match to {
            LifecycleState::Starting => from == LifecycleState::Created,
            LifecycleState::Ready => from == LifecycleState::Starting,
            LifecycleState::Draining => from == LifecycleState::Starting || from
                == LifecycleState::Ready,
            LifecycleState::Stopped => from == LifecycleState::Draining,
            LifecycleState::Created => false,
        };
        if allowed {
            *self = ServerLifecycle { state: to, health: HealthStatus::for_lifecycle(to) };
            Ok(())
        } else {
            Err(LifecycleError::InvalidTransition { from, to })
        }
    }

    /// Begins starting the process.
    pub fn start(&mut self) -> (r: Result<(), LifecycleError>)
        ensures
            transition_allowed(old(self).current(), LifecycleState::Starting) ==> r is Ok
                && final(self).current() == LifecycleState::Starting,
            !transition_allowed(old(self).current(), LifecycleState::Starting) ==> *final(self)
                == *old(self) && r == Err::<(), LifecycleError>(
                LifecycleError::InvalidTransition {
                    from: old(self).current(),
                    to: LifecycleState::Starting,
                },
            ),
    {
        self.transition(LifecycleState::Starting)
    }

    /// Marks a started process ready to serve.
    pub fn ready(&mut self) -> (r: Result<(), LifecycleError>)
        ensures
            transition_allowed(old(self).current(), LifecycleState::Ready) ==> r is Ok
                && final(self).current() == LifecycleState::Ready,
            !transition_allowed(old(self).current(), LifecycleState::Ready) ==> *final(self)
                == *old(self) && r == Err::<(), LifecycleError>(
                LifecycleError::InvalidTransition {
                    from: old(self).current(),
                    to: LifecycleState::Ready,
                },
            ),
    {
        self.transition(LifecycleState::Ready)
    }

    /// Begins draining a starting or ready process.
    pub fn begin_shutdown(&mut self) -> (r: Result<(), LifecycleError>)
        ensures
            transition_allowed(old(self).current(), LifecycleState::Draining) ==> r is Ok
                && final(self).current() == LifecycleState::Draining,
            !transition_allowed(old(self).current(), LifecycleState::Draining) ==> *final(self)
                == *old(self) && r == Err::<(), LifecycleError>(
                LifecycleError::InvalidTransition {
                    from: old(self).current(),
                    to: LifecycleState::Draining,
                },
            ),
    {
        self.transition(LifecycleState::Draining)
    }

    /// Marks a drained process stopped.
    pub fn stop(&mut self) -> (r: Result<(), LifecycleError>)
        ensures
            transition_allowed(old(self).current(), LifecycleState::Stopped) ==> r is Ok
                && final(self).current() == LifecycleState::Stopped,
            !transition_allowed(old(self).current(), LifecycleState::Stopped) ==> *final(self)
                == *old(self) && r == Err::<(), LifecycleError>(
                LifecycleError::InvalidTransition {
                    from: old(self).current(),
                    to: LifecycleState::Stopped,
                },
            ),
    {
        self.transition(LifecycleState::Stopped)
    }
}

/// Lifecycle states only move forward: every allowed transition strictly
/// increases the state's rank, so no state is ever entered twice and a stopped
/// process stays stopped.
pub proof fn law_lifecycle_moves_forward(from: LifecycleState, to: LifecycleState)
    ensures
        transition_allowed(from, to) ==> lifecycle_rank(from) < lifecycle_rank(to),
        from == LifecycleState::Stopped ==> !transition_allowed(from, to),
{
}

/// A process can only be ready after having started, and can only be stopped
/// after having drained.
pub proof fn law_ready_and_stopped_predecessors(from: LifecycleState)
    ensures
        transition_allowed(from, LifecycleState::Ready) <==> from == LifecycleState::Starting,
        transition_allowed(from, LifecycleState::Stopped) <==> from == LifecycleState::Draining,
{
}

} // verus!
