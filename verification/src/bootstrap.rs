//! Startup and shutdown of the local node: the node record it advertises, and
//! the order of registry updates and lifecycle transitions around them.

use vstd::prelude::*;

use crate::config::{config_problem, ServerConfig};
use crate::lifecycle::{transition_allowed, LifecycleError, LifecycleState, ServerLifecycle};
use crate::node::{Capability, Node, NodeId, NodeState, NodeView};
use crate::server_error::ServerError;

verus! {

/// The capabilities every local node advertises.
pub open spec fn local_capabilities() -> Seq<Seq<char>> {
    seq!["runtime"@, "storage"@, "sync"@]
}

/// A change of the local node's entry in the node registry.
#[derive(Clone, Copy, Debug, PartialEq, Eq, Structural)]
pub enum NodeOperation {
    /// Register the local node advertising the given state.
    Register(NodeState),
    /// Remove the local node from the registry.
    Unregister,
}

/// Which change of the process is under way.
#[derive(Clone, Copy, Debug, PartialEq, Eq, Structural)]
pub enum NodeTransitionKind {
    Startup,
    Shutdown,
}

/// The registry operations of a transition, in order.
pub open spec fn transition_plan(kind: NodeTransitionKind) -> Seq<NodeOperation> {
    match kind {
        NodeTransitionKind::Startup => seq![
            NodeOperation::Register(NodeState::Starting),
            NodeOperation::Register(NodeState::Ready),
        ],
        NodeTransitionKind::Shutdown => seq![
            NodeOperation::Register(NodeState::Draining),
            NodeOperation::Register(NodeState::Offline),
            NodeOperation::Unregister,
        ],
    }
}

/// The lifecycle state a transition enters before its first registry operation.
pub open spec fn entry_state(kind: NodeTransitionKind) -> LifecycleState {
    match kind {
        NodeTransitionKind::Startup => LifecycleState::Starting,
        NodeTransitionKind::Shutdown => LifecycleState::Draining,
    }
}

/// The lifecycle state a transition ends in after its last registry operation.
pub open spec fn exit_state(kind: NodeTransitionKind) -> LifecycleState {
    match kind {
        NodeTransitionKind::Startup => LifecycleState::Ready,
        NodeTransitionKind::Shutdown => LifecycleState::Stopped,
    }
}

/// The message reported when the registry refuses `op`.
pub open spec fn refusal_message(op: NodeOperation) -> Seq<char> {
    match op {
        NodeOperation::Register(_) => "node state registration failed"@,
        NodeOperation::Unregister => "node unregister failed"@,
    }
}

/// The progress of a startup or shutdown through its registry operations.
pub struct NodeTransition {
    kind: NodeTransitionKind,
    issued: usize,
    finished: bool,
}

impl NodeTransition {
    /// Which transition this is.
    pub closed spec fn spec_kind(&self) -> NodeTransitionKind {
        self.kind
    }

    /// How many registry operations have been handed out so far.
    pub closed spec fn issued_count(&self) -> nat {
        self.issued as nat
    }

    /// Whether the transition has ended, completed or failed.
    pub closed spec fn is_finished(&self) -> bool {
        self.finished
    }

    /// The number of handed-out operations stays within the plan.
    #[verifier::type_invariant]
    pub closed spec fn wf(&self) -> bool {
        1 <= self.issued <= transition_plan(self.kind).len()
    }

    /// The operation whose outcome is awaited.
    pub open spec fn awaited(&self) -> NodeOperation {
        transition_plan(self.spec_kind())[self.issued_count() - 1]
    }

    /// Whether the transition has ended, completed or failed.
    pub fn is_done(&self) -> (r: bool)
        ensures
            r == self.is_finished(),
    {
        self.finished
    }

    /// Enters the transition's first lifecycle state and hands out its first
    /// registry operation; a lifecycle that may not enter it is reported.
    pub fn begin(kind: NodeTransitionKind, lifecycle: &mut ServerLifecycle) -> (r: Result<
        (NodeTransition, NodeOperation),
        ServerError,
    >)
        ensures
            transition_allowed(old(lifecycle).current(), entry_state(kind)) ==> {
                &&& final(lifecycle).current() == entry_state(kind)
                &&& r matches Ok((t, op))
                &&& !t.is_finished()
                &&& t.spec_kind() == kind
                &&& t.issued_count() == 1
                &&& op == transition_plan(kind)[0]
            },
            !transition_allowed(old(lifecycle).current(), entry_state(kind)) ==> {
                &&& *final(lifecycle) == *old(lifecycle)
                &&& r == Err::<(NodeTransition, NodeOperation), ServerError>(
                    ServerError::Lifecycle {
                        source: LifecycleError::InvalidTransition {
                            from: old(lifecycle).current(),
                            to: entry_state(kind),
                        },
                    },
                )
            },
    {
        let entered = match kind {
            NodeTransitionKind::Startup => lifecycle.start(),
            NodeTransitionKind::Shutdown => lifecycle.begin_shutdown(),
        };
        match entered {
            Err(e) => Err(ServerError::lifecycle(e)),
            Ok(()) => {
                let op = match kind {
                    NodeTransitionKind::Startup => NodeOperation::Register(NodeState::Starting),
                    NodeTransitionKind::Shutdown => NodeOperation::Register(NodeState::Draining),
                };
                Ok((NodeTransition { kind, issued: 1, finished: false }, op))
            },
        }
    }

    /// Takes the outcome of the awaited registry operation. A refusal ends the
    /// transition with the operation's message; a success hands out the next
    /// operation or, after the last one, enters the transition's final
    /// lifecycle state and returns `None`.
    pub fn advance(&mut self, lifecycle: &mut ServerLifecycle, succeeded: bool) -> (r: Result<
        Option<NodeOperation>,
        ServerError,
    >)
        requires
            !old(self).is_finished(),
        ensures
            final(self).spec_kind() == old(self).spec_kind(),
            !succeeded ==> {
                &&& final(self).is_finished()
                &&& *final(lifecycle) == *old(lifecycle)
                &&& r matches Err(ServerError::NodeLifecycle { message })
                &&& message@ == refusal_message(old(self).awaited())
            },
            succeeded && old(self).issued_count() < transition_plan(old(self).spec_kind()).len()
                ==> {
                &&& !final(self).is_finished()
                &&& final(self).issued_count() == old(self).issued_count() + 1
                &&& *final(lifecycle) == *old(lifecycle)
                &&& r == Ok::<Option<NodeOperation>, ServerError>(
                    Some(transition_plan(old(self).spec_kind())[old(self).issued_count() as int]),
                )
            },
            succeeded && old(self).issued_count() == transition_plan(old(self).spec_kind()).len()
                ==> {
                let to = exit_state(old(self).spec_kind());
                &&& final(self).is_finished()
                &&& transition_allowed(old(lifecycle).current(), to) ==> final(lifecycle).current()
                    == to && r == Ok::<Option<NodeOperation>, ServerError>(None)
                &&& !transition_allowed(old(lifecycle).current(), to) ==> *final(lifecycle)
                    == *old(lifecycle) && r == Err::<Option<NodeOperation>, ServerError>(
                    ServerError::Lifecycle {
                        source: LifecycleError::InvalidTransition {
                            from: old(lifecycle).current(),
                            to,
                        },
                    },
                )
            },
    {
        proof {
            use_type_invariant(&*self);
        }
        let plan_len: usize = match self.kind {
            NodeTransitionKind::Startup => 2,
            NodeTransitionKind::Shutdown => 3,
        };
        if !succeeded {
            self.finished = true;
            let is_unregister = match self.kind {
                NodeTransitionKind::Shutdown => self.issued == 3,
                NodeTransitionKind::Startup => false,
            };
            if is_unregister {
                return Err(ServerError::node_lifecycle("node unregister failed"));
            } else {
                return Err(ServerError::node_lifecycle("node state registration failed"));
            }
        }
        if self.issued < plan_len {
            let op = match self.kind {
                NodeTransitionKind::Startup => NodeOperation::Register(NodeState::Ready),
                NodeTransitionKind::Shutdown => if self.issued == 1 {
                    NodeOperation::Register(NodeState::Offline)
                } else {
                    NodeOperation::Unregister
                },
            };
            self.issued = self.issued + 1;
            return Ok(Some(op));
        }
        self.finished = true;
        let left = match self.kind {
            NodeTransitionKind::Startup => lifecycle.ready(),
            NodeTransitionKind::Shutdown => lifecycle.stop(),
        };
        match left {
            Ok(()) => Ok(None),
            Err(e) => Err(ServerError::lifecycle(e)),
        }
    }
}

/// The abstract content of a bootstrapper: its configuration and authorizer.
pub struct Bootstrap<A> {
    config: ServerConfig,
    authorizer: A,
}

impl<A> Bootstrap<A> {
    /// The configuration this bootstrapper composes from.
    pub closed spec fn spec_config(&self) -> ServerConfig {
        self.config
    }

    /// The authorizer handed to the runtime.
    pub closed spec fn spec_authorizer(&self) -> A {
        self.authorizer
    }

    /// Creates a bootstrapper with an externally supplied authorizer.
    pub fn new(config: ServerConfig, authorizer: A) -> (b: Self)
        ensures
            b.spec_config() == config,
            b.spec_authorizer() == authorizer,
    {
        Bootstrap { config, authorizer }
    }

    /// The configuration.
    pub fn config(&self) -> (c: &ServerConfig)
        ensures
            *c == self.spec_config(),
    {
        &self.config
    }

    /// The authorizer.
    pub fn authorizer(&self) -> (a: &A)
        ensures
            *a == self.spec_authorizer(),
    {
        &self.authorizer
    }

    /// Checks the configuration before anything is composed.
    pub fn validate(&self) -> (r: Result<(), ServerError>)
        ensures
            match config_problem(self.spec_config()@) {
                None => r is Ok,
                Some(m) => r matches Err(ServerError::Config { message }) && message@ == m,
            },
    {
        self.config.validate()
    }

    /// The identifier the local node advertises: the configured one, or
    /// `generated` when none is configured.
    pub fn local_node_id(&self, generated: NodeId) -> (id: NodeId)
        ensures
            id.value == match self.spec_config()@.node_id {
                Some(v) => v,
                None => generated.value,
            },
    {
        match self.config.node_id() {
            Some(id) => *id,
            None => generated,
        }
    }

    /// The local node record advertising `state`, with the configured metadata
    /// and the runtime, storage and sync capabilities.
    pub fn node(&self, node_id: &NodeId, state: NodeState) -> (n: Node)
        ensures
            n@ == (NodeView {
                id: node_id.value,
                metadata: self.spec_config()@.node_metadata,
                state,
                capabilities: local_capabilities(),
            }),
    {
        let mut capabilities: Vec<Capability> = Vec::new();
        capabilities.push(Capability::new("runtime"));
        capabilities.push(Capability::new("storage"));
        capabilities.push(Capability::new("sync"));
        let n = Node::new(*node_id, self.config.node_metadata().clone(), state, capabilities);
        assert(n@.capabilities =~= local_capabilities());
        n
    }
}

/// Startup registers the node as starting and then as ready; shutdown
/// registers it as draining, then offline, then removes it. Each plan ends in
/// the lifecycle state that it names, and each operation that can be refused
/// has its own message.
pub proof fn law_transition_plans()
    ensures
        transition_plan(NodeTransitionKind::Startup) == seq![
            NodeOperation::Register(NodeState::Starting),
            NodeOperation::Register(NodeState::Ready),
        ],
        transition_plan(NodeTransitionKind::Shutdown) == seq![
            NodeOperation::Register(NodeState::Draining),
            NodeOperation::Register(NodeState::Offline),
            NodeOperation::Unregister,
        ],
        transition_allowed(LifecycleState::Created, entry_state(NodeTransitionKind::Startup)),
        transition_allowed(entry_state(NodeTransitionKind::Startup), exit_state(NodeTransitionKind::Startup)),
        transition_allowed(exit_state(NodeTransitionKind::Startup), entry_state(NodeTransitionKind::Shutdown)),
        transition_allowed(entry_state(NodeTransitionKind::Shutdown), exit_state(NodeTransitionKind::Shutdown)),
{
}

} // verus!
