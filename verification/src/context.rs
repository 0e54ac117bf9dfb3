//! The dependencies assembled for one server process, with its local node and
//! lifecycle.

use vstd::prelude::*;

use crate::foundation::Metadata;
use crate::lifecycle::{health_of, HealthStatus, LifecycleState, ServerLifecycle};
use crate::node::{Node, NodeId, NodeState, NodeView};

verus! {

/// Access to the dependencies of one server process: its runtime `R`, event
/// store `S`, event bus `B` and node registry `N`.
pub struct ServerContext<R, S, B, N> {
    local_node: Node,
    lifecycle: ServerLifecycle,
    runtime: R,
    event_store: S,
    event_bus: B,
    node_registry: N,
}

impl<R, S, B, N> ServerContext<R, S, B, N> {
    /// The local node record.
    pub closed spec fn spec_local_node(&self) -> NodeView {
        self.local_node@
    }

    /// The process lifecycle.
    pub closed spec fn spec_lifecycle(&self) -> ServerLifecycle {
        self.lifecycle
    }

    /// The runtime.
    pub closed spec fn spec_runtime(&self) -> R {
        self.runtime
    }

    /// The event store.
    pub closed spec fn spec_event_store(&self) -> S {
        self.event_store
    }

    /// The event bus.
    pub closed spec fn spec_event_bus(&self) -> B {
        self.event_bus
    }

    /// The node registry.
    pub closed spec fn spec_node_registry(&self) -> N {
        self.node_registry
    }

    /// A context for an already-composed, ready node `node_id` with empty
    /// metadata and no advertised capabilities.
    pub fn new(node_id: NodeId, runtime: R, event_store: S, event_bus: B, node_registry: N) -> (c:
        Self)
        ensures
            c.spec_local_node() == (NodeView {
                id: node_id.value,
                metadata: Seq::empty(),
                state: NodeState::Ready,
                capabilities: Seq::empty(),
            }),
            c.spec_lifecycle().current() == LifecycleState::Ready,
            c.spec_runtime() == runtime,
            c.spec_event_store() == event_store,
            c.spec_event_bus() == event_bus,
            c.spec_node_registry() == node_registry,
    {
        let capabilities = Vec::new();
        let local_node = Node::new(node_id, Metadata::new(), NodeState::Ready, capabilities);
        assert(local_node@.capabilities =~= Seq::<Seq<char>>::empty());
        let lifecycle = ServerLifecycle::from_state(LifecycleState::Ready);
        Self::new_composed(local_node, lifecycle, runtime, event_store, event_bus, node_registry)
    }

    /// A context of the given parts.
    pub fn new_composed(
        local_node: Node,
        lifecycle: ServerLifecycle,
        runtime: R,
        event_store: S,
        event_bus: B,
        node_registry: N,
    ) -> (c: Self)
        ensures
            c.spec_local_node() == local_node@,
            c.spec_lifecycle() == lifecycle,
            c.spec_runtime() == runtime,
            c.spec_event_store() == event_store,
            c.spec_event_bus() == event_bus,
            c.spec_node_registry() == node_registry,
    {
        ServerContext { local_node, lifecycle, runtime, event_store, event_bus, node_registry }
    }

    /// The local node identifier.
    pub fn node_id(&self) -> (id: &NodeId)
        ensures
            id.value == self.spec_local_node().id,
    {
        self.local_node.id()
    }

    /// The local node record.
    pub fn local_node(&self) -> (n: &Node)
        ensures
            n@ == self.spec_local_node(),
    {
        &self.local_node
    }

    /// The process lifecycle state machine.
    pub fn lifecycle(&self) -> (l: &ServerLifecycle)
        ensures
            *l == self.spec_lifecycle(),
    {
        &self.lifecycle
    }

    /// The process lifecycle, for driving a transition.
    pub fn lifecycle_mut(&mut self) -> (l: &mut ServerLifecycle)
        ensures
            *l == old(self).spec_lifecycle(),
            final(self).spec_lifecycle() == *final(l),
            final(self).spec_local_node() == old(self).spec_local_node(),
            final(self).spec_runtime() == old(self).spec_runtime(),
            final(self).spec_event_store() == old(self).spec_event_store(),
            final(self).spec_event_bus() == old(self).spec_event_bus(),
            final(self).spec_node_registry() == old(self).spec_node_registry(),
    {
        &mut self.lifecycle
    }

    /// The read-only process health view.
    pub fn health(&self) -> (h: &HealthStatus)
        ensures
            h.spec_state() == health_of(self.spec_lifecycle().current()),
    {
        self.lifecycle.health()
    }

    /// The composed runtime.
    pub fn runtime(&self) -> (r: &R)
        ensures
            *r == self.spec_runtime(),
    {
        &self.runtime
    }

    /// The event store.
    pub fn event_store(&self) -> (s: &S)
        ensures
            *s == self.spec_event_store(),
    {
        &self.event_store
    }

    /// The event bus.
    pub fn event_bus(&self) -> (b: &B)
        ensures
            *b == self.spec_event_bus(),
    {
        &self.event_bus
    }

    /// The node registry.
    pub fn node_registry(&self) -> (n: &N)
        ensures
            *n == self.spec_node_registry(),
    {
        &self.node_registry
    }
}

} // verus!
