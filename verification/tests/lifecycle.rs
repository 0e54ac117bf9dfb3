use orbitrelay::{
    ActionType, Bootstrap, HandlerRegistry, Runtime, HealthState, LifecycleError, LifecycleState, Metadata, Node, NodeId, NodeOperation,
    NodeState, NodeTransition, NodeTransitionKind, ServerConfig, ServerError, ServerLifecycle,
};

/// A node registry that records each registration and can refuse one.
struct RecordingRegistry {
    states: Vec<NodeState>,
    node: Option<Node>,
    refuse_at: Option<usize>,
    calls: usize,
}

impl RecordingRegistry {
    fn new() -> Self {
        RecordingRegistry { states: Vec::new(), node: None, refuse_at: None, calls: 0 }
    }

    fn apply(&mut self, op: NodeOperation, node: &Node) -> bool {
        self.calls += 1;
        if self.refuse_at == Some(self.calls) {
            return false;
        }
        match op {
            NodeOperation::Register(state) => {
                self.states.push(state);
                self.node = Some(node.with_state(state));
            }
            NodeOperation::Unregister => self.node = None,
        }
        true
    }
}

fn drive(
    kind: NodeTransitionKind,
    lifecycle: &mut ServerLifecycle,
    registry: &mut RecordingRegistry,
    node: &Node,
) -> Result<(), ServerError> {
    let (mut transition, mut op) = NodeTransition::begin(kind, lifecycle)?;
    loop {
        let ok = registry.apply(op, node);
        match transition.advance(lifecycle, ok)? {
            Some(next) => op = next,
            None => return Ok(()),
        }
    }
}

#[test]
fn builds_context_and_registers_ready_node() {
    let bootstrap = Bootstrap::new(ServerConfig::default(), ());
    bootstrap.validate().expect("bootstrap should succeed");
    let node_id = bootstrap.local_node_id(NodeId::from_u128(5));
    let mut lifecycle = ServerLifecycle::new();
    let mut registry = RecordingRegistry::new();
    let node = bootstrap.node(&node_id, NodeState::Starting);
    drive(NodeTransitionKind::Startup, &mut lifecycle, &mut registry, &node)
        .expect("bootstrap should succeed");

    let registered = registry.node.as_ref().expect("node should be registered");
    assert_eq!(registered.state(), NodeState::Ready);
    assert_eq!(registered.id(), &node_id);
    assert_eq!(lifecycle.state(), LifecycleState::Ready);
    assert_eq!(lifecycle.health().state(), HealthState::Ready);
    assert!(lifecycle.health().is_ready());
    let names: Vec<&str> = registered.capabilities().iter().map(|c| c.as_str()).collect();
    assert_eq!(names, vec!["runtime", "storage", "sync"]);
    let runtime = Runtime::new(HandlerRegistry::<()>::new(), (), ());
    assert!(!runtime
        .registry()
        .contains(&ActionType::new("unregistered.action")));
}

#[test]
fn shuts_down_and_unregisters_node() {
    let bootstrap = Bootstrap::new(ServerConfig::default(), ());
    let node_id = bootstrap.local_node_id(NodeId::from_u128(5));
    let node = bootstrap.node(&node_id, NodeState::Starting);
    let mut lifecycle = ServerLifecycle::new();
    let mut registry = RecordingRegistry::new();
    drive(NodeTransitionKind::Startup, &mut lifecycle, &mut registry, &node)
        .expect("bootstrap should succeed");

    drive(NodeTransitionKind::Shutdown, &mut lifecycle, &mut registry, &node)
        .expect("shutdown should succeed");

    assert_eq!(
        registry.states,
        vec![
            NodeState::Starting,
            NodeState::Ready,
            NodeState::Draining,
            NodeState::Offline,
        ]
    );
    assert_eq!(lifecycle.state(), LifecycleState::Stopped);
    assert_eq!(lifecycle.health().state(), HealthState::Stopped);
    assert!(registry.node.is_none());
}

#[test]
fn refused_registration_stops_startup() {
    let bootstrap = Bootstrap::new(ServerConfig::default(), ());
    let node = bootstrap.node(&NodeId::from_u128(1), NodeState::Starting);
    let mut lifecycle = ServerLifecycle::new();
    let mut registry = RecordingRegistry::new();
    registry.refuse_at = Some(2);
    let error = drive(NodeTransitionKind::Startup, &mut lifecycle, &mut registry, &node)
        .expect_err("refused registration");
    assert_eq!(error, ServerError::NodeLifecycle { message: "node state registration failed".to_string() });
    assert_eq!(registry.states, vec![NodeState::Starting]);
    assert_eq!(lifecycle.state(), LifecycleState::Starting);
    assert!(!lifecycle.health().is_ready());
}

#[test]
fn refused_unregistration_is_reported() {
    let mut lifecycle = ServerLifecycle::from_state(LifecycleState::Ready);
    let node = Node::new(NodeId::from_u128(1), Metadata::new(), NodeState::Ready, Vec::new());
    let mut registry = RecordingRegistry::new();
    registry.refuse_at = Some(3);
    let error = drive(NodeTransitionKind::Shutdown, &mut lifecycle, &mut registry, &node)
        .expect_err("refused unregistration");
    assert_eq!(error, ServerError::NodeLifecycle { message: "node unregister failed".to_string() });
    assert_eq!(lifecycle.state(), LifecycleState::Draining);
}

#[test]
fn shutdown_before_start_is_refused() {
    let mut lifecycle = ServerLifecycle::new();
    let error = NodeTransition::begin(NodeTransitionKind::Shutdown, &mut lifecycle)
        .err()
        .expect("a created process cannot drain");
    assert_eq!(
        error,
        ServerError::Lifecycle {
            source: LifecycleError::InvalidTransition {
                from: LifecycleState::Created,
                to: LifecycleState::Draining
            }
        }
    );
    assert_eq!(lifecycle.state(), LifecycleState::Created);
}

#[test]
fn lifecycle_only_moves_forward() {
    let mut lifecycle = ServerLifecycle::new();
    assert!(lifecycle.ready().is_err());
    lifecycle.start().expect("start");
    assert!(lifecycle.start().is_err());
    lifecycle.ready().expect("ready");
    assert!(lifecycle.stop().is_err());
    lifecycle.begin_shutdown().expect("drain");
    lifecycle.stop().expect("stop");
    assert_eq!(
        lifecycle.start(),
        Err(LifecycleError::InvalidTransition { from: LifecycleState::Stopped, to: LifecycleState::Starting })
    );
    assert_eq!(lifecycle.state(), LifecycleState::Stopped);
}

#[test]
fn configured_node_id_wins() {
    let config = ServerConfig::default().with_node_id(NodeId::from_u128(9));
    let bootstrap = Bootstrap::new(config, ());
    assert_eq!(bootstrap.local_node_id(NodeId::from_u128(5)), NodeId::from_u128(9));
}

#[test]
fn server_error_constructors() {
    assert_eq!(ServerError::bootstrap("x"), ServerError::Bootstrap { message: "x".to_string() });
    assert_eq!(ServerError::config("y"), ServerError::Config { message: "y".to_string() });
}
