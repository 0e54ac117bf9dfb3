use orbitrelay::{
    HealthState, LifecycleState, NodeId, NodeOperation, NodeState, NodeTransition,
    NodeTransitionKind, ServerContext,
};

#[test]
fn new_context_is_ready_with_bare_node() {
    let context = ServerContext::new(NodeId::from_u128(3), "runtime", 1u8, 2u16, 3u32);
    assert_eq!(context.node_id(), &NodeId::from_u128(3));
    assert_eq!(context.local_node().state(), NodeState::Ready);
    assert_eq!(context.local_node().metadata().len(), 0);
    assert!(context.local_node().capabilities().is_empty());
    assert_eq!(context.lifecycle().state(), LifecycleState::Ready);
    assert_eq!(context.health().state(), HealthState::Ready);
    assert_eq!(*context.runtime(), "runtime");
    assert_eq!(*context.event_store(), 1u8);
    assert_eq!(*context.event_bus(), 2u16);
    assert_eq!(*context.node_registry(), 3u32);
}

#[test]
fn context_lifecycle_drives_shutdown() {
    let mut context = ServerContext::new(NodeId::from_u128(3), (), (), (), ());
    let (mut transition, mut op) =
        NodeTransition::begin(NodeTransitionKind::Shutdown, context.lifecycle_mut())
            .expect("a ready node can drain");
    let mut ops = vec![op];
    while let Some(next) = transition
        .advance(context.lifecycle_mut(), true)
        .expect("every registry operation succeeds")
    {
        op = next;
        ops.push(op);
    }
    assert!(transition.is_done());
    assert_eq!(
        ops,
        vec![
            NodeOperation::Register(NodeState::Draining),
            NodeOperation::Register(NodeState::Offline),
            NodeOperation::Unregister,
        ]
    );
    assert_eq!(context.lifecycle().state(), LifecycleState::Stopped);
    assert_eq!(context.health().state(), HealthState::Stopped);
}
