use orbitrelay::{Metadata, NodeId, ServerConfig, ServerError};

#[test]
fn default_configuration_is_valid() {
    let config = ServerConfig::default();

    config.validate().expect("default config should be valid");
    assert!(config.node_id().is_none());
    assert_eq!(config.subscription_queue_capacity(), 64);
}

#[test]
fn rejects_zero_queue_capacity() {
    let error = ServerConfig::default()
        .with_subscription_queue_capacity(0)
        .validate()
        .expect_err("zero capacity should be rejected");

    assert!(matches!(error, ServerError::Config { .. }));
}

#[test]
fn zero_capacity_message_is_stable() {
    let error = ServerConfig::default()
        .with_subscription_queue_capacity(0)
        .validate()
        .expect_err("zero capacity should be rejected");
    assert_eq!(
        error,
        ServerError::Config {
            message: "subscription queue capacity must be greater than zero".to_string()
        }
    );
}

#[test]
fn builders_set_fields() {
    let config = ServerConfig::default()
        .with_node_id(NodeId::from_u128(42))
        .with_node_metadata(Metadata::new().with_entry("region", "eu"))
        .with_subscription_queue_capacity(8);
    assert_eq!(config.node_id(), Some(&NodeId::from_u128(42)));
    assert_eq!(config.node_metadata().len(), 1);
    assert_eq!(config.subscription_queue_capacity(), 8);
    assert!(config.validate().is_ok());
}

#[test]
fn overrides_without_values_give_default() {
    let config = ServerConfig::from_overrides(None, None).expect("defaults are valid");
    assert!(config.node_id().is_none());
    assert_eq!(config.subscription_queue_capacity(), 64);
}

#[test]
fn overrides_parse_node_id_and_capacity() {
    let config = ServerConfig::from_overrides(Some("1234"), Some("+16")).expect("valid overrides");
    assert_eq!(config.node_id(), Some(&NodeId::from_u128(1234)));
    assert_eq!(config.subscription_queue_capacity(), 16);
}

#[test]
fn overrides_reject_bad_node_id() {
    let error = ServerConfig::from_overrides(Some("node-7"), None).expect_err("bad node id");
    assert_eq!(
        error,
        ServerError::Config {
            message: "ORBITRELAY_NODE_ID is not a valid node ID".to_string()
        }
    );
}

#[test]
fn overrides_reject_bad_capacity() {
    for text in ["", "-1", "abc", "+", "99999999999999999999999"] {
        let error = ServerConfig::from_overrides(None, Some(text)).expect_err("bad capacity");
        assert_eq!(
            error,
            ServerError::Config {
                message: "ORBITRELAY_SUBSCRIPTION_QUEUE_CAPACITY must be a positive integer"
                    .to_string()
            }
        );
    }
}

#[test]
fn overrides_reject_zero_capacity() {
    let error = ServerConfig::from_overrides(None, Some("0")).expect_err("zero capacity");
    assert!(matches!(error, ServerError::Config { .. }));
}
