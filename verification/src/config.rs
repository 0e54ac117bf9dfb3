//! Process-level configuration for the composition root.

use vstd::prelude::*;

use crate::foundation::Metadata;
use crate::node::NodeId;
use crate::server_error::ServerError;
use crate::text::{chars_of, parse_u128, parse_unsigned};

verus! {

/// Default capacity for each in-memory event subscription queue.
pub const DEFAULT_SUBSCRIPTION_QUEUE_CAPACITY: usize = 64;

/// The abstract content of a configuration.
pub struct ServerConfigView {
    pub node_id: Option<u128>,
    pub node_metadata: Seq<(Seq<char>, Seq<char>)>,
    pub subscription_queue_capacity: usize,
}

/// Why a configuration is invalid, if it is.
pub open spec fn config_problem(c: ServerConfigView) -> Option<Seq<char>> {
    if c.subscription_queue_capacity == 0 {
        Some("subscription queue capacity must be greater than zero"@)
    } else {
        None
    }
}

/// The configuration that textual overrides of the node identifier and of the
/// queue capacity give, or the message of the first override that does not
/// parse, or the validation problem of the result.
pub open spec fn overridden_config(node_id: Option<Seq<char>>, capacity: Option<Seq<char>>) -> Result<
    ServerConfigView,
    Seq<char>,
> {
    let id: Result<Option<u128>, Seq<char>> = match node_id {
        None => Ok(None),
        Some(text) => match parse_unsigned(text, u128::MAX as nat) {
            Some(v) => Ok(Some(v as u128)),
            None => Err("ORBITRELAY_NODE_ID is not a valid node ID"@),
        },
    };
    let cap: Result<usize, Seq<char>> = match capacity {
        None => Ok(DEFAULT_SUBSCRIPTION_QUEUE_CAPACITY),
        Some(text) => match parse_unsigned(text, usize::MAX as nat) {
            Some(v) => Ok(v as usize),
            None => Err("ORBITRELAY_SUBSCRIPTION_QUEUE_CAPACITY must be a positive integer"@),
        },
    };
    match id {
        Err(m) => Err(m),
        Ok(id) => match cap {
            Err(m) => Err(m),
            Ok(cap) => {
                let c = ServerConfigView {
                    node_id: id,
                    node_metadata: Seq::empty(),
                    subscription_queue_capacity: cap,
                };
                match config_problem(c) {
                    Some(m) => Err(m),
                    None => Ok(c),
                }
            },
        },
    }
}

/// Minimal configuration needed to compose a local OrbitRelay server.
#[derive(Debug, PartialEq, Eq)]
pub struct ServerConfig {
    node_id: Option<NodeId>,
    node_metadata: Metadata,
    subscription_queue_capacity: usize,
}

impl View for ServerConfig {
    type V = ServerConfigView;

    closed spec fn view(&self) -> ServerConfigView {
        ServerConfigView {
            node_id: match self.node_id {
                Some(n) => Some(n.value),
                None => None,
            },
            node_metadata: self.node_metadata@,
            subscription_queue_capacity: self.subscription_queue_capacity,
        }
    }
}

impl Default for ServerConfig {
    fn default() -> (c: Self)
        ensures
            c@ == (ServerConfigView {
                node_id: None,
                node_metadata: Seq::empty(),
                subscription_queue_capacity: DEFAULT_SUBSCRIPTION_QUEUE_CAPACITY,
            }),
    {
        ServerConfig {
            node_id: None,
            node_metadata: Metadata::new(),
            subscription_queue_capacity: DEFAULT_SUBSCRIPTION_QUEUE_CAPACITY,
        }
    }
}

impl Clone for ServerConfig {
    fn clone(&self) -> (c: Self)
        ensures
            c@ == self@,
    {
        ServerConfig {
            node_id: self.node_id,
            node_metadata: self.node_metadata.clone(),
            subscription_queue_capacity: self.subscription_queue_capacity,
        }
    }
}

/// Parses an unsigned decimal `usize`, as std's `from_str` for `usize` does.
fn parse_usize(text: &str) -> (r: Option<usize>)
    ensures
        match r {
            Some(v) => parse_unsigned(text@, usize::MAX as nat) == Some(v as nat),
            None => parse_unsigned(text@, usize::MAX as nat) is None,
        },
{
    let chars = chars_of(text);
    match parse_u128(chars.as_slice()) {
        Some(v) => {
            if v <= usize::MAX as u128 {
                Some(v as usize)
            } else {
                None
            }
        },
        None => None,
    }
}

impl ServerConfig {
    /// The default configuration with the given overrides, as text: a node
    /// identifier and a subscription queue capacity. The result is validated.
    pub fn from_overrides(node_id: Option<&str>, capacity: Option<&str>) -> (r: Result<Self, ServerError>)
        ensures
            match overridden_config(
                match node_id {
                    Some(t) => Some(t@),
                    None => None,
                },
                match capacity {
                    Some(t) => Some(t@),
                    None => None,
                },
            ) {
                Ok(c) => r matches Ok(config) && config@ == c,
                Err(m) => r matches Err(ServerError::Config { message }) && message@ == m,
            },
            ({
                let id_ok = match node_id {
                    Some(t) => parse_unsigned(t@, u128::MAX as nat) is Some,
                    None => true,
                };
                match capacity {
                    Some(t) => match parse_unsigned(t@, usize::MAX as nat) {
                        Some(v) => id_ok && v > 0 ==> (r is Ok
                            && r->Ok_0@.subscription_queue_capacity == v),
                        None => true,
                    },
                    None => id_ok ==> (r is Ok && r->Ok_0@.subscription_queue_capacity
                        == DEFAULT_SUBSCRIPTION_QUEUE_CAPACITY),
                }
            }),
            match node_id {
                Some(t) => match parse_unsigned(t@, u128::MAX as nat) {
                    Some(v) => r is Ok ==> r->Ok_0@.node_id == Some(v as u128),
                    None => true,
                },
                None => r is Ok ==> r->Ok_0@.node_id is None,
            },
    {
        let mut config = ServerConfig::default();
        if let Some(text) = node_id {
            let chars = chars_of(text);
            match parse_u128(chars.as_slice()) {
                Some(v) => {
                    config.node_id = Some(NodeId::from_u128(v));
                },
                None => {
                    return Err(ServerError::config("ORBITRELAY_NODE_ID is not a valid node ID"));
                },
            }
        }
        if let Some(text) = capacity {
            match parse_usize(text) {
                Some(v) => {
                    config.subscription_queue_capacity = v;
                },
                None => {
                    return Err(
                        ServerError::config(
                            "ORBITRELAY_SUBSCRIPTION_QUEUE_CAPACITY must be a positive integer",
                        ),
                    );
                },
            }
        }
        match config.validate() {
            Ok(()) => Ok(config),
            Err(e) => Err(e),
        }
    }

    /// Validates configuration invariants independent of a concrete backend.
    pub fn validate(&self) -> (r: Result<(), ServerError>)
        ensures
            r is Ok <==> self@.subscription_queue_capacity != 0,
            match config_problem(self@) {
                None => r is Ok,
                Some(m) => r matches Err(ServerError::Config { message }) && message@ == m,
            },
    {
        if self.subscription_queue_capacity == 0 {
            return Err(ServerError::config("subscription queue capacity must be greater than zero"));
        }
        Ok(())
    }

    /// Sets the stable identifier advertised by this process.
    pub fn with_node_id(self, node_id: NodeId) -> (c: Self)
        ensures
            c@ == (ServerConfigView { node_id: Some(node_id.value), ..self@ }),
    {
        ServerConfig { node_id: Some(node_id), ..self }
    }

    /// Sets the business-neutral metadata advertised by this process.
    pub fn with_node_metadata(self, node_metadata: Metadata) -> (c: Self)
        ensures
            c@ == (ServerConfigView { node_metadata: node_metadata@, ..self@ }),
    {
        ServerConfig { node_metadata, ..self }
    }

    /// Sets the bounded capacity of each in-memory subscription queue.
    pub fn with_subscription_queue_capacity(self, capacity: usize) -> (c: Self)
        ensures
            c@ == (ServerConfigView { subscription_queue_capacity: capacity, ..self@ }),
    {
        ServerConfig { subscription_queue_capacity: capacity, ..self }
    }

    /// The configured stable node identifier, if one was supplied.
    pub fn node_id(&self) -> (r: Option<&NodeId>)
        ensures
            match r {
                Some(n) => self@.node_id == Some(n.value),
                None => self@.node_id is None,
            },
    {
        match &self.node_id {
            Some(n) => Some(n),
            None => None,
        }
    }

    /// The metadata advertised by the local node.
    pub fn node_metadata(&self) -> (m: &Metadata)
        ensures
            m@ == self@.node_metadata,
    {
        &self.node_metadata
    }

    /// The in-memory subscription queue capacity.
    pub fn subscription_queue_capacity(&self) -> (n: usize)
        ensures
            n == self@.subscription_queue_capacity,
    {
        self.subscription_queue_capacity
    }
}

/// Validation refuses exactly a zero subscription queue capacity: every
/// positive capacity is accepted, whatever the rest of the configuration.
pub proof fn law_validation_refuses_only_zero(c: ServerConfigView)
    ensures
        config_problem(c) is None <==> c.subscription_queue_capacity != 0,
{
}

/// A capacity override that parses to a positive value becomes the loaded
/// capacity as it is, and a node identifier override that parses becomes the
/// loaded node identifier; without overrides the defaults stand.
pub proof fn law_overrides_taken_as_given(
    node_id: Option<Seq<char>>,
    capacity: Option<Seq<char>>,
)
    ensures
        ({
            let id_ok = match node_id {
                Some(t) => parse_unsigned(t, u128::MAX as nat) is Some,
                None => true,
            };
            match capacity {
                Some(t) => match parse_unsigned(t, usize::MAX as nat) {
                    Some(v) => id_ok && v > 0 ==> (overridden_config(node_id, capacity) is Ok
                        && overridden_config(node_id, capacity)->Ok_0.subscription_queue_capacity
                        == v),
                    None => true,
                },
                None => id_ok ==> (overridden_config(node_id, capacity) is Ok && overridden_config(
                    node_id,
                    capacity,
                )->Ok_0.subscription_queue_capacity == DEFAULT_SUBSCRIPTION_QUEUE_CAPACITY),
            }
        }),
        match node_id {
            Some(t) => match parse_unsigned(t, u128::MAX as nat) {
                Some(v) => overridden_config(node_id, capacity) is Ok ==> overridden_config(
                    node_id,
                    capacity,
                )->Ok_0.node_id == Some(v as u128),
                None => true,
            },
            None => overridden_config(node_id, capacity) is Ok ==> overridden_config(
                node_id,
                capacity,
            )->Ok_0.node_id is None,
        },
{
}

} // verus!
