//! OrbitRelay's verified core: an append-only event store with cursor
//! pagination, the action runtime's handler registry and step order, and the
//! server's configuration, lifecycle and node registration sequence.

pub mod bootstrap;
pub mod config;
pub mod context;
pub mod foundation;
pub mod lifecycle;
pub mod memory;
pub mod node;
pub mod protocol;
pub mod query;
pub mod record;
pub mod registry;
pub mod runtime;
pub mod runtime_error;
pub mod server_error;
pub mod storage_error;
pub mod storage_laws;
pub mod text;

pub use bootstrap::{Bootstrap, NodeOperation, NodeTransition, NodeTransitionKind};
pub use config::{ServerConfig, DEFAULT_SUBSCRIPTION_QUEUE_CAPACITY};
pub use context::ServerContext;
pub use foundation::{EntityId, Metadata, Payload, Timestamp};
pub use lifecycle::{HealthState, HealthStatus, LifecycleError, LifecycleState, ServerLifecycle};
pub use memory::MemoryEventStore;
pub use node::{Capability, Node, NodeId, NodeState};
pub use protocol::{
    Action, ActionId, ActionType, ActorId, Event, EventDraft, EventId, EventType, SessionId,
};
pub use query::{EventQuery, DEFAULT_QUERY_LIMIT, MAX_QUERY_LIMIT};
pub use record::{EventCursor, EventPage, StoredEvent};
pub use registry::HandlerRegistry;
pub use runtime::{materialize_events, ActionExecution, ExecutionStep, Runtime};
pub use runtime_error::{
    AuthorizationError, HandlerError, PipelineError, RegistryError, RuntimeError,
};
pub use server_error::ServerError;
pub use storage_error::StorageError;
