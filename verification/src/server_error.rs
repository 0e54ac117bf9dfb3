//! Errors of the server composition root.

use vstd::prelude::*;

use crate::lifecycle::LifecycleError;

verus! {

/// An error raised while configuring, starting or stopping a server process.
#[derive(Debug, PartialEq, Eq)]
pub enum ServerError {
    /// The configuration is invalid.
    Config { message: String },
    /// A dependency could not be constructed.
    Bootstrap { message: String },
    /// The node registry refused a state change of the local node.
    NodeLifecycle { message: String },
    /// The process lifecycle refused a transition.
    Lifecycle { source: LifecycleError },
    /// The process could not wait for or perform its shutdown.
    Shutdown { message: String },
}

impl ServerError {
    /// A configuration error with the given message.
    pub fn config(message: &str) -> (e: Self)
        ensures
            e matches ServerError::Config { message: m } && m@ == message@,
    {
        ServerError::Config { message: message.to_owned() }
    }

    /// A dependency construction error with the given message.
    pub fn bootstrap(message: &str) -> (e: Self)
        ensures
            e matches ServerError::Bootstrap { message: m } && m@ == message@,
    {
        ServerError::Bootstrap { message: message.to_owned() }
    }

    /// A node registry error with the given message.
    pub fn node_lifecycle(message: &str) -> (e: Self)
        ensures
            e matches ServerError::NodeLifecycle { message: m } && m@ == message@,
    {
        ServerError::NodeLifecycle { message: message.to_owned() }
    }

    /// The error for a refused lifecycle transition.
    pub fn lifecycle(source: LifecycleError) -> (e: Self)
        ensures
            e == (ServerError::Lifecycle { source }),
    {
        ServerError::Lifecycle { source }
    }
}

} // verus!
