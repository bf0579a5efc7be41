//! The error type shared by the queue, the worker pool and the kernel registry.

use vstd::prelude::*;
use vstd::string::*;

verus! {

/// Everything that can go wrong in this crate.
///
/// `QueueCreation` and `PoolCreation` are the two construction errors: the
/// first is returned for a queue capacity that is out of range, the second for
/// a worker count that is out of range.
#[derive(Debug, PartialEq, Eq)]
pub enum VortexError {
    /// The queue was full when `push` was called.
    Enqueue,
    /// A queue could not be built with the capacity that was asked for.
    QueueCreation(String),
    /// A worker pool could not be built with the worker count that was asked for.
    PoolCreation(String),
    /// A dispatched job failed while it ran.
    JobExecution(String),
    /// A job was submitted after the pool had begun to shut down.
    PoolShutdown,
    /// The lock-free queue backend is not available.
    MesocarpNotEnabled,
    /// The lock-free queue backend reported an error.
    MesocarpWrapper(String),
    /// No kernel of that name is registered.
    KernelNotFound(String),
    /// Any other failure.
    Unknown,
}

impl VortexError {
    /// True for the errors that a constructor returns.
    pub open spec fn is_construction(self) -> bool {
        self is QueueCreation || self is PoolCreation
    }

    /// The text that `message` returns.
    pub open spec fn message_text(self) -> Seq<char> {
        match self {
            VortexError::Enqueue => "Failed to enqueue item into work queue"@,
            VortexError::QueueCreation(why) => "Failed to create a new queue: "@ + why@,
            VortexError::PoolCreation(why) => "Failed to create a new worker pool: "@ + why@,
            VortexError::JobExecution(why) => "A dispatched job failed: "@ + why@,
            VortexError::PoolShutdown => "The worker pool is shutting down"@,
            VortexError::MesocarpNotEnabled => "Mesocarp feature is not enabled"@,
            VortexError::MesocarpWrapper(why) => "An error occurred in the Mesocarp wrapper: "@
                + why@,
            VortexError::KernelNotFound(name) => "Kernel with name '"@ + name@
                + "' not found in registry"@,
            VortexError::Unknown => "An unknown error has occurred"@,
        }
    }

    /// Tells whether this error came from a constructor.
    pub fn is_construction_error(&self) -> (r: bool)
        ensures
            r == self.is_construction(),
    {
        match self {
            VortexError::QueueCreation(_) => true,
            VortexError::PoolCreation(_) => true,
            _ => false,
        }
    }

    /// A human-readable description of the error.
    pub fn message(&self) -> (r: String)
        ensures
            r@ == self.message_text(),
    {
        match self {
            VortexError::Enqueue => String::from_str("Failed to enqueue item into work queue"),
            VortexError::QueueCreation(why) => String::from_str(
                "Failed to create a new queue: ",
            ).concat(why.as_str()),
            VortexError::PoolCreation(why) => String::from_str(
                "Failed to create a new worker pool: ",
            ).concat(why.as_str()),
            VortexError::JobExecution(why) => String::from_str("A dispatched job failed: ").concat(
                why.as_str(),
            ),
            VortexError::PoolShutdown => String::from_str("The worker pool is shutting down"),
            VortexError::MesocarpNotEnabled => String::from_str("Mesocarp feature is not enabled"),
            VortexError::MesocarpWrapper(why) => String::from_str(
                "An error occurred in the Mesocarp wrapper: ",
            ).concat(why.as_str()),
            VortexError::KernelNotFound(name) => String::from_str("Kernel with name '").concat(
                name.as_str(),
            ).concat("' not found in registry"),
            VortexError::Unknown => String::from_str("An unknown error has occurred"),
        }
    }
}

} // verus!
