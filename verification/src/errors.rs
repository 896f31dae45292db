//! Failures surfaced by the pipeline and its collaborators.

use vstd::prelude::*;

verus! {

/// A failure of the pipeline or of one of its collaborators.
///
/// Environmental failures (I/O, malformed input) are reported and worked
/// around; a dependency cycle among work units is a registration error
/// that aborts the run before the offending phase executes.
#[derive(Clone, Debug)]
pub enum ProcessorError {
    /// An I/O failure, described by the reporting collaborator.
    Io { message: String },
    /// Receiving from the deferred command channel failed.
    DeferredRecv,
    /// Sending on the deferred command channel failed.
    DeferredSend,
    /// Input could not be deserialized.
    Deserialize { message: String },
    /// The run-after declarations of a parallel phase admit no execution
    /// order.
    DependencyCycle,
}

/// The result type used throughout the pipeline.
pub type ProcessorResult<T> = Result<T, ProcessorError>;

} // verus!
