use vstd::prelude::*;

verus! {

/// Why no parameters could be loaded for a configuration.
#[derive(Clone, Copy, Debug, PartialEq, Eq, Structural)]
pub enum LoadFailure {
    /// No checkpoint could be read from the artifact directory.
    Missing,
    /// The checkpoint was written for another width of the hidden layer.
    HiddenSize { expected: usize, found: usize },
    /// The checkpoint was written for another number of classes.
    NumClasses { expected: usize, found: usize },
}

/// Every way in which a batching, training or inference call can end without
/// a result. Each of them is terminal for the call that reports it.
#[derive(Clone, Copy, Debug, PartialEq, Eq, Structural)]
pub enum PipelineError {
    /// A required configuration value is missing or malformed, or a batch was
    /// requested for no records at all.
    Usage,
    /// An image or a tensor does not have the dimensions that its stage
    /// demands.
    Shape,
    /// A label does not name a class. `position` is the index of the first
    /// such label in its batch.
    InvalidLabel { position: usize, label: i64 },
    /// No parameters could be loaded: the checkpoint is missing or
    /// unreadable, or was written for another configuration.
    Load(LoadFailure),
    /// A loss was not a finite number, and the run was configured to stop on
    /// that.
    Divergence,
    /// The record holds `found` intensities, and the checkpoint expects
    /// images of `expected`.
    ConfigMismatch { expected: usize, found: usize },
}

} // verus!
