use vstd::prelude::*;

verus! {

/// Everything that can go wrong while building, encoding or dispatching a figure.
#[derive(Debug, Clone, Copy, PartialEq, Eq, Structural)]
pub enum PlotError {
    /// Parallel data buffers of one series have different lengths.
    ShapeMismatch,
    /// A subplot slot index lies outside the grid.
    IndexOutOfRange,
    /// The external rendering process could not be started.
    SpawnFailure,
    /// The external rendering process no longer accepts input.
    BrokenPipe,
    /// A file or stream operation of a backend failed.
    IoFailure,
    /// An array or string is longer than the wire format can frame.
    EncodingFailure,
}

} // verus!
