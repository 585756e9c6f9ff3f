use vstd::prelude::*;

verus! {

/// Errors that an action or a scan can end with.
#[derive(Clone, Copy, Debug, PartialEq, Eq, Structural)]
pub enum Error {
    /// Another action is still in flight.
    Busy,
    /// A response did not fit the buffer reserved for it.
    BufferTooSmall,
    /// The stream of responses has no room for one more chunk.
    StreamTooSmall,
    /// A response arrived while no action was waiting for one.
    InvalidState,
    /// The chip answered with data that could not be interpreted.
    InvalidData,
}

} // verus!
