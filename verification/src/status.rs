use vstd::prelude::*;

verus! {

/// Status code returned by every boundary operation.
///
/// `Success` means the operation completed and every output of the call is
/// valid per that operation's contract. `InvalidArgument` means a caller
/// precondition was violated before the engine was invoked: an absent
/// required handle or string, a non-positive count or size, ill-formed
/// UTF-8 in a caller string, or a destination buffer too small for the
/// required content. `InvalidOperation` means the underlying engine
/// reported a failure while processing otherwise well-formed input.
/// `NotImplemented` marks an operation that is declared in the interface
/// but intentionally unfinished.
#[derive(Clone, Copy, Debug, PartialEq, Eq, Structural)]
pub enum HFTStatus {
    Success,
    InvalidArgument,
    InvalidOperation,
    NotImplemented,
}

/// Policy for equalizing the lengths of the encodings of one batch:
/// pad every item to the longest item of the batch, or to a fixed
/// configured size.
#[derive(Clone, Copy, Debug, PartialEq, Eq, Structural)]
pub enum HFTPaddingStrategy {
    BatchLongest,
    Fixed,
}

/// Side of the id sequence on which padding tokens are inserted.
#[derive(Clone, Copy, Debug, PartialEq, Eq, Structural)]
pub enum HFTPaddingDirection {
    Left,
    Right,
}

} // verus!
