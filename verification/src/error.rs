use vstd::prelude::*;

verus! {

/// What can go wrong while talking to the sensor hub. `E` is the error type of
/// the packet link.
#[derive(Debug)]
pub enum WrapperError<E> {
    /// Communications error
    CommError(E),
    /// Invalid chip ID was read
    InvalidChipId(u8),
    /// Unsupported sensor firmware version
    InvalidFWVersion(u8),
    /// We expected some data but didn't receive any
    NoDataAvailable,
}

} // verus!
