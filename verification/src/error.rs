use vstd::prelude::*;

verus! {

/// An operating system error number, as the camera transport reports it.
#[derive(Clone, Copy, Debug, PartialEq, Eq, Structural)]
pub struct Errno(pub i32);

/// The error number that a command fails with when the camera reports a
/// control length that does not fit the buffer of the exchange.
pub const LENGTH_MISMATCH: i32 = 1;

} // verus!
