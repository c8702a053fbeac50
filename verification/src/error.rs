//! What the crate refuses.
use vstd::prelude::*;

verus! {

/// Why the crate refuses a request.
#[derive(Clone, Copy, Debug, PartialEq, Eq, Structural)]
pub enum Error {
    /// The CPU lacks AES-NI, which every backend needs.
    UnsupportedHardware,
    /// The key does not have the length that the cipher takes.
    InvalidKeyLength,
    /// A batch does not hold the number of blocks that its backend takes at
    /// once.
    BatchLength,
}

} // verus!
