//! Platform abstraction for entropy generation.

use vstd::prelude::*;

verus! {

/// Entropy source.
pub trait OTEntropy {
    type Error;

    /// Draws `len` bytes of entropy.
    fn get_entropy(&mut self, len: usize) -> Result<Vec<u8>, Self::Error>;
}

} // verus!
