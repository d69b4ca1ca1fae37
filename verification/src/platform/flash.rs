//! Flash driver abstraction.

use vstd::prelude::*;

verus! {

/// Flash storage with two swap spaces.
pub trait OTFlash {
    type Error;

    /// Initializes the flash driver.
    fn init(&mut self) -> Result<(), Self::Error>;

    /// Gets the size of the swap space (in bytes).
    fn get_swap_size(&mut self) -> Result<u32, Self::Error>;

    /// Erases the swap space indicated by `swap_index`.
    fn flash_erase(&mut self, swap_index: u8) -> Result<(), Self::Error>;

    /// Reads `len` bytes at `offset` from the swap space.
    fn flash_read(&mut self, swap_index: u8, offset: u32, len: usize) -> Result<
        Vec<u8>,
        Self::Error,
    >;

    /// Writes the buffer at `offset` into the swap space.
    fn flash_write(&mut self, swap_index: u8, offset: u32, buffer: &[u8]) -> Result<
        (),
        Self::Error,
    >;
}

} // verus!
