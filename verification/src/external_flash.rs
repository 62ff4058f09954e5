//! The interface of an external flash chip, implemented by its driver.
use vstd::prelude::*;

verus! {

/// An external flash chip: it is erased in blocks and written in pages of
/// fixed sizes, and can be mapped into the address space for execution.
pub trait ExternalFlash {
    /// Size in bytes of an erase block.
    fn erase_size(&self) -> usize;

    /// Size in bytes of a write page.
    fn write_size(&self) -> usize;

    /// Erases the block that starts at `addr`.
    fn erase(&mut self, addr: u32);

    /// Writes `buf` at `addr`.
    fn write(&mut self, addr: u32, buf: &[u8]);

    /// Maps the chip into the address space.
    fn enabled_memory_mapped_mode(&mut self);
}

} // verus!
