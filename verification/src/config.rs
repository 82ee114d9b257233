//! Configuration consumed by the interpreter core: memory size, the base
//! address of the reserved font glyph table, and a diagnostic flag.

use vstd::prelude::*;

verus! {

/// Number of bytes in the font glyph table (16 glyphs of 5 bytes each).
pub const FONT_BYTES: usize = 80;

/// Upper bound on the configurable memory size: the index register is
/// 16 bits wide, so no address beyond this is reachable.
pub const MAX_RAM: usize = 0x10000;

#[derive(Copy, Clone, PartialEq, Eq, Structural, Debug)]
pub struct Config {
    /// Memory size in bytes.
    pub ram_size: usize,
    /// Base address of the reserved font glyph table.
    pub font_addr: usize,
    /// Whether each decoded instruction and register dump is emitted before
    /// execution (a diagnostic side channel, not behavior-affecting).
    pub print_instructions: bool,
    /// Quirk: whether `Stash`/`Fetch` leave the index register advanced by
    /// one past the last register copied, as the original COSMAC VIP did.
    pub advance_index_on_copy: bool,
}

impl Config {
    /// A configuration is usable when the font table fits in memory and the
    /// memory is addressable by the 16-bit index register.
    pub open spec fn wf(self) -> bool {
        &&& self.font_addr + FONT_BYTES <= self.ram_size
        &&& self.ram_size <= MAX_RAM
    }

    /// The default configuration: 8KB of memory with the font at address 0.
    pub fn new() -> (c: Config)
        ensures
            c.ram_size == 0x2000,
            c.font_addr == 0,
            !c.print_instructions,
            !c.advance_index_on_copy,
            c.wf(),
    {
        Config {
            ram_size: 0x2000,
            font_addr: 0x0000,
            print_instructions: false,
            advance_index_on_copy: false,
        }
    }
}

} // verus!
