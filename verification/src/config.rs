//! The switches that select between historically divergent readings of a
//! few instructions.  A configuration is fixed when a processor is built.

use vstd::prelude::*;

verus! {

/// One boolean per divergent instruction; `true` selects the behaviour the
/// field is named after.
#[derive(Debug, Clone, Copy)]
pub struct CpuConfig {
    modern_shift: bool,
    modern_jump_offset: bool,
    modern_store_and_load: bool,
    modern_index_addition: bool,
}

impl CpuConfig {
    /// Whether a shift works on the destination register in place.
    pub closed spec fn shift_in_place(&self) -> bool {
        self.modern_shift
    }

    /// Whether a jump with offset takes its offset from the register that
    /// the address operand names, rather than from register 0.
    pub closed spec fn offset_by_operand(&self) -> bool {
        self.modern_jump_offset
    }

    /// Whether a block store or load leaves the index register alone.
    pub closed spec fn index_kept(&self) -> bool {
        self.modern_store_and_load
    }

    /// Whether an index addition that leaves the heap raises the flag.
    pub closed spec fn index_overflow_flagged(&self) -> bool {
        self.modern_index_addition
    }

    /// A configuration with the given switches.
    pub fn new(
        modern_shift: bool,
        modern_jump_offset: bool,
        modern_store_and_load: bool,
        modern_index_addition: bool,
    ) -> (config: CpuConfig)
        ensures
            config.shift_in_place() == modern_shift,
            config.offset_by_operand() == modern_jump_offset,
            config.index_kept() == modern_store_and_load,
            config.index_overflow_flagged() == modern_index_addition,
    {
        CpuConfig {
            modern_shift,
            modern_jump_offset,
            modern_store_and_load,
            modern_index_addition,
        }
    }

    /// The most common contemporary reading of each instruction: shifts in
    /// place, offsets from register 0, block transfers that keep the index
    /// register, and a flag on index overflow.
    pub fn default() -> (config: CpuConfig)
        ensures
            config.shift_in_place(),
            !config.offset_by_operand(),
            config.index_kept(),
            config.index_overflow_flagged(),
    {
        CpuConfig {
            modern_shift: true,
            modern_jump_offset: false,
            modern_store_and_load: true,
            modern_index_addition: true,
        }
    }

    /// Whether a shift works on the destination register in place.
    pub fn modern_shift(&self) -> (on: bool)
        ensures
            on == self.shift_in_place(),
    {
        self.modern_shift
    }

    /// Whether a jump with offset takes its offset from the register that
    /// the address operand names.
    pub fn modern_jump_offset(&self) -> (on: bool)
        ensures
            on == self.offset_by_operand(),
    {
        self.modern_jump_offset
    }

    /// Whether a block store or load leaves the index register alone.
    pub fn modern_store_and_load(&self) -> (on: bool)
        ensures
            on == self.index_kept(),
    {
        self.modern_store_and_load
    }

    /// Whether an index addition that leaves the heap raises the flag.
    pub fn modern_index_addition(&self) -> (on: bool)
        ensures
            on == self.index_overflow_flagged(),
    {
        self.modern_index_addition
    }
}

} // verus!
