//! The guest's memory: a heap of 4096 bytes and a stack of return addresses.

use vstd::prelude::*;
use crate::logic::interpreter::{FONT_SIZE, FONT_TABLE_SIZE};

verus! {

/// The number of bytes in the heap.
pub const FOUR_KIBI: usize = 4096;

/// Where a program image is loaded, and where execution starts.
pub const PROGRAM_ADDRESS: usize = 0x200;

/// Where the glyphs of the built-in font are loaded.
pub const FONTS_ADDRESS: usize = 0x050;

/// What a memory holds, as mathematics: the heap byte by byte, and the
/// stack with its oldest entry first.
pub struct MemoryView {
    pub heap: Seq<u8>,
    pub stack: Seq<u16>,
}

impl MemoryView {
    /// A heap has exactly 4096 bytes.
    pub open spec fn wf(self) -> bool {
        self.heap.len() == FOUR_KIBI
    }

}

/// The heap after `bytes` were written from `address` on.
pub open spec fn loaded(heap: Seq<u8>, bytes: Seq<u8>, address: int) -> Seq<u8> {
    Seq::new(
        heap.len(),
        |a: int|
            if address <= a < address + bytes.len() {
                bytes[a - address]
            } else {
                heap[a]
            },
    )
}

/// The heap address of glyph number `digit` of the font: the glyphs lie one
/// after the other from the font origin on.
pub open spec fn glyph_address(digit: int) -> int {
    FONTS_ADDRESS + FONT_SIZE * digit
}

/// The heap and the stack.
#[derive(Debug)]
pub struct Memory {
    heap: [u8; FOUR_KIBI],
    stack: Vec<u16>,
}

impl View for Memory {
    type V = MemoryView;

    closed spec fn view(&self) -> MemoryView {
        MemoryView { heap: self.heap@, stack: self.stack@ }
    }
}

impl Memory {
    /// Every memory has a heap of 4096 bytes.
    pub proof fn lemma_view_wf(&self)
        ensures
            self@.wf(),
    {
    }

    /// A memory whose heap is all zero and whose stack is empty.
    pub fn new() -> (memory: Memory)
        ensures
            memory@.wf(),
            forall|a: int| 0 <= a < FOUR_KIBI ==> memory@.heap[a] == 0,
            memory@.stack.len() == 0,
    {
        Memory { heap: [0; FOUR_KIBI], stack: Vec::new() }
    }

    /// Writes a program image at the program origin.
    pub fn load_program(&mut self, program: &[u8])
        requires
            PROGRAM_ADDRESS + program@.len() <= FOUR_KIBI,
        ensures
            final(self)@.heap == loaded(old(self)@.heap, program@, PROGRAM_ADDRESS as int),
            final(self)@.stack == old(self)@.stack,
    {
        self.load(program, PROGRAM_ADDRESS);
    }

    /// Writes the font table at the font origin.
    pub fn load_fonts(&mut self, fonts: [u8; FONT_TABLE_SIZE])
        ensures
            final(self)@.heap == loaded(old(self)@.heap, fonts@, FONTS_ADDRESS as int),
            final(self)@.stack == old(self)@.stack,
    {
        self.load(&fonts, FONTS_ADDRESS);
    }

    /// The heap address of the glyph for the hexadecimal digit `font_val`.
    pub fn get_font(&self, font_val: u8) -> (address: u16)
        ensures
            address == glyph_address(font_val as int),
    {
        assert(FONT_SIZE * font_val <= 1275) by (nonlinear_arith)
            requires
                FONT_SIZE == 5,
                font_val <= 255,
        ;
        FONTS_ADDRESS as u16 + FONT_SIZE as u16 * font_val as u16
    }

    /// Writes `buffer` into the heap from `address` on.
    pub fn load(&mut self, buffer: &[u8], address: usize)
        requires
            address + buffer@.len() <= FOUR_KIBI,
        ensures
            final(self)@.heap == loaded(old(self)@.heap, buffer@, address as int),
            final(self)@.stack == old(self)@.stack,
    {
        let length: usize = buffer.len();
        let mut i: usize = 0;
        while i < length
            invariant
                length == buffer@.len(),
                address + length <= FOUR_KIBI,
                i <= length,
                self.stack == old(self).stack,
                forall|a: int|
                    0 <= a < FOUR_KIBI ==> self.heap@[a] == if address <= a < address + i {
                        buffer@[a - address]
                    } else {
                        old(self).heap@[a]
                    },
            decreases length - i,
        {
            let byte: u8 = buffer[i];
            self.heap[address + i] = byte;
            i += 1;
        }
        assert(self@.heap =~= loaded(old(self)@.heap, buffer@, address as int));
    }

    /// The byte at `address`.
    pub fn at_address(&self, address: u16) -> (byte: u8)
        requires
            address < FOUR_KIBI,
        ensures
            byte == self@.heap[address as int],
    {
        self.heap[address as usize]
    }

    /// Writes `value` at `address`.
    pub fn set_heap(&mut self, address: u16, value: u8)
        requires
            address < FOUR_KIBI,
        ensures
            final(self)@.heap == old(self)@.heap.update(address as int, value),
            final(self)@.stack == old(self)@.stack,
    {
        self.heap[address as usize] = value;
    }

    /// The number of bytes in the heap.
    pub fn get_heap_size(&self) -> (size: usize)
        ensures
            size == FOUR_KIBI,
            size == self@.heap.len(),
    {
        self.heap.len()
    }

    /// The `length` bytes from `from` on.
    pub fn get_heap_slice(&self, from: u16, length: u16) -> (bytes: &[u8])
        requires
            from + length <= FOUR_KIBI,
        ensures
            bytes@ == self@.heap.subrange(from as int, from + length),
    {
        let whole: &[u8] = self.heap.as_slice();
        vstd::slice::slice_subrange(whole, from as usize, from as usize + length as usize)
    }

    /// The number of return addresses on the stack.
    pub fn stack_depth(&self) -> (depth: usize)
        ensures
            depth == self@.stack.len(),
    {
        self.stack.len()
    }

    /// Puts a return address on the stack.
    pub fn push_stack(&mut self, arg: u16)
        ensures
            final(self)@.stack == old(self)@.stack.push(arg),
            final(self)@.heap == old(self)@.heap,
    {
        self.stack.push(arg);
    }

    /// Takes the newest entry off the stack; `None` exactly when the stack
    /// is empty, and then nothing changes.
    pub fn pop_stack(&mut self) -> (top: Option<u16>)
        ensures
            old(self)@.stack.len() == 0 ==> top is None && final(self)@ == old(self)@,
            old(self)@.stack.len() > 0 ==> top == Some(old(self)@.stack.last())
                && final(self)@.stack == old(self)@.stack.drop_last(),
            final(self)@.heap == old(self)@.heap,
    {
        self.stack.pop()
    }
}

} // verus!
