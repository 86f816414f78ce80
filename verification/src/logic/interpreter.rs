//! Instruction words: how one is read from the heap, and what it decodes to.

use vstd::prelude::*;
use crate::guestsystem::components::cpu::CpuInst;
use crate::guestsystem::components::memory::{Memory, FOUR_KIBI};

verus! {

/// The number of bytes in one glyph of the built-in font: one per row.
pub const FONT_SIZE: usize = 5;

/// The number of glyphs in the built-in font: one per hexadecimal digit.
pub const ALL_FONT_COUNT: usize = 16;

/// The number of bytes in the built-in font.
pub const FONT_TABLE_SIZE: usize = FONT_SIZE * ALL_FONT_COUNT;

/// The built-in font: for each hexadecimal digit a glyph of five rows, four
/// pixels wide, in the high nibble of each byte.
pub const FONT_TABLE: [u8; FONT_TABLE_SIZE] = [
    0xF0, 0x90, 0x90, 0x90, 0xF0,  // 0
    0x20, 0x60, 0x20, 0x20, 0x70,  // 1
    0xF0, 0x10, 0xF0, 0x80, 0xF0,  // 2
    0xF0, 0x10, 0xF0, 0x10, 0xF0,  // 3
    0x90, 0x90, 0xF0, 0x10, 0x10,  // 4
    0xF0, 0x80, 0xF0, 0x10, 0xF0,  // 5
    0xF0, 0x80, 0xF0, 0x90, 0xF0,  // 6
    0xF0, 0x10, 0x20, 0x40, 0x40,  // 7
    0xF0, 0x90, 0xF0, 0x90, 0xF0,  // 8
    0xF0, 0x90, 0xF0, 0x10, 0xF0,  // 9
    0xF0, 0x90, 0xF0, 0x90, 0x90,  // A
    0xE0, 0x90, 0xE0, 0x90, 0xE0,  // B
    0xF0, 0x80, 0x80, 0x80, 0xF0,  // C
    0xE0, 0x90, 0x90, 0x90, 0xE0,  // D
    0xF0, 0x80, 0xF0, 0x80, 0xF0,  // E
    0xF0, 0x80, 0xF0, 0x80, 0x80,  // F
];

/// The opcode family of an instruction word: its top four bits.
pub open spec fn family(raw: u16) -> int {
    raw as int / 0x1000
}

/// The first register operand: bits 8 to 11.
pub open spec fn field_x(raw: u16) -> u8 {
    ((raw as int / 0x100) % 0x10) as u8
}

/// The second register operand: bits 4 to 7.
pub open spec fn field_y(raw: u16) -> u8 {
    ((raw as int / 0x10) % 0x10) as u8
}

/// The nibble operand: the low four bits.
pub open spec fn field_n(raw: u16) -> u8 {
    (raw as int % 0x10) as u8
}

/// The byte operand: the low eight bits.
pub open spec fn field_nn(raw: u16) -> u8 {
    (raw as int % 0x100) as u8
}

/// The address operand: the low twelve bits.
pub open spec fn field_nnn(raw: u16) -> u16 {
    (raw as int % 0x1000) as u16
}

/// Family 0: return, clear the screen, or the legacy machine call.
pub open spec fn decoded_0(raw: u16) -> CpuInst {
    if field_nn(raw) == 0xEE {
        CpuInst::SubRoutineReturn
    } else if field_y(raw) == 0xE {
        CpuInst::Cls
    } else {
        CpuInst::ExecMlrNNN(field_nnn(raw))
    }
}

/// Family 8: register-to-register arithmetic, selected by the low nibble.
pub open spec fn decoded_8(raw: u16) -> CpuInst {
    let x = field_x(raw);
    let y = field_y(raw);
    let n = field_n(raw);
    if n == 0x0 {
        CpuInst::SetXY(x, y)
    } else if n == 0x1 {
        CpuInst::BitOrXY(x, y)
    } else if n == 0x2 {
        CpuInst::BitAndXY(x, y)
    } else if n == 0x3 {
        CpuInst::BitXorXY(x, y)
    } else if n == 0x4 {
        CpuInst::AddXY(x, y)
    } else if n == 0x5 {
        CpuInst::SubtFromLeftXY(x, y)
    } else if n == 0x6 {
        CpuInst::ShiftRightXY(x, y)
    } else if n == 0x7 {
        CpuInst::SubtFromRightXY(x, y)
    } else if n == 0xE {
        CpuInst::ShiftLeftXY(x, y)
    } else {
        CpuInst::InvalidInstruction
    }
}

/// Family E: the two key tests, selected by the low byte.
pub open spec fn decoded_e(raw: u16) -> CpuInst {
    let x = field_x(raw);
    let nn = field_nn(raw);
    if nn == 0x9E {
        CpuInst::SkipIfKeyX(x)
    } else if nn == 0xA1 {
        CpuInst::SkipIfNotKeyX(x)
    } else {
        CpuInst::InvalidInstruction
    }
}

/// Family F: timers, the index register and memory, selected by the low byte.
pub open spec fn decoded_f(raw: u16) -> CpuInst {
    let x = field_x(raw);
    let nn = field_nn(raw);
    if nn == 0x07 {
        CpuInst::SetRegToDelayX(x)
    } else if nn == 0x15 {
        CpuInst::SetDelayX(x)
    } else if nn == 0x18 {
        CpuInst::SetSoundX(x)
    } else if nn == 0x1E {
        CpuInst::AddToIndexX(x)
    } else if nn == 0x0A {
        CpuInst::WaitForKeyX(x)
    } else if nn == 0x29 {
        CpuInst::SetIndexToFontX(x)
    } else if nn == 0x33 {
        CpuInst::DecimalConversionX(x)
    } else if nn == 0x55 {
        CpuInst::StoreInMemoryX(x)
    } else if nn == 0x65 {
        CpuInst::LoadFromMemoryX(x)
    } else {
        CpuInst::InvalidInstruction
    }
}

/// The instruction that the word `raw` stands for.  Every word stands for
/// exactly one; a word that matches no operation stands for
/// `InvalidInstruction`.
pub open spec fn decoded(raw: u16) -> CpuInst {
    let x = field_x(raw);
    let y = field_y(raw);
    let n = field_n(raw);
    let nn = field_nn(raw);
    let nnn = field_nnn(raw);
    let family = family(raw);
    if family == 0x0 {
        decoded_0(raw)
    } else if family == 0x1 {
        CpuInst::JmpNNN(nnn)
    } else if family == 0x2 {
        CpuInst::SubRoutineNNN(nnn)
    } else if family == 0x3 {
        CpuInst::SkipIfEqXNN(x, nn)
    } else if family == 0x4 {
        CpuInst::SkipIfNotEqXNN(x, nn)
    } else if family == 0x5 {
        if n == 0 {
            CpuInst::SkipIfEqXY(x, y)
        } else {
            CpuInst::InvalidInstruction
        }
    } else if family == 0x6 {
        CpuInst::SetXNN(x, nn)
    } else if family == 0x7 {
        CpuInst::AddXNN(x, nn)
    } else if family == 0x8 {
        decoded_8(raw)
    } else if family == 0x9 {
        if n == 0 {
            CpuInst::SkipIfNotEqXY(x, y)
        } else {
            CpuInst::InvalidInstruction
        }
    } else if family == 0xA {
        CpuInst::SetIndexNNN(nnn)
    } else if family == 0xB {
        CpuInst::JmpOffsetNNN(nnn)
    } else if family == 0xC {
        CpuInst::RandomXNN(x, nn)
    } else if family == 0xD {
        CpuInst::DisplayXYN(x, y, n)
    } else if family == 0xE {
        decoded_e(raw)
    } else {
        decoded_f(raw)
    }
}

/// Every word decodes to an instruction whose operands fit their fields,
/// and the family of the word tells the kind of the instruction apart from
/// the sub-operations.
pub proof fn lemma_every_word_decodes(raw: u16)
    ensures
        decoded(raw).wf(),
        0 <= family(raw) <= 0xF,
        family(raw) == 0x1 <==> decoded(raw) is JmpNNN,
        family(raw) == 0x2 <==> decoded(raw) is SubRoutineNNN,
        family(raw) == 0x3 <==> decoded(raw) is SkipIfEqXNN,
        family(raw) == 0x4 <==> decoded(raw) is SkipIfNotEqXNN,
        family(raw) == 0x6 <==> decoded(raw) is SetXNN,
        family(raw) == 0x7 <==> decoded(raw) is AddXNN,
        family(raw) == 0xA <==> decoded(raw) is SetIndexNNN,
        family(raw) == 0xB <==> decoded(raw) is JmpOffsetNNN,
        family(raw) == 0xC <==> decoded(raw) is RandomXNN,
        family(raw) == 0xD <==> decoded(raw) is DisplayXYN,
        decoded(raw) is InvalidInstruction ==> family(raw) == 0x5 || family(raw) == 0x8 || family(
            raw,
        ) == 0x9 || family(raw) >= 0xE,
{
}

/// The big-endian word whose bytes are `high` and `low`.
pub open spec fn word_of(high: u8, low: u8) -> u16 {
    (high as int * 0x100 + low as int) as u16
}

/// The instruction word at `address`; its second byte is the next byte of
/// the heap, and the byte after the last is the first.
pub open spec fn word_at(heap: Seq<u8>, address: int) -> u16 {
    word_of(heap[address], heap[(address + 1) % (FOUR_KIBI as int)])
}

/// How masks and shifts on an instruction word relate to its fields.
proof fn lemma_fields(raw: u16)
    by (bit_vector)
    ensures
        (raw & 0x0F00) >> 8 == (raw / 0x100) % 0x10,
        (raw & 0x00F0) >> 4 == (raw / 0x10) % 0x10,
        raw & 0x000F == raw % 0x10,
        raw & 0x00FF == raw % 0x100,
        raw & 0x0FFF == raw % 0x1000,
        raw & 0x00F0 == ((raw / 0x10) % 0x10) * 0x10,
        raw & 0xF000 == (raw / 0x1000) * 0x1000,
        raw & 0xF0FF == (raw / 0x1000) * 0x1000 + raw % 0x100,
{
}

/// How a shift and an or build a word from its two bytes.
proof fn lemma_word(high: u8, low: u8)
    by (bit_vector)
    ensures
        ((high as u16) << 8) | (low as u16) == (high as u16) * 0x100 + (low as u16),
{
}

/// The decoder.  It holds no state.
#[derive(Debug)]
pub struct Interpreter;

impl Interpreter {
    /// A decoder.
    pub fn new() -> Interpreter {
        Interpreter
    }

    /// The built-in font, glyph after glyph.
    pub fn generate_fonts(&self) -> (fonts: [u8; FONT_TABLE_SIZE])
        ensures
            fonts == FONT_TABLE,
    {
        FONT_TABLE
    }

    /// The instruction word at `address`, high byte first.
    pub fn fetch(&self, memory: &Memory, address: u16) -> (word: u16)
        requires
            address < FOUR_KIBI,
        ensures
            word == word_at(memory@.heap, address as int),
    {
        let byte_1: u8 = memory.at_address(address);
        let byte_2: u8 = memory.at_address((address + 1) % (FOUR_KIBI as u16));
        proof {
            lemma_word(byte_1, byte_2);
        }
        ((byte_1 as u16) << 8) | byte_2 as u16
    }

    /// The address one instruction before `current_address`.
    pub fn prev_pc(&self, current_address: u16) -> (address: u16)
        requires
            current_address >= 2,
        ensures
            address == current_address - 2,
    {
        current_address - 2
    }

    /// The address one instruction after `current_address`.
    pub fn next_pc(&self, current_address: u16) -> (address: u16)
        requires
            current_address + 2 <= u16::MAX,
        ensures
            address == current_address + 2,
    {
        current_address + 2
    }

    /// Decodes an instruction word.  Every word decodes, and the operands
    /// of the result fit their fields.
    pub fn decode(&self, raw: u16) -> (instruction: CpuInst)
        ensures
            instruction == decoded(raw),
            instruction.wf(),
    {
        proof {
            lemma_fields(raw);
        }
        match raw & 0xF000 {
            0x0000 => self.decode_0(raw),
            0x1000 => CpuInst::JmpNNN(self.make_nnn(raw)),
            0x2000 => CpuInst::SubRoutineNNN(self.make_nnn(raw)),
            0x3000 => CpuInst::SkipIfEqXNN(self.make_x(raw), self.make_nn(raw)),
            0x4000 => CpuInst::SkipIfNotEqXNN(self.make_x(raw), self.make_nn(raw)),
            0x5000 => {
                if raw & 0x000F == 0x0000 {
                    CpuInst::SkipIfEqXY(self.make_x(raw), self.make_y(raw))
                } else {
                    CpuInst::InvalidInstruction
                }
            },
            0x6000 => CpuInst::SetXNN(self.make_x(raw), self.make_nn(raw)),
            0x7000 => CpuInst::AddXNN(self.make_x(raw), self.make_nn(raw)),
            0x8000 => self.decode_8(raw),
            0x9000 => {
                if raw & 0x000F == 0x0000 {
                    CpuInst::SkipIfNotEqXY(self.make_x(raw), self.make_y(raw))
                } else {
                    CpuInst::InvalidInstruction
                }
            },
            0xA000 => CpuInst::SetIndexNNN(self.make_nnn(raw)),
            0xB000 => CpuInst::JmpOffsetNNN(self.make_nnn(raw)),
            0xC000 => CpuInst::RandomXNN(self.make_x(raw), self.make_nn(raw)),
            0xD000 => CpuInst::DisplayXYN(self.make_x(raw), self.make_y(raw), self.make_n(raw)),
            0xE000 => self.decode_e(raw),
            _ => self.decode_f(raw),
        }
    }

    /// Decodes a word of family 0.
    fn decode_0(&self, raw: u16) -> (instruction: CpuInst)
        ensures
            instruction == decoded_0(raw),
            instruction.wf(),
    {
        proof {
            lemma_fields(raw);
        }
        if raw & 0x00FF == 0x00EE {
            return CpuInst::SubRoutineReturn;
        }
        if raw & 0x00F0 == 0x00E0 {
            return CpuInst::Cls;
        }
        CpuInst::ExecMlrNNN(self.make_nnn(raw))
    }

    /// Decodes a word of family 8.
    fn decode_8(&self, raw: u16) -> (instruction: CpuInst)
        ensures
            instruction == decoded_8(raw),
            instruction.wf(),
    {
        proof {
            lemma_fields(raw);
        }
        match raw & 0x000F {
            0x0000 => CpuInst::SetXY(self.make_x(raw), self.make_y(raw)),
            0x0001 => CpuInst::BitOrXY(self.make_x(raw), self.make_y(raw)),
            0x0002 => CpuInst::BitAndXY(self.make_x(raw), self.make_y(raw)),
            0x0003 => CpuInst::BitXorXY(self.make_x(raw), self.make_y(raw)),
            0x0004 => CpuInst::AddXY(self.make_x(raw), self.make_y(raw)),
            0x0005 => CpuInst::SubtFromLeftXY(self.make_x(raw), self.make_y(raw)),
            0x0006 => CpuInst::ShiftRightXY(self.make_x(raw), self.make_y(raw)),
            0x0007 => CpuInst::SubtFromRightXY(self.make_x(raw), self.make_y(raw)),
            0x000E => CpuInst::ShiftLeftXY(self.make_x(raw), self.make_y(raw)),
            _ => CpuInst::InvalidInstruction,
        }
    }

    /// Decodes a word of family E.
    fn decode_e(&self, raw: u16) -> (instruction: CpuInst)
        requires
            family(raw) == 0xE,
        ensures
            instruction == decoded_e(raw),
            instruction.wf(),
    {
        proof {
            lemma_fields(raw);
        }
        match raw & 0xF0FF {
            0xE09E => CpuInst::SkipIfKeyX(self.make_x(raw)),
            0xE0A1 => CpuInst::SkipIfNotKeyX(self.make_x(raw)),
            _ => CpuInst::InvalidInstruction,
        }
    }

    /// Decodes a word of family F.
    fn decode_f(&self, raw: u16) -> (instruction: CpuInst)
        requires
            family(raw) == 0xF,
        ensures
            instruction == decoded_f(raw),
            instruction.wf(),
    {
        proof {
            lemma_fields(raw);
        }
        match raw & 0xF0FF {
            0xF007 => CpuInst::SetRegToDelayX(self.make_x(raw)),
            0xF015 => CpuInst::SetDelayX(self.make_x(raw)),
            0xF018 => CpuInst::SetSoundX(self.make_x(raw)),
            0xF01E => CpuInst::AddToIndexX(self.make_x(raw)),
            0xF00A => CpuInst::WaitForKeyX(self.make_x(raw)),
            0xF029 => CpuInst::SetIndexToFontX(self.make_x(raw)),
            0xF033 => CpuInst::DecimalConversionX(self.make_x(raw)),
            0xF055 => CpuInst::StoreInMemoryX(self.make_x(raw)),
            0xF065 => CpuInst::LoadFromMemoryX(self.make_x(raw)),
            _ => CpuInst::InvalidInstruction,
        }
    }

    /// The first register operand of `raw`.
    pub fn make_x(&self, raw: u16) -> (x: u8)
        ensures
            x == field_x(raw),
            x < 16,
    {
        proof {
            lemma_fields(raw);
        }
        ((raw & 0x0F00) >> 8) as u8
    }

    /// The second register operand of `raw`.
    fn make_y(&self, raw: u16) -> (y: u8)
        ensures
            y == field_y(raw),
            y < 16,
    {
        proof {
            lemma_fields(raw);
        }
        ((raw & 0x00F0) >> 4) as u8
    }

    /// The nibble operand of `raw`.
    fn make_n(&self, raw: u16) -> (n: u8)
        ensures
            n == field_n(raw),
            n < 16,
    {
        proof {
            lemma_fields(raw);
        }
        (raw & 0x000F) as u8
    }

    /// The byte operand of `raw`.
    fn make_nn(&self, raw: u16) -> (nn: u8)
        ensures
            nn == field_nn(raw),
    {
        proof {
            lemma_fields(raw);
        }
        (raw & 0x00FF) as u8
    }

    /// The address operand of `raw`.
    fn make_nnn(&self, raw: u16) -> (nnn: u16)
        ensures
            nnn == field_nnn(raw),
            nnn < 0x1000,
    {
        proof {
            lemma_fields(raw);
        }
        raw & 0x0FFF
    }
}

} // verus!
