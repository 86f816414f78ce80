//! What executing one instruction does to the machine, as mathematics.
//!
//! The state of the processor is a `CpuView`; the functions here map the
//! state before an instruction to the state after it.  Three conventions
//! hold throughout.  A computed address is reduced modulo the size of the
//! heap.  The program counter steps by two bytes and returns to the
//! program origin when a step would lead out of the heap.  Register 15 is
//! the flag; an instruction that defines it overwrites it.

use vstd::prelude::*;
use crate::config::CpuConfig;
use crate::guestsystem::components::cpu::{CpuInst, MAX_INDEX_REG_VAL, VARIABLE_REGISTER_COUNT};
use crate::guestsystem::components::display::{blank_grid, blitted, collides};
use crate::guestsystem::components::memory::{
    glyph_address,
    MemoryView,
    FOUR_KIBI,
    PROGRAM_ADDRESS,
};

verus! {

/// The number of the flag register.
pub const FLAG_REGISTER: u8 = 15;

/// The number of nanoseconds in a second.
pub const NANOS_PER_SECOND: u128 = 1_000_000_000;

/// The number of timer intervals in a second.
pub const TIMER_HZ: u128 = 60;

/// The state of the processor.
pub struct CpuView {
    /// The address of the next instruction.
    pub pc: u16,
    /// The index register.
    pub index: u16,
    /// The sixteen variable registers.
    pub regs: Seq<u8>,
    /// The delay timer.
    pub delay: u8,
    /// The sound timer.
    pub sound: u8,
    /// The number of timer intervals that the timers have accounted for
    /// since the processor was built.
    pub ticks: u128,
    /// The configuration that the processor was built with.
    pub config: CpuConfig,
}

impl CpuView {
    /// There are sixteen registers, and the program counter and the index
    /// register point into the heap.
    pub open spec fn wf(self) -> bool {
        &&& self.pc <= MAX_INDEX_REG_VAL
        &&& self.index <= MAX_INDEX_REG_VAL
        &&& self.regs.len() == VARIABLE_REGISTER_COUNT
    }

    pub open spec fn with_pc(self, pc: u16) -> CpuView {
        CpuView { pc, ..self }
    }

    pub open spec fn with_index(self, index: u16) -> CpuView {
        CpuView { index, ..self }
    }

    pub open spec fn with_reg(self, x: u8, value: u8) -> CpuView {
        CpuView { regs: self.regs.update(x as int, value), ..self }
    }

    pub open spec fn with_flag(self, value: u8) -> CpuView {
        self.with_reg(FLAG_REGISTER, value)
    }

    /// The state after a conditional skip: one instruction further if the
    /// condition held.
    pub open spec fn skipping(self, taken: bool) -> CpuView {
        if taken {
            self.with_pc(next_instruction(self.pc))
        } else {
            self
        }
    }
}

/// `address` if it is at most `max_address`, else the program origin.
pub open spec fn address_or_origin(address: int, max_address: int) -> u16 {
    if address > max_address {
        PROGRAM_ADDRESS as u16
    } else {
        address as u16
    }
}

/// The address of the instruction after the one at `pc`.
pub open spec fn next_instruction(pc: u16) -> u16 {
    address_or_origin(pc + 2, MAX_INDEX_REG_VAL as int)
}

/// `address` reduced into the heap.
pub open spec fn in_heap(address: int) -> u16 {
    (address % (FOUR_KIBI as int)) as u16
}

/// How many bytes `address` lies past `index`, going round the heap.
pub open spec fn heap_offset(index: u16, address: int) -> int {
    (address - index) % (FOUR_KIBI as int)
}

/// The flag that tells `raised`: 1 for yes, 0 for no.
pub open spec fn flag_of(raised: bool) -> u8 {
    if raised {
        1
    } else {
        0
    }
}

/// The `length` bytes of the heap from `index` on, going round the heap.
pub open spec fn sprite_at(heap: Seq<u8>, index: u16, length: u8) -> Seq<u8> {
    Seq::new(length as nat, |row: int| heap[in_heap(index + row) as int])
}

/// The heap after the first `count` registers were stored from `index` on.
pub open spec fn stored_regs(heap: Seq<u8>, index: u16, regs: Seq<u8>, count: int) -> Seq<u8> {
    Seq::new(
        heap.len(),
        |address: int|
            if heap_offset(index, address) < count {
                regs[heap_offset(index, address)]
            } else {
                heap[address]
            },
    )
}

/// The registers after the first `count` were loaded from `index` on.
pub open spec fn loaded_regs(heap: Seq<u8>, index: u16, regs: Seq<u8>, count: int) -> Seq<u8> {
    Seq::new(
        regs.len(),
        |i: int|
            if i < count {
                heap[in_heap(index + i) as int]
            } else {
                regs[i]
            },
    )
}

/// The heap after the three decimal digits of `value` were stored from
/// `index` on, the hundreds first.
pub open spec fn stored_digits(heap: Seq<u8>, index: u16, value: u8) -> Seq<u8> {
    Seq::new(
        heap.len(),
        |address: int|
            if heap_offset(index, address) == 0 {
                (value / 100) as u8
            } else if heap_offset(index, address) == 1 {
                ((value / 10) % 10) as u8
            } else if heap_offset(index, address) == 2 {
                (value % 10) as u8
            } else {
                heap[address]
            },
    )
}

/// The index register after a block transfer of `count` registers: kept,
/// or `count` further.
pub open spec fn index_after_transfer(config: CpuConfig, index: u16, count: int) -> u16 {
    if config.index_kept() {
        index
    } else {
        in_heap(index + count)
    }
}

/// The state after the value of register `x` was added to the index
/// register.
pub open spec fn index_added(cpu: CpuView, x: u8) -> CpuView {
    let sum = cpu.index + cpu.regs[x as int];
    if sum > MAX_INDEX_REG_VAL {
        let reduced = cpu.with_index(in_heap(sum));
        if cpu.config.index_overflow_flagged() {
            reduced.with_flag(1)
        } else {
            reduced
        }
    } else {
        cpu.with_index(sum as u16)
    }
}

/// The state after register `y` was added to register `x`: the flag tells
/// whether the sum left the byte, and register `x` holds the sum modulo
/// 256.  The flag is written first, so with `x` the flag register the sum
/// stays.
pub open spec fn added(cpu: CpuView, x: u8, y: u8) -> CpuView {
    let sum = cpu.regs[x as int] + cpu.regs[y as int];
    cpu.with_flag(flag_of(sum > 0xFF)).with_reg(x, (sum % 0x100) as u8)
}

/// The state after register `subtrahend` was subtracted from register
/// `minuend` into register `x`: the flag tells whether the minuend was the
/// greater, and register `x` holds the difference modulo 256.  The flag is
/// written first.
pub open spec fn subtracted(cpu: CpuView, x: u8, minuend: u8, subtrahend: u8) -> CpuView {
    let difference = cpu.regs[minuend as int] - cpu.regs[subtrahend as int];
    cpu.with_flag(flag_of(difference > 0)).with_reg(x, (difference % 0x100) as u8)
}

/// The register that a shift takes its operand from.
pub open spec fn shift_source(config: CpuConfig, x: u8, y: u8) -> u8 {
    if config.shift_in_place() {
        x
    } else {
        y
    }
}

/// The state after a shift to the left into register `x`: register `x`
/// holds the operand doubled modulo 256, and the flag the bit that left.
/// The flag is written last.
pub open spec fn shifted_left(cpu: CpuView, x: u8, y: u8) -> CpuView {
    let operand = cpu.regs[shift_source(cpu.config, x, y) as int];
    cpu.with_reg(x, ((operand * 2) % 0x100) as u8).with_flag(flag_of(operand >= 0x80))
}

/// The state after a shift to the right into register `x`: register `x`
/// holds the operand halved, and the flag the bit that left.  The flag is
/// written last.
pub open spec fn shifted_right(cpu: CpuView, x: u8, y: u8) -> CpuView {
    let operand = cpu.regs[shift_source(cpu.config, x, y) as int];
    cpu.with_reg(x, (operand / 2) as u8).with_flag(flag_of(operand % 2 == 1))
}

/// The register that a jump with offset takes its offset from.
pub open spec fn offset_register(config: CpuConfig, nnn: u16) -> u8 {
    if config.offset_by_operand() {
        crate::logic::interpreter::field_x(nnn)
    } else {
        0
    }
}

/// The state after a jump to `nnn` with offset.
pub open spec fn jumped_with_offset(cpu: CpuView, nnn: u16) -> CpuView {
    cpu.with_pc(in_heap(nnn + cpu.regs[offset_register(cpu.config, nnn) as int]))
}

/// The sprite that a draw instruction of `n` rows blits.
pub open spec fn sprite_drawn(cpu: CpuView, n: u8, memory: MemoryView) -> Seq<u8> {
    sprite_at(memory.heap, cpu.index, n)
}

/// The state after a draw instruction: the flag tells whether the sprite
/// turned a pixel off.
pub open spec fn drawn(
    cpu: CpuView,
    x: u8,
    y: u8,
    n: u8,
    memory: MemoryView,
    grid: Seq<Seq<bool>>,
) -> CpuView {
    cpu.with_flag(
        flag_of(
            collides(grid, sprite_drawn(cpu, n, memory), cpu.regs[x as int], cpu.regs[y as int]),
        ),
    )
}

/// The state after the keypad key that is down, if any, was put into
/// register `x`.
pub open spec fn key_taken(cpu: CpuView, x: u8, key: Option<u8>) -> CpuView {
    match key {
        Some(key_val) => cpu.with_reg(x, key_val),
        None => cpu,
    }
}

/// The state after the index register was pointed to the glyph for the
/// low nibble of register `x`.
pub open spec fn font_pointed(cpu: CpuView, x: u8) -> CpuView {
    cpu.with_index(glyph_address(cpu.regs[x as int] as int % 0x10) as u16)
}

/// The state after a block load of `count` registers.
pub open spec fn block_loaded(cpu: CpuView, count: int, memory: MemoryView) -> CpuView {
    CpuView {
        regs: loaded_regs(memory.heap, cpu.index, cpu.regs, count),
        index: index_after_transfer(cpu.config, cpu.index, count),
        ..cpu
    }
}

/// The processor after `instruction`.  `key` is the keypad key that is
/// down, and `random` the byte that a random-number instruction draws.
pub open spec fn cpu_after(
    cpu: CpuView,
    instruction: CpuInst,
    memory: MemoryView,
    grid: Seq<Seq<bool>>,
    key: Option<u8>,
    random: u8,
) -> CpuView {
    let regs = cpu.regs;
    match instruction {
        CpuInst::ExecMlrNNN(_) => cpu,
        CpuInst::Cls => cpu,
        CpuInst::JmpNNN(nnn) => cpu.with_pc(nnn),
        CpuInst::SubRoutineNNN(nnn) => cpu.with_pc(nnn),
        CpuInst::SubRoutineReturn => cpu.with_pc(in_heap(memory.stack.last() as int)),
        CpuInst::SkipIfEqXNN(x, nn) => cpu.skipping(regs[x as int] == nn),
        CpuInst::SkipIfNotEqXNN(x, nn) => cpu.skipping(regs[x as int] != nn),
        CpuInst::SkipIfEqXY(x, y) => cpu.skipping(regs[x as int] == regs[y as int]),
        CpuInst::SkipIfNotEqXY(x, y) => cpu.skipping(regs[x as int] != regs[y as int]),
        CpuInst::SetXNN(x, nn) => cpu.with_reg(x, nn),
        CpuInst::AddXNN(x, nn) => cpu.with_reg(x, ((regs[x as int] + nn) % 0x100) as u8),
        CpuInst::SetXY(x, y) => cpu.with_reg(x, regs[y as int]),
        CpuInst::BitOrXY(x, y) => cpu.with_reg(x, regs[x as int] | regs[y as int]),
        CpuInst::BitAndXY(x, y) => cpu.with_reg(x, regs[x as int] & regs[y as int]),
        CpuInst::BitXorXY(x, y) => cpu.with_reg(x, regs[x as int] ^ regs[y as int]),
        CpuInst::AddXY(x, y) => added(cpu, x, y),
        CpuInst::SubtFromLeftXY(x, y) => subtracted(cpu, x, x, y),
        CpuInst::SubtFromRightXY(x, y) => subtracted(cpu, x, y, x),
        CpuInst::ShiftLeftXY(x, y) => shifted_left(cpu, x, y),
        CpuInst::ShiftRightXY(x, y) => shifted_right(cpu, x, y),
        CpuInst::SetIndexNNN(nnn) => cpu.with_index(nnn),
        CpuInst::JmpOffsetNNN(nnn) => jumped_with_offset(cpu, nnn),
        CpuInst::RandomXNN(x, nn) => cpu.with_reg(x, random & nn),
        CpuInst::DisplayXYN(x, y, n) => drawn(cpu, x, y, n, memory, grid),
        CpuInst::SkipIfKeyX(x) => cpu.skipping(key == Some(regs[x as int])),
        CpuInst::SkipIfNotKeyX(x) => cpu.skipping(key != Some(regs[x as int])),
        CpuInst::SetRegToDelayX(x) => cpu.with_reg(x, cpu.delay),
        CpuInst::SetDelayX(x) => CpuView { delay: regs[x as int], ..cpu },
        CpuInst::SetSoundX(x) => CpuView { sound: regs[x as int], ..cpu },
        CpuInst::AddToIndexX(x) => index_added(cpu, x),
        CpuInst::WaitForKeyX(x) => key_taken(cpu, x, key),
        CpuInst::SetIndexToFontX(x) => font_pointed(cpu, x),
        CpuInst::DecimalConversionX(_) => cpu,
        CpuInst::StoreInMemoryX(x) => cpu.with_index(
            index_after_transfer(cpu.config, cpu.index, x + 1),
        ),
        CpuInst::LoadFromMemoryX(x) => block_loaded(cpu, x + 1, memory),
        CpuInst::InvalidInstruction => cpu,
    }
}

/// The memory after `instruction`.
pub open spec fn memory_after(cpu: CpuView, instruction: CpuInst, memory: MemoryView) -> MemoryView {
    match instruction {
        CpuInst::SubRoutineNNN(_) => MemoryView { stack: memory.stack.push(cpu.pc), ..memory },
        CpuInst::SubRoutineReturn => MemoryView { stack: memory.stack.drop_last(), ..memory },
        CpuInst::DecimalConversionX(x) => MemoryView {
            heap: stored_digits(memory.heap, cpu.index, cpu.regs[x as int]),
            ..memory
        },
        CpuInst::StoreInMemoryX(x) => MemoryView {
            heap: stored_regs(memory.heap, cpu.index, cpu.regs, x + 1),
            ..memory
        },
        _ => memory,
    }
}

/// The grid after `instruction`.
pub open spec fn display_after(
    cpu: CpuView,
    instruction: CpuInst,
    memory: MemoryView,
    grid: Seq<Seq<bool>>,
) -> Seq<Seq<bool>> {
    match instruction {
        CpuInst::Cls => blank_grid(),
        CpuInst::DisplayXYN(x, y, n) => blitted(
            grid,
            sprite_drawn(cpu, n, memory),
            cpu.regs[x as int],
            cpu.regs[y as int],
        ),
        _ => grid,
    }
}

/// Whether `instruction` can be executed: its operands fit, and a return
/// finds an address on the stack.
pub open spec fn executable(instruction: CpuInst, memory: MemoryView) -> bool {
    &&& instruction.wf()
    &&& instruction is SubRoutineReturn ==> memory.stack.len() > 0
}

/// Whether, `elapsed_nanos` nanoseconds after the processor was built, a
/// whole interval of 1/60 s has passed since the time that the timers
/// have accounted for, which is `ticks` intervals.
pub open spec fn interval_due(ticks: u128, elapsed_nanos: u128) -> bool {
    (ticks + 1) * NANOS_PER_SECOND <= elapsed_nanos * TIMER_HZ
}

/// A timer after one interval: one less, and never below zero.
pub open spec fn counted_down(timer: u8) -> u8 {
    if timer > 0 {
        (timer - 1) as u8
    } else {
        0
    }
}

/// The processor after its timers were operated `elapsed_nanos`
/// nanoseconds after it was built: if a whole interval is due, both timers
/// count down once and account for exactly one interval more, however
/// many are due; else nothing changes.
pub open spec fn ticked(cpu: CpuView, elapsed_nanos: u128) -> CpuView {
    if interval_due(cpu.ticks, elapsed_nanos) {
        CpuView {
            delay: counted_down(cpu.delay),
            sound: counted_down(cpu.sound),
            ticks: (cpu.ticks + 1) as u128,
            ..cpu
        }
    } else {
        cpu
    }
}

} // verus!
