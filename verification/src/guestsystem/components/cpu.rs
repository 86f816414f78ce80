//! The processor: its instructions, its registers, and what executing one
//! instruction does to the machine.

use vstd::prelude::*;
use std::time::{Duration, Instant};
use crate::config::CpuConfig;
use crate::guestsystem::components::display::{blitted, DisplayScreen};
use crate::guestsystem::components::keypad::{pressed_key, Keypad};
use crate::guestsystem::components::memory::{Memory, FOUR_KIBI, PROGRAM_ADDRESS};
use crate::guestsystem::components::semantics::{
    added,
    address_or_origin,
    block_loaded,
    cpu_after,
    display_after,
    drawn,
    executable,
    font_pointed,
    heap_offset,
    in_heap,
    index_added,
    index_after_transfer,
    interval_due,
    jumped_with_offset,
    key_taken,
    loaded_regs,
    memory_after,
    next_instruction,
    shifted_left,
    shifted_right,
    sprite_at,
    sprite_drawn,
    stored_digits,
    stored_regs,
    subtracted,
    ticked,
    CpuView,
    NANOS_PER_SECOND,
    TIMER_HZ,
};
use crate::host::random_byte;
use crate::logic::interpreter::{decoded, word_at, Interpreter};

verus! {

/// The number of variable registers; the last one doubles as the flag.
pub const VARIABLE_REGISTER_COUNT: usize = 16;

/// The largest heap address, and so the largest value of the index register.
pub const MAX_INDEX_REG_VAL: u16 = 0x0FFF;

/// A decoded instruction with its operands.  `X` and `Y` name registers,
/// `N` is a nibble, `NN` a byte and `NNN` a heap address.
#[derive(Debug, Clone, Copy, PartialEq, Eq, Structural)]
pub enum CpuInst {
    ExecMlrNNN(u16),
    Cls,
    JmpNNN(u16),
    SubRoutineNNN(u16),
    SubRoutineReturn,
    SkipIfEqXNN(u8, u8),
    SkipIfNotEqXNN(u8, u8),
    SkipIfEqXY(u8, u8),
    SkipIfNotEqXY(u8, u8),
    SetXNN(u8, u8),
    AddXNN(u8, u8),
    SetXY(u8, u8),
    BitOrXY(u8, u8),
    BitAndXY(u8, u8),
    BitXorXY(u8, u8),
    AddXY(u8, u8),
    SubtFromLeftXY(u8, u8),
    SubtFromRightXY(u8, u8),
    ShiftLeftXY(u8, u8),
    ShiftRightXY(u8, u8),
    SetIndexNNN(u16),
    JmpOffsetNNN(u16),
    RandomXNN(u8, u8),
    DisplayXYN(u8, u8, u8),
    SkipIfKeyX(u8),
    SkipIfNotKeyX(u8),
    SetRegToDelayX(u8),
    SetDelayX(u8),
    SetSoundX(u8),
    AddToIndexX(u8),
    WaitForKeyX(u8),
    SetIndexToFontX(u8),
    DecimalConversionX(u8),
    StoreInMemoryX(u8),
    LoadFromMemoryX(u8),
    InvalidInstruction,
}

impl CpuInst {
    /// Every operand fits its field: a register number is below 16, a
    /// nibble below 16 and an address below 4096.
    pub open spec fn wf(self) -> bool {
        match self {
            CpuInst::ExecMlrNNN(nnn)
            | CpuInst::JmpNNN(nnn)
            | CpuInst::SubRoutineNNN(nnn)
            | CpuInst::SetIndexNNN(nnn)
            | CpuInst::JmpOffsetNNN(nnn) => nnn <= MAX_INDEX_REG_VAL,
            CpuInst::SkipIfEqXNN(x, _)
            | CpuInst::SkipIfNotEqXNN(x, _)
            | CpuInst::SetXNN(x, _)
            | CpuInst::AddXNN(x, _)
            | CpuInst::RandomXNN(x, _) => x < VARIABLE_REGISTER_COUNT,
            CpuInst::SkipIfEqXY(x, y)
            | CpuInst::SkipIfNotEqXY(x, y)
            | CpuInst::SetXY(x, y)
            | CpuInst::BitOrXY(x, y)
            | CpuInst::BitAndXY(x, y)
            | CpuInst::BitXorXY(x, y)
            | CpuInst::AddXY(x, y)
            | CpuInst::SubtFromLeftXY(x, y)
            | CpuInst::SubtFromRightXY(x, y)
            | CpuInst::ShiftLeftXY(x, y)
            | CpuInst::ShiftRightXY(x, y) => x < VARIABLE_REGISTER_COUNT && y
                < VARIABLE_REGISTER_COUNT,
            CpuInst::DisplayXYN(x, y, n) => x < VARIABLE_REGISTER_COUNT && y
                < VARIABLE_REGISTER_COUNT && n < 16,
            CpuInst::SkipIfKeyX(x)
            | CpuInst::SkipIfNotKeyX(x)
            | CpuInst::SetRegToDelayX(x)
            | CpuInst::SetDelayX(x)
            | CpuInst::SetSoundX(x)
            | CpuInst::AddToIndexX(x)
            | CpuInst::WaitForKeyX(x)
            | CpuInst::SetIndexToFontX(x)
            | CpuInst::DecimalConversionX(x)
            | CpuInst::StoreInMemoryX(x)
            | CpuInst::LoadFromMemoryX(x) => x < VARIABLE_REGISTER_COUNT,
            CpuInst::Cls | CpuInst::SubRoutineReturn | CpuInst::InvalidInstruction => true,
        }
    }

    /// Whether the instruction changes the screen: it clears it or draws.
    pub fn draws(&self) -> (draws: bool)
        ensures
            draws == (*self is Cls || *self is DisplayXYN),
    {
        match self {
            CpuInst::Cls => true,
            CpuInst::DisplayXYN(_, _, _) => true,
            _ => false,
        }
    }
}

/// What a shift to the right and masks on a byte compute.
proof fn lemma_byte_bits(value: u8)
    by (bit_vector)
    ensures
        value >> 1u8 == value / 2,
        value & 0x80 == 0x80 <==> value >= 0x80,
        value & 1 == 1 <==> value % 2 == 1,
        value & 0x0F == value % 0x10,
{
}

/// What a shift to the left on a byte computes.
proof fn lemma_shift_left(value: u8)
    by (bit_vector)
    ensures
        (value << 1u8) as u16 == ((value as u16) * 2) % 0x100,
{
}

/// Taking the decimal digits off a byte from the right gives the digits.
proof fn lemma_digits(value: u8)
    by (bit_vector)
    ensures
        value % 10 <= value,
        ((value - value % 10) as u8 % 100) / 10 == (value / 10) % 10,
        (((value - value % 10) as u8 % 100) / 10) * 10 <= (value - value % 10) as u8,
        ((value - value % 10) as u8 - ((((value - value % 10) as u8 % 100) / 10) * 10) as u8) as u8
            / 100 == value / 100,
{
}

/// Going round the heap from `index`: the address `i` bytes on is the
/// only one at that offset, and the next address is one byte further.
proof fn lemma_round_heap(index: u16, i: int)
    requires
        index <= MAX_INDEX_REG_VAL,
        0 <= i < FOUR_KIBI,
    ensures
        in_heap(index + i + 1) == (in_heap(index + i) + 1) % (FOUR_KIBI as int),
        forall|address: int|
            0 <= address < FOUR_KIBI ==> (#[trigger] heap_offset(index, address) == i
                <==> address == in_heap(index + i)),
{
}

/// The number of whole timer intervals in `nanos` nanoseconds.
spec fn intervals_in(nanos: int) -> int {
    nanos * 60 / 1_000_000_000
}

/// The whole intervals in a time are those in its whole seconds and those
/// in the rest; and an interval is due exactly if the time holds more
/// whole intervals than are accounted for.
proof fn lemma_intervals(ticks: u128, elapsed_nanos: u128)
    ensures
        intervals_in(elapsed_nanos as int) == (elapsed_nanos / 1_000_000_000) * 60 + ((elapsed_nanos
            % 1_000_000_000) * 60) / 1_000_000_000,
        interval_due(ticks, elapsed_nanos) <==> ticks < intervals_in(elapsed_nanos as int),
{
    let nanos = elapsed_nanos as int;
    let seconds = nanos / 1_000_000_000;
    let fraction = nanos % 1_000_000_000;
    assert(nanos * 60 == (seconds * 60) * 1_000_000_000 + fraction * 60);
    vstd::arithmetic::div_mod::lemma_fundamental_div_mod_converse(
        nanos * 60,
        1_000_000_000,
        seconds * 60 + fraction * 60 / 1_000_000_000,
        fraction * 60 % 1_000_000_000,
    );
    assert(TIMER_HZ == 60 && NANOS_PER_SECOND == 1_000_000_000);
}

/// The processor: a program counter, an index register, sixteen variable
/// registers, two timers, and the clock that paces the timers.
pub struct Cpu {
    program_counter: u16,
    index_register: u16,
    variable_registers: [u8; VARIABLE_REGISTER_COUNT],
    delay_timer: u8,
    sound_timer: u8,
    config: CpuConfig,
    started: Instant,
    ticks: u128,
}

impl View for Cpu {
    type V = CpuView;

    closed spec fn view(&self) -> CpuView {
        CpuView {
            pc: self.program_counter,
            index: self.index_register,
            regs: self.variable_registers@,
            delay: self.delay_timer,
            sound: self.sound_timer,
            ticks: self.ticks,
            config: self.config,
        }
    }
}

impl Cpu {
    /// The program counter and the index register point into the heap.
    pub open spec fn wf(&self) -> bool {
        self@.wf()
    }

    /// A processor with every register and both timers at zero, whose
    /// timers are paced from now on.
    pub fn new(config: CpuConfig) -> (cpu: Cpu)
        ensures
            cpu.wf(),
            cpu@.pc == 0,
            cpu@.index == 0,
            forall|i: int| 0 <= i < VARIABLE_REGISTER_COUNT ==> cpu@.regs[i] == 0,
            cpu@.delay == 0,
            cpu@.sound == 0,
            cpu@.ticks == 0,
            cpu@.config == config,
    {
        Cpu {
            program_counter: 0,
            index_register: 0,
            variable_registers: [0; VARIABLE_REGISTER_COUNT],
            delay_timer: 0,
            sound_timer: 0,
            config,
            started: Instant::now(),
            ticks: 0,
        }
    }

    /// Points the program counter to the program origin.
    pub fn point_pc_to_program(&mut self)
        ensures
            final(self)@ == old(self)@.with_pc(PROGRAM_ADDRESS as u16),
    {
        self.program_counter = PROGRAM_ADDRESS as u16;
    }

    /// Writes the flag register.
    pub fn set_flag_register(&mut self, arg: u8)
        ensures
            final(self)@ == old(self)@.with_flag(arg),
    {
        self.variable_registers[VARIABLE_REGISTER_COUNT - 1] = arg;
    }

    /// The program counter.
    pub fn get_pc(&self) -> (pc: u16)
        ensures
            pc == self@.pc,
    {
        self.program_counter
    }

    /// The index register.
    pub fn get_index(&self) -> (index: u16)
        ensures
            index == self@.index,
    {
        self.index_register
    }

    /// The value of register `x`.
    pub fn get_register(&self, x: u8) -> (value: u8)
        requires
            x < VARIABLE_REGISTER_COUNT,
        ensures
            value == self@.regs[x as int],
    {
        self.variable_registers[x as usize]
    }

    /// The delay timer.
    pub fn get_delay_timer(&self) -> (delay: u8)
        ensures
            delay == self@.delay,
    {
        self.delay_timer
    }

    /// The sound timer.
    pub fn get_sound_timer(&self) -> (sound: u8)
        ensures
            sound == self@.sound,
    {
        self.sound_timer
    }

    /// Points the program counter to `address`, or to the program origin
    /// if `address` lies beyond `max_address`.
    pub fn set_pc(&mut self, address: u16, max_address: u16)
        requires
            address <= max_address ==> address <= MAX_INDEX_REG_VAL,
        ensures
            final(self)@ == old(self)@.with_pc(
                address_or_origin(address as int, max_address as int),
            ),
    {
        if address > max_address {
            self.program_counter = PROGRAM_ADDRESS as u16;
            return ;
        }
        self.program_counter = address
    }

    /// Reads the instruction word at the program counter and steps the
    /// program counter past it.
    pub fn fetch(&mut self, memory: &Memory, interpreter: &Interpreter) -> (word: u16)
        requires
            old(self).wf(),
        ensures
            word == word_at(memory@.heap, old(self)@.pc as int),
            final(self)@ == old(self)@.with_pc(next_instruction(old(self)@.pc)),
            final(self).wf(),
    {
        let instruction: u16 = interpreter.fetch(memory, self.program_counter);
        self.set_pc(
            interpreter.next_pc(self.program_counter),
            memory.get_heap_size() as u16 - 1,
        );
        instruction
    }

    /// Decodes an instruction word.
    pub fn decode(&self, raw_instruction: u16, interpreter: &Interpreter) -> (instruction: CpuInst)
        ensures
            instruction == decoded(raw_instruction),
            instruction.wf(),
    {
        interpreter.decode(raw_instruction)
    }

    /// Executes one instruction.  A random-number instruction draws its
    /// byte from the host; whatever the byte, the machine ends in the state
    /// that `execute_with` reaches with it.
    pub fn execute(
        &mut self,
        instruction: &CpuInst,
        interpreter: &Interpreter,
        memory: &mut Memory,
        display: &mut DisplayScreen,
        keypad: &Keypad,
    )
        requires
            old(self).wf(),
            executable(*instruction, old(memory)@),
        ensures
            exists|random: u8|
                final(self)@ == #[trigger] cpu_after(
                    old(self)@,
                    *instruction,
                    old(memory)@,
                    old(display)@,
                    pressed_key(keypad@),
                    random,
                ),
            !(instruction is RandomXNN) ==> final(self)@ == cpu_after(
                old(self)@,
                *instruction,
                old(memory)@,
                old(display)@,
                pressed_key(keypad@),
                0,
            ),
            final(memory)@ == memory_after(old(self)@, *instruction, old(memory)@),
            final(display)@ == display_after(
                old(self)@,
                *instruction,
                old(memory)@,
                old(display)@,
            ),
            final(self).wf(),
    {
        let random: u8 = match instruction {
            CpuInst::RandomXNN(_, _) => random_byte(),
            _ => 0,
        };
        self.execute_with(instruction, interpreter, memory, display, keypad, random);
    }

    /// Executes one instruction, with `random` as the byte that a
    /// random-number instruction draws.
    pub fn execute_with(
        &mut self,
        instruction: &CpuInst,
        interpreter: &Interpreter,
        memory: &mut Memory,
        display: &mut DisplayScreen,
        keypad: &Keypad,
        random: u8,
    )
        requires
            old(self).wf(),
            executable(*instruction, old(memory)@),
        ensures
            final(self)@ == cpu_after(
                old(self)@,
                *instruction,
                old(memory)@,
                old(display)@,
                pressed_key(keypad@),
                random,
            ),
            final(memory)@ == memory_after(old(self)@, *instruction, old(memory)@),
            final(display)@ == display_after(
                old(self)@,
                *instruction,
                old(memory)@,
                old(display)@,
            ),
            final(self).wf(),
    {
        proof {
            memory.lemma_view_wf();
        }
        match instruction {
            CpuInst::ExecMlrNNN(_) => {},
            CpuInst::Cls => display.clear_screen(),
            CpuInst::JmpNNN(nnn) => self.program_counter = *nnn,
            CpuInst::SubRoutineNNN(nnn) => {
                memory.push_stack(self.program_counter);
                self.program_counter = *nnn
            },
            CpuInst::SubRoutineReturn => {
                let address: u16 = memory.pop_stack().unwrap();
                self.program_counter = address % (FOUR_KIBI as u16)
            },
            CpuInst::SkipIfEqXNN(x, nn) => {
                if self.variable_registers[*x as usize] == *nn {
                    self.skip(interpreter);
                }
            },
            CpuInst::SkipIfNotEqXNN(x, nn) => {
                if self.variable_registers[*x as usize] != *nn {
                    self.skip(interpreter);
                }
            },
            CpuInst::SkipIfEqXY(x, y) => {
                if self.variable_registers[*x as usize] == self.variable_registers[*y as usize] {
                    self.skip(interpreter);
                }
            },
            CpuInst::SkipIfNotEqXY(x, y) => {
                if self.variable_registers[*x as usize] != self.variable_registers[*y as usize] {
                    self.skip(interpreter);
                }
            },
            CpuInst::SetXNN(x, nn) => self.variable_registers[*x as usize] = *nn,
            CpuInst::AddXNN(x, nn) => {
                self.variable_registers[*x as usize] =
                    self.variable_registers[*x as usize].wrapping_add(*nn)
            },
            CpuInst::SetXY(x, y) => {
                self.variable_registers[*x as usize] = self.variable_registers[*y as usize]
            },
            CpuInst::BitOrXY(x, y) => {
                self.variable_registers[*x as usize] =
                    self.variable_registers[*x as usize] | self.variable_registers[*y as usize]
            },
            CpuInst::BitAndXY(x, y) => {
                self.variable_registers[*x as usize] =
                    self.variable_registers[*x as usize] & self.variable_registers[*y as usize]
            },
            CpuInst::BitXorXY(x, y) => {
                self.variable_registers[*x as usize] =
                    self.variable_registers[*x as usize] ^ self.variable_registers[*y as usize]
            },
            CpuInst::AddXY(x, y) => self.add_registers(*x as usize, *y as usize),
            CpuInst::SubtFromLeftXY(x, y) => {
                self.subtract_registers(*x as usize, *x as usize, *y as usize)
            },
            CpuInst::SubtFromRightXY(x, y) => {
                self.subtract_registers(*x as usize, *y as usize, *x as usize)
            },
            CpuInst::ShiftLeftXY(x, y) => self.shift_left(*x as usize, *y as usize),
            CpuInst::ShiftRightXY(x, y) => self.shift_right(*x as usize, *y as usize),
            CpuInst::SetIndexNNN(nnn) => self.index_register = *nnn,
            CpuInst::JmpOffsetNNN(nnn) => self.jump_with_offset(*nnn, interpreter),
            CpuInst::RandomXNN(x, nn) => {
                self.variable_registers[*x as usize] = random & *nn;
            },
            CpuInst::DisplayXYN(x, y, n) => {
                self.draw(*x as usize, *y as usize, *n, memory, display)
            },
            CpuInst::SkipIfKeyX(x) => {
                self.skip_if_key(*x as usize, interpreter, keypad, true);
            },
            CpuInst::SkipIfNotKeyX(x) => {
                self.skip_if_key(*x as usize, interpreter, keypad, false);
            },
            CpuInst::SetRegToDelayX(x) => self.variable_registers[*x as usize] = self.delay_timer,
            CpuInst::SetDelayX(x) => self.delay_timer = self.variable_registers[*x as usize],
            CpuInst::SetSoundX(x) => self.sound_timer = self.variable_registers[*x as usize],
            CpuInst::AddToIndexX(x) => self.add_to_index(*x as usize),
            CpuInst::WaitForKeyX(x) => {
                self.wait_for_key(*x as usize, keypad);
            },
            CpuInst::SetIndexToFontX(x) => self.set_index_to_font(*x as usize, memory),
            CpuInst::DecimalConversionX(x) => self.store_three_decimal_digits(*x as usize, memory),
            CpuInst::StoreInMemoryX(x) => self.store_x_regs(*x as usize + 1, memory),
            CpuInst::LoadFromMemoryX(x) => self.load_x_regs(*x as usize + 1, memory),
            CpuInst::InvalidInstruction => {},
        }
        proof {
            let expected = cpu_after(
                old(self)@,
                *instruction,
                old(memory)@,
                old(display)@,
                pressed_key(keypad@),
                random,
            );
            assert(self@.regs =~= expected.regs);
        }
    }

    /// Adds register `y` to register `x` and flags a carry.
    fn add_registers(&mut self, x: usize, y: usize)
        requires
            x < VARIABLE_REGISTER_COUNT,
            y < VARIABLE_REGISTER_COUNT,
        ensures
            final(self)@ == added(old(self)@, x as u8, y as u8),
    {
        let vx: u8 = self.variable_registers[x];
        let vy: u8 = self.variable_registers[y];
        if vx.checked_add(vy).is_none() {
            self.set_flag_register(1);
        } else {
            self.set_flag_register(0);
        }
        self.variable_registers[x] = vx.wrapping_add(vy);
        assert(self@.regs =~= added(old(self)@, x as u8, y as u8).regs);
    }

    /// Subtracts register `subtrahend` from register `minuend` into
    /// register `x` and flags that nothing was borrowed.
    fn subtract_registers(&mut self, x: usize, minuend: usize, subtrahend: usize)
        requires
            x < VARIABLE_REGISTER_COUNT,
            minuend < VARIABLE_REGISTER_COUNT,
            subtrahend < VARIABLE_REGISTER_COUNT,
        ensures
            final(self)@ == subtracted(old(self)@, x as u8, minuend as u8, subtrahend as u8),
    {
        let left: u8 = self.variable_registers[minuend];
        let right: u8 = self.variable_registers[subtrahend];
        if left > right {
            self.set_flag_register(1);
        } else {
            self.set_flag_register(0);
        }
        self.variable_registers[x] = left.wrapping_sub(right);
        assert(self@.regs =~= subtracted(
            old(self)@,
            x as u8,
            minuend as u8,
            subtrahend as u8,
        ).regs);
    }

    /// Shifts register `x`, or register `y` as the configuration says, one
    /// bit to the left into register `x` and flags the bit that left.
    fn shift_left(&mut self, x: usize, y: usize)
        requires
            x < VARIABLE_REGISTER_COUNT,
            y < VARIABLE_REGISTER_COUNT,
        ensures
            final(self)@ == shifted_left(old(self)@, x as u8, y as u8),
    {
        if !self.config.modern_shift() {
            self.variable_registers[x] = self.variable_registers[y];
        }
        let operand: u8 = self.variable_registers[x];
        proof {
            lemma_byte_bits(operand);
            lemma_shift_left(operand);
        }
        let msb: bool = operand & 0x80 == 0x80;
        self.variable_registers[x] = operand << 1;
        if msb {
            self.set_flag_register(1);
        } else {
            self.set_flag_register(0);
        }
        assert(self@.regs =~= shifted_left(old(self)@, x as u8, y as u8).regs);
    }

    /// Shifts register `x`, or register `y` as the configuration says, one
    /// bit to the right into register `x` and flags the bit that left.
    fn shift_right(&mut self, x: usize, y: usize)
        requires
            x < VARIABLE_REGISTER_COUNT,
            y < VARIABLE_REGISTER_COUNT,
        ensures
            final(self)@ == shifted_right(old(self)@, x as u8, y as u8),
    {
        if !self.config.modern_shift() {
            self.variable_registers[x] = self.variable_registers[y];
        }
        let operand: u8 = self.variable_registers[x];
        proof {
            lemma_byte_bits(operand);
        }
        let lsb: bool = operand & 1 == 1;
        self.variable_registers[x] = operand >> 1;
        if lsb {
            self.set_flag_register(1);
        } else {
            self.set_flag_register(0);
        }
        assert(self@.regs =~= shifted_right(old(self)@, x as u8, y as u8).regs);
    }

    /// Jumps to `nnn` plus the value of register 0, or of the register that
    /// `nnn` names, as the configuration says.
    fn jump_with_offset(&mut self, nnn: u16, interpreter: &Interpreter)
        requires
            nnn <= MAX_INDEX_REG_VAL,
        ensures
            final(self)@ == jumped_with_offset(old(self)@, nnn),
    {
        if self.config.modern_jump_offset() {
            let x: u8 = interpreter.make_x(nnn);
            let address: u16 = nnn + self.variable_registers[x as usize] as u16;
            self.program_counter = address % (FOUR_KIBI as u16);
        } else {
            let address: u16 = nnn + self.variable_registers[0] as u16;
            self.program_counter = address % (FOUR_KIBI as u16);
        }
    }

    /// Blits the sprite of `n` rows at the index register to the place
    /// that registers `x` and `y` give, and flags a collision.
    fn draw(&mut self, x: usize, y: usize, n: u8, memory: &Memory, display: &mut DisplayScreen)
        requires
            old(self).wf(),
            x < VARIABLE_REGISTER_COUNT,
            y < VARIABLE_REGISTER_COUNT,
        ensures
            final(self)@ == drawn(old(self)@, x as u8, y as u8, n, memory@, old(display)@),
            final(display)@ == blitted(
                old(display)@,
                sprite_drawn(old(self)@, n, memory@),
                old(self)@.regs[x as int],
                old(self)@.regs[y as int],
            ),
    {
        proof {
            memory.lemma_view_wf();
        }
        let vx: u8 = self.variable_registers[x];
        let vy: u8 = self.variable_registers[y];
        self.set_flag_register(0);
        let collision: bool = if self.index_register as usize + n as usize <= FOUR_KIBI {
            let sprite: &[u8] = memory.get_heap_slice(self.index_register, n as u16);
            assert(sprite@ =~= sprite_at(memory@.heap, self.index_register, n));
            display.display(vx, vy, sprite)
        } else {
            let sprite: Vec<u8> = self.sprite_round_heap(n, memory);
            display.display(vx, vy, sprite.as_slice())
        };
        if collision {
            self.set_flag_register(1);
        }
        assert(self@.regs =~= drawn(
            old(self)@,
            x as u8,
            y as u8,
            n,
            memory@,
            old(display)@,
        ).regs);
    }

    /// Steps the program counter past one instruction.
    fn skip(&mut self, interpreter: &Interpreter)
        requires
            old(self).wf(),
        ensures
            final(self)@ == old(self)@.skipping(true),
    {
        self.set_pc(interpreter.next_pc(self.program_counter), MAX_INDEX_REG_VAL);
    }

    /// The `length` bytes of the heap from the index register on, going
    /// round the heap.
    fn sprite_round_heap(&self, length: u8, memory: &Memory) -> (sprite: Vec<u8>)
        requires
            self.wf(),
        ensures
            sprite@ == sprite_at(memory@.heap, self@.index, length),
    {
        let mut sprite: Vec<u8> = Vec::new();
        let mut row: u8 = 0;
        while row < length
            invariant
                self.wf(),
                row <= length,
                sprite@ == sprite_at(memory@.heap, self@.index, row),
            decreases length - row,
        {
            let address: u16 = (self.index_register + row as u16) % (FOUR_KIBI as u16);
            sprite.push(memory.at_address(address));
            row += 1;
            assert(sprite@ =~= sprite_at(memory@.heap, self@.index, row));
        }
        sprite
    }

    /// Skips the next instruction if the keypad key that register
    /// `reg_index` names is down, or if it is not, as `should_be_pressed`
    /// says.
    fn skip_if_key(
        &mut self,
        reg_index: usize,
        interpreter: &Interpreter,
        keypad: &Keypad,
        should_be_pressed: bool,
    )
        requires
            old(self).wf(),
            reg_index < VARIABLE_REGISTER_COUNT,
        ensures
            final(self)@ == old(self)@.skipping(
                (pressed_key(keypad@) == Some(old(self)@.regs[reg_index as int]))
                    == should_be_pressed,
            ),
    {
        let key_val: u8 = self.variable_registers[reg_index];
        let pressed: bool = keypad.same_current_key_val(key_val);
        if pressed == should_be_pressed {
            self.skip(interpreter);
        }
    }

    /// Puts the keypad key that is down, if any, into register `x`.
    fn wait_for_key(&mut self, x: usize, keypad: &Keypad)
        requires
            x < VARIABLE_REGISTER_COUNT,
        ensures
            final(self)@ == key_taken(old(self)@, x as u8, pressed_key(keypad@)),
    {
        match keypad.current_key_val() {
            Some(key_val) => {
                self.variable_registers[x] = key_val;
            },
            None => {},
        }
    }

    /// Adds register `x` to the index register and reduces the sum into
    /// the heap; flags the reduction if the configuration says so.
    fn add_to_index(&mut self, x: usize)
        requires
            old(self).wf(),
            x < VARIABLE_REGISTER_COUNT,
        ensures
            final(self)@ == index_added(old(self)@, x as u8),
    {
        let vx: u16 = self.variable_registers[x] as u16;
        self.index_register += vx;
        if self.index_register > MAX_INDEX_REG_VAL {
            self.index_register %= FOUR_KIBI as u16;
            if self.config.modern_index_addition() {
                self.set_flag_register(1);
            }
        }
    }

    /// Counts the timers down if a whole interval has passed since they
    /// last did, as the host's clock tells.  Whatever the clock reads, the
    /// processor ends in the state that `tick` reaches with the reading.
    pub fn operate_timers(&mut self)
        ensures
            exists|elapsed_nanos: u128| final(self)@ == #[trigger] ticked(old(self)@, elapsed_nanos),
    {
        let elapsed: Duration = self.started.elapsed();
        self.tick(elapsed.as_nanos());
    }

    /// Counts the timers down if, `elapsed_nanos` nanoseconds after the
    /// processor was built, a whole interval of 1/60 s has passed that
    /// they have not accounted for, and accounts for exactly one.
    pub fn tick(&mut self, elapsed_nanos: u128)
        ensures
            final(self)@ == ticked(old(self)@, elapsed_nanos),
    {
        let seconds: u128 = elapsed_nanos / NANOS_PER_SECOND;
        let fraction: u128 = elapsed_nanos % NANOS_PER_SECOND;
        proof {
            lemma_intervals(self.ticks, elapsed_nanos);
        }
        let intervals: u128 = seconds * TIMER_HZ + fraction * TIMER_HZ / NANOS_PER_SECOND;
        if self.ticks < intervals {
            if self.delay_timer > 0 {
                self.delay_timer -= 1;
            }
            if self.sound_timer > 0 {
                self.sound_timer -= 1;
            }
            self.ticks += 1;
        }
    }

    /// Whether a tone should sound: the sound timer has not run out.
    pub fn should_beep(&self) -> (beep: bool)
        ensures
            beep == (self@.sound > 0),
    {
        self.sound_timer > 0
    }

    /// Points the index register to the glyph for the low nibble of
    /// register `x`.
    fn set_index_to_font(&mut self, x: usize, memory: &Memory)
        requires
            x < VARIABLE_REGISTER_COUNT,
        ensures
            final(self)@ == font_pointed(old(self)@, x as u8),
    {
        let vx: u8 = self.variable_registers[x];
        proof {
            lemma_byte_bits(vx);
        }
        let font_val: u8 = vx & 0x0F;
        self.index_register = memory.get_font(font_val);
    }

    /// Stores the three decimal digits of register `x` from the index
    /// register on, the hundreds first.
    fn store_three_decimal_digits(&self, x: usize, memory: &mut Memory)
        requires
            self.wf(),
            x < VARIABLE_REGISTER_COUNT,
        ensures
            final(memory)@.heap == stored_digits(
                old(memory)@.heap,
                self@.index,
                self@.regs[x as int],
            ),
            final(memory)@.stack == old(memory)@.stack,
    {
        let i: u16 = self.index_register;

        let mut value: u8 = self.variable_registers[x];
        proof {
            lemma_digits(value);
        }
        let dig_3: u8 = value % 10;
        value -= dig_3;
        let dig_2: u8 = (value % 100) / 10;
        value -= dig_2 * 10;
        let dig_1: u8 = value / 100;

        memory.set_heap(i, dig_1);
        memory.set_heap((i + 1) % (FOUR_KIBI as u16), dig_2);
        memory.set_heap((i + 2) % (FOUR_KIBI as u16), dig_3);
        proof {
            old(memory).lemma_view_wf();
            lemma_round_heap(i, 0);
            lemma_round_heap(i, 1);
            lemma_round_heap(i, 2);
            let stored = stored_digits(old(memory)@.heap, i, self@.regs[x as int]);
            assert forall|address: int| 0 <= address < FOUR_KIBI implies memory@.heap[address]
                == stored[address] by {
                let offset = heap_offset(i, address);
                assert(offset == 0 || offset == 1 || offset == 2 || offset > 2);
            }
            assert(memory@.heap =~= stored);
        }
    }

    /// Stores the first `reg_count` registers from the index register on.
    fn store_x_regs(&mut self, reg_count: usize, memory: &mut Memory)
        requires
            old(self).wf(),
            1 <= reg_count <= VARIABLE_REGISTER_COUNT,
        ensures
            final(memory)@.heap == stored_regs(
                old(memory)@.heap,
                old(self)@.index,
                old(self)@.regs,
                reg_count as int,
            ),
            final(memory)@.stack == old(memory)@.stack,
            final(self)@ == old(self)@.with_index(
                index_after_transfer(old(self)@.config, old(self)@.index, reg_count as int),
            ),
    {
        proof {
            memory.lemma_view_wf();
        }
        if self.config.modern_store_and_load() {
            let mut i: usize = 0;
            while i < reg_count
                invariant
                    self@ == old(self)@,
                    self.wf(),
                    i <= reg_count <= VARIABLE_REGISTER_COUNT,
                    old(memory)@.wf(),
                    memory@.stack == old(memory)@.stack,
                    memory@.heap == stored_regs(
                        old(memory)@.heap,
                        self@.index,
                        self@.regs,
                        i as int,
                    ),
                decreases reg_count - i,
            {
                let vi: u8 = self.variable_registers[i];
                proof {
                    lemma_round_heap(self.index_register, i as int);
                }
                memory.set_heap((self.index_register + i as u16) % (FOUR_KIBI as u16), vi);
                i += 1;
                assert(memory@.heap =~= stored_regs(
                    old(memory)@.heap,
                    self@.index,
                    self@.regs,
                    i as int,
                ));
            }
        } else {
            let mut i: usize = 0;
            while i < reg_count
                invariant
                    self@ == old(self)@.with_index(in_heap(old(self)@.index + i)),
                    old(self).wf(),
                    i <= reg_count <= VARIABLE_REGISTER_COUNT,
                    old(memory)@.wf(),
                    memory@.stack == old(memory)@.stack,
                    memory@.heap == stored_regs(
                        old(memory)@.heap,
                        old(self)@.index,
                        self@.regs,
                        i as int,
                    ),
                decreases reg_count - i,
            {
                let vi: u8 = self.variable_registers[i];
                proof {
                    lemma_round_heap(old(self)@.index, i as int);
                }
                memory.set_heap(self.index_register, vi);
                self.index_register = (self.index_register + 1) % (FOUR_KIBI as u16);
                i += 1;
                assert(memory@.heap =~= stored_regs(
                    old(memory)@.heap,
                    old(self)@.index,
                    self@.regs,
                    i as int,
                ));
            }
        }
    }

    /// Loads the first `reg_count` registers from the index register on.
    fn load_x_regs(&mut self, reg_count: usize, memory: &Memory)
        requires
            old(self).wf(),
            1 <= reg_count <= VARIABLE_REGISTER_COUNT,
        ensures
            final(self)@ == block_loaded(old(self)@, reg_count as int, memory@),
    {
        proof {
            memory.lemma_view_wf();
        }
        assert(self@.regs =~= loaded_regs(memory@.heap, self@.index, self@.regs, 0));
        if self.config.modern_store_and_load() {
            let mut i: usize = 0;
            while i < reg_count
                invariant
                    self@ == (CpuView {
                        regs: loaded_regs(
                            memory@.heap,
                            old(self)@.index,
                            old(self)@.regs,
                            i as int,
                        ),
                        ..old(self)@
                    }),
                    old(self).wf(),
                    memory@.wf(),
                    i <= reg_count <= VARIABLE_REGISTER_COUNT,
                decreases reg_count - i,
            {
                let val: u8 = memory.at_address(
                    (self.index_register + i as u16) % (FOUR_KIBI as u16),
                );
                self.variable_registers[i] = val;
                i += 1;
                assert(self@.regs =~= loaded_regs(
                    memory@.heap,
                    old(self)@.index,
                    old(self)@.regs,
                    i as int,
                ));
            }
        } else {
            let mut i: usize = 0;
            while i < reg_count
                invariant
                    self@ == (CpuView {
                        regs: loaded_regs(
                            memory@.heap,
                            old(self)@.index,
                            old(self)@.regs,
                            i as int,
                        ),
                        index: in_heap(old(self)@.index + i),
                        ..old(self)@
                    }),
                    old(self).wf(),
                    memory@.wf(),
                    i <= reg_count <= VARIABLE_REGISTER_COUNT,
                decreases reg_count - i,
            {
                let val: u8 = memory.at_address(self.index_register);
                proof {
                    lemma_round_heap(old(self)@.index, i as int);
                }
                self.variable_registers[i] = val;
                self.index_register = (self.index_register + 1) % (FOUR_KIBI as u16);
                i += 1;
                assert(self@.regs =~= loaded_regs(
                    memory@.heap,
                    old(self)@.index,
                    old(self)@.regs,
                    i as int,
                ));
            }
        }
    }
}

} // verus!
