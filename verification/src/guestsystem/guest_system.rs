//! The machine as a whole: memory, screen, processor and keypad, and what
//! one cycle and one host event do to them.  The host runs the loop: it
//! calls `cycle`, shows the screen, sounds the tone, and hands over the
//! events it polls.

use vstd::prelude::*;
use crate::guestsystem::components::cpu::{Cpu, CpuInst};
use crate::guestsystem::components::display::{blank_grid, DisplayScreen};
use crate::guestsystem::components::keypad::{pressed_key, Keypad};
use crate::guestsystem::components::memory::{
    loaded,
    Memory,
    MemoryView,
    FONTS_ADDRESS,
    FOUR_KIBI,
    PROGRAM_ADDRESS,
};
use crate::guestsystem::components::semantics::{
    cpu_after,
    display_after,
    memory_after,
    next_instruction,
    ticked,
    CpuView,
};
use crate::logic::interpreter::{decoded, word_at, Interpreter, FONT_TABLE};

verus! {

/// The key code of the escape key, which stops the machine.
pub const KEYCODE_ESCAPE: i32 = 27;

/// An event that the host polled, as far as the machine cares.
#[derive(Debug, Clone, Copy, PartialEq, Eq, Structural)]
pub enum HostEvent {
    /// The host asks the machine to stop.
    Quit,
    /// A key went down; either code may be unknown.
    KeyDown { keycode: Option<i32>, scancode: Option<i32> },
    /// A key came up.
    KeyUp { scancode: Option<i32> },
    /// Anything else.
    Other,
}

/// Why a cycle did not execute its instruction.
#[derive(Debug, Clone, Copy, PartialEq, Eq, Structural)]
pub enum Fault {
    /// A return found the call stack empty.
    StackUnderflow,
}

impl Fault {
    /// The text to show for the fault.
    pub fn message(&self) -> (text: &'static str)
        ensures
            text@ == "Error: Cannot pop from stack"@,
    {
        match self {
            Fault::StackUnderflow => "Error: Cannot pop from stack",
        }
    }
}

/// The state of the machine.
pub struct MachineView {
    pub cpu: CpuView,
    pub memory: MemoryView,
    pub grid: Seq<Seq<bool>>,
    /// The physical key that is down, if any.
    pub key: Option<i32>,
}

impl MachineView {
    /// The instruction at the program counter.
    pub open spec fn instruction(self) -> CpuInst {
        decoded(word_at(self.memory.heap, self.cpu.pc as int))
    }

    /// Whether the instruction at the program counter is a return that
    /// finds the call stack empty.
    pub open spec fn underflows(self) -> bool {
        self.instruction() is SubRoutineReturn && self.memory.stack.len() == 0
    }

    /// The machine after the timers were operated `elapsed_nanos`
    /// nanoseconds after the processor was built, and the instruction at
    /// the program counter was fetched.
    pub open spec fn fetched(self, elapsed_nanos: u128) -> MachineView {
        let cpu = ticked(self.cpu, elapsed_nanos);
        MachineView { cpu: cpu.with_pc(next_instruction(cpu.pc)), ..self }
    }

    /// The machine after one cycle: the timers are operated, the
    /// instruction is fetched, and, unless it is a return that finds the
    /// call stack empty, executed.
    pub open spec fn cycled(self, elapsed_nanos: u128, random: u8) -> MachineView {
        let fetched = self.fetched(elapsed_nanos);
        if self.underflows() {
            fetched
        } else {
            MachineView {
                cpu: cpu_after(
                    fetched.cpu,
                    self.instruction(),
                    self.memory,
                    self.grid,
                    pressed_key(self.key),
                    random,
                ),
                memory: memory_after(fetched.cpu, self.instruction(), self.memory),
                grid: display_after(fetched.cpu, self.instruction(), self.memory, self.grid),
                key: self.key,
            }
        }
    }

    /// What a cycle reports: the instruction it executed, or the fault.
    pub open spec fn cycle_report(self) -> Result<CpuInst, Fault> {
        if self.underflows() {
            Err(Fault::StackUnderflow)
        } else {
            Ok(self.instruction())
        }
    }

    /// Whether the host event `event` stops the machine: the host asks for
    /// it, or the escape key went down.
    pub open spec fn stopped_by(event: HostEvent) -> bool {
        match event {
            HostEvent::Quit => true,
            HostEvent::KeyDown { keycode, .. } => keycode == Some(KEYCODE_ESCAPE),
            _ => false,
        }
    }

    /// The physical key that is down after the host event `event`.
    pub open spec fn key_after(self, event: HostEvent) -> Option<i32> {
        match event {
            HostEvent::KeyDown { scancode, .. } => scancode,
            HostEvent::KeyUp { scancode } => if scancode is Some && self.key == scancode {
                None
            } else {
                self.key
            },
            _ => self.key,
        }
    }
}

/// The machine: its memory, screen, processor and keypad.
pub struct GuestSystem {
    memory: Memory,
    display: DisplayScreen,
    cpu: Cpu,
    keypad: Keypad,
}

impl View for GuestSystem {
    type V = MachineView;

    closed spec fn view(&self) -> MachineView {
        MachineView {
            cpu: self.cpu@,
            memory: self.memory@,
            grid: self.display@,
            key: self.keypad@,
        }
    }
}

impl GuestSystem {
    /// The processor's counters point into the heap.
    pub open spec fn wf(&self) -> bool {
        self@.cpu.wf() && self@.memory.wf()
    }

    /// A machine with the given memory and processor, a blank screen and
    /// no key down.
    pub fn new(memory: Memory, cpu: Cpu) -> (system: GuestSystem)
        ensures
            system@.memory == memory@,
            system@.cpu == cpu@,
            system@.grid == blank_grid(),
            system@.key is None,
    {
        GuestSystem { memory, cpu, display: DisplayScreen::new(), keypad: Keypad::new() }
    }

    /// Loads the font and the program image and points the program counter
    /// to the program origin.
    pub fn load_program(&mut self, program: &Vec<u8>, interpreter: &Interpreter)
        requires
            PROGRAM_ADDRESS + program@.len() <= FOUR_KIBI,
        ensures
            final(self)@.memory.heap == loaded(
                loaded(old(self)@.memory.heap, FONT_TABLE@, FONTS_ADDRESS as int),
                program@,
                PROGRAM_ADDRESS as int,
            ),
            final(self)@.memory.stack == old(self)@.memory.stack,
            final(self)@.cpu == old(self)@.cpu.with_pc(PROGRAM_ADDRESS as u16),
            final(self)@.grid == old(self)@.grid,
            final(self)@.key == old(self)@.key,
    {
        self.memory.load_fonts(interpreter.generate_fonts());
        self.memory.load_program(program.as_slice());
        self.cpu.point_pc_to_program();
    }

    /// Runs one cycle: operates the timers, fetches and decodes the
    /// instruction at the program counter, and executes it.  The host's
    /// clock and random numbers come in; whatever they give, the machine
    /// ends in the state that `MachineView::cycled` describes for them.  A
    /// return that finds the call stack empty is not executed but
    /// reported.
    pub fn cycle(&mut self, interpreter: &Interpreter) -> (report: Result<CpuInst, Fault>)
        requires
            old(self).wf(),
        ensures
            exists|elapsed_nanos: u128, random: u8|
                final(self)@ == #[trigger] old(self)@.cycled(elapsed_nanos, random),
            report == old(self)@.cycle_report(),
            final(self).wf(),
    {
        let ghost before = self@;
        self.cpu.operate_timers();
        let ghost elapsed_nanos: u128 = choose|elapsed_nanos: u128|
            self.cpu@ == #[trigger] ticked(before.cpu, elapsed_nanos);
        let raw_instruction: u16 = self.cpu.fetch(&self.memory, interpreter);
        let instruction: CpuInst = self.cpu.decode(raw_instruction, interpreter);
        assert(self@ == before.fetched(elapsed_nanos));
        if matches!(instruction, CpuInst::SubRoutineReturn) && self.memory.stack_depth() == 0 {
            assert(self@ == before.cycled(elapsed_nanos, 0));
            return Err(Fault::StackUnderflow);
        }
        let ghost fetched = self.cpu@;
        self.cpu.execute(
            &instruction,
            interpreter,
            &mut self.memory,
            &mut self.display,
            &self.keypad,
        );
        proof {
            let random: u8 = choose|random: u8|
                self.cpu@ == #[trigger] cpu_after(
                    fetched,
                    instruction,
                    before.memory,
                    before.grid,
                    pressed_key(before.key),
                    random,
                );
            assert(self@ == before.cycled(elapsed_nanos, random));
        }
        Ok(instruction)
    }

    /// Runs one cycle as `cycle` does, with `elapsed_nanos` as the clock's
    /// reading and `random` as the byte that a random-number instruction
    /// draws.
    pub fn cycle_with(&mut self, interpreter: &Interpreter, elapsed_nanos: u128, random: u8) -> (report:
        Result<CpuInst, Fault>)
        requires
            old(self).wf(),
        ensures
            final(self)@ == old(self)@.cycled(elapsed_nanos, random),
            report == old(self)@.cycle_report(),
            final(self).wf(),
    {
        self.cpu.tick(elapsed_nanos);
        let raw_instruction: u16 = self.cpu.fetch(&self.memory, interpreter);
        let instruction: CpuInst = self.cpu.decode(raw_instruction, interpreter);
        if matches!(instruction, CpuInst::SubRoutineReturn) && self.memory.stack_depth() == 0 {
            return Err(Fault::StackUnderflow);
        }
        self.cpu.execute_with(
            &instruction,
            interpreter,
            &mut self.memory,
            &mut self.display,
            &self.keypad,
            random,
        );
        Ok(instruction)
    }

    /// Takes a host event: returns whether the machine goes on, and lets
    /// the keypad follow the keys unless the event stops the machine.
    pub fn handle_event(&mut self, event: &HostEvent) -> (running: bool)
        ensures
            running == !MachineView::stopped_by(*event),
            final(self)@ == if running {
                MachineView { key: old(self)@.key_after(*event), ..old(self)@ }
            } else {
                old(self)@
            },
    {
        match event {
            HostEvent::Quit => false,
            HostEvent::KeyDown { keycode: Some(KEYCODE_ESCAPE), .. } => false,
            _ => {
                self.handle_keys(event);
                true
            },
        }
    }

    /// Lets the keypad follow a key that went down or came up.
    pub fn handle_keys(&mut self, event: &HostEvent)
        ensures
            final(self)@ == (MachineView { key: old(self)@.key_after(*event), ..old(self)@ }),
    {
        match event {
            HostEvent::KeyDown { scancode, .. } => self.keypad.set_current_key(*scancode),
            HostEvent::KeyUp { scancode } => self.keypad.set_released_key(*scancode),
            _ => {},
        }
    }

    /// Whether a tone should sound.
    pub fn should_beep(&self) -> (beep: bool)
        ensures
            beep == (self@.cpu.sound > 0),
    {
        self.cpu.should_beep()
    }

    /// The machine's memory.
    pub fn memory(&self) -> (memory: &Memory)
        ensures
            memory@ == self@.memory,
    {
        &self.memory
    }

    /// The machine's screen.
    pub fn display(&self) -> (display: &DisplayScreen)
        ensures
            display@ == self@.grid,
    {
        &self.display
    }

    /// The machine's processor.
    pub fn cpu(&self) -> (cpu: &Cpu)
        ensures
            cpu@ == self@.cpu,
    {
        &self.cpu
    }

    /// The machine's keypad.
    pub fn keypad(&self) -> (keypad: &Keypad)
        ensures
            keypad@ == self@.key,
    {
        &self.keypad
    }
}

} // verus!
