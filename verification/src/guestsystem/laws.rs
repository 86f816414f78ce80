//! Laws of the machine: what holds of every state, every sprite and every
//! sequence of clock readings.  Each is proved from the definitions that
//! the contracts of the components use.

use vstd::prelude::*;
use crate::guestsystem::components::cpu::{CpuInst, VARIABLE_REGISTER_COUNT};
use crate::guestsystem::components::display::{
    blank_grid,
    blitted,
    collides,
    grid_wf,
    hit,
    sprite_bit,
    sprite_column,
    sprite_covers,
    sprite_row,
    HEIGHT,
    SPRITE_WIDTH,
    WIDTH,
};
use crate::guestsystem::components::memory::{
    glyph_address,
    loaded,
    MemoryView,
    FONTS_ADDRESS,
    FOUR_KIBI,
    PROGRAM_ADDRESS,
};
use crate::guestsystem::components::semantics::{
    cpu_after,
    display_after,
    executable,
    heap_offset,
    in_heap,
    interval_due,
    memory_after,
    sprite_at,
    ticked,
    CpuView,
    FLAG_REGISTER,
    NANOS_PER_SECOND,
    TIMER_HZ,
};
use crate::logic::interpreter::{ALL_FONT_COUNT, FONT_SIZE, FONT_TABLE, FONT_TABLE_SIZE};

verus! {

/// Executing an instruction keeps the machine well formed: the counters
/// stay in the heap, the heap keeps its size and the grid its shape.
pub proof fn lemma_execution_keeps_wf(
    cpu: CpuView,
    instruction: CpuInst,
    memory: MemoryView,
    grid: Seq<Seq<bool>>,
    key: Option<u8>,
    random: u8,
)
    requires
        cpu.wf(),
        memory.wf(),
        grid_wf(grid),
        executable(instruction, memory),
    ensures
        cpu_after(cpu, instruction, memory, grid, key, random).wf(),
        memory_after(cpu, instruction, memory).wf(),
        grid_wf(display_after(cpu, instruction, memory, grid)),
        cpu_after(cpu, instruction, memory, grid, key, random).config == cpu.config,
{
}

/// An instruction that does not draw leaves the screen alone.
pub proof fn lemma_screen_changes_by_drawing(
    cpu: CpuView,
    instruction: CpuInst,
    memory: MemoryView,
    grid: Seq<Seq<bool>>,
)
    requires
        !(instruction is Cls || instruction is DisplayXYN),
    ensures
        display_after(cpu, instruction, memory, grid) == grid,
{
}

/// Only a random-number instruction depends on the random byte.
pub proof fn lemma_random_matters_to_one(
    cpu: CpuView,
    instruction: CpuInst,
    memory: MemoryView,
    grid: Seq<Seq<bool>>,
    key: Option<u8>,
    random: u8,
    other: u8,
)
    requires
        !(instruction is RandomXNN),
    ensures
        cpu_after(cpu, instruction, memory, grid, key, random) == cpu_after(
            cpu,
            instruction,
            memory,
            grid,
            key,
            other,
        ),
{
}

/// A call followed by a return comes back behind the call and leaves the
/// stack as it was.
pub proof fn lemma_call_then_return(
    cpu: CpuView,
    memory: MemoryView,
    nnn: u16,
    grid: Seq<Seq<bool>>,
    key: Option<u8>,
    random: u8,
)
    requires
        cpu.wf(),
    ensures
        ({
            let called = cpu_after(cpu, CpuInst::SubRoutineNNN(nnn), memory, grid, key, random);
            let stacked = memory_after(cpu, CpuInst::SubRoutineNNN(nnn), memory);
            &&& called.pc == nnn
            &&& executable(CpuInst::SubRoutineReturn, stacked)
            &&& cpu_after(called, CpuInst::SubRoutineReturn, stacked, grid, key, random).pc == cpu.pc
            &&& memory_after(called, CpuInst::SubRoutineReturn, stacked) == memory
        }),
{
    let stacked = memory_after(cpu, CpuInst::SubRoutineNNN(nnn), memory);
    assert(stacked.stack.drop_last() =~= memory.stack);
}

/// Whether `instruction` defines the flag: it is an addition or a
/// subtraction of registers, a shift or a draw.
pub open spec fn defines_flag(instruction: CpuInst) -> bool {
    instruction is AddXY || instruction is SubtFromLeftXY || instruction is SubtFromRightXY
        || instruction is ShiftLeftXY || instruction is ShiftRightXY || instruction is DisplayXYN
}

/// Whether `instruction` names the flag register as an operand.
pub open spec fn names_flag(instruction: CpuInst) -> bool {
    match instruction {
        CpuInst::AddXY(x, y)
        | CpuInst::SubtFromLeftXY(x, y)
        | CpuInst::SubtFromRightXY(x, y)
        | CpuInst::ShiftLeftXY(x, y)
        | CpuInst::ShiftRightXY(x, y)
        | CpuInst::DisplayXYN(x, y, _) => x == FLAG_REGISTER || y == FLAG_REGISTER,
        _ => false,
    }
}

/// An instruction that defines the flag overwrites it: unless the flag
/// register is an operand, the flag is 0 or 1 afterwards, whatever it was
/// before.
pub proof fn lemma_flag_is_overwritten(
    cpu: CpuView,
    instruction: CpuInst,
    memory: MemoryView,
    grid: Seq<Seq<bool>>,
    key: Option<u8>,
    random: u8,
    flag: u8,
)
    requires
        cpu.wf(),
        instruction.wf(),
        defines_flag(instruction),
        !names_flag(instruction),
    ensures
        ({
            let after = cpu_after(cpu, instruction, memory, grid, key, random);
            let other = cpu_after(cpu.with_flag(flag), instruction, memory, grid, key, random);
            &&& after.regs[FLAG_REGISTER as int] <= 1
            &&& other.regs[FLAG_REGISTER as int] == after.regs[FLAG_REGISTER as int]
        }),
{
}

/// Once the font is loaded, whether or not a program is loaded after it,
/// the glyph address of each hexadecimal digit points to the five rows of
/// its glyph.
pub proof fn lemma_font_pointer_finds_glyph(heap: Seq<u8>, program: Seq<u8>, digit: int)
    requires
        heap.len() == FOUR_KIBI,
        PROGRAM_ADDRESS + program.len() <= FOUR_KIBI,
        0 <= digit < ALL_FONT_COUNT,
    ensures
        ({
            let with_font = loaded(heap, FONT_TABLE@, FONTS_ADDRESS as int);
            let with_program = loaded(with_font, program, PROGRAM_ADDRESS as int);
            let glyph = FONT_TABLE@.subrange(FONT_SIZE * digit, FONT_SIZE * digit + FONT_SIZE);
            &&& sprite_at(with_font, glyph_address(digit) as u16, FONT_SIZE as u8) == glyph
            &&& sprite_at(with_program, glyph_address(digit) as u16, FONT_SIZE as u8) == glyph
        }),
{
    let with_font = loaded(heap, FONT_TABLE@, FONTS_ADDRESS as int);
    let with_program = loaded(with_font, program, PROGRAM_ADDRESS as int);
    let glyph = FONT_TABLE@.subrange(FONT_SIZE * digit, FONT_SIZE * digit + FONT_SIZE);
    assert(FONT_TABLE@.len() == FONT_TABLE_SIZE);
    assert(sprite_at(with_font, glyph_address(digit) as u16, FONT_SIZE as u8) =~= glyph);
    assert(sprite_at(with_program, glyph_address(digit) as u16, FONT_SIZE as u8) =~= glyph);
}

/// A block store followed by a block load of as many registers from the
/// same address gives the registers back, whatever the registers held in
/// between and whichever way the configuration treats the index register;
/// the registers beyond the block are left alone.
pub proof fn lemma_store_load_round_trip(
    cpu: CpuView,
    memory: MemoryView,
    x: u8,
    later: CpuView,
    grid: Seq<Seq<bool>>,
    key: Option<u8>,
    random: u8,
)
    requires
        cpu.wf(),
        memory.wf(),
        later.wf(),
        x < VARIABLE_REGISTER_COUNT,
        later.index == cpu.index,
    ensures
        ({
            let stored = memory_after(cpu, CpuInst::StoreInMemoryX(x), memory);
            let loaded = cpu_after(later, CpuInst::LoadFromMemoryX(x), stored, grid, key, random);
            &&& forall|i: int| 0 <= i <= x ==> loaded.regs[i] == cpu.regs[i]
            &&& forall|i: int| x < i < VARIABLE_REGISTER_COUNT ==> loaded.regs[i] == later.regs[i]
        }),
{
    let stored = memory_after(cpu, CpuInst::StoreInMemoryX(x), memory);
    let loaded = cpu_after(later, CpuInst::LoadFromMemoryX(x), stored, grid, key, random);
    assert forall|i: int| 0 <= i <= x implies loaded.regs[i] == cpu.regs[i] by {
        let address = in_heap(cpu.index + i) as int;
        assert(heap_offset(cpu.index, address) == i);
    }
}

/// A block transfer of registers 0 to `x` leaves the index register where
/// it was if the configuration keeps it, and `x + 1` bytes further, going
/// round the heap, if not.  What is stored does not depend on the
/// configuration.
pub proof fn lemma_block_transfer_index(
    cpu: CpuView,
    memory: MemoryView,
    x: u8,
    grid: Seq<Seq<bool>>,
    key: Option<u8>,
    random: u8,
    other: CpuView,
)
    requires
        cpu.wf(),
        x < VARIABLE_REGISTER_COUNT,
        other.index == cpu.index,
        other.regs == cpu.regs,
    ensures
        ({
            let after_store = cpu_after(cpu, CpuInst::StoreInMemoryX(x), memory, grid, key, random);
            let after_load = cpu_after(cpu, CpuInst::LoadFromMemoryX(x), memory, grid, key, random);
            let index = if cpu.config.index_kept() {
                cpu.index as int
            } else if cpu.index + x + 1 < 0x1000 {
                cpu.index + x + 1
            } else {
                cpu.index + x + 1 - 0x1000
            };
            &&& after_store.index == index
            &&& after_load.index == index
            &&& after_store.regs == cpu.regs
        }),
        memory_after(other, CpuInst::StoreInMemoryX(x), memory) == memory_after(
            cpu,
            CpuInst::StoreInMemoryX(x),
            memory,
        ),
{
}

/// Blitting a sprite twice at the same place restores the grid.
pub proof fn lemma_blit_twice_restores(
    grid: Seq<Seq<bool>>,
    sprite: Seq<u8>,
    x_coord: u8,
    y_coord: u8,
)
    requires
        grid_wf(grid),
    ensures
        blitted(blitted(grid, sprite, x_coord, y_coord), sprite, x_coord, y_coord) == grid,
{
    let once = blitted(grid, sprite, x_coord, y_coord);
    let twice = blitted(once, sprite, x_coord, y_coord);
    assert forall|x: int| 0 <= x < WIDTH implies twice[x] == grid[x] by {
        assert(twice[x] =~= grid[x]);
    }
    assert(twice =~= grid);
}

/// The second of two blits of a sprite at the same place turns a pixel off
/// exactly if the first turned one on: if the sprite covers a pixel that
/// was off.
pub proof fn lemma_second_blit_collides(
    grid: Seq<Seq<bool>>,
    sprite: Seq<u8>,
    x_coord: u8,
    y_coord: u8,
)
    requires
        grid_wf(grid),
    ensures
        collides(blitted(grid, sprite, x_coord, y_coord), sprite, x_coord, y_coord) <==> exists|
            x: int,
            y: int,
        |
            0 <= x < WIDTH && 0 <= y < HEIGHT && !grid[x][y] && #[trigger] sprite_covers(
                sprite,
                x_coord,
                y_coord,
                x,
                y,
            ),
{
    let once = blitted(grid, sprite, x_coord, y_coord);
    if collides(once, sprite, x_coord, y_coord) {
        let (x, y) = choose|x: int, y: int|
            0 <= x < WIDTH && 0 <= y < HEIGHT && #[trigger] hit(once, sprite, x_coord, y_coord, x, y);
        assert(!grid[x][y] && sprite_covers(sprite, x_coord, y_coord, x, y));
    }
    if exists|x: int, y: int|
        0 <= x < WIDTH && 0 <= y < HEIGHT && !grid[x][y] && #[trigger] sprite_covers(
            sprite,
            x_coord,
            y_coord,
            x,
            y,
        ) {
        let (x, y) = choose|x: int, y: int|
            0 <= x < WIDTH && 0 <= y < HEIGHT && !grid[x][y] && #[trigger] sprite_covers(
                sprite,
                x_coord,
                y_coord,
                x,
                y,
            );
        assert(hit(once, sprite, x_coord, y_coord, x, y));
    }
}

/// On a blank grid a blit turns no pixel off and lights exactly the
/// pixels that the sprite covers.
pub proof fn lemma_blit_on_blank(sprite: Seq<u8>, x_coord: u8, y_coord: u8)
    ensures
        !collides(blank_grid(), sprite, x_coord, y_coord),
        forall|x: int, y: int|
            0 <= x < WIDTH && 0 <= y < HEIGHT ==> blitted(
                blank_grid(),
                sprite,
                x_coord,
                y_coord,
            )[x][y] == #[trigger] sprite_covers(sprite, x_coord, y_coord, x, y),
{
    assert forall|x: int, y: int| 0 <= x < WIDTH && 0 <= y < HEIGHT implies !#[trigger] hit(
        blank_grid(),
        sprite,
        x_coord,
        y_coord,
        x,
        y,
    ) by {}
}

/// Where the bits of a sprite land: the bit in row `row` and column
/// `column` lands `row` rows below the placement and `column` columns to
/// its right, wrapping round the right edge; a row that would land below
/// the bottom edge lands nowhere.
pub proof fn lemma_sprite_placement(
    sprite: Seq<u8>,
    x_coord: u8,
    y_coord: u8,
    row: int,
    column: int,
)
    requires
        0 <= row < sprite.len(),
        0 <= column < SPRITE_WIDTH,
    ensures
        ({
            let x = (x_coord % 64 + column) % 64;
            let y = y_coord % 32 + row;
            &&& y < HEIGHT ==> sprite_covers(sprite, x_coord, y_coord, x, y) == sprite_bit(
                sprite[row],
                column,
            )
            &&& y >= HEIGHT ==> forall|py: int| 0 <= py < HEIGHT ==> #[trigger] sprite_row(
                y_coord,
                py,
            ) != row
        }),
{
    let x = (x_coord % 64 + column) % 64;
    let y = y_coord % 32 + row;
    assert(sprite_column(x_coord, x) == column);
    assert(sprite_row(y_coord, y) == row);
}

/// A byte that is not zero has a set bit.
proof fn lemma_some_bit(byte: u8)
    by (bit_vector)
    requires
        byte != 0,
    ensures
        (byte / 128) % 2 == 1 || (byte / 64) % 2 == 1 || (byte / 32) % 2 == 1 || (byte / 16) % 2
            == 1 || (byte / 8) % 2 == 1 || (byte / 4) % 2 == 1 || (byte / 2) % 2 == 1 || byte % 2
            == 1,
{
}

/// Drawing a sprite whose first row is not blank twice at the same place
/// on a blank grid: the first blit turns no pixel off, the second does,
/// and the grid is blank again.
pub proof fn lemma_redraw_on_blank(sprite: Seq<u8>, x_coord: u8, y_coord: u8)
    requires
        sprite.len() > 0,
        sprite[0] != 0,
    ensures
        !collides(blank_grid(), sprite, x_coord, y_coord),
        collides(blitted(blank_grid(), sprite, x_coord, y_coord), sprite, x_coord, y_coord),
        blitted(blitted(blank_grid(), sprite, x_coord, y_coord), sprite, x_coord, y_coord)
            == blank_grid(),
{
    lemma_blit_on_blank(sprite, x_coord, y_coord);
    lemma_blit_twice_restores(blank_grid(), sprite, x_coord, y_coord);
    lemma_second_blit_collides(blank_grid(), sprite, x_coord, y_coord);
    lemma_some_bit(sprite[0]);
    let first = sprite[0];
    let column: int = if (first / 128) % 2 == 1 {
        0
    } else if (first / 64) % 2 == 1 {
        1
    } else if (first / 32) % 2 == 1 {
        2
    } else if (first / 16) % 2 == 1 {
        3
    } else if (first / 8) % 2 == 1 {
        4
    } else if (first / 4) % 2 == 1 {
        5
    } else if (first / 2) % 2 == 1 {
        6
    } else {
        7
    };
    assert(sprite_bit(first, column));
    lemma_sprite_placement(sprite, x_coord, y_coord, 0, column);
    let x = (x_coord % 64 + column) % 64;
    let y = y_coord % 32 + 0;
    assert(!blank_grid()[x][y] && sprite_covers(sprite, x_coord, y_coord, x, y));
}

/// The processor after its timers were operated once for each of a
/// sequence of clock readings, in order.
pub open spec fn ticked_through(cpu: CpuView, readings: Seq<u128>) -> CpuView
    decreases readings.len(),
{
    if readings.len() == 0 {
        cpu
    } else {
        ticked(ticked_through(cpu, readings.drop_last()), readings.last())
    }
}

/// However often the timers are operated, they count down at most once
/// for each whole interval of 1/60 s that has passed.  After any sequence
/// of clock readings, none later than `latest`: the time that the timers
/// have accounted for is not later than `latest`, unless it was before;
/// they have accounted for at most one interval more per reading; and each
/// timer has counted down once for each interval newly accounted for,
/// stopping at zero.
pub proof fn lemma_timer_pacing(cpu: CpuView, readings: Seq<u128>, latest: u128)
    requires
        forall|i: int| 0 <= i < readings.len() ==> readings[i] <= latest,
    ensures
        ({
            let after = ticked_through(cpu, readings);
            let counted = after.ticks - cpu.ticks;
            &&& 0 <= counted <= readings.len()
            &&& cpu.ticks * NANOS_PER_SECOND <= latest * TIMER_HZ ==> after.ticks * NANOS_PER_SECOND
                <= latest * TIMER_HZ
            &&& !interval_due(cpu.ticks, latest) ==> counted == 0
            &&& after.delay == if cpu.delay >= counted {
                cpu.delay - counted
            } else {
                0
            }
            &&& after.sound == if cpu.sound >= counted {
                cpu.sound - counted
            } else {
                0
            }
            &&& after.pc == cpu.pc && after.index == cpu.index && after.regs == cpu.regs
        }),
    decreases readings.len(),
{
    if readings.len() > 0 {
        lemma_timer_pacing(cpu, readings.drop_last(), latest);
    }
}

/// Within one interval the timers count down once: if the timers counted
/// down at one clock reading, they do not at another that lies before the
/// end of the interval after the one they accounted for.
pub proof fn lemma_one_tick_per_interval(cpu: CpuView, first: u128, second: u128)
    requires
        interval_due(cpu.ticks, first),
        second * TIMER_HZ < (cpu.ticks + 2) * NANOS_PER_SECOND,
    ensures
        ticked(ticked(cpu, first), second) == ticked(cpu, first),
        ticked(cpu, first).delay == if cpu.delay > 0 {
            cpu.delay - 1
        } else {
            0
        },
{
}

} // verus!
