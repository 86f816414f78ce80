use rchip8::config::CpuConfig;
use rchip8::guestsystem::components::cpu::{Cpu, CpuInst};
use rchip8::guestsystem::components::display::DisplayScreen;
use rchip8::guestsystem::components::keypad::{Keypad, SCANCODE_NUM4, SCANCODE_Q};
use rchip8::guestsystem::components::memory::Memory;
use rchip8::logic::interpreter::Interpreter;

struct Bench {
    cpu: Cpu,
    memory: Memory,
    display: DisplayScreen,
    keypad: Keypad,
    interpreter: Interpreter,
}

fn bench_with(config: CpuConfig) -> Bench {
    Bench {
        cpu: Cpu::new(config),
        memory: Memory::new(),
        display: DisplayScreen::new(),
        keypad: Keypad::new(),
        interpreter: Interpreter::new(),
    }
}

fn bench() -> Bench {
    bench_with(CpuConfig::default())
}

fn run(bench: &mut Bench, instruction: CpuInst) {
    bench.cpu.execute_with(
        &instruction,
        &bench.interpreter,
        &mut bench.memory,
        &mut bench.display,
        &bench.keypad,
        0,
    );
}

fn set(bench: &mut Bench, x: u8, value: u8) {
    run(bench, CpuInst::SetXNN(x, value));
}

fn registers(bench: &Bench) -> Vec<u8> {
    let mut values: Vec<u8> = Vec::new();
    let mut x: u8 = 0;
    while x < 16 {
        values.push(bench.cpu.get_register(x));
        x += 1;
    }
    values
}

fn count_lit(display: &DisplayScreen) -> usize {
    let mut count = 0;
    let mut x: u8 = 0;
    while x < 64 {
        let mut y: u8 = 0;
        while y < 32 {
            if display.pixel(x, y) {
                count += 1;
            }
            y += 1;
        }
        x += 1;
    }
    count
}

#[test]
fn a_new_cpu_is_all_zero() {
    let b = bench();
    assert_eq!(b.cpu.get_pc(), 0);
    assert_eq!(b.cpu.get_index(), 0);
    assert_eq!(registers(&b), vec![0; 16]);
    assert_eq!(b.cpu.get_delay_timer(), 0);
    assert_eq!(b.cpu.get_sound_timer(), 0);
    assert!(!b.cpu.should_beep());
}

#[test]
fn point_pc_to_program_sets_the_origin() {
    let mut b = bench();
    b.cpu.point_pc_to_program();
    assert_eq!(b.cpu.get_pc(), 0x200);
}

#[test]
fn set_flag_register_writes_register_fifteen() {
    let mut b = bench();
    b.cpu.set_flag_register(7);
    let mut expected = vec![0; 16];
    expected[15] = 7;
    assert_eq!(registers(&b), expected);
}

#[test]
fn set_pc_keeps_an_address_in_range() {
    let mut b = bench();
    b.cpu.set_pc(0x345, 0xFFF);
    assert_eq!(b.cpu.get_pc(), 0x345);
    b.cpu.set_pc(0xFFF, 0xFFF);
    assert_eq!(b.cpu.get_pc(), 0xFFF);
    b.cpu.set_pc(0, 0);
    assert_eq!(b.cpu.get_pc(), 0);
}

#[test]
fn set_pc_returns_to_the_origin_beyond_the_maximum() {
    let mut b = bench();
    b.cpu.set_pc(0x1000, 0xFFF);
    assert_eq!(b.cpu.get_pc(), 0x200);
    b.cpu.set_pc(0x301, 0x300);
    assert_eq!(b.cpu.get_pc(), 0x200);
    b.cpu.set_pc(0xFFFF, 0xFFF);
    assert_eq!(b.cpu.get_pc(), 0x200);
}

#[test]
fn fetch_reads_the_word_and_steps() {
    let mut b = bench();
    b.memory.load_program(&[0x6A, 0x02, 0x7A, 0x01]);
    b.cpu.point_pc_to_program();
    assert_eq!(b.cpu.fetch(&b.memory, &b.interpreter), 0x6A02);
    assert_eq!(b.cpu.get_pc(), 0x202);
    assert_eq!(b.cpu.fetch(&b.memory, &b.interpreter), 0x7A01);
    assert_eq!(b.cpu.get_pc(), 0x204);
}

#[test]
fn fetch_at_the_end_of_the_heap_returns_to_the_origin() {
    let mut b = bench();
    b.memory.set_heap(0xFFE, 0x12);
    b.memory.set_heap(0xFFF, 0x34);
    b.memory.set_heap(0x000, 0x56);
    b.cpu.set_pc(0xFFE, 0xFFF);
    assert_eq!(b.cpu.fetch(&b.memory, &b.interpreter), 0x1234);
    assert_eq!(b.cpu.get_pc(), 0x200);
    b.cpu.set_pc(0xFFF, 0xFFF);
    assert_eq!(b.cpu.fetch(&b.memory, &b.interpreter), 0x3456);
    assert_eq!(b.cpu.get_pc(), 0x200);
    b.cpu.set_pc(0xFFD, 0xFFF);
    b.cpu.fetch(&b.memory, &b.interpreter);
    assert_eq!(b.cpu.get_pc(), 0xFFF);
}

#[test]
fn cpu_decode_is_the_interpreters() {
    let b = bench();
    assert_eq!(b.cpu.decode(0xD01F, &b.interpreter), CpuInst::DisplayXYN(0, 1, 15));
    assert_eq!(b.cpu.decode(0x00E0, &b.interpreter), CpuInst::Cls);
}

#[test]
fn machine_call_and_invalid_do_nothing() {
    let mut b = bench();
    set(&mut b, 3, 9);
    b.cpu.set_pc(0x222, 0xFFF);
    run(&mut b, CpuInst::ExecMlrNNN(0x123));
    run(&mut b, CpuInst::InvalidInstruction);
    assert_eq!(b.cpu.get_pc(), 0x222);
    assert_eq!(b.cpu.get_register(3), 9);
    assert_eq!(b.memory.stack_depth(), 0);
}

#[test]
fn clear_screen_blanks_the_display() {
    let mut b = bench();
    b.display.display(0, 0, &[0xFF]);
    run(&mut b, CpuInst::Cls);
    assert_eq!(count_lit(&b.display), 0);
}

#[test]
fn jump_sets_the_program_counter() {
    let mut b = bench();
    run(&mut b, CpuInst::JmpNNN(0x228));
    assert_eq!(b.cpu.get_pc(), 0x228);
    assert_eq!(b.memory.stack_depth(), 0);
}

#[test]
fn call_pushes_and_return_pops() {
    let mut b = bench();
    b.cpu.set_pc(0x202, 0xFFF);
    run(&mut b, CpuInst::SubRoutineNNN(0x400));
    assert_eq!(b.cpu.get_pc(), 0x400);
    assert_eq!(b.memory.stack_depth(), 1);
    b.cpu.set_pc(0x402, 0xFFF);
    run(&mut b, CpuInst::SubRoutineNNN(0x600));
    assert_eq!(b.memory.stack_depth(), 2);
    run(&mut b, CpuInst::SubRoutineReturn);
    assert_eq!(b.cpu.get_pc(), 0x402);
    run(&mut b, CpuInst::SubRoutineReturn);
    assert_eq!(b.cpu.get_pc(), 0x202);
    assert_eq!(b.memory.stack_depth(), 0);
}

#[test]
fn return_reduces_a_foreign_address_into_the_heap() {
    let mut b = bench();
    b.memory.push_stack(0x1234);
    run(&mut b, CpuInst::SubRoutineReturn);
    assert_eq!(b.cpu.get_pc(), 0x234);
}

#[test]
fn skip_if_equal_to_a_byte() {
    let mut b = bench();
    set(&mut b, 2, 0x33);
    b.cpu.set_pc(0x300, 0xFFF);
    run(&mut b, CpuInst::SkipIfEqXNN(2, 0x33));
    assert_eq!(b.cpu.get_pc(), 0x302);
    run(&mut b, CpuInst::SkipIfEqXNN(2, 0x34));
    assert_eq!(b.cpu.get_pc(), 0x302);
    run(&mut b, CpuInst::SkipIfNotEqXNN(2, 0x34));
    assert_eq!(b.cpu.get_pc(), 0x304);
    run(&mut b, CpuInst::SkipIfNotEqXNN(2, 0x33));
    assert_eq!(b.cpu.get_pc(), 0x304);
}

#[test]
fn skip_if_registers_are_equal() {
    let mut b = bench();
    set(&mut b, 1, 5);
    set(&mut b, 2, 5);
    set(&mut b, 3, 6);
    b.cpu.set_pc(0x300, 0xFFF);
    run(&mut b, CpuInst::SkipIfEqXY(1, 2));
    assert_eq!(b.cpu.get_pc(), 0x302);
    run(&mut b, CpuInst::SkipIfEqXY(1, 3));
    assert_eq!(b.cpu.get_pc(), 0x302);
    run(&mut b, CpuInst::SkipIfNotEqXY(1, 3));
    assert_eq!(b.cpu.get_pc(), 0x304);
    run(&mut b, CpuInst::SkipIfNotEqXY(1, 2));
    assert_eq!(b.cpu.get_pc(), 0x304);
}

#[test]
fn a_skip_at_the_end_of_the_heap_returns_to_the_origin() {
    let mut b = bench();
    b.cpu.set_pc(0xFFE, 0xFFF);
    run(&mut b, CpuInst::SkipIfEqXNN(0, 0));
    assert_eq!(b.cpu.get_pc(), 0x200);
    b.cpu.set_pc(0xFFD, 0xFFF);
    run(&mut b, CpuInst::SkipIfEqXNN(0, 0));
    assert_eq!(b.cpu.get_pc(), 0xFFF);
}

#[test]
fn set_and_add_a_byte() {
    let mut b = bench();
    run(&mut b, CpuInst::SetXNN(0xA, 0x02));
    assert_eq!(b.cpu.get_register(0xA), 0x02);
    run(&mut b, CpuInst::AddXNN(0xA, 0x01));
    assert_eq!(b.cpu.get_register(0xA), 0x03);
    run(&mut b, CpuInst::AddXNN(0xA, 0xFE));
    assert_eq!(b.cpu.get_register(0xA), 0x01);
    // adding a byte leaves the flag alone
    assert_eq!(b.cpu.get_register(0xF), 0);
}

#[test]
fn copy_and_bitwise_operations() {
    let mut b = bench();
    set(&mut b, 1, 0b1100);
    set(&mut b, 2, 0b1010);
    run(&mut b, CpuInst::SetXY(3, 1));
    assert_eq!(b.cpu.get_register(3), 0b1100);
    run(&mut b, CpuInst::BitOrXY(3, 2));
    assert_eq!(b.cpu.get_register(3), 0b1110);
    run(&mut b, CpuInst::SetXY(4, 1));
    run(&mut b, CpuInst::BitAndXY(4, 2));
    assert_eq!(b.cpu.get_register(4), 0b1000);
    run(&mut b, CpuInst::SetXY(5, 1));
    run(&mut b, CpuInst::BitXorXY(5, 2));
    assert_eq!(b.cpu.get_register(5), 0b0110);
    assert_eq!(b.cpu.get_register(1), 0b1100);
    assert_eq!(b.cpu.get_register(2), 0b1010);
    assert_eq!(b.cpu.get_register(0xF), 0);
}

#[test]
fn addition_wraps_and_flags_the_carry() {
    let mut b = bench();
    set(&mut b, 0, 0xFF);
    set(&mut b, 1, 0x02);
    run(&mut b, CpuInst::AddXY(0, 1));
    assert_eq!(b.cpu.get_register(0), 0x01);
    assert_eq!(b.cpu.get_register(0xF), 1);
    assert_eq!(b.cpu.get_register(1), 0x02);
}

#[test]
fn addition_without_carry_clears_the_flag() {
    let mut b = bench();
    b.cpu.set_flag_register(1);
    set(&mut b, 0, 0xF0);
    set(&mut b, 1, 0x0F);
    run(&mut b, CpuInst::AddXY(0, 1));
    assert_eq!(b.cpu.get_register(0), 0xFF);
    assert_eq!(b.cpu.get_register(0xF), 0);
}

#[test]
fn addition_into_the_flag_register_keeps_the_sum() {
    let mut b = bench();
    set(&mut b, 0xF, 0xFF);
    set(&mut b, 1, 0x03);
    run(&mut b, CpuInst::AddXY(0xF, 1));
    assert_eq!(b.cpu.get_register(0xF), 0x02);
}

#[test]
fn subtraction_from_the_left_wraps_and_flags() {
    let mut b = bench();
    set(&mut b, 0, 0x00);
    set(&mut b, 1, 0x01);
    run(&mut b, CpuInst::SubtFromLeftXY(0, 1));
    assert_eq!(b.cpu.get_register(0), 0xFF);
    assert_eq!(b.cpu.get_register(0xF), 0);
    set(&mut b, 2, 0x0A);
    set(&mut b, 3, 0x03);
    run(&mut b, CpuInst::SubtFromLeftXY(2, 3));
    assert_eq!(b.cpu.get_register(2), 0x07);
    assert_eq!(b.cpu.get_register(0xF), 1);
}

#[test]
fn subtraction_of_equals_clears_the_flag() {
    let mut b = bench();
    b.cpu.set_flag_register(1);
    set(&mut b, 2, 0x44);
    set(&mut b, 3, 0x44);
    run(&mut b, CpuInst::SubtFromLeftXY(2, 3));
    assert_eq!(b.cpu.get_register(2), 0);
    assert_eq!(b.cpu.get_register(0xF), 0);
}

#[test]
fn subtraction_from_the_right_takes_the_other_order() {
    let mut b = bench();
    set(&mut b, 0, 0x03);
    set(&mut b, 1, 0x0A);
    run(&mut b, CpuInst::SubtFromRightXY(0, 1));
    assert_eq!(b.cpu.get_register(0), 0x07);
    assert_eq!(b.cpu.get_register(1), 0x0A);
    assert_eq!(b.cpu.get_register(0xF), 1);
    set(&mut b, 2, 0x01);
    set(&mut b, 3, 0x00);
    run(&mut b, CpuInst::SubtFromRightXY(2, 3));
    assert_eq!(b.cpu.get_register(2), 0xFF);
    assert_eq!(b.cpu.get_register(0xF), 0);
}

#[test]
fn shift_left_flags_the_top_bit() {
    let mut b = bench();
    set(&mut b, 4, 0x81);
    set(&mut b, 5, 0x10);
    run(&mut b, CpuInst::ShiftLeftXY(4, 5));
    assert_eq!(b.cpu.get_register(4), 0x02);
    assert_eq!(b.cpu.get_register(0xF), 1);
    run(&mut b, CpuInst::ShiftLeftXY(4, 5));
    assert_eq!(b.cpu.get_register(4), 0x04);
    assert_eq!(b.cpu.get_register(0xF), 0);
    assert_eq!(b.cpu.get_register(5), 0x10);
}

#[test]
fn shift_right_flags_the_low_bit() {
    let mut b = bench();
    set(&mut b, 4, 0x01);
    set(&mut b, 5, 0x10);
    run(&mut b, CpuInst::ShiftRightXY(4, 5));
    assert_eq!(b.cpu.get_register(4), 0x00);
    assert_eq!(b.cpu.get_register(0xF), 1);
    set(&mut b, 4, 0x06);
    run(&mut b, CpuInst::ShiftRightXY(4, 5));
    assert_eq!(b.cpu.get_register(4), 0x03);
    assert_eq!(b.cpu.get_register(0xF), 0);
}

#[test]
fn legacy_shifts_take_the_other_register() {
    let mut b = bench_with(CpuConfig::new(false, false, true, true));
    set(&mut b, 4, 0x01);
    set(&mut b, 5, 0x81);
    run(&mut b, CpuInst::ShiftLeftXY(4, 5));
    assert_eq!(b.cpu.get_register(4), 0x02);
    assert_eq!(b.cpu.get_register(5), 0x81);
    assert_eq!(b.cpu.get_register(0xF), 1);
    set(&mut b, 6, 0xFF);
    set(&mut b, 7, 0x04);
    run(&mut b, CpuInst::ShiftRightXY(6, 7));
    assert_eq!(b.cpu.get_register(6), 0x02);
    assert_eq!(b.cpu.get_register(0xF), 0);
}

#[test]
fn a_shift_of_the_flag_register_leaves_the_flag() {
    let mut b = bench();
    set(&mut b, 0xF, 0x81);
    run(&mut b, CpuInst::ShiftLeftXY(0xF, 0));
    assert_eq!(b.cpu.get_register(0xF), 1);
    set(&mut b, 0xF, 0x02);
    run(&mut b, CpuInst::ShiftRightXY(0xF, 0));
    assert_eq!(b.cpu.get_register(0xF), 0);
}

#[test]
fn set_index_sets_the_index_register() {
    let mut b = bench();
    run(&mut b, CpuInst::SetIndexNNN(0x2EA));
    assert_eq!(b.cpu.get_index(), 0x2EA);
}

#[test]
fn legacy_jump_with_offset_adds_register_zero() {
    let mut b = bench();
    set(&mut b, 0, 0x10);
    set(&mut b, 3, 0x80);
    run(&mut b, CpuInst::JmpOffsetNNN(0x300));
    assert_eq!(b.cpu.get_pc(), 0x310);
}

#[test]
fn modern_jump_with_offset_adds_the_named_register() {
    let mut b = bench_with(CpuConfig::new(true, true, true, true));
    set(&mut b, 0, 0x10);
    set(&mut b, 3, 0x80);
    run(&mut b, CpuInst::JmpOffsetNNN(0x300));
    assert_eq!(b.cpu.get_pc(), 0x380);
    run(&mut b, CpuInst::JmpOffsetNNN(0x020));
    assert_eq!(b.cpu.get_pc(), 0x030);
}

#[test]
fn a_jump_with_offset_goes_round_the_heap() {
    let mut b = bench();
    set(&mut b, 0, 0xFF);
    run(&mut b, CpuInst::JmpOffsetNNN(0xFFF));
    assert_eq!(b.cpu.get_pc(), 0x0FE);
    set(&mut b, 0, 0x01);
    run(&mut b, CpuInst::JmpOffsetNNN(0xFFF));
    assert_eq!(b.cpu.get_pc(), 0x000);
}

#[test]
fn random_masks_the_byte_drawn() {
    let mut b = bench();
    b.cpu.execute_with(
        &CpuInst::RandomXNN(3, 0x0F),
        &b.interpreter,
        &mut b.memory,
        &mut b.display,
        &b.keypad,
        0xAB,
    );
    assert_eq!(b.cpu.get_register(3), 0x0B);
    b.cpu.execute_with(
        &CpuInst::RandomXNN(3, 0xF0),
        &b.interpreter,
        &mut b.memory,
        &mut b.display,
        &b.keypad,
        0xAB,
    );
    assert_eq!(b.cpu.get_register(3), 0xA0);
    b.cpu.execute_with(
        &CpuInst::RandomXNN(3, 0x00),
        &b.interpreter,
        &mut b.memory,
        &mut b.display,
        &b.keypad,
        0xFF,
    );
    assert_eq!(b.cpu.get_register(3), 0x00);
}

#[test]
fn execute_draws_a_random_byte_under_the_mask() {
    let mut b = bench();
    let mut seen_nonzero = false;
    let mut round = 0;
    while round < 200 {
        b.cpu.execute(
            &CpuInst::RandomXNN(3, 0x3C),
            &b.interpreter,
            &mut b.memory,
            &mut b.display,
            &b.keypad,
        );
        let value = b.cpu.get_register(3);
        assert_eq!(value & !0x3C, 0);
        if value != 0 {
            seen_nonzero = true;
        }
        round += 1;
    }
    assert!(seen_nonzero);
    assert_eq!(b.cpu.get_pc(), 0);
}

#[test]
fn execute_does_what_execute_with_does() {
    let mut b = bench();
    b.cpu.execute(
        &CpuInst::SetXNN(0, 0xFF),
        &b.interpreter,
        &mut b.memory,
        &mut b.display,
        &b.keypad,
    );
    b.cpu.execute(
        &CpuInst::SetXNN(1, 0x02),
        &b.interpreter,
        &mut b.memory,
        &mut b.display,
        &b.keypad,
    );
    b.cpu.execute(
        &CpuInst::AddXY(0, 1),
        &b.interpreter,
        &mut b.memory,
        &mut b.display,
        &b.keypad,
    );
    assert_eq!(b.cpu.get_register(0), 0x01);
    assert_eq!(b.cpu.get_register(0xF), 1);
}

#[test]
fn draw_blits_the_sprite_at_the_index() {
    let mut b = bench();
    b.memory.load(&[0xF0, 0x90], 0x300);
    run(&mut b, CpuInst::SetIndexNNN(0x300));
    set(&mut b, 0, 4);
    set(&mut b, 1, 2);
    b.cpu.set_flag_register(9);
    run(&mut b, CpuInst::DisplayXYN(0, 1, 2));
    assert_eq!(b.cpu.get_register(0xF), 0);
    assert_eq!(count_lit(&b.display), 6);
    assert!(b.display.pixel(4, 2));
    assert!(b.display.pixel(7, 2));
    assert!(b.display.pixel(4, 3));
    assert!(!b.display.pixel(5, 3));
    assert!(b.display.pixel(7, 3));
    assert_eq!(b.cpu.get_index(), 0x300);
    run(&mut b, CpuInst::DisplayXYN(0, 1, 2));
    assert_eq!(b.cpu.get_register(0xF), 1);
    assert_eq!(count_lit(&b.display), 0);
}

#[test]
fn draw_of_no_rows_draws_nothing() {
    let mut b = bench();
    b.memory.load(&[0xFF], 0x300);
    run(&mut b, CpuInst::SetIndexNNN(0x300));
    b.cpu.set_flag_register(1);
    run(&mut b, CpuInst::DisplayXYN(0, 1, 0));
    assert_eq!(count_lit(&b.display), 0);
    assert_eq!(b.cpu.get_register(0xF), 0);
}

#[test]
fn draw_reads_the_sprite_round_the_heap() {
    let mut b = bench();
    b.memory.set_heap(0xFFF, 0x80);
    b.memory.set_heap(0x000, 0x40);
    b.memory.set_heap(0x001, 0x20);
    run(&mut b, CpuInst::SetIndexNNN(0xFFF));
    run(&mut b, CpuInst::DisplayXYN(2, 2, 3));
    assert_eq!(count_lit(&b.display), 3);
    assert!(b.display.pixel(0, 0));
    assert!(b.display.pixel(1, 1));
    assert!(b.display.pixel(2, 2));
}

#[test]
fn draw_takes_its_place_before_it_resets_the_flag() {
    let mut b = bench();
    b.memory.load(&[0x80], 0x300);
    run(&mut b, CpuInst::SetIndexNNN(0x300));
    set(&mut b, 0xF, 9);
    run(&mut b, CpuInst::DisplayXYN(0xF, 0xF, 1));
    assert!(b.display.pixel(9, 9));
    assert_eq!(b.cpu.get_register(0xF), 0);
}

#[test]
fn key_skips_follow_the_keypad() {
    let mut b = bench();
    set(&mut b, 1, 0x4);
    set(&mut b, 2, 0x5);
    b.cpu.set_pc(0x300, 0xFFF);
    b.keypad.set_current_key(Some(SCANCODE_Q));
    run(&mut b, CpuInst::SkipIfKeyX(1));
    assert_eq!(b.cpu.get_pc(), 0x302);
    run(&mut b, CpuInst::SkipIfKeyX(2));
    assert_eq!(b.cpu.get_pc(), 0x302);
    run(&mut b, CpuInst::SkipIfNotKeyX(2));
    assert_eq!(b.cpu.get_pc(), 0x304);
    run(&mut b, CpuInst::SkipIfNotKeyX(1));
    assert_eq!(b.cpu.get_pc(), 0x304);
}

#[test]
fn key_skips_with_no_key_down() {
    let mut b = bench();
    b.cpu.set_pc(0x300, 0xFFF);
    run(&mut b, CpuInst::SkipIfKeyX(0));
    assert_eq!(b.cpu.get_pc(), 0x300);
    run(&mut b, CpuInst::SkipIfNotKeyX(0));
    assert_eq!(b.cpu.get_pc(), 0x302);
}

#[test]
fn key_skips_for_a_value_that_names_no_key() {
    let mut b = bench();
    set(&mut b, 1, 0x44);
    b.keypad.set_current_key(Some(SCANCODE_Q));
    b.cpu.set_pc(0x300, 0xFFF);
    run(&mut b, CpuInst::SkipIfKeyX(1));
    assert_eq!(b.cpu.get_pc(), 0x300);
    run(&mut b, CpuInst::SkipIfNotKeyX(1));
    assert_eq!(b.cpu.get_pc(), 0x302);
}

#[test]
fn wait_for_key_takes_the_key_that_is_down() {
    let mut b = bench();
    set(&mut b, 6, 0x77);
    b.cpu.set_pc(0x300, 0xFFF);
    run(&mut b, CpuInst::WaitForKeyX(6));
    assert_eq!(b.cpu.get_register(6), 0x77);
    assert_eq!(b.cpu.get_pc(), 0x300);
    b.keypad.set_current_key(Some(SCANCODE_NUM4));
    run(&mut b, CpuInst::WaitForKeyX(6));
    assert_eq!(b.cpu.get_register(6), 0xC);
    assert_eq!(b.cpu.get_pc(), 0x300);
    b.keypad.set_current_key(Some(19));
    run(&mut b, CpuInst::WaitForKeyX(6));
    assert_eq!(b.cpu.get_register(6), 0xC);
    assert_eq!(b.cpu.get_register(0xF), 0);
}

#[test]
fn timers_are_set_and_read() {
    let mut b = bench();
    set(&mut b, 1, 0x20);
    set(&mut b, 2, 0x30);
    run(&mut b, CpuInst::SetDelayX(1));
    run(&mut b, CpuInst::SetSoundX(2));
    assert_eq!(b.cpu.get_delay_timer(), 0x20);
    assert_eq!(b.cpu.get_sound_timer(), 0x30);
    assert!(b.cpu.should_beep());
    run(&mut b, CpuInst::SetRegToDelayX(3));
    assert_eq!(b.cpu.get_register(3), 0x20);
    set(&mut b, 2, 0);
    run(&mut b, CpuInst::SetSoundX(2));
    assert!(!b.cpu.should_beep());
    assert_eq!(b.cpu.get_register(0xF), 0);
}

#[test]
fn add_to_index_within_the_heap() {
    let mut b = bench();
    b.cpu.set_flag_register(5);
    run(&mut b, CpuInst::SetIndexNNN(0x100));
    set(&mut b, 1, 0xFF);
    run(&mut b, CpuInst::AddToIndexX(1));
    assert_eq!(b.cpu.get_index(), 0x1FF);
    assert_eq!(b.cpu.get_register(0xF), 5);
    run(&mut b, CpuInst::SetIndexNNN(0xF00));
    run(&mut b, CpuInst::AddToIndexX(1));
    assert_eq!(b.cpu.get_index(), 0xFFF);
    assert_eq!(b.cpu.get_register(0xF), 5);
}

#[test]
fn add_to_index_beyond_the_heap_is_reduced_and_flagged() {
    let mut b = bench();
    run(&mut b, CpuInst::SetIndexNNN(0xFFF));
    set(&mut b, 1, 0x02);
    run(&mut b, CpuInst::AddToIndexX(1));
    assert_eq!(b.cpu.get_index(), 0x001);
    assert_eq!(b.cpu.get_register(0xF), 1);
}

#[test]
fn add_to_index_beyond_the_heap_without_the_flag() {
    let mut b = bench_with(CpuConfig::new(true, false, true, false));
    run(&mut b, CpuInst::SetIndexNNN(0xFFF));
    set(&mut b, 1, 0xFF);
    run(&mut b, CpuInst::AddToIndexX(1));
    assert_eq!(b.cpu.get_index(), 0x0FE);
    assert_eq!(b.cpu.get_register(0xF), 0);
}

#[test]
fn font_pointer_takes_the_low_nibble() {
    let mut b = bench();
    set(&mut b, 1, 0x0A);
    run(&mut b, CpuInst::SetIndexToFontX(1));
    assert_eq!(b.cpu.get_index(), 0x50 + 5 * 0xA);
    set(&mut b, 1, 0xF3);
    run(&mut b, CpuInst::SetIndexToFontX(1));
    assert_eq!(b.cpu.get_index(), 0x50 + 5 * 0x3);
    set(&mut b, 1, 0x00);
    run(&mut b, CpuInst::SetIndexToFontX(1));
    assert_eq!(b.cpu.get_index(), 0x50);
}

#[test]
fn decimal_conversion_stores_three_digits() {
    let mut b = bench();
    run(&mut b, CpuInst::SetIndexNNN(0x400));
    set(&mut b, 1, 254);
    run(&mut b, CpuInst::DecimalConversionX(1));
    assert_eq!(b.memory.get_heap_slice(0x3FF, 5), &[0, 2, 5, 4, 0]);
    set(&mut b, 1, 7);
    run(&mut b, CpuInst::DecimalConversionX(1));
    assert_eq!(b.memory.get_heap_slice(0x400, 3), &[0, 0, 7]);
    set(&mut b, 1, 100);
    run(&mut b, CpuInst::DecimalConversionX(1));
    assert_eq!(b.memory.get_heap_slice(0x400, 3), &[1, 0, 0]);
    set(&mut b, 1, 0);
    run(&mut b, CpuInst::DecimalConversionX(1));
    assert_eq!(b.memory.get_heap_slice(0x400, 3), &[0, 0, 0]);
    assert_eq!(b.cpu.get_index(), 0x400);
    assert_eq!(b.cpu.get_register(0xF), 0);
}

#[test]
fn decimal_conversion_goes_round_the_heap() {
    let mut b = bench();
    run(&mut b, CpuInst::SetIndexNNN(0xFFF));
    set(&mut b, 1, 195);
    run(&mut b, CpuInst::DecimalConversionX(1));
    assert_eq!(b.memory.at_address(0xFFF), 1);
    assert_eq!(b.memory.at_address(0x000), 9);
    assert_eq!(b.memory.at_address(0x001), 5);
}

#[test]
fn store_and_load_round_trip_keeping_the_index() {
    let mut b = bench();
    let mut x: u8 = 0;
    while x < 16 {
        set(&mut b, x, 0x10 + x);
        x += 1;
    }
    run(&mut b, CpuInst::SetIndexNNN(0x500));
    run(&mut b, CpuInst::StoreInMemoryX(5));
    assert_eq!(b.cpu.get_index(), 0x500);
    assert_eq!(
        b.memory.get_heap_slice(0x4FF, 8),
        &[0, 0x10, 0x11, 0x12, 0x13, 0x14, 0x15, 0]
    );
    let mut x: u8 = 0;
    while x < 16 {
        set(&mut b, x, 0xEE);
        x += 1;
    }
    run(&mut b, CpuInst::LoadFromMemoryX(5));
    assert_eq!(b.cpu.get_index(), 0x500);
    let mut expected = vec![0xEE; 16];
    expected[0] = 0x10;
    expected[1] = 0x11;
    expected[2] = 0x12;
    expected[3] = 0x13;
    expected[4] = 0x14;
    expected[5] = 0x15;
    assert_eq!(registers(&b), expected);
}

#[test]
fn store_and_load_round_trip_advancing_the_index() {
    let mut b = bench_with(CpuConfig::new(true, false, false, true));
    let mut x: u8 = 0;
    while x < 16 {
        set(&mut b, x, 0x20 + x);
        x += 1;
    }
    run(&mut b, CpuInst::SetIndexNNN(0x500));
    run(&mut b, CpuInst::StoreInMemoryX(5));
    assert_eq!(b.cpu.get_index(), 0x506);
    assert_eq!(
        b.memory.get_heap_slice(0x4FF, 8),
        &[0, 0x20, 0x21, 0x22, 0x23, 0x24, 0x25, 0]
    );
    let mut x: u8 = 0;
    while x < 16 {
        set(&mut b, x, 0xEE);
        x += 1;
    }
    run(&mut b, CpuInst::SetIndexNNN(0x500));
    run(&mut b, CpuInst::LoadFromMemoryX(5));
    assert_eq!(b.cpu.get_index(), 0x506);
    let mut expected = vec![0xEE; 16];
    expected[0] = 0x20;
    expected[1] = 0x21;
    expected[2] = 0x22;
    expected[3] = 0x23;
    expected[4] = 0x24;
    expected[5] = 0x25;
    assert_eq!(registers(&b), expected);
}

#[test]
fn store_and_load_of_one_and_of_all_registers() {
    let mut b = bench();
    let mut x: u8 = 0;
    while x < 16 {
        set(&mut b, x, 0x30 + x);
        x += 1;
    }
    run(&mut b, CpuInst::SetIndexNNN(0x600));
    run(&mut b, CpuInst::StoreInMemoryX(0));
    assert_eq!(b.memory.get_heap_slice(0x600, 2), &[0x30, 0]);
    run(&mut b, CpuInst::StoreInMemoryX(0xF));
    assert_eq!(b.memory.at_address(0x60F), 0x3F);
    assert_eq!(b.memory.at_address(0x610), 0);
    let saved = registers(&b);
    let mut x: u8 = 0;
    while x < 16 {
        set(&mut b, x, 0);
        x += 1;
    }
    run(&mut b, CpuInst::LoadFromMemoryX(0xF));
    assert_eq!(registers(&b), saved);
}

#[test]
fn store_and_load_go_round_the_heap() {
    let mut b = bench_with(CpuConfig::new(true, false, false, true));
    set(&mut b, 0, 0xA0);
    set(&mut b, 1, 0xA1);
    set(&mut b, 2, 0xA2);
    run(&mut b, CpuInst::SetIndexNNN(0xFFE));
    run(&mut b, CpuInst::StoreInMemoryX(2));
    assert_eq!(b.memory.at_address(0xFFE), 0xA0);
    assert_eq!(b.memory.at_address(0xFFF), 0xA1);
    assert_eq!(b.memory.at_address(0x000), 0xA2);
    assert_eq!(b.cpu.get_index(), 0x001);
    set(&mut b, 0, 0);
    set(&mut b, 1, 0);
    set(&mut b, 2, 0);
    run(&mut b, CpuInst::SetIndexNNN(0xFFE));
    run(&mut b, CpuInst::LoadFromMemoryX(2));
    assert_eq!(b.cpu.get_register(0), 0xA0);
    assert_eq!(b.cpu.get_register(1), 0xA1);
    assert_eq!(b.cpu.get_register(2), 0xA2);
    assert_eq!(b.cpu.get_index(), 0x001);
}
