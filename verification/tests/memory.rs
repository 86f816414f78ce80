use rchip8::guestsystem::components::memory::{Memory, FONTS_ADDRESS, FOUR_KIBI, PROGRAM_ADDRESS};
use rchip8::logic::interpreter::Interpreter;

#[test]
fn new_memory_is_zero_and_empty() {
    let mut memory = Memory::new();
    assert_eq!(memory.get_heap_size(), 4096);
    assert_eq!(FOUR_KIBI, 4096);
    let mut address: u16 = 0;
    while address < 4096 {
        assert_eq!(memory.at_address(address), 0);
        address += 1;
    }
    assert_eq!(memory.stack_depth(), 0);
    assert_eq!(memory.pop_stack(), None);
}

#[test]
fn load_program_writes_at_the_origin() {
    let mut memory = Memory::new();
    memory.load_program(&[1, 2, 3]);
    assert_eq!(PROGRAM_ADDRESS, 0x200);
    assert_eq!(memory.at_address(0x1FF), 0);
    assert_eq!(memory.at_address(0x200), 1);
    assert_eq!(memory.at_address(0x201), 2);
    assert_eq!(memory.at_address(0x202), 3);
    assert_eq!(memory.at_address(0x203), 0);
}

#[test]
fn load_program_takes_the_largest_image() {
    let mut memory = Memory::new();
    let image: Vec<u8> = vec![0x5A; 4096 - 0x200];
    memory.load_program(&image);
    assert_eq!(memory.at_address(0x200), 0x5A);
    assert_eq!(memory.at_address(0xFFF), 0x5A);
    assert_eq!(memory.at_address(0x1FF), 0);
}

#[test]
fn load_program_with_nothing_changes_nothing() {
    let mut memory = Memory::new();
    memory.set_heap(0x200, 7);
    memory.load_program(&[]);
    assert_eq!(memory.at_address(0x200), 7);
}

#[test]
fn load_fonts_writes_at_the_font_origin() {
    let mut memory = Memory::new();
    let fonts = Interpreter::new().generate_fonts();
    memory.load_fonts(fonts);
    assert_eq!(FONTS_ADDRESS, 0x50);
    assert_eq!(memory.at_address(0x4F), 0);
    let mut i = 0;
    while i < 80 {
        assert_eq!(memory.at_address(0x50 + i as u16), fonts[i]);
        i += 1;
    }
    assert_eq!(memory.at_address(0xA0), 0);
}

#[test]
fn load_writes_anywhere_in_the_heap() {
    let mut memory = Memory::new();
    memory.load(&[9, 8, 7], 4093);
    assert_eq!(memory.at_address(4092), 0);
    assert_eq!(memory.at_address(4093), 9);
    assert_eq!(memory.at_address(4094), 8);
    assert_eq!(memory.at_address(4095), 7);
}

#[test]
fn get_font_points_to_each_glyph() {
    let memory = Memory::new();
    assert_eq!(memory.get_font(0x0), 0x50);
    assert_eq!(memory.get_font(0x1), 0x55);
    assert_eq!(memory.get_font(0xA), 0x82);
    assert_eq!(memory.get_font(0xF), 0x9B);
    assert_eq!(memory.get_font(0x10), 0xA0);
    assert_eq!(memory.get_font(0xFF), 0x50 + 5 * 255);
}

#[test]
fn set_heap_changes_one_byte() {
    let mut memory = Memory::new();
    memory.set_heap(0x300, 0xAA);
    assert_eq!(memory.at_address(0x2FF), 0);
    assert_eq!(memory.at_address(0x300), 0xAA);
    assert_eq!(memory.at_address(0x301), 0);
    memory.set_heap(0x300, 0xBB);
    assert_eq!(memory.at_address(0x300), 0xBB);
}

#[test]
fn get_heap_slice_gives_the_bytes_in_order() {
    let mut memory = Memory::new();
    memory.load(&[1, 2, 3, 4, 5], 0x400);
    assert_eq!(memory.get_heap_slice(0x401, 3), &[2, 3, 4]);
    assert_eq!(memory.get_heap_slice(0x400, 0), &[] as &[u8]);
    assert_eq!(memory.get_heap_slice(0xFFF, 1), &[0]);
    assert_eq!(memory.get_heap_slice(0, 4096).len(), 4096);
}

#[test]
fn stack_gives_back_the_newest_first() {
    let mut memory = Memory::new();
    memory.push_stack(0x200);
    memory.push_stack(0x300);
    memory.push_stack(0xFFFF);
    assert_eq!(memory.stack_depth(), 3);
    assert_eq!(memory.pop_stack(), Some(0xFFFF));
    assert_eq!(memory.pop_stack(), Some(0x300));
    assert_eq!(memory.stack_depth(), 1);
    assert_eq!(memory.pop_stack(), Some(0x200));
    assert_eq!(memory.pop_stack(), None);
    assert_eq!(memory.pop_stack(), None);
    assert_eq!(memory.stack_depth(), 0);
}

#[test]
fn stack_and_heap_do_not_touch() {
    let mut memory = Memory::new();
    memory.set_heap(0, 0x11);
    memory.push_stack(0x222);
    assert_eq!(memory.at_address(0), 0x11);
    memory.set_heap(1, 0x33);
    assert_eq!(memory.pop_stack(), Some(0x222));
    assert_eq!(memory.at_address(1), 0x33);
}
