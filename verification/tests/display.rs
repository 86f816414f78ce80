use rchip8::guestsystem::components::display::{DisplayScreen, HEIGHT, WIDTH};

fn lit_pixels(screen: &DisplayScreen) -> Vec<(u8, u8)> {
    let mut lit: Vec<(u8, u8)> = Vec::new();
    let mut y: u8 = 0;
    while y < 32 {
        let mut x: u8 = 0;
        while x < 64 {
            if screen.pixel(x, y) {
                lit.push((x, y));
            }
            x += 1;
        }
        y += 1;
    }
    lit
}

#[test]
fn a_new_screen_is_blank() {
    let screen = DisplayScreen::new();
    assert_eq!(WIDTH, 64);
    assert_eq!(HEIGHT, 32);
    assert_eq!(lit_pixels(&screen), vec![]);
}

#[test]
fn one_byte_lights_its_set_bits_left_to_right() {
    let mut screen = DisplayScreen::new();
    let collision = screen.display(10, 5, &[0b1010_0001]);
    assert!(!collision);
    assert_eq!(lit_pixels(&screen), vec![(10, 5), (12, 5), (17, 5)]);
}

#[test]
fn each_byte_is_one_row() {
    let mut screen = DisplayScreen::new();
    let collision = screen.display(0, 0, &[0x80, 0x40, 0x20]);
    assert!(!collision);
    assert_eq!(lit_pixels(&screen), vec![(0, 0), (1, 1), (2, 2)]);
}

#[test]
fn drawing_twice_clears_and_collides() {
    let mut screen = DisplayScreen::new();
    let sprite = [0xF0, 0x90, 0x90, 0x90, 0xF0];
    assert!(!screen.display(20, 10, &sprite));
    assert_eq!(lit_pixels(&screen).len(), 14);
    assert!(screen.display(20, 10, &sprite));
    assert_eq!(lit_pixels(&screen), vec![]);
    assert!(!screen.display(20, 10, &sprite));
}

#[test]
fn a_blank_sprite_never_collides() {
    let mut screen = DisplayScreen::new();
    assert!(!screen.display(3, 3, &[0x00]));
    assert!(!screen.display(3, 3, &[0x00]));
    assert!(!screen.display(3, 3, &[]));
    assert_eq!(lit_pixels(&screen), vec![]);
}

#[test]
fn a_sprite_whose_set_rows_are_clipped_never_collides() {
    let mut screen = DisplayScreen::new();
    assert!(!screen.display(0, 31, &[0x00, 0xFF]));
    assert!(!screen.display(0, 31, &[0x00, 0xFF]));
    assert_eq!(lit_pixels(&screen), vec![]);
}

#[test]
fn a_set_bit_on_a_clear_pixel_does_not_collide() {
    let mut screen = DisplayScreen::new();
    assert!(!screen.display(0, 0, &[0b1100_0000]));
    assert!(!screen.display(0, 0, &[0b0011_0000]));
    assert_eq!(lit_pixels(&screen), vec![(0, 0), (1, 0), (2, 0), (3, 0)]);
    assert!(screen.display(0, 0, &[0b0001_1000]));
    assert_eq!(lit_pixels(&screen), vec![(0, 0), (1, 0), (2, 0), (4, 0)]);
}

#[test]
fn a_clear_bit_leaves_its_pixel() {
    let mut screen = DisplayScreen::new();
    screen.display(0, 0, &[0xFF]);
    assert!(!screen.display(0, 0, &[0x00]));
    assert_eq!(lit_pixels(&screen).len(), 8);
}

#[test]
fn columns_wrap_round_the_right_edge() {
    let mut screen = DisplayScreen::new();
    assert!(!screen.display(63, 0, &[0b1100_0000]));
    assert_eq!(lit_pixels(&screen), vec![(0, 0), (63, 0)]);
}

#[test]
fn a_whole_row_wraps_round_the_right_edge() {
    let mut screen = DisplayScreen::new();
    assert!(!screen.display(60, 2, &[0xFF]));
    assert_eq!(
        lit_pixels(&screen),
        vec![(0, 2), (1, 2), (2, 2), (3, 2), (60, 2), (61, 2), (62, 2), (63, 2)]
    );
}

#[test]
fn rows_below_the_bottom_edge_are_dropped() {
    let mut screen = DisplayScreen::new();
    assert!(!screen.display(0, 31, &[0x80, 0x80, 0x80]));
    assert_eq!(lit_pixels(&screen), vec![(0, 31)]);
}

#[test]
fn a_tall_sprite_is_clipped_at_the_bottom() {
    let mut screen = DisplayScreen::new();
    let sprite = [0x80; 15];
    assert!(!screen.display(5, 20, &sprite));
    let lit = lit_pixels(&screen);
    assert_eq!(lit.len(), 12);
    assert_eq!(lit[0], (5, 20));
    assert_eq!(lit[11], (5, 31));
}

#[test]
fn the_placement_is_reduced_into_the_grid() {
    let mut screen = DisplayScreen::new();
    assert!(!screen.display(64 + 3, 32 + 4, &[0x80]));
    assert_eq!(lit_pixels(&screen), vec![(3, 4)]);
    assert!(screen.display(3, 4, &[0x80]));
    assert!(!screen.display(255, 255, &[0x80]));
    assert_eq!(lit_pixels(&screen), vec![(63, 31)]);
}

#[test]
fn clear_screen_turns_every_pixel_off() {
    let mut screen = DisplayScreen::new();
    screen.display(0, 0, &[0xFF, 0xFF]);
    screen.display(40, 20, &[0xFF, 0xFF]);
    screen.clear_screen();
    assert_eq!(lit_pixels(&screen), vec![]);
    assert!(!screen.display(0, 0, &[0xFF]));
}
