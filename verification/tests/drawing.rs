//! The framebuffer: clearing, sprite drawing, XOR toggling, wraparound and
//! the collision flag.

use chip8::machine::Chip8;

/// A machine with an all-0xFF sprite row at 0x300 and I pointing at it.
fn with_solid_row() -> Chip8 {
    let mut c = Chip8::new();
    c.memory[0x300] = 0xFF;
    c.index = 0x300;
    c
}

#[test]
fn draw_lights_eight_pixels() {
    let mut c = with_solid_row();
    c.registers[0] = 0;
    c.registers[1] = 0;
    // D011: one row at (V0, V1)
    c.draw(0xD011);
    for x in 0..8 {
        assert!(c.pixel(x, 0));
    }
    assert!(!c.pixel(8, 0));
    assert_eq!(c.registers[15], 0);
}

#[test]
fn draw_twice_restores_framebuffer_and_reports_collision() {
    let mut c = with_solid_row();
    c.registers[0] = 12;
    c.registers[1] = 5;
    c.draw(0xD011);
    let after_first = c.video.clone();
    c.draw(0xD011);
    assert_eq!(c.registers[15], 1);
    for p in 0..64 * 32 {
        assert!(!c.video[p]);
    }
    assert_ne!(after_first, c.video);
}

#[test]
fn draw_wraps_horizontally_at_sixty() {
    let mut c = with_solid_row();
    c.registers[0] = 60;
    c.registers[1] = 0;
    c.draw(0xD011);
    for x in 60..64 {
        assert!(c.pixel(x, 0));
    }
    for x in 0..4 {
        assert!(c.pixel(x, 0));
    }
    assert!(!c.pixel(4, 0));
    assert!(!c.pixel(59, 0));
}

#[test]
fn draw_wraps_vertically() {
    let mut c = Chip8::new();
    c.memory[0x300] = 0x80;
    c.memory[0x301] = 0x80;
    c.memory[0x302] = 0x80;
    c.index = 0x300;
    c.registers[0] = 0;
    c.registers[1] = 30;
    // three rows starting at y = 30: rows 30, 31, 0
    c.draw(0xD013);
    assert!(c.pixel(0, 30));
    assert!(c.pixel(0, 31));
    assert!(c.pixel(0, 0));
    assert!(!c.pixel(0, 1));
}

#[test]
fn draw_coordinates_are_taken_modulo_screen() {
    let mut c = with_solid_row();
    c.registers[0] = 64; // folds to x = 0
    c.registers[1] = 32; // folds to y = 0
    c.draw(0xD011);
    assert!(c.pixel(0, 0));
    assert!(c.pixel(7, 0));
}

#[test]
fn partial_overlap_sets_collision_and_xors() {
    let mut c = with_solid_row();
    c.registers[0] = 0;
    c.registers[1] = 0;
    c.draw(0xD011);
    // overlap the right half: pixels 4..8 toggle off, 8..12 toggle on
    c.registers[0] = 4;
    c.draw(0xD011);
    assert_eq!(c.registers[15], 1);
    for x in 0..4 {
        assert!(c.pixel(x, 0));
    }
    for x in 4..8 {
        assert!(!c.pixel(x, 0));
    }
    for x in 8..12 {
        assert!(c.pixel(x, 0));
    }
}

#[test]
fn clear_screen_unlights_everything() {
    let mut c = with_solid_row();
    c.registers[0] = 3;
    c.registers[1] = 3;
    c.draw(0xD011);
    c.clear_screen();
    for p in 0..64 * 32 {
        assert!(!c.video[p]);
    }
}

#[test]
fn draw_a_font_glyph() {
    let mut c = Chip8::new();
    c.registers[7] = 0x0;
    // F729: I = glyph address for the digit in V7
    c.set_index_to_font(0xF729);
    assert_eq!(c.index, 0x50);
    c.registers[0] = 0;
    c.registers[1] = 0;
    // the five-row glyph for 0: 0xF0, 0x90, 0x90, 0x90, 0xF0
    c.draw(0xD015);
    assert!(c.pixel(0, 0) && c.pixel(1, 0) && c.pixel(2, 0) && c.pixel(3, 0));
    assert!(!c.pixel(4, 0));
    assert!(c.pixel(0, 1) && !c.pixel(1, 1) && !c.pixel(2, 1) && c.pixel(3, 1));
}
