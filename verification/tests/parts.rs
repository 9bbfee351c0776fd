use chip8::{Display, Input, Memory, Timers};

#[test]
fn memory_starts_zeroed() {
    let memory = Memory::new();
    assert!(memory.bytes.iter().all(|b| *b == 0));
    assert_eq!(memory.read_word(0x200), 0);
}

#[test]
fn memory_word_is_big_endian() {
    let mut memory = Memory::new();
    memory.write_byte(0x200, 0x12);
    memory.write_byte(0x201, 0x34);
    assert_eq!(memory.read_byte(0x200), 0x12);
    assert_eq!(memory.read_word(0x200), 0x1234);
    assert_eq!(memory.read_word(0x201), 0x3400);
}

#[test]
fn memory_addresses_wrap() {
    let mut memory = Memory::new();
    memory.write_byte(0x1005, 0xAB);
    assert_eq!(memory.read_byte(0x0005), 0xAB);
    assert_eq!(memory.read_byte(0xF005), 0xAB);
    memory.write_byte(0xFFF, 0xFF);
    memory.write_byte(0x000, 0xEE);
    assert_eq!(memory.read_word(0xFFF), 0xFFEE);
    assert_eq!(memory.read_word(0xFFFF), 0xFFEE);
}

#[test]
fn memory_loads_a_program_at_the_load_address() {
    let mut memory = Memory::new();
    memory.write_byte(0x1FF, 0x77);
    assert!(memory.load_program(&[1, 2, 3]));
    assert_eq!(memory.read_byte(0x1FF), 0x77);
    assert_eq!(memory.read_byte(0x200), 1);
    assert_eq!(memory.read_byte(0x202), 3);
    assert_eq!(memory.read_byte(0x203), 0);
}

#[test]
fn memory_refuses_a_program_that_does_not_fit() {
    let mut memory = Memory::new();
    let largest = vec![0x5Au8; 4096 - 0x200];
    assert!(memory.load_program(&largest));
    assert_eq!(memory.read_byte(0xFFF), 0x5A);
    assert_eq!(memory.read_byte(0x1FF), 0);
    let mut memory = Memory::new();
    let too_large = vec![0x5Au8; 4096 - 0x200 + 1];
    assert!(!memory.load_program(&too_large));
    assert!(memory.bytes.iter().all(|b| *b == 0));
}

#[test]
fn display_draws_most_significant_bit_leftmost() {
    let mut display = Display::new();
    assert!(!display.draw_byte(10, 3, 0b1000_0001));
    display.update();
    assert!(display.is_lit(10, 3));
    assert!(!display.is_lit(11, 3));
    assert!(display.is_lit(17, 3));
    assert!(!display.is_lit(18, 3));
    assert_eq!(display.pixels.iter().filter(|lit| **lit).count(), 2);
}

#[test]
fn display_draw_is_exclusive_or() {
    let mut display = Display::new();
    assert!(!display.draw_byte(0, 0, 0xF0));
    assert!(display.draw_byte(0, 0, 0x30));
    assert!(display.pixels[0]);
    assert!(display.pixels[1]);
    assert!(!display.pixels[2]);
    assert!(!display.pixels[3]);
    assert!(!display.draw_byte(0, 0, 0x0F));
}

#[test]
fn display_coordinates_wrap() {
    let mut display = Display::new();
    assert!(!display.draw_byte(62, 33, 0xE0));
    assert!(display.pixels[64 + 62]);
    assert!(display.pixels[64 + 63]);
    assert!(display.pixels[64]);
    assert_eq!(display.pixels.iter().filter(|lit| **lit).count(), 3);
    assert!(display.draw_byte(64 + 62, 1, 0x80));
    assert!(!display.pixels[64 + 62]);
}

#[test]
fn display_frame_changes_only_on_update() {
    let mut display = Display::new();
    display.draw_byte(0, 0, 0x80);
    assert!(!display.is_lit(0, 0));
    display.update();
    assert!(display.is_lit(0, 0));
    assert!(display.is_lit(64, 32));
    display.clear();
    assert!(display.is_lit(0, 0));
    assert!(!display.pixels[0]);
    display.update();
    assert!(!display.is_lit(0, 0));
}

#[test]
fn input_tracks_keys() {
    let mut input = Input::new();
    assert!(!input.is_key_pressed(0xA));
    input.set_key(0xA, true);
    assert!(input.is_key_pressed(0xA));
    assert!(!input.is_key_pressed(0xB));
    input.set_key(0x1A, true);
    assert!(!input.is_key_pressed(0x1A));
    assert_eq!(input.keys.iter().filter(|k| **k).count(), 1);
    input.set_key(0xA, false);
    assert!(!input.is_key_pressed(0xA));
}

#[test]
fn timers_count_down_to_zero() {
    let mut timers = Timers::new();
    assert_eq!(timers, Timers { delay: 0, sound: 0 });
    timers.delay = 2;
    timers.sound = 1;
    timers.tick();
    assert_eq!(timers, Timers { delay: 1, sound: 0 });
    timers.tick();
    assert_eq!(timers, Timers { delay: 0, sound: 0 });
    timers.tick();
    assert_eq!(timers, Timers { delay: 0, sound: 0 });
}
