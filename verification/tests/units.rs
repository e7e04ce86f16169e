//! Unit tests for the leaf components: bit codec, display buffer,
//! keypad state, machine state and timers.

use rusted_chip8::display::DisplayBuffer;
use rusted_chip8::kbrd::{Keyboard, KeyboardController};
use rusted_chip8::mem::{LoadError, Memory, MemoryController};
use rusted_chip8::util::{Bit, Logic, Math2d};

#[test]
fn bcd_of_234_is_2_3_4() {
    assert_eq!(Bit::decimal_to_8bit_bcd_tuple(234), (2, 3, 4));
}

#[test]
fn bcd_of_7_is_0_0_7() {
    assert_eq!(Bit::decimal_to_8bit_bcd_tuple(7), (0, 0, 7));
}

#[test]
fn bcd_of_0_is_0_0_0() {
    assert_eq!(Bit::decimal_to_8bit_bcd_tuple(0), (0, 0, 0));
}

#[test]
fn bcd_of_255_is_2_5_5() {
    assert_eq!(Bit::decimal_to_8bit_bcd_tuple(255), (2, 5, 5));
}

#[test]
fn instr_word_is_big_endian() {
    assert_eq!(Bit::make_16bit_instr_from_bytes(0xA2, 0xF0), 0xA2F0);
    assert_eq!(Bit::make_16bit_instr_from_bytes(0x00, 0xE0), 0x00E0);
}

#[test]
fn addr_from_nibbles() {
    assert_eq!(Bit::make_16bit_addr_from_nibbles(0x2, 0xF, 0x0), 0x2F0);
    assert_eq!(Bit::make_16bit_addr_from_nibbles(0xF, 0xF, 0xF), 0xFFF);
    assert_eq!(Bit::make_16bit_addr_from_nibbles(0, 0, 0), 0);
}

#[test]
fn bool_to_u8_is_the_flag_value() {
    assert_eq!(Logic::bool_to_u8(true), 1);
    assert_eq!(Logic::bool_to_u8(false), 0);
}

#[test]
fn wrap_coord_wraps_by_modulo() {
    assert_eq!(Math2d::wrap_coord(63, 64), 63);
    assert_eq!(Math2d::wrap_coord(64, 64), 0);
    assert_eq!(Math2d::wrap_coord(70, 64), 6);
    assert_eq!(Math2d::wrap_coord(255, 32), 31);
}

#[test]
fn put_twice_reports_collision_second_time() {
    let mut d = DisplayBuffer::new();
    assert_eq!(d.put(3, 4), false);
    assert!(d.is_pixel_on(3, 4));
    assert_eq!(d.put(3, 4), true);
    assert!(!d.is_pixel_on(3, 4));
}

#[test]
fn put_wraps_coordinates() {
    let mut d = DisplayBuffer::new();
    assert_eq!(d.put(64 + 5, 32 + 7), false);
    assert!(d.is_pixel_on(5, 7));
}

#[test]
fn clear_turns_everything_off() {
    let mut d = DisplayBuffer::new();
    d.put(0, 0);
    d.put(63, 31);
    d.clear();
    let grid = d.get_grid();
    assert!(grid.iter().all(|&c| c == 0));
}

#[test]
fn keypad_lowest_key_down() {
    let mut k = KeyboardController::new(Keyboard::new());
    assert_eq!(k.get_any_key_down(), None);
    k.set_key_down_by_index(7);
    k.set_key_down_by_index(3);
    assert_eq!(k.get_any_key_down(), Some(3));
    k.set_key_up_x(3);
    assert_eq!(k.get_any_key_down(), Some(7));
    assert!(k.is_key_x_pressed(7));
    assert!(!k.is_key_x_pressed(3));
    k.reset_state();
    assert_eq!(k.get_any_key_down(), None);
}

#[test]
fn keypad_set_key_down_x_matches_by_index() {
    let mut k = KeyboardController::new(Keyboard::new());
    k.set_key_down_x(0xF);
    assert!(k.is_key_x_pressed(0xF));
    assert_eq!(k.get_any_key_down(), Some(0xF));
}

#[test]
fn memory_starts_at_0x200() {
    let mem = MemoryController::new(Memory::new());
    assert_eq!(mem.get_pc(), 0x200);
    assert_eq!(mem.get_i(), 0);
    assert_eq!(mem.get_sp(), 0);
    assert_eq!(mem.get_dt(), 0);
    assert_eq!(mem.get_st(), 0);
    assert!(mem.get_ram().iter().all(|&b| b == 0));
}

#[test]
fn registers_read_and_write() {
    let mut mem = MemoryController::new(Memory::new());
    for n in 0..16u8 {
        mem.set_v(n, n * 3);
    }
    for n in 0..16u8 {
        assert_eq!(mem.get_v(n), n * 3);
        assert_eq!(mem.get_v_by_nibble(n), n * 3);
    }
    // Selectors outside the register file read as 0 and write nothing.
    assert_eq!(mem.get_v(16), 0);
    mem.set_v_by_nibble(200, 9);
    assert_eq!(mem.get_v(200), 0);
}

#[test]
fn stack_push_and_pop() {
    let mut mem = MemoryController::new(Memory::new());
    mem.set_pc(0x300);
    mem.stack_push(0x400);
    assert_eq!(mem.get_pc(), 0x400);
    assert_eq!(mem.get_sp(), 1);
    mem.stack_pop();
    assert_eq!(mem.get_pc(), 0x300);
    assert_eq!(mem.get_sp(), 0);
}

#[test]
fn timers_decrement_toward_zero_and_stop() {
    let mut mem = MemoryController::new(Memory::new());
    mem.set_dt(1);
    mem.dec_dt();
    assert_eq!(mem.get_dt(), 0);
    mem.dec_dt();
    assert_eq!(mem.get_dt(), 0);
    mem.set_st(2);
    mem.dec_st();
    mem.dec_st();
    mem.dec_st();
    assert_eq!(mem.get_st(), 0);
    mem.set_dt(5);
    mem.set_st(1);
    mem.dec_all_timers();
    assert_eq!(mem.get_dt(), 4);
    assert_eq!(mem.get_st(), 0);
}

#[test]
fn index_register_wraps_16_bits() {
    let mut mem = MemoryController::new(Memory::new());
    mem.set_i(0xFFFF);
    mem.inc_i_by(3);
    assert_eq!(mem.get_i(), 2);
}

#[test]
fn program_counter_wraps_16_bits() {
    let mut mem = MemoryController::new(Memory::new());
    mem.set_pc(0xFFFE);
    mem.inc_pc_by(4);
    assert_eq!(mem.get_pc(), 2);
}

#[test]
fn masked_ram_access_wraps_into_4096() {
    let mut mem = MemoryController::new(Memory::new());
    mem.set_ram_masked(4095, 2, 0xAB);
    assert_eq!(mem.get_ram()[1], 0xAB);
    assert_eq!(mem.get_ram_masked(4095, 2), 0xAB);
    mem.set_ram(100, 7);
    assert_eq!(mem.get_ram()[100], 7);
}

#[test]
fn rom_loads_at_0x200() {
    let mut mem = MemoryController::new(Memory::new());
    let rom = vec![0xDE, 0xAD, 0xBE, 0xEF];
    assert!(mem.init_ram(&rom).is_ok());
    let ram = mem.get_ram();
    assert_eq!(&ram[0x200..0x204], &[0xDE, 0xAD, 0xBE, 0xEF]);
    assert_eq!(ram[0x204], 0);
}

#[test]
fn rom_that_fits_exactly_is_accepted() {
    let mut mem = MemoryController::new(Memory::new());
    let rom = vec![0x11; 3584];
    assert!(mem.init_ram(&rom).is_ok());
    assert_eq!(mem.get_ram()[4095], 0x11);
}

#[test]
fn oversized_rom_is_rejected() {
    let mut mem = MemoryController::new(Memory::new());
    let rom = vec![0x11; 3585];
    assert_eq!(mem.init_ram(&rom), Err(LoadError::RomTooLarge));
    // Nothing was written.
    assert!(mem.get_ram().iter().all(|&b| b == 0));
}

#[test]
fn font_table_sits_at_the_bottom_of_ram() {
    let mut mem = MemoryController::new(Memory::new());
    mem.load_hex_digits();
    let ram = mem.get_ram();
    // Glyph 0.
    assert_eq!(&ram[0..5], &[0xF0, 0x90, 0x90, 0x90, 0xF0]);
    // Glyph 1.
    assert_eq!(&ram[5..10], &[0x20, 0x60, 0x20, 0x20, 0x70]);
    // Glyph F.
    assert_eq!(&ram[75..80], &[0xF0, 0x80, 0xF0, 0x80, 0x80]);
    assert_eq!(ram[80], 0);
}
