//! Opcode semantics, exercised one instruction at a time through the
//! dispatcher.

use rusted_chip8::cpu::{CpuController, CycleError, CycleEvent};
use rusted_chip8::display::DisplayBuffer;
use rusted_chip8::kbrd::{Keyboard, KeyboardController};
use rusted_chip8::mem::{Memory, MemoryController};

/// A zeroed machine with one instruction word placed at 0x200.
fn machine_with(b0: u8, b1: u8) -> (MemoryController, DisplayBuffer, KeyboardController) {
    let mut mem = MemoryController::new(Memory::new());
    mem.set_ram(0x200, b0);
    mem.set_ram(0x201, b1);
    (mem, DisplayBuffer::new(), KeyboardController::new(Keyboard::new()))
}

/// Runs one cycle of the instruction at the program counter.
fn run_one(
    mem: &mut MemoryController,
    disp: &mut DisplayBuffer,
    keys: &KeyboardController,
) -> Result<CycleEvent, CycleError> {
    let mut cpu = CpuController::new(mem, 1, false, false);
    cpu.fetch_exec(disp, mem, keys)
}

#[test]
fn add_vx_vy_sets_carry_iff_sum_overflows() {
    // 8xy4 over a grid of values: VF = 1 iff a + b > 255,
    // v[x] = (a + b) mod 256.
    for &a in &[0u8, 1, 5, 100, 127, 128, 200, 255] {
        for &b in &[0u8, 1, 55, 128, 200, 255] {
            let (mut mem, mut disp, keys) = machine_with(0x81, 0x24);
            mem.set_v(1, a);
            mem.set_v(2, b);
            let r = run_one(&mut mem, &mut disp, &keys);
            assert_eq!(r, Ok(CycleEvent::Executed));
            let sum = a as u16 + b as u16;
            assert_eq!(mem.get_v(0xF), if sum > 255 { 1 } else { 0 });
            assert_eq!(mem.get_v(1), (sum % 256) as u8);
            assert_eq!(mem.get_pc(), 0x202);
        }
    }
}

#[test]
fn sub_vx_vy_sets_not_borrow_iff_vx_greater() {
    // 8xy5: VF = 1 iff a > b, v[x] = (a - b) mod 256.
    for &a in &[0u8, 1, 5, 100, 128, 255] {
        for &b in &[0u8, 1, 5, 100, 128, 255] {
            let (mut mem, mut disp, keys) = machine_with(0x81, 0x25);
            mem.set_v(1, a);
            mem.set_v(2, b);
            run_one(&mut mem, &mut disp, &keys).unwrap();
            assert_eq!(mem.get_v(0xF), if a > b { 1 } else { 0 });
            assert_eq!(mem.get_v(1), a.wrapping_sub(b));
        }
    }
}

#[test]
fn subn_vx_vy_reverses_the_subtract() {
    let (mut mem, mut disp, keys) = machine_with(0x81, 0x27);
    mem.set_v(1, 5);
    mem.set_v(2, 12);
    run_one(&mut mem, &mut disp, &keys).unwrap();
    assert_eq!(mem.get_v(0xF), 1);
    assert_eq!(mem.get_v(1), 7);
}

#[test]
fn annn_loads_the_index_register() {
    // Decoding bytes (0xA2, 0xF0) gives op 0xA and nnn 0x2F0;
    // executing it sets i = 0x2F0.
    let (mut mem, mut disp, keys) = machine_with(0xA2, 0xF0);
    let r = run_one(&mut mem, &mut disp, &keys);
    assert_eq!(r, Ok(CycleEvent::Executed));
    assert_eq!(mem.get_i(), 0x2F0);
    assert_eq!(mem.get_pc(), 0x202);
}

#[test]
fn jump_replaces_the_program_counter() {
    let (mut mem, mut disp, keys) = machine_with(0x13, 0x45);
    run_one(&mut mem, &mut disp, &keys).unwrap();
    assert_eq!(mem.get_pc(), 0x345);
}

#[test]
fn jump_plus_v0_adds_the_register() {
    let (mut mem, mut disp, keys) = machine_with(0xB3, 0x00);
    mem.set_v(0, 0x21);
    run_one(&mut mem, &mut disp, &keys).unwrap();
    assert_eq!(mem.get_pc(), 0x321);
}

#[test]
fn call_then_return_lands_after_the_call() {
    let (mut mem, mut disp, keys) = machine_with(0x23, 0x00);
    // The subroutine at 0x300 returns at once.
    mem.set_ram(0x300, 0x00);
    mem.set_ram(0x301, 0xEE);
    run_one(&mut mem, &mut disp, &keys).unwrap();
    assert_eq!(mem.get_pc(), 0x300);
    assert_eq!(mem.get_sp(), 1);
    run_one(&mut mem, &mut disp, &keys).unwrap();
    assert_eq!(mem.get_pc(), 0x202);
    assert_eq!(mem.get_sp(), 0);
}

#[test]
fn return_on_empty_stack_is_fatal_and_changes_nothing() {
    let (mut mem, mut disp, keys) = machine_with(0x00, 0xEE);
    let r = run_one(&mut mem, &mut disp, &keys);
    assert_eq!(r, Err(CycleError::StackUnderflow));
    assert_eq!(mem.get_pc(), 0x200);
    assert_eq!(mem.get_sp(), 0);
}

#[test]
fn call_on_full_stack_is_fatal_and_changes_nothing() {
    // 0x2200 at 0x200 calls its own address, pushing every cycle.
    let (mut mem, mut disp, keys) = machine_with(0x22, 0x00);
    for depth in 1..=16u8 {
        assert_eq!(run_one(&mut mem, &mut disp, &keys), Ok(CycleEvent::Executed));
        assert_eq!(mem.get_sp(), depth);
        assert_eq!(mem.get_pc(), 0x200);
    }
    let r = run_one(&mut mem, &mut disp, &keys);
    assert_eq!(r, Err(CycleError::StackOverflow));
    assert_eq!(mem.get_sp(), 16);
    assert_eq!(mem.get_pc(), 0x200);
}

#[test]
fn skip_equal_byte_skips_only_on_match() {
    let (mut mem, mut disp, keys) = machine_with(0x31, 0x42);
    mem.set_v(1, 0x42);
    run_one(&mut mem, &mut disp, &keys).unwrap();
    assert_eq!(mem.get_pc(), 0x204);

    let (mut mem2, mut disp2, keys2) = machine_with(0x31, 0x42);
    mem2.set_v(1, 0x41);
    run_one(&mut mem2, &mut disp2, &keys2).unwrap();
    assert_eq!(mem2.get_pc(), 0x202);
}

#[test]
fn skip_not_equal_byte_skips_only_on_mismatch() {
    let (mut mem, mut disp, keys) = machine_with(0x41, 0x42);
    mem.set_v(1, 0x41);
    run_one(&mut mem, &mut disp, &keys).unwrap();
    assert_eq!(mem.get_pc(), 0x204);
}

#[test]
fn skip_register_compares() {
    let (mut mem, mut disp, keys) = machine_with(0x51, 0x20);
    mem.set_v(1, 9);
    mem.set_v(2, 9);
    run_one(&mut mem, &mut disp, &keys).unwrap();
    assert_eq!(mem.get_pc(), 0x204);

    let (mut mem2, mut disp2, keys2) = machine_with(0x91, 0x20);
    mem2.set_v(1, 9);
    mem2.set_v(2, 8);
    run_one(&mut mem2, &mut disp2, &keys2).unwrap();
    assert_eq!(mem2.get_pc(), 0x204);
}

#[test]
fn se_with_nonzero_low_nibble_is_unimplemented() {
    let (mut mem, mut disp, keys) = machine_with(0x51, 0x21);
    let r = run_one(&mut mem, &mut disp, &keys);
    assert_eq!(r, Ok(CycleEvent::Unimplemented(0x5121)));
    assert_eq!(mem.get_pc(), 0x202);
}

#[test]
fn load_and_add_immediate_wrap() {
    let (mut mem, mut disp, keys) = machine_with(0x61, 0xFE);
    run_one(&mut mem, &mut disp, &keys).unwrap();
    assert_eq!(mem.get_v(1), 0xFE);

    // 71 05: 0xFE + 5 wraps to 3, no carry flag written.
    let mut mem2 = mem;
    mem2.set_pc(0x200);
    mem2.set_ram(0x200, 0x71);
    mem2.set_ram(0x201, 0x05);
    run_one(&mut mem2, &mut disp, &keys).unwrap();
    assert_eq!(mem2.get_v(1), 3);
    assert_eq!(mem2.get_v(0xF), 0);
}

#[test]
fn register_copy_and_bit_ops() {
    let (mut mem, mut disp, keys) = machine_with(0x81, 0x20);
    mem.set_v(2, 0xAA);
    run_one(&mut mem, &mut disp, &keys).unwrap();
    assert_eq!(mem.get_v(1), 0xAA);

    let (mut mem2, mut disp2, keys2) = machine_with(0x81, 0x21);
    mem2.set_v(1, 0xF0);
    mem2.set_v(2, 0x0F);
    run_one(&mut mem2, &mut disp2, &keys2).unwrap();
    assert_eq!(mem2.get_v(1), 0xFF);

    let (mut mem3, mut disp3, keys3) = machine_with(0x81, 0x22);
    mem3.set_v(1, 0xF6);
    mem3.set_v(2, 0x0F);
    run_one(&mut mem3, &mut disp3, &keys3).unwrap();
    assert_eq!(mem3.get_v(1), 0x06);

    let (mut mem4, mut disp4, keys4) = machine_with(0x81, 0x23);
    mem4.set_v(1, 0xFF);
    mem4.set_v(2, 0x0F);
    run_one(&mut mem4, &mut disp4, &keys4).unwrap();
    assert_eq!(mem4.get_v(1), 0xF0);
}

#[test]
fn shifts_use_vx_when_the_quirk_is_off() {
    let (mut mem, mut disp, keys) = machine_with(0x81, 0x26);
    mem.set_v(1, 0b0000_0101);
    mem.set_v(2, 0xFF);
    run_one(&mut mem, &mut disp, &keys).unwrap();
    assert_eq!(mem.get_v(1), 0b0000_0010);
    assert_eq!(mem.get_v(0xF), 1);

    let (mut mem2, mut disp2, keys2) = machine_with(0x81, 0x2E);
    mem2.set_v(1, 0b1100_0000);
    mem2.set_v(2, 0xFF);
    run_one(&mut mem2, &mut disp2, &keys2).unwrap();
    assert_eq!(mem2.get_v(1), 0b1000_0000);
    assert_eq!(mem2.get_v(0xF), 1);
}

#[test]
fn shifts_use_vy_when_the_quirk_is_on() {
    let (mut mem, mut disp, keys) = machine_with(0x81, 0x26);
    mem.set_v(1, 0xFF);
    mem.set_v(2, 0b0000_0100);
    let mut cpu = CpuController::new(&mem, 1, true, false);
    cpu.fetch_exec(&mut disp, &mut mem, &keys).unwrap();
    assert_eq!(mem.get_v(1), 0b0000_0010);
    assert_eq!(mem.get_v(0xF), 0);
}

#[test]
fn random_byte_is_masked_by_kk() {
    // Cx00 masks whatever byte was drawn down to 0.
    let (mut mem, mut disp, keys) = machine_with(0xC1, 0x00);
    mem.set_v(1, 0x77);
    run_one(&mut mem, &mut disp, &keys).unwrap();
    assert_eq!(mem.get_v(1), 0);

    // Cx0F keeps only the low nibble.
    let (mut mem2, mut disp2, keys2) = machine_with(0xC1, 0x0F);
    run_one(&mut mem2, &mut disp2, &keys2).unwrap();
    assert!(mem2.get_v(1) <= 0x0F);
}

#[test]
fn key_skip_opcodes_follow_the_keypad() {
    let (mut mem, mut disp, mut keys) = machine_with(0xE1, 0x9E);
    mem.set_v(1, 0xA);
    keys.set_key_down_by_index(0xA);
    run_one(&mut mem, &mut disp, &keys).unwrap();
    assert_eq!(mem.get_pc(), 0x204);

    let (mut mem2, mut disp2, keys2) = machine_with(0xE1, 0x9E);
    mem2.set_v(1, 0xA);
    run_one(&mut mem2, &mut disp2, &keys2).unwrap();
    assert_eq!(mem2.get_pc(), 0x202);

    let (mut mem3, mut disp3, keys3) = machine_with(0xE1, 0xA1);
    mem3.set_v(1, 0xA);
    run_one(&mut mem3, &mut disp3, &keys3).unwrap();
    assert_eq!(mem3.get_pc(), 0x204);
}

#[test]
fn key_skip_wraps_wide_selectors_to_the_low_nibble() {
    // v[x] = 0x1A selects key 0xA.
    let (mut mem, mut disp, mut keys) = machine_with(0xE1, 0x9E);
    mem.set_v(1, 0x1A);
    keys.set_key_down_by_index(0xA);
    run_one(&mut mem, &mut disp, &keys).unwrap();
    assert_eq!(mem.get_pc(), 0x204);
}

#[test]
fn timer_opcodes_move_values_both_ways() {
    let (mut mem, mut disp, keys) = machine_with(0xF1, 0x15);
    mem.set_v(1, 42);
    run_one(&mut mem, &mut disp, &keys).unwrap();
    assert_eq!(mem.get_dt(), 42);

    mem.set_pc(0x200);
    mem.set_ram(0x200, 0xF2);
    mem.set_ram(0x201, 0x07);
    run_one(&mut mem, &mut disp, &keys).unwrap();
    assert_eq!(mem.get_v(2), 42);

    mem.set_pc(0x200);
    mem.set_ram(0x200, 0xF1);
    mem.set_ram(0x201, 0x18);
    run_one(&mut mem, &mut disp, &keys).unwrap();
    assert_eq!(mem.get_st(), 42);
}

#[test]
fn add_i_vx_wraps_16_bits() {
    let (mut mem, mut disp, keys) = machine_with(0xF1, 0x1E);
    mem.set_i(0xFFFE);
    mem.set_v(1, 5);
    run_one(&mut mem, &mut disp, &keys).unwrap();
    assert_eq!(mem.get_i(), 3);
}

#[test]
fn font_pointer_is_five_times_the_digit() {
    let (mut mem, mut disp, keys) = machine_with(0xF1, 0x29);
    mem.set_v(1, 0xB);
    run_one(&mut mem, &mut disp, &keys).unwrap();
    assert_eq!(mem.get_i(), 55);
}

#[test]
fn bcd_opcode_writes_three_digits_at_i() {
    let (mut mem, mut disp, keys) = machine_with(0xF1, 0x33);
    mem.set_v(1, 234);
    mem.set_i(0x500);
    run_one(&mut mem, &mut disp, &keys).unwrap();
    let ram = mem.get_ram();
    assert_eq!(&ram[0x500..0x503], &[2, 3, 4]);
}

#[test]
fn bcd_opcode_wraps_addresses_at_the_top_of_ram() {
    let (mut mem, mut disp, keys) = machine_with(0xF1, 0x33);
    mem.set_v(1, 159);
    mem.set_i(4095);
    run_one(&mut mem, &mut disp, &keys).unwrap();
    let ram = mem.get_ram();
    assert_eq!(ram[4095], 1);
    assert_eq!(ram[0], 5);
    assert_eq!(ram[1], 9);
}

#[test]
fn store_registers_without_the_quirk_keeps_i() {
    let (mut mem, mut disp, keys) = machine_with(0xF2, 0x55);
    mem.set_v(0, 10);
    mem.set_v(1, 11);
    mem.set_v(2, 12);
    mem.set_v(3, 99);
    mem.set_i(0x600);
    run_one(&mut mem, &mut disp, &keys).unwrap();
    let ram = mem.get_ram();
    assert_eq!(&ram[0x600..0x603], &[10, 11, 12]);
    assert_eq!(ram[0x603], 0);
    assert_eq!(mem.get_i(), 0x600);
}

#[test]
fn store_registers_with_the_quirk_advances_i() {
    let (mut mem, mut disp, keys) = machine_with(0xF2, 0x55);
    mem.set_v(0, 10);
    mem.set_i(0x600);
    let mut cpu = CpuController::new(&mem, 1, false, true);
    cpu.fetch_exec(&mut disp, &mut mem, &keys).unwrap();
    assert_eq!(mem.get_i(), 0x603);
}

#[test]
fn read_registers_without_the_quirk_keeps_i() {
    let (mut mem, mut disp, keys) = machine_with(0xF2, 0x65);
    mem.set_ram(0x600, 21);
    mem.set_ram(0x601, 22);
    mem.set_ram(0x602, 23);
    mem.set_i(0x600);
    run_one(&mut mem, &mut disp, &keys).unwrap();
    assert_eq!(mem.get_v(0), 21);
    assert_eq!(mem.get_v(1), 22);
    assert_eq!(mem.get_v(2), 23);
    assert_eq!(mem.get_v(3), 0);
    assert_eq!(mem.get_i(), 0x600);
}

#[test]
fn read_registers_with_the_quirk_advances_i() {
    let (mut mem, mut disp, keys) = machine_with(0xF1, 0x65);
    mem.set_i(0x600);
    let mut cpu = CpuController::new(&mem, 1, false, true);
    cpu.fetch_exec(&mut disp, &mut mem, &keys).unwrap();
    assert_eq!(mem.get_i(), 0x602);
}

#[test]
fn unknown_words_are_skipped_and_reported() {
    let (mut mem, mut disp, keys) = machine_with(0x01, 0x23);
    let r = run_one(&mut mem, &mut disp, &keys);
    assert_eq!(r, Ok(CycleEvent::Unimplemented(0x0123)));
    assert_eq!(mem.get_pc(), 0x202);

    let (mut mem2, mut disp2, keys2) = machine_with(0x81, 0x29);
    let r2 = run_one(&mut mem2, &mut disp2, &keys2);
    assert_eq!(r2, Ok(CycleEvent::Unimplemented(0x8129)));
}

#[test]
fn cycles_per_frame_is_kept() {
    let mem = MemoryController::new(Memory::new());
    let cpu = CpuController::new(&mem, 37, false, false);
    assert_eq!(cpu.get_cycles_per_frame(), 37);
}
