//! The fetch-decode-execute core: one decoded instruction, the opcode
//! semantics, and the per-cycle dispatcher with its cooperative
//! wait-for-key state.

use crate::display::{cleared_grid, put_pixel_spec, DisplayBuffer};
use crate::kbrd::{lowest_key_down, KeyboardController};
use crate::mem::{vreg, vreg_set, MemView, MemoryController};
use crate::util::{addr_of_nibbles, word_of_bytes, Bit, Logic};
use rand::Rng;
use vstd::prelude::*;

verus! {

/// Mathematical model of the decoded instruction and the fixed
/// per-run configuration held by the CPU.
#[verifier::ext_equal]
pub ghost struct CpuView {
    pub word: u16,
    pub first_byte: u8,
    pub second_byte: u8,
    pub first_nibble: u8,
    pub x: u8,
    pub y: u8,
    pub fourth_nibble: u8,
    pub cycles_per_frame: u32,
    pub bit_shift_instructions_use_vy: bool,
    pub store_read_instructions_change_i: bool,
}

impl CpuView {
    /// The 12-bit address field of the instruction.
    pub open spec fn nnn(self) -> int {
        addr_of_nibbles(self.x, self.y, self.fourth_nibble)
    }

    /// The decoded nibble fields are genuine nibbles.
    pub open spec fn nibbles_wf(self) -> bool {
        &&& self.first_nibble < 16
        &&& self.x < 16
        &&& self.y < 16
        &&& self.fourth_nibble < 16
    }
}

/// The decoded fields agree with the two RAM bytes at the program counter.
pub open spec fn decoded(c: CpuView, m: MemView) -> bool {
    &&& c.first_byte == m.ram[m.pc as int]
    &&& c.second_byte == m.ram[m.pc as int + 1]
    &&& c.word == word_of_bytes(c.first_byte, c.second_byte)
    &&& c.first_nibble == c.first_byte >> 4u8
    &&& c.x == c.first_byte & 0x0F
    &&& c.y == c.second_byte >> 4u8
    &&& c.fourth_nibble == c.second_byte & 0x0F
}

/// What one dispatch cycle reported.
#[derive(Clone, Copy, Debug, PartialEq, Eq, Structural)]
pub enum CycleEvent {
    /// One opcode was executed.
    Executed,
    /// The instruction word matched no opcode; it was skipped as a no-op.
    Unimplemented(u16),
    /// The key-wait opcode found no key down; the cycle left the
    /// program counter alone and the CPU stays in its waiting state.
    WaitingForKey,
}

/// A stack discipline violation; fatal, the cycle changes nothing.
#[derive(Clone, Copy, Debug, PartialEq, Eq, Structural)]
pub enum CycleError {
    /// A return was executed with an empty call stack.
    StackUnderflow,
    /// A call was executed with a full call stack.
    StackOverflow,
}

/// Whether the key-wait opcode found a key down this cycle.
#[derive(Clone, Copy, Debug, PartialEq, Eq, Structural)]
pub enum CpuState {
    Halted,
    NotHalted,
}

/// The key flag that a register-selected keypad test reads: the register
/// value is wrapped into the 16 keys by its low nibble.
pub open spec fn key_selected_down(k: Seq<u8>, sel: u8) -> bool {
    k[sel as int % 16] == 1
}

pub struct CpuController {
    // Big-endian decode of the current instruction word.
    word: u16,
    first_byte: u8,
    second_byte: u8,
    first_nibble: u8,
    x: u8,
    y: u8,
    fourth_nibble: u8,
    cycles_per_frame: u32,
    bit_shift_instructions_use_vy: bool,
    store_read_instructions_change_i: bool,
}

impl View for CpuController {
    type V = CpuView;

    closed spec fn view(&self) -> CpuView {
        CpuView {
            word: self.word,
            first_byte: self.first_byte,
            second_byte: self.second_byte,
            first_nibble: self.first_nibble,
            x: self.x,
            y: self.y,
            fourth_nibble: self.fourth_nibble,
            cycles_per_frame: self.cycles_per_frame,
            bit_shift_instructions_use_vy: self.bit_shift_instructions_use_vy,
            store_read_instructions_change_i: self.store_read_instructions_change_i,
        }
    }
}

impl CpuController {
    pub fn new(
        mem_ctrl: &MemoryController,
        cycles_per_frame: u32,
        bit_shift_instructions_use_vy: bool,
        store_read_instructions_change_i: bool,
    ) -> (c: CpuController)
        requires
            mem_ctrl@.wf(),
            mem_ctrl@.pc + 1 < 4096,
        ensures
            decoded(c@, mem_ctrl@),
            c@.nibbles_wf(),
            c@.cycles_per_frame == cycles_per_frame,
            c@.bit_shift_instructions_use_vy == bit_shift_instructions_use_vy,
            c@.store_read_instructions_change_i == store_read_instructions_change_i,
    {
        let lower_addr = mem_ctrl.get_pc() as usize;
        let ram = mem_ctrl.get_ram();
        let first_byte = ram[lower_addr];
        let second_byte = ram[lower_addr + 1];
        proof {
            nibble_bounds(first_byte);
            nibble_bounds(second_byte);
        }
        CpuController {
            first_byte,
            second_byte,
            word: Bit::make_16bit_instr_from_bytes(first_byte, second_byte),
            first_nibble: first_byte >> 4u8,
            x: first_byte & 0x0F,
            y: second_byte >> 4u8,
            fourth_nibble: second_byte & 0x0F,
            cycles_per_frame,
            bit_shift_instructions_use_vy,
            store_read_instructions_change_i,
        }
    }

    pub fn get_cycles_per_frame(&self) -> (r: u32)
        ensures
            r == self@.cycles_per_frame,
    {
        self.cycles_per_frame
    }

    /// Re-decodes the instruction word at the current program counter.
    pub fn load_next_instr(&mut self, mem_ctrl: &MemoryController)
        requires
            mem_ctrl@.wf(),
            mem_ctrl@.pc + 1 < 4096,
        ensures
            decoded(final(self)@, mem_ctrl@),
            final(self)@.nibbles_wf(),
            final(self)@.cycles_per_frame == old(self)@.cycles_per_frame,
            final(self)@.bit_shift_instructions_use_vy == old(self)@.bit_shift_instructions_use_vy,
            final(self)@.store_read_instructions_change_i == old(self)@.store_read_instructions_change_i,
    {
        let lower_addr = mem_ctrl.get_pc() as usize;
        let ram = mem_ctrl.get_ram();
        self.first_byte = ram[lower_addr];
        self.second_byte = ram[lower_addr + 1];
        self.word = Bit::make_16bit_instr_from_bytes(self.first_byte, self.second_byte);
        self.first_nibble = self.first_byte >> 4u8;
        self.x = self.first_byte & 0x0F;
        self.y = self.second_byte >> 4u8;
        self.fourth_nibble = self.second_byte & 0x0F;
        proof {
            nibble_bounds(self.first_byte);
            nibble_bounds(self.second_byte);
        }
    }

    // 00E0 - CLS
    /// Clears the display.
    pub fn clear_screen(&self, disp: &mut DisplayBuffer)
        ensures
            final(disp)@ =~= cleared_grid(),
    {
        disp.clear();
    }

    // 00EE - RET
    /// Returns to the address saved on top of the stack.
    pub fn return_from_subroutine(&self, mem_ctrl: &mut MemoryController)
        requires
            1 <= old(mem_ctrl)@.sp <= 16,
        ensures
            final(mem_ctrl)@ == (MemView {
                pc: old(mem_ctrl)@.stack[old(mem_ctrl)@.sp - 1],
                stack: old(mem_ctrl)@.stack.update(old(mem_ctrl)@.sp - 1, 0u16),
                sp: (old(mem_ctrl)@.sp - 1) as u8,
                ..old(mem_ctrl)@
            }),
    {
        mem_ctrl.stack_pop();
    }

    // 1nnn - JP addr
    /// Jumps to the instruction's address field.
    pub fn jump_to_address(&self, mem_ctrl: &mut MemoryController)
        requires
            self@.nibbles_wf(),
        ensures
            final(mem_ctrl)@ == (MemView { pc: self@.nnn() as u16, ..old(mem_ctrl)@ }),
    {
        mem_ctrl.set_pc(Bit::make_16bit_addr_from_nibbles(self.x, self.y, self.fourth_nibble));
    }

    // 2nnn - CALL addr
    /// Saves the current program counter on the stack and jumps to the
    /// instruction's address field.
    pub fn call_address(&self, mem_ctrl: &mut MemoryController)
        requires
            self@.nibbles_wf(),
            old(mem_ctrl)@.sp < 16,
        ensures
            final(mem_ctrl)@ == (MemView {
                stack: old(mem_ctrl)@.stack.update(old(mem_ctrl)@.sp as int, old(mem_ctrl)@.pc),
                sp: (old(mem_ctrl)@.sp + 1) as u8,
                pc: self@.nnn() as u16,
                ..old(mem_ctrl)@
            }),
    {
        mem_ctrl.stack_push(Bit::make_16bit_addr_from_nibbles(self.x, self.y, self.fourth_nibble));
    }

    // 3xkk - SE Vx, byte
    /// Skips the next instruction iff v[x] equals the immediate byte.
    pub fn skip_equal_vx_byte(&self, mem_ctrl: &mut MemoryController)
        ensures
            final(mem_ctrl)@ == (MemView {
                pc: if vreg(old(mem_ctrl)@.v, self@.x) == self@.second_byte {
                    ((old(mem_ctrl)@.pc + 2) % 0x10000) as u16
                } else {
                    old(mem_ctrl)@.pc
                },
                ..old(mem_ctrl)@
            }),
    {
        if mem_ctrl.get_v(self.x) == self.second_byte {
            mem_ctrl.inc_pc_by(2);
        }
    }

    // 4xkk - SNE Vx, byte
    /// Skips the next instruction iff v[x] differs from the immediate byte.
    pub fn skip_not_equal_vx_byte(&self, mem_ctrl: &mut MemoryController)
        ensures
            final(mem_ctrl)@ == (MemView {
                pc: if vreg(old(mem_ctrl)@.v, self@.x) != self@.second_byte {
                    ((old(mem_ctrl)@.pc + 2) % 0x10000) as u16
                } else {
                    old(mem_ctrl)@.pc
                },
                ..old(mem_ctrl)@
            }),
    {
        if mem_ctrl.get_v(self.x) != self.second_byte {
            mem_ctrl.inc_pc_by(2);
        }
    }

    // 5xy0 - SE Vx, Vy
    /// Skips the next instruction iff v[x] equals v[y].
    pub fn skip_equal_vx_vy(&self, mem_ctrl: &mut MemoryController)
        ensures
            final(mem_ctrl)@ == (MemView {
                pc: if vreg(old(mem_ctrl)@.v, self@.x) == vreg(old(mem_ctrl)@.v, self@.y) {
                    ((old(mem_ctrl)@.pc + 2) % 0x10000) as u16
                } else {
                    old(mem_ctrl)@.pc
                },
                ..old(mem_ctrl)@
            }),
    {
        if mem_ctrl.get_v(self.x) == mem_ctrl.get_v(self.y) {
            mem_ctrl.inc_pc_by(2);
        }
    }

    // 9xy0 - SNE Vx, Vy
    /// Skips the next instruction iff v[x] differs from v[y].
    pub fn skip_not_equal_vx_vy(&self, mem_ctrl: &mut MemoryController)
        ensures
            final(mem_ctrl)@ == (MemView {
                pc: if vreg(old(mem_ctrl)@.v, self@.x) != vreg(old(mem_ctrl)@.v, self@.y) {
                    ((old(mem_ctrl)@.pc + 2) % 0x10000) as u16
                } else {
                    old(mem_ctrl)@.pc
                },
                ..old(mem_ctrl)@
            }),
    {
        if mem_ctrl.get_v(self.x) != mem_ctrl.get_v(self.y) {
            mem_ctrl.inc_pc_by(2);
        }
    }

    // 6xkk - LD Vx, byte
    /// Loads the immediate byte into v[x].
    pub fn set_vx_byte(&self, mem_ctrl: &mut MemoryController)
        ensures
            final(mem_ctrl)@ == (MemView {
                v: vreg_set(old(mem_ctrl)@.v, self@.x, self@.second_byte),
                ..old(mem_ctrl)@
            }),
    {
        mem_ctrl.set_v(self.x, self.second_byte);
    }

    // 7xkk - ADD Vx, byte
    /// Adds the immediate byte into v[x], wrapping modulo 256. No flag.
    pub fn add_vx_byte(&self, mem_ctrl: &mut MemoryController)
        ensures
            final(mem_ctrl)@ == (MemView {
                v: vreg_set(
                    old(mem_ctrl)@.v,
                    self@.x,
                    ((vreg(old(mem_ctrl)@.v, self@.x) + self@.second_byte) % 256) as u8,
                ),
                ..old(mem_ctrl)@
            }),
    {
        let vx = mem_ctrl.get_v(self.x);
        mem_ctrl.set_v(self.x, vx.wrapping_add(self.second_byte));
    }

    // 8xy0 - LD Vx, Vy
    /// Copies v[y] into v[x].
    pub fn set_vx_vy(&self, mem_ctrl: &mut MemoryController)
        ensures
            final(mem_ctrl)@ == (MemView {
                v: vreg_set(old(mem_ctrl)@.v, self@.x, vreg(old(mem_ctrl)@.v, self@.y)),
                ..old(mem_ctrl)@
            }),
    {
        let vy = mem_ctrl.get_v(self.y);
        mem_ctrl.set_v(self.x, vy);
    }

    // 8xy1 - OR Vx, Vy
    /// Bitwise-ors v[y] into v[x].
    pub fn set_vx_or_vy(&self, mem_ctrl: &mut MemoryController)
        ensures
            final(mem_ctrl)@ == (MemView {
                v: vreg_set(
                    old(mem_ctrl)@.v,
                    self@.x,
                    vreg(old(mem_ctrl)@.v, self@.x) | vreg(old(mem_ctrl)@.v, self@.y),
                ),
                ..old(mem_ctrl)@
            }),
    {
        let vx_or_vy = mem_ctrl.get_v(self.x) | mem_ctrl.get_v(self.y);
        mem_ctrl.set_v(self.x, vx_or_vy);
    }

    // 8xy2 - AND Vx, Vy
    /// Bitwise-ands v[y] into v[x].
    pub fn set_vx_and_vy(&self, mem_ctrl: &mut MemoryController)
        ensures
            final(mem_ctrl)@ == (MemView {
                v: vreg_set(
                    old(mem_ctrl)@.v,
                    self@.x,
                    vreg(old(mem_ctrl)@.v, self@.x) & vreg(old(mem_ctrl)@.v, self@.y),
                ),
                ..old(mem_ctrl)@
            }),
    {
        let vx_and_vy = mem_ctrl.get_v(self.x) & mem_ctrl.get_v(self.y);
        mem_ctrl.set_v(self.x, vx_and_vy);
    }

    // 8xy3 - XOR Vx, Vy
    /// Bitwise-xors v[y] into v[x].
    pub fn set_vx_xor_vy(&self, mem_ctrl: &mut MemoryController)
        ensures
            final(mem_ctrl)@ == (MemView {
                v: vreg_set(
                    old(mem_ctrl)@.v,
                    self@.x,
                    vreg(old(mem_ctrl)@.v, self@.x) ^ vreg(old(mem_ctrl)@.v, self@.y),
                ),
                ..old(mem_ctrl)@
            }),
    {
        let vx_xor_vy = mem_ctrl.get_v(self.x) ^ mem_ctrl.get_v(self.y);
        mem_ctrl.set_v(self.x, vx_xor_vy);
    }

    // 8xy4 - ADD Vx, Vy
    /// 8-bit add with carry flag: VF is 1 iff v[x] + v[y] > 255, and
    /// v[x] becomes (v[x] + v[y]) mod 256. VF is written first, so an
    /// add selecting x = 0xF leaves the flag in v[x]'s place.
    pub fn add_vx_vy(&self, mem_ctrl: &mut MemoryController)
        ensures
            final(mem_ctrl)@ == (MemView {
                v: vreg_set(
                    vreg_set(
                        old(mem_ctrl)@.v,
                        15,
                        if vreg(old(mem_ctrl)@.v, self@.x) + vreg(old(mem_ctrl)@.v, self@.y) > 255 {
                            1u8
                        } else {
                            0u8
                        },
                    ),
                    self@.x,
                    ((vreg(old(mem_ctrl)@.v, self@.x) + vreg(old(mem_ctrl)@.v, self@.y)) % 256) as u8,
                ),
                ..old(mem_ctrl)@
            }),
    {
        let vx_plus_vy = mem_ctrl.get_v(self.x) as u16 + mem_ctrl.get_v(self.y) as u16;
        mem_ctrl.set_v(0xf, Logic::bool_to_u8(vx_plus_vy > 255));
        mem_ctrl.set_v(self.x, (vx_plus_vy % 256) as u8);
    }

    // 8xy5 - SUB Vx, Vy
    /// 8-bit subtract with NOT-borrow flag: VF is 1 iff v[x] > v[y], and
    /// v[x] becomes (v[x] - v[y]) mod 256.
    pub fn sub_vx_vy(&self, mem_ctrl: &mut MemoryController)
        ensures
            final(mem_ctrl)@ == (MemView {
                v: vreg_set(
                    vreg_set(
                        old(mem_ctrl)@.v,
                        15,
                        if vreg(old(mem_ctrl)@.v, self@.x) > vreg(old(mem_ctrl)@.v, self@.y) {
                            1u8
                        } else {
                            0u8
                        },
                    ),
                    self@.x,
                    ((vreg(old(mem_ctrl)@.v, self@.x) - vreg(old(mem_ctrl)@.v, self@.y)) % 256) as u8,
                ),
                ..old(mem_ctrl)@
            }),
    {
        let vx = mem_ctrl.get_v(self.x);
        let vy = mem_ctrl.get_v(self.y);
        mem_ctrl.set_v(0xf, Logic::bool_to_u8(vx > vy));
        mem_ctrl.set_v(self.x, vx.wrapping_sub(vy));
    }

    // 8xy7 - SUBN Vx, Vy
    /// Reversed subtract: VF is 1 iff v[y] > v[x], and v[x] becomes
    /// (v[y] - v[x]) mod 256.
    pub fn subn_vx_vy(&self, mem_ctrl: &mut MemoryController)
        ensures
            final(mem_ctrl)@ == (MemView {
                v: vreg_set(
                    vreg_set(
                        old(mem_ctrl)@.v,
                        15,
                        if vreg(old(mem_ctrl)@.v, self@.y) > vreg(old(mem_ctrl)@.v, self@.x) {
                            1u8
                        } else {
                            0u8
                        },
                    ),
                    self@.x,
                    ((vreg(old(mem_ctrl)@.v, self@.y) - vreg(old(mem_ctrl)@.v, self@.x)) % 256) as u8,
                ),
                ..old(mem_ctrl)@
            }),
    {
        let vx = mem_ctrl.get_v(self.x);
        let vy = mem_ctrl.get_v(self.y);
        mem_ctrl.set_v(0xf, Logic::bool_to_u8(vy > vx));
        mem_ctrl.set_v(self.x, vy.wrapping_sub(vx));
    }

    // 8xy6 - SHR Vx {, Vy}
    /// Shift right by one. The source register is v[y] or v[x] by the
    /// shift quirk; VF takes the bit shifted out.
    pub fn shift_right_vx_vy(&self, mem_ctrl: &mut MemoryController)
        ensures
            final(mem_ctrl)@ == (MemView {
                v: ({
                    let src = vreg(
                        old(mem_ctrl)@.v,
                        if self@.bit_shift_instructions_use_vy { self@.y } else { self@.x },
                    );
                    vreg_set(vreg_set(old(mem_ctrl)@.v, 15, src & 1), self@.x, src >> 1u8)
                }),
                ..old(mem_ctrl)@
            }),
    {
        let v = mem_ctrl.get_v(if self.bit_shift_instructions_use_vy { self.y } else { self.x });
        mem_ctrl.set_v(0xf, v & 1);
        mem_ctrl.set_v(self.x, v >> 1u8);
    }

    // 8xyE - SHL Vx {, Vy}
    /// Shift left by one. The source register is v[y] or v[x] by the
    /// shift quirk; VF takes the bit shifted out.
    pub fn shift_left_vx_vy(&self, mem_ctrl: &mut MemoryController)
        ensures
            final(mem_ctrl)@ == (MemView {
                v: ({
                    let src = vreg(
                        old(mem_ctrl)@.v,
                        if self@.bit_shift_instructions_use_vy { self@.y } else { self@.x },
                    );
                    vreg_set(vreg_set(old(mem_ctrl)@.v, 15, src >> 7u8), self@.x, src << 1u8)
                }),
                ..old(mem_ctrl)@
            }),
    {
        let v = mem_ctrl.get_v(if self.bit_shift_instructions_use_vy { self.y } else { self.x });
        mem_ctrl.set_v(0xf, v >> 7u8);
        mem_ctrl.set_v(self.x, v << 1u8);
    }

    // Annn - LD I, addr
    /// Loads the instruction's address field into the index register.
    pub fn set_i_address(&self, mem_ctrl: &mut MemoryController)
        requires
            self@.nibbles_wf(),
        ensures
            final(mem_ctrl)@ == (MemView { i: self@.nnn() as u16, ..old(mem_ctrl)@ }),
    {
        mem_ctrl.set_i(Bit::make_16bit_addr_from_nibbles(self.x, self.y, self.fourth_nibble));
    }

    // Bnnn - JP V0, addr
    /// Jumps to the instruction's address field plus v[0].
    pub fn jump_to_address_plus_v0(&self, mem_ctrl: &mut MemoryController)
        requires
            self@.nibbles_wf(),
        ensures
            final(mem_ctrl)@ == (MemView {
                pc: (self@.nnn() + vreg(old(mem_ctrl)@.v, 0)) as u16,
                ..old(mem_ctrl)@
            }),
    {
        let v0 = mem_ctrl.get_v(0) as u16;
        mem_ctrl.set_pc(Bit::make_16bit_addr_from_nibbles(self.x, self.y, self.fourth_nibble) + v0);
    }

    // Ex9E - SKP Vx
    /// Skips the next instruction iff the key selected by v[x]'s low
    /// nibble is down.
    pub fn skip_if_key_vx_is_pressed(
        &self,
        keyboard_ctrl: &KeyboardController,
        mem_ctrl: &mut MemoryController,
    )
        requires
            keyboard_ctrl@.len() == 16,
        ensures
            final(mem_ctrl)@ == (MemView {
                pc: if key_selected_down(keyboard_ctrl@, vreg(old(mem_ctrl)@.v, self@.x)) {
                    ((old(mem_ctrl)@.pc + 2) % 0x10000) as u16
                } else {
                    old(mem_ctrl)@.pc
                },
                ..old(mem_ctrl)@
            }),
    {
        let sel = mem_ctrl.get_v(self.x);
        proof {
            nibble_bounds(sel);
        }
        if keyboard_ctrl.is_key_x_pressed(sel & 0x0F) {
            mem_ctrl.inc_pc_by(2);
        }
    }

    // ExA1 - SKNP Vx
    /// Skips the next instruction iff the key selected by v[x]'s low
    /// nibble is up.
    pub fn skip_if_key_vx_is_not_pressed(
        &self,
        keyboard_ctrl: &KeyboardController,
        mem_ctrl: &mut MemoryController,
    )
        requires
            keyboard_ctrl@.len() == 16,
        ensures
            final(mem_ctrl)@ == (MemView {
                pc: if !key_selected_down(keyboard_ctrl@, vreg(old(mem_ctrl)@.v, self@.x)) {
                    ((old(mem_ctrl)@.pc + 2) % 0x10000) as u16
                } else {
                    old(mem_ctrl)@.pc
                },
                ..old(mem_ctrl)@
            }),
    {
        let sel = mem_ctrl.get_v(self.x);
        proof {
            nibble_bounds(sel);
        }
        if !keyboard_ctrl.is_key_x_pressed(sel & 0x0F) {
            mem_ctrl.inc_pc_by(2);
        }
    }

    // Fx07 - LD Vx, DT
    /// Copies the delay timer into v[x].
    pub fn set_vx_dt(&self, mem_ctrl: &mut MemoryController)
        ensures
            final(mem_ctrl)@ == (MemView {
                v: vreg_set(old(mem_ctrl)@.v, self@.x, old(mem_ctrl)@.dt),
                ..old(mem_ctrl)@
            }),
    {
        let dt = mem_ctrl.get_dt();
        mem_ctrl.set_v(self.x, dt);
    }

    // Fx0A - LD Vx, K
    /// One poll of the key-wait opcode: if some key is down, the lowest
    /// such key's index goes into v[x]; otherwise nothing changes and
    /// the CPU reports itself halted for this cycle.
    pub fn halt_until_key_press(
        &self,
        keyboard_ctrl: &KeyboardController,
        mem_ctrl: &mut MemoryController,
    ) -> (r: CpuState)
        ensures
            match lowest_key_down(keyboard_ctrl@) {
                Some(key_down) => r == CpuState::NotHalted && final(mem_ctrl)@ == (MemView {
                    v: vreg_set(old(mem_ctrl)@.v, self@.x, key_down),
                    ..old(mem_ctrl)@
                }),
                None => r == CpuState::Halted && final(mem_ctrl)@ == old(mem_ctrl)@,
            },
    {
        match keyboard_ctrl.get_any_key_down() {
            Some(key_down) => {
                mem_ctrl.set_v(self.x, key_down);
                CpuState::NotHalted
            },
            None => CpuState::Halted,
        }
    }

    // Fx15 - LD DT, Vx
    /// Copies v[x] into the delay timer.
    pub fn set_dt_vx(&self, mem_ctrl: &mut MemoryController)
        ensures
            final(mem_ctrl)@ == (MemView {
                dt: vreg(old(mem_ctrl)@.v, self@.x),
                ..old(mem_ctrl)@
            }),
    {
        let vx = mem_ctrl.get_v(self.x);
        mem_ctrl.set_dt(vx);
    }

    // Fx18 - LD ST, Vx
    /// Copies v[x] into the sound timer.
    pub fn set_st_vx(&self, mem_ctrl: &mut MemoryController)
        ensures
            final(mem_ctrl)@ == (MemView {
                st: vreg(old(mem_ctrl)@.v, self@.x),
                ..old(mem_ctrl)@
            }),
    {
        let vx = mem_ctrl.get_v(self.x);
        mem_ctrl.set_st(vx);
    }

    // Fx1E - ADD I, Vx
    /// Adds v[x] into the index register, wrapping at the 16-bit boundary.
    pub fn add_i_vx(&self, mem_ctrl: &mut MemoryController)
        ensures
            final(mem_ctrl)@ == (MemView {
                i: ((old(mem_ctrl)@.i + vreg(old(mem_ctrl)@.v, self@.x)) % 0x10000) as u16,
                ..old(mem_ctrl)@
            }),
    {
        let vx = mem_ctrl.get_v(self.x) as u16;
        mem_ctrl.inc_i_by(vx);
    }

    // Fx29 - LD F, Vx
    /// Points the index register at the built-in font glyph for v[x]:
    /// glyphs are 5 bytes each, starting at address 0.
    pub fn set_i_sprite_digit_vx(&self, mem_ctrl: &mut MemoryController)
        ensures
            final(mem_ctrl)@ == (MemView {
                i: (5 * vreg(old(mem_ctrl)@.v, self@.x)) as u16,
                ..old(mem_ctrl)@
            }),
    {
        let vx = mem_ctrl.get_v(self.x) as u16;
        mem_ctrl.set_i(vx * 5);
    }
}

impl CpuController {
    /// Writes `byte & kk` into v[x]: the deterministic core of the
    /// random-byte opcode, taking the drawn byte as an argument.
    pub fn set_vx_masked_byte(&self, mem_ctrl: &mut MemoryController, byte: u8)
        ensures
            final(mem_ctrl)@ == (MemView {
                v: vreg_set(old(mem_ctrl)@.v, self@.x, byte & self@.second_byte),
                ..old(mem_ctrl)@
            }),
    {
        mem_ctrl.set_v(self.x, byte & self.second_byte);
    }

    // Cxkk - RND Vx, byte
    /// Draws a fresh random byte, masks it with the immediate byte and
    /// stores the result in v[x]. Nothing is promised of which byte was
    /// drawn, only that v[x] holds some byte masked with kk.
    pub fn set_vx_and_random_byte(&self, mem_ctrl: &mut MemoryController)
        ensures
            exists|b: u8| final(mem_ctrl)@ == #[trigger] masked_byte_written(old(mem_ctrl)@, self@, b),
    {
        let b = random_byte();
        self.set_vx_masked_byte(mem_ctrl, b);
        proof {
            assert(final(mem_ctrl)@ == masked_byte_written(old(mem_ctrl)@, self@, b));
        }
    }

    // Fx33 - LD B, Vx
    /// Stores the decimal digits of v[x] at RAM addresses i, i+1, i+2
    /// (each wrapped into the 4096-byte space).
    pub fn copy_bcd_vx_into_addr_i(&self, mem_ctrl: &mut MemoryController)
        ensures
            final(mem_ctrl)@ == (MemView {
                ram: ({
                    let m = old(mem_ctrl)@;
                    let vx = vreg(m.v, self@.x);
                    m.ram
                        .update((m.i + 0) % 4096, (vx / 100) as u8)
                        .update((m.i + 1) % 4096, ((vx / 10) % 10) as u8)
                        .update((m.i + 2) % 4096, (vx % 10) as u8)
                }),
                ..old(mem_ctrl)@
            }),
    {
        let bcd_tuple = Bit::decimal_to_8bit_bcd_tuple(mem_ctrl.get_v(self.x));
        let i_reg = mem_ctrl.get_i();
        mem_ctrl.set_ram_masked(i_reg, 0, bcd_tuple.0);
        mem_ctrl.set_ram_masked(i_reg, 1, bcd_tuple.1);
        mem_ctrl.set_ram_masked(i_reg, 2, bcd_tuple.2);
    }

    // Fx55 - LD [I], Vx
    /// Stores registers v[0] through v[x] at RAM addresses i, i+1, ...
    /// (each wrapped), then advances i by x+1 if the store/read quirk
    /// is on.
    pub fn copy_v0_through_vx_into_addr_i(&self, mem_ctrl: &mut MemoryController)
        requires
            self@.x < 16,
            old(mem_ctrl)@.wf(),
        ensures
            final(mem_ctrl)@ == (MemView {
                ram: store_regs_upto(old(mem_ctrl)@.ram, old(mem_ctrl)@.v, old(mem_ctrl)@.i, self@.x + 1),
                i: if self@.store_read_instructions_change_i {
                    ((old(mem_ctrl)@.i + self@.x + 1) % 0x10000) as u16
                } else {
                    old(mem_ctrl)@.i
                },
                ..old(mem_ctrl)@
            }),
    {
        let i_reg = mem_ctrl.get_i();
        let mut k: u8 = 0;
        while k <= self.x
            invariant
                self@.x < 16,
                k <= self@.x + 1,
                old(mem_ctrl)@.wf(),
                i_reg == old(mem_ctrl)@.i,
                mem_ctrl@ == (MemView {
                    ram: store_regs_upto(old(mem_ctrl)@.ram, old(mem_ctrl)@.v, old(mem_ctrl)@.i, k as int),
                    ..old(mem_ctrl)@
                }),
            decreases self@.x + 1 - k,
        {
            let vi = mem_ctrl.get_v(k);
            mem_ctrl.set_ram_masked(i_reg, k as u16, vi);
            k = k + 1;
        }
        self.check_inc_i(mem_ctrl);
    }

    // Fx65 - LD Vx, [I]
    /// Loads registers v[0] through v[x] from RAM addresses i, i+1, ...
    /// (each wrapped), then advances i by x+1 if the store/read quirk
    /// is on.
    pub fn read_v0_through_vx_from_addr_i(&self, mem_ctrl: &mut MemoryController)
        requires
            self@.x < 16,
            old(mem_ctrl)@.wf(),
        ensures
            final(mem_ctrl)@ == (MemView {
                v: load_regs_upto(old(mem_ctrl)@.v, old(mem_ctrl)@.ram, old(mem_ctrl)@.i, self@.x + 1),
                i: if self@.store_read_instructions_change_i {
                    ((old(mem_ctrl)@.i + self@.x + 1) % 0x10000) as u16
                } else {
                    old(mem_ctrl)@.i
                },
                ..old(mem_ctrl)@
            }),
    {
        let i_reg = mem_ctrl.get_i();
        let mut k: u8 = 0;
        while k <= self.x
            invariant
                self@.x < 16,
                k <= self@.x + 1,
                old(mem_ctrl)@.wf(),
                i_reg == old(mem_ctrl)@.i,
                mem_ctrl@ == (MemView {
                    v: load_regs_upto(old(mem_ctrl)@.v, old(mem_ctrl)@.ram, old(mem_ctrl)@.i, k as int),
                    ..old(mem_ctrl)@
                }),
            decreases self@.x + 1 - k,
        {
            let byte = mem_ctrl.get_ram_masked(i_reg, k as u16);
            mem_ctrl.set_v(k, byte);
            k = k + 1;
        }
        self.check_inc_i(mem_ctrl);
    }

    /// Advances i by x+1 if the store/read quirk asks for it.
    pub fn check_inc_i(&self, mem_ctrl: &mut MemoryController)
        ensures
            final(mem_ctrl)@ == if self@.store_read_instructions_change_i {
                MemView {
                    i: ((old(mem_ctrl)@.i + self@.x + 1) % 0x10000) as u16,
                    ..old(mem_ctrl)@
                }
            } else {
                old(mem_ctrl)@
            },
    {
        if self.store_read_instructions_change_i {
            mem_ctrl.inc_i_by(self.x as u16 + 1);
        }
    }

    // Dxyn - DRW Vx, Vy, nibble
    /// XOR-draws the n-row sprite at RAM address i to the display at
    /// (v[x], v[y]), coordinates wrapping on both axes. VF is cleared
    /// first and ends 1 iff any pixel went from on to off during the
    /// whole call.
    pub fn draw_sprite(&self, mem_ctrl: &mut MemoryController, disp: &mut DisplayBuffer)
        requires
            old(mem_ctrl)@.wf(),
            old(disp)@.len() == 2048,
        ensures
            ({
                let m = old(mem_ctrl)@;
                let vf0 = vreg_set(m.v, 15, 0);
                let sx = vreg(vf0, self@.x);
                let sy = vreg(vf0, self@.y);
                let dr = draw_upto(m.ram, m.i, sx, sy, old(disp)@, self@.fourth_nibble as int);
                &&& final(disp)@.len() == 2048
                &&& final(disp)@ == dr.0
                &&& final(mem_ctrl)@ == (MemView {
                    v: vreg_set(vf0, 15, if dr.1 { 1u8 } else { 0u8 }),
                    ..m
                })
            }),
    {
        mem_ctrl.set_v(0xf, 0);
        let ghost m1 = mem_ctrl@;
        let ghost d0 = disp@;
        let sx = mem_ctrl.get_v(self.x);
        let sy = mem_ctrl.get_v(self.y);
        let i_reg = mem_ctrl.get_i();
        let n = self.fourth_nibble;
        let mut collided = false;
        let mut byte_i: u8 = 0;
        while byte_i < n
            invariant
                byte_i <= n,
                mem_ctrl@ == m1,
                m1.wf(),
                d0.len() == 2048,
                i_reg == m1.i,
                sx == vreg(m1.v, self@.x),
                sy == vreg(m1.v, self@.y),
                disp@.len() == 2048,
                disp@ == draw_upto(m1.ram, m1.i, sx, sy, d0, byte_i as int).0,
                collided == draw_upto(m1.ram, m1.i, sx, sy, d0, byte_i as int).1,
            decreases n - byte_i,
        {
            let sprite_byte = mem_ctrl.get_ram_masked(i_reg, byte_i as u16);
            let py = sy.wrapping_add(byte_i);
            let ghost d_row = disp@;
            let ghost coll_row = collided;
            let mut curr_bit: u8 = 0;
            while curr_bit < 8
                invariant
                    curr_bit <= 8,
                    d_row.len() == 2048,
                    sprite_byte == m1.ram[(m1.i + byte_i) % 4096],
                    py == ((sy + byte_i) % 256) as u8,
                    disp@.len() == 2048,
                    disp@ == sprite_row_upto(d_row, sprite_byte, sx, py, curr_bit as int).0,
                    collided == (coll_row || sprite_row_upto(d_row, sprite_byte, sx, py, curr_bit as int).1),
                decreases 8 - curr_bit,
            {
                if (sprite_byte >> (7 - curr_bit)) & 1 == 1 {
                    let c = disp.put(sx.wrapping_add(curr_bit), py);
                    if c {
                        collided = true;
                    }
                }
                curr_bit = curr_bit + 1;
            }
            proof {
                assert(draw_upto(m1.ram, m1.i, sx, sy, d0, byte_i + 1).0
                    == sprite_row_upto(d_row, sprite_byte, sx, py, 8).0);
                assert(draw_upto(m1.ram, m1.i, sx, sy, d0, byte_i + 1).1
                    == (coll_row || sprite_row_upto(d_row, sprite_byte, sx, py, 8).1));
            }
            byte_i = byte_i + 1;
        }
        let flag = Logic::bool_to_u8(collided);
        mem_ctrl.set_v(0xf, flag);
    }
}

impl CpuController {
    /// One dispatch cycle: decodes the instruction at the program
    /// counter, executes exactly one opcode's semantics against the
    /// machine state, display and keypad, and advances the program
    /// counter by 2 unless the opcode redirects it. A stack discipline
    /// violation is fatal: the cycle changes nothing and reports the
    /// error. The whole cycle agrees with `cycle_spec` for some value
    /// of the drawn random byte.
    #[verifier::rlimit(100)]
    pub fn fetch_exec(
        &mut self,
        disp: &mut DisplayBuffer,
        mem_ctrl: &mut MemoryController,
        keyboard_ctrl: &KeyboardController,
    ) -> (r: Result<CycleEvent, CycleError>)
        requires
            old(mem_ctrl)@.wf(),
            old(mem_ctrl)@.pc + 1 < 4096,
            old(disp)@.len() == 2048,
            keyboard_ctrl@.len() == 16,
        ensures
            decoded(final(self)@, old(mem_ctrl)@),
            final(self)@.nibbles_wf(),
            final(self)@.cycles_per_frame == old(self)@.cycles_per_frame,
            final(self)@.bit_shift_instructions_use_vy == old(self)@.bit_shift_instructions_use_vy,
            final(self)@.store_read_instructions_change_i == old(self)@.store_read_instructions_change_i,
            final(mem_ctrl)@.wf(),
            final(disp)@.len() == 2048,
            exists|rnd: u8|
                #[trigger] cycle_post(
                    old(self)@,
                    old(mem_ctrl)@,
                    old(disp)@,
                    keyboard_ctrl@,
                    final(mem_ctrl)@,
                    final(disp)@,
                    r,
                    rnd,
                ),
    {
        self.load_next_instr(mem_ctrl);
        let ghost m0 = mem_ctrl@;
        let ghost d0 = disp@;
        let ghost mut rnd_wit: u8 = 0u8;
        let mut inc_pc = true;
        let r: Result<CycleEvent, CycleError>;
        if self.word == 0x00e0 {
            self.clear_screen(disp);
            r = Ok(CycleEvent::Executed);
        } else if self.word == 0x00ee {
            if mem_ctrl.get_sp() == 0 {
                inc_pc = false;
                r = Err(CycleError::StackUnderflow);
            } else {
                self.return_from_subroutine(mem_ctrl);
                r = Ok(CycleEvent::Executed);
            }
        } else {
            match self.first_nibble {
                1 => {
                    self.jump_to_address(mem_ctrl);
                    inc_pc = false;
                    r = Ok(CycleEvent::Executed);
                },
                2 => {
                    if mem_ctrl.get_sp() >= 16 {
                        inc_pc = false;
                        r = Err(CycleError::StackOverflow);
                    } else {
                        self.call_address(mem_ctrl);
                        inc_pc = false;
                        r = Ok(CycleEvent::Executed);
                    }
                },
                3 => {
                    self.skip_equal_vx_byte(mem_ctrl);
                    r = Ok(CycleEvent::Executed);
                },
                4 => {
                    self.skip_not_equal_vx_byte(mem_ctrl);
                    r = Ok(CycleEvent::Executed);
                },
                5 => {
                    if self.fourth_nibble == 0 {
                        self.skip_equal_vx_vy(mem_ctrl);
                        r = Ok(CycleEvent::Executed);
                    } else {
                        r = Ok(CycleEvent::Unimplemented(self.word));
                    }
                },
                6 => {
                    self.set_vx_byte(mem_ctrl);
                    r = Ok(CycleEvent::Executed);
                },
                7 => {
                    self.add_vx_byte(mem_ctrl);
                    r = Ok(CycleEvent::Executed);
                },
                8 => {
                    match self.fourth_nibble {
                        0 => {
                            self.set_vx_vy(mem_ctrl);
                            r = Ok(CycleEvent::Executed);
                        },
                        1 => {
                            self.set_vx_or_vy(mem_ctrl);
                            r = Ok(CycleEvent::Executed);
                        },
                        2 => {
                            self.set_vx_and_vy(mem_ctrl);
                            r = Ok(CycleEvent::Executed);
                        },
                        3 => {
                            self.set_vx_xor_vy(mem_ctrl);
                            r = Ok(CycleEvent::Executed);
                        },
                        4 => {
                            self.add_vx_vy(mem_ctrl);
                            r = Ok(CycleEvent::Executed);
                        },
                        5 => {
                            self.sub_vx_vy(mem_ctrl);
                            r = Ok(CycleEvent::Executed);
                        },
                        6 => {
                            self.shift_right_vx_vy(mem_ctrl);
                            r = Ok(CycleEvent::Executed);
                        },
                        7 => {
                            self.subn_vx_vy(mem_ctrl);
                            r = Ok(CycleEvent::Executed);
                        },
                        0xe => {
                            self.shift_left_vx_vy(mem_ctrl);
                            r = Ok(CycleEvent::Executed);
                        },
                        _ => {
                            r = Ok(CycleEvent::Unimplemented(self.word));
                        },
                    }
                },
                9 => {
                    if self.fourth_nibble == 0 {
                        self.skip_not_equal_vx_vy(mem_ctrl);
                        r = Ok(CycleEvent::Executed);
                    } else {
                        r = Ok(CycleEvent::Unimplemented(self.word));
                    }
                },
                0xa => {
                    self.set_i_address(mem_ctrl);
                    r = Ok(CycleEvent::Executed);
                },
                0xb => {
                    self.jump_to_address_plus_v0(mem_ctrl);
                    inc_pc = false;
                    r = Ok(CycleEvent::Executed);
                },
                0xc => {
                    self.set_vx_and_random_byte(mem_ctrl);
                    proof {
                        rnd_wit = choose|b: u8| mem_ctrl@ == masked_byte_written(m0, self@, b);
                    }
                    r = Ok(CycleEvent::Executed);
                },
                0xd => {
                    self.draw_sprite(mem_ctrl, disp);
                    r = Ok(CycleEvent::Executed);
                },
                0xe => {
                    match self.second_byte {
                        0x9e => {
                            self.skip_if_key_vx_is_pressed(keyboard_ctrl, mem_ctrl);
                            r = Ok(CycleEvent::Executed);
                        },
                        0xa1 => {
                            self.skip_if_key_vx_is_not_pressed(keyboard_ctrl, mem_ctrl);
                            r = Ok(CycleEvent::Executed);
                        },
                        _ => {
                            r = Ok(CycleEvent::Unimplemented(self.word));
                        },
                    }
                },
                0xf => {
                    match self.second_byte {
                        0x07 => {
                            self.set_vx_dt(mem_ctrl);
                            r = Ok(CycleEvent::Executed);
                        },
                        0x0a => {
                            match self.halt_until_key_press(keyboard_ctrl, mem_ctrl) {
                                CpuState::Halted => {
                                    inc_pc = false;
                                    r = Ok(CycleEvent::WaitingForKey);
                                },
                                CpuState::NotHalted => {
                                    r = Ok(CycleEvent::Executed);
                                },
                            }
                        },
                        0x15 => {
                            self.set_dt_vx(mem_ctrl);
                            r = Ok(CycleEvent::Executed);
                        },
                        0x18 => {
                            self.set_st_vx(mem_ctrl);
                            r = Ok(CycleEvent::Executed);
                        },
                        0x1e => {
                            self.add_i_vx(mem_ctrl);
                            r = Ok(CycleEvent::Executed);
                        },
                        0x29 => {
                            self.set_i_sprite_digit_vx(mem_ctrl);
                            r = Ok(CycleEvent::Executed);
                        },
                        0x33 => {
                            self.copy_bcd_vx_into_addr_i(mem_ctrl);
                            r = Ok(CycleEvent::Executed);
                        },
                        0x55 => {
                            self.copy_v0_through_vx_into_addr_i(mem_ctrl);
                            r = Ok(CycleEvent::Executed);
                        },
                        0x65 => {
                            self.read_v0_through_vx_from_addr_i(mem_ctrl);
                            r = Ok(CycleEvent::Executed);
                        },
                        _ => {
                            r = Ok(CycleEvent::Unimplemented(self.word));
                        },
                    }
                },
                _ => {
                    r = Ok(CycleEvent::Unimplemented(self.word));
                },
            }
        }
        if inc_pc {
            // Every instruction word is two bytes, so the program counter
            // moves in steps of 2.
            mem_ctrl.inc_pc_by(2);
        }
        proof {
            mem_ctrl.lemma_sizes();
            assert((m0.pc + 2) % 0x10000 == m0.pc + 2);
            assert(cycle_post(old(self)@, m0, d0, keyboard_ctrl@, mem_ctrl@, disp@, r, rnd_wit));
        }
        r
    }
}

/// The machine-step function: what one dispatch cycle does to the
/// machine state and the display, given the keypad flags and the byte
/// that the random-byte opcode would draw this cycle. It decodes the
/// word at the program counter, applies exactly one opcode's
/// semantics, and advances the program counter by 2 unless the opcode
/// redirects it (jump, call, return, skip, key-wait stall).
pub open spec fn cycle_spec(
    m: MemView,
    d: Seq<u8>,
    k: Seq<u8>,
    bit_shift_instructions_use_vy: bool,
    store_read_instructions_change_i: bool,
    rnd: u8,
) -> (MemView, Seq<u8>, Result<CycleEvent, CycleError>)
    recommends
        m.wf(),
        m.pc + 1 < 4096,
{
    let b0 = m.ram[m.pc as int];
    let b1 = m.ram[m.pc as int + 1];
    let w = word_of_bytes(b0, b1);
    let op = b0 >> 4u8;
    let x = b0 & 0x0F;
    let y = b1 >> 4u8;
    let n = b1 & 0x0F;
    let nnn = addr_of_nibbles(x, y, n);
    let pc2 = ((m.pc + 2) % 0x10000) as u16;
    let pc4 = ((m.pc + 4) % 0x10000) as u16;
    let ok = Ok::<CycleEvent, CycleError>(CycleEvent::Executed);
    if w == 0x00E0 {
        // CLS: clear the display.
        (MemView { pc: pc2, ..m }, cleared_grid(), ok)
    } else if w == 0x00EE {
        // RET: return to the saved address; fatal on an empty stack.
        if m.sp == 0 {
            (m, d, Err(CycleError::StackUnderflow))
        } else {
            (MemView {
                pc: ((m.stack[m.sp - 1] + 2) % 0x10000) as u16,
                stack: m.stack.update(m.sp - 1, 0u16),
                sp: (m.sp - 1) as u8,
                ..m
            }, d, ok)
        }
    } else if op == 1 {
        // JP addr.
        (MemView { pc: nnn as u16, ..m }, d, ok)
    } else if op == 2 {
        // CALL addr: fatal on a full stack.
        if m.sp >= 16 {
            (m, d, Err(CycleError::StackOverflow))
        } else {
            (MemView {
                stack: m.stack.update(m.sp as int, m.pc),
                sp: (m.sp + 1) as u8,
                pc: nnn as u16,
                ..m
            }, d, ok)
        }
    } else if op == 3 {
        // SE Vx, byte.
        (MemView { pc: if vreg(m.v, x) == b1 { pc4 } else { pc2 }, ..m }, d, ok)
    } else if op == 4 {
        // SNE Vx, byte.
        (MemView { pc: if vreg(m.v, x) != b1 { pc4 } else { pc2 }, ..m }, d, ok)
    } else if op == 5 && n == 0 {
        // SE Vx, Vy.
        (MemView { pc: if vreg(m.v, x) == vreg(m.v, y) { pc4 } else { pc2 }, ..m }, d, ok)
    } else if op == 6 {
        // LD Vx, byte.
        (MemView { v: vreg_set(m.v, x, b1), pc: pc2, ..m }, d, ok)
    } else if op == 7 {
        // ADD Vx, byte (no flag).
        (MemView { v: vreg_set(m.v, x, ((vreg(m.v, x) + b1) % 256) as u8), pc: pc2, ..m }, d, ok)
    } else if op == 8 && n == 0 {
        // LD Vx, Vy.
        (MemView { v: vreg_set(m.v, x, vreg(m.v, y)), pc: pc2, ..m }, d, ok)
    } else if op == 8 && n == 1 {
        // OR Vx, Vy.
        (MemView { v: vreg_set(m.v, x, vreg(m.v, x) | vreg(m.v, y)), pc: pc2, ..m }, d, ok)
    } else if op == 8 && n == 2 {
        // AND Vx, Vy.
        (MemView { v: vreg_set(m.v, x, vreg(m.v, x) & vreg(m.v, y)), pc: pc2, ..m }, d, ok)
    } else if op == 8 && n == 3 {
        // XOR Vx, Vy.
        (MemView { v: vreg_set(m.v, x, vreg(m.v, x) ^ vreg(m.v, y)), pc: pc2, ..m }, d, ok)
    } else if op == 8 && n == 4 {
        // ADD Vx, Vy: VF is the carry, written before v[x].
        let sum = vreg(m.v, x) + vreg(m.v, y);
        (MemView {
            v: vreg_set(vreg_set(m.v, 15, if sum > 255 { 1u8 } else { 0u8 }), x, (sum % 256) as u8),
            pc: pc2,
            ..m
        }, d, ok)
    } else if op == 8 && n == 5 {
        // SUB Vx, Vy: VF is the NOT-borrow flag.
        let vx = vreg(m.v, x);
        let vy = vreg(m.v, y);
        (MemView {
            v: vreg_set(vreg_set(m.v, 15, if vx > vy { 1u8 } else { 0u8 }), x, ((vx - vy) % 256) as u8),
            pc: pc2,
            ..m
        }, d, ok)
    } else if op == 8 && n == 6 {
        // SHR Vx {, Vy}: the shift quirk picks the source register.
        let src = vreg(m.v, if bit_shift_instructions_use_vy { y } else { x });
        (MemView {
            v: vreg_set(vreg_set(m.v, 15, src & 1), x, src >> 1u8),
            pc: pc2,
            ..m
        }, d, ok)
    } else if op == 8 && n == 7 {
        // SUBN Vx, Vy: VF is the NOT-borrow flag of the reversed subtract.
        let vx = vreg(m.v, x);
        let vy = vreg(m.v, y);
        (MemView {
            v: vreg_set(vreg_set(m.v, 15, if vy > vx { 1u8 } else { 0u8 }), x, ((vy - vx) % 256) as u8),
            pc: pc2,
            ..m
        }, d, ok)
    } else if op == 8 && n == 0xE {
        // SHL Vx {, Vy}: the shift quirk picks the source register.
        let src = vreg(m.v, if bit_shift_instructions_use_vy { y } else { x });
        (MemView {
            v: vreg_set(vreg_set(m.v, 15, src >> 7u8), x, src << 1u8),
            pc: pc2,
            ..m
        }, d, ok)
    } else if op == 9 && n == 0 {
        // SNE Vx, Vy.
        (MemView { pc: if vreg(m.v, x) != vreg(m.v, y) { pc4 } else { pc2 }, ..m }, d, ok)
    } else if op == 0xA {
        // LD I, addr.
        (MemView { i: nnn as u16, pc: pc2, ..m }, d, ok)
    } else if op == 0xB {
        // JP V0, addr.
        (MemView { pc: (nnn + vreg(m.v, 0)) as u16, ..m }, d, ok)
    } else if op == 0xC {
        // RND Vx, byte.
        (MemView { v: vreg_set(m.v, x, rnd & b1), pc: pc2, ..m }, d, ok)
    } else if op == 0xD {
        // DRW Vx, Vy, nibble: VF cleared first, then sticky on collision.
        let vf0 = vreg_set(m.v, 15, 0);
        let sx = vreg(vf0, x);
        let sy = vreg(vf0, y);
        let dr = draw_upto(m.ram, m.i, sx, sy, d, n as int);
        (MemView {
            v: vreg_set(vf0, 15, if dr.1 { 1u8 } else { 0u8 }),
            pc: pc2,
            ..m
        }, dr.0, ok)
    } else if op == 0xE && b1 == 0x9E {
        // SKP Vx.
        (MemView {
            pc: if key_selected_down(k, vreg(m.v, x)) { pc4 } else { pc2 },
            ..m
        }, d, ok)
    } else if op == 0xE && b1 == 0xA1 {
        // SKNP Vx.
        (MemView {
            pc: if !key_selected_down(k, vreg(m.v, x)) { pc4 } else { pc2 },
            ..m
        }, d, ok)
    } else if op == 0xF && b1 == 0x07 {
        // LD Vx, DT.
        (MemView { v: vreg_set(m.v, x, m.dt), pc: pc2, ..m }, d, ok)
    } else if op == 0xF && b1 == 0x0A {
        // LD Vx, K: cooperative key wait, re-polled each cycle.
        match lowest_key_down(k) {
            Some(key_down) => (MemView { v: vreg_set(m.v, x, key_down), pc: pc2, ..m }, d, ok),
            None => (m, d, Ok(CycleEvent::WaitingForKey)),
        }
    } else if op == 0xF && b1 == 0x15 {
        // LD DT, Vx.
        (MemView { dt: vreg(m.v, x), pc: pc2, ..m }, d, ok)
    } else if op == 0xF && b1 == 0x18 {
        // LD ST, Vx.
        (MemView { st: vreg(m.v, x), pc: pc2, ..m }, d, ok)
    } else if op == 0xF && b1 == 0x1E {
        // ADD I, Vx (wrapping 16-bit).
        (MemView { i: ((m.i + vreg(m.v, x)) % 0x10000) as u16, pc: pc2, ..m }, d, ok)
    } else if op == 0xF && b1 == 0x29 {
        // LD F, Vx: point i at the font glyph for v[x].
        (MemView { i: (5 * vreg(m.v, x)) as u16, pc: pc2, ..m }, d, ok)
    } else if op == 0xF && b1 == 0x33 {
        // LD B, Vx: BCD digits at i, i+1, i+2.
        let vx = vreg(m.v, x);
        (MemView {
            ram: m.ram
                .update((m.i + 0) % 4096, (vx / 100) as u8)
                .update((m.i + 1) % 4096, ((vx / 10) % 10) as u8)
                .update((m.i + 2) % 4096, (vx % 10) as u8),
            pc: pc2,
            ..m
        }, d, ok)
    } else if op == 0xF && b1 == 0x55 {
        // LD [I], Vx: store v[0..=x], then the store/read quirk on i.
        (MemView {
            ram: store_regs_upto(m.ram, m.v, m.i, x + 1),
            i: if store_read_instructions_change_i { ((m.i + x + 1) % 0x10000) as u16 } else { m.i },
            pc: pc2,
            ..m
        }, d, ok)
    } else if op == 0xF && b1 == 0x65 {
        // LD Vx, [I]: load v[0..=x], then the store/read quirk on i.
        (MemView {
            v: load_regs_upto(m.v, m.ram, m.i, x + 1),
            i: if store_read_instructions_change_i { ((m.i + x + 1) % 0x10000) as u16 } else { m.i },
            pc: pc2,
            ..m
        }, d, ok)
    } else {
        // Any other bit pattern: a no-op, reported as a diagnostic event.
        (MemView { pc: pc2, ..m }, d, Ok(CycleEvent::Unimplemented(w as u16)))
    }
}

/// One cycle's outcome agrees with the machine-step function for the
/// drawn byte `rnd`: states `m1`, `d1` and report `r` are what
/// `cycle_spec` gives from `m0`, `d0`, keypad `k` and the quirks in `c`.
pub open spec fn cycle_post(
    c: CpuView,
    m0: MemView,
    d0: Seq<u8>,
    k: Seq<u8>,
    m1: MemView,
    d1: Seq<u8>,
    r: Result<CycleEvent, CycleError>,
    rnd: u8,
) -> bool {
    let t = cycle_spec(
        m0,
        d0,
        k,
        c.bit_shift_instructions_use_vy,
        c.store_read_instructions_change_i,
        rnd,
    );
    m1 == t.0 && d1 == t.1 && r == t.2
}

/// The machine state after the random-byte opcode stored `b & kk`
/// into v[x], for the drawn byte `b`.
pub open spec fn masked_byte_written(m: MemView, c: CpuView, b: u8) -> MemView {
    MemView { v: vreg_set(m.v, c.x, b & c.second_byte), ..m }
}

/// RAM after storing registers v[0..k] at addresses i, i+1, ...,
/// each wrapped into the 4096-byte space.
pub open spec fn store_regs_upto(ram: Seq<u8>, v: Seq<u8>, i: u16, k: int) -> Seq<u8>
    decreases k,
{
    if k <= 0 {
        ram
    } else {
        store_regs_upto(ram, v, i, k - 1).update((i + k - 1) % 4096, v[k - 1])
    }
}

/// Registers after loading v[0..k] from RAM addresses i, i+1, ...,
/// each wrapped into the 4096-byte space.
pub open spec fn load_regs_upto(v: Seq<u8>, ram: Seq<u8>, i: u16, k: int) -> Seq<u8>
    decreases k,
{
    if k <= 0 {
        v
    } else {
        load_regs_upto(v, ram, i, k - 1).update(k - 1, ram[(i + k - 1) % 4096])
    }
}

/// The display and collision flag after drawing the first `c` bits
/// (most significant first) of one sprite row byte at display row
/// `sy_row`, starting from column sx.
pub open spec fn sprite_row_upto(d: Seq<u8>, byte: u8, sx: u8, sy_row: u8, c: int) -> (Seq<u8>, bool)
    decreases c,
{
    if c <= 0 {
        (d, false)
    } else {
        let prev = sprite_row_upto(d, byte, sx, sy_row, c - 1);
        if (byte >> ((8 - c) as u8)) & 1 == 1 {
            let put = put_pixel_spec(prev.0, ((sx + c - 1) % 256) as u8, sy_row);
            (put.0, prev.1 || put.1)
        } else {
            prev
        }
    }
}

/// The display and collision flag after drawing the first `r` rows of
/// the sprite at RAM address i (addresses wrapped) to (sx, sy).
pub open spec fn draw_upto(ram: Seq<u8>, i: u16, sx: u8, sy: u8, d: Seq<u8>, r: int) -> (Seq<u8>, bool)
    decreases r,
{
    if r <= 0 {
        (d, false)
    } else {
        let prev = draw_upto(ram, i, sx, sy, d, r - 1);
        let byte = ram[(i + r - 1) % 4096];
        let row = sprite_row_upto(prev.0, byte, sx, ((sy + r - 1) % 256) as u8, 8);
        (row.0, prev.1 || row.1)
    }
}

/// Relies on rand::Rng::gen_range over rand::thread_rng: one byte drawn
/// from the full 0..=255 range; nothing is promised of the value.
#[verifier::external_body]
fn random_byte() -> u8 {
    rand::thread_rng().gen_range(0..=u8::MAX)
}

/// The nibble-masking identities behind decode and keypad selection.
proof fn nibble_bounds(b: u8)
    by (bit_vector)
    ensures
        b >> 4u8 < 16,
        b & 0x0F < 16,
        b & 0x0F == b as int % 16,
{
}

} // verus!
