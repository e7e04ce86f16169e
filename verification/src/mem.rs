//! Machine state: 4096 bytes of RAM, 16 general registers, call stack,
//! program counter, index register and the two 60 Hz timers.

use vstd::prelude::*;

verus! {

/// Mathematical model of the machine state.
#[verifier::ext_equal]
pub ghost struct MemView {
    pub ram: Seq<u8>,
    pub v: Seq<u8>,
    pub stack: Seq<u16>,
    pub sp: u8,
    pub pc: u16,
    pub i: u16,
    pub dt: u8,
    pub st: u8,
}

impl MemView {
    /// Structural validity: fixed sizes and a stack pointer inside the stack.
    pub open spec fn wf(self) -> bool {
        &&& self.ram.len() == 4096
        &&& self.v.len() == 16
        &&& self.stack.len() == 16
        &&& self.sp <= 16
    }
}

/// The value of register `nibble`, as the register file hands it out:
/// selectors outside 0..16 read as 0.
pub open spec fn vreg(v: Seq<u8>, nibble: u8) -> u8 {
    if nibble < 16 {
        v[nibble as int]
    } else {
        0
    }
}

/// The register file after writing `val` to register `nibble`:
/// selectors outside 0..16 write nothing.
pub open spec fn vreg_set(v: Seq<u8>, nibble: u8, val: u8) -> Seq<u8> {
    if nibble < 16 {
        v.update(nibble as int, val)
    } else {
        v
    }
}

/// The built-in sprites for the hexadecimal digits: 16 glyphs, 5 bytes each,
/// each byte one row of 8 pixels. Programs address glyph `d` at `5 * d`.
pub open spec fn font_spec() -> Seq<u8> {
    seq![
        0xF0u8, 0x90, 0x90, 0x90, 0xF0,
        0x20, 0x60, 0x20, 0x20, 0x70,
        0xF0, 0x10, 0xF0, 0x80, 0xF0,
        0xF0, 0x10, 0xF0, 0x10, 0xF0,
        0x90, 0x90, 0xF0, 0x10, 0x10,
        0xF0, 0x80, 0xF0, 0x10, 0xF0,
        0xF0, 0x80, 0xF0, 0x90, 0xF0,
        0xF0, 0x10, 0x20, 0x40, 0x40,
        0xF0, 0x90, 0xF0, 0x90, 0xF0,
        0xF0, 0x90, 0xF0, 0x10, 0xF0,
        0xF0, 0x90, 0xF0, 0x90, 0x90,
        0xE0, 0x90, 0xE0, 0x90, 0xE0,
        0xF0, 0x80, 0x80, 0x80, 0xF0,
        0xE0, 0x90, 0x90, 0x90, 0xE0,
        0xF0, 0x80, 0xF0, 0x80, 0xF0,
        0xF0, 0x80, 0xF0, 0x80, 0x80,
    ]
}

/// `ram` with the font table written over its first 80 bytes.
pub open spec fn with_font(ram: Seq<u8>) -> Seq<u8> {
    Seq::new(ram.len(), |j: int| if j < 80 { font_spec()[j] } else { ram[j] })
}

/// `ram` with the ROM image written over the bytes from 0x200 on.
pub open spec fn with_rom(ram: Seq<u8>, rom: Seq<u8>) -> Seq<u8> {
    Seq::new(ram.len(), |j: int| if 0x200 <= j < 0x200 + rom.len() { rom[j - 0x200] } else { ram[j] })
}

/// A ROM image that does not fit under the top of RAM is rejected at load time.
#[derive(Clone, Copy, Debug, PartialEq, Eq, Structural)]
pub enum LoadError {
    RomTooLarge,
}

/// The highest ROM size that fits: 4096 bytes of RAM minus the 0x200 reserved low bytes.
pub const MAX_ROM_BYTES: usize = 3584;

pub struct Memory {
    ram: [u8; 4096],
    stack: [u16; 16],
    v: [u8; 16],
    dt: u8,
    st: u8,
    pc: u16,
    sp: u8,
    i: u16,
}

impl View for Memory {
    type V = MemView;

    closed spec fn view(&self) -> MemView {
        MemView {
            ram: self.ram@,
            v: self.v@,
            stack: self.stack@,
            sp: self.sp,
            pc: self.pc,
            i: self.i,
            dt: self.dt,
            st: self.st,
        }
    }
}

impl Memory {
    /// A zeroed machine: RAM, registers, stack and timers all 0,
    /// program counter at the conventional start address 0x200.
    pub fn new() -> (m: Memory)
        ensures
            m@.wf(),
            m@.ram =~= Seq::new(4096, |j: int| 0u8),
            m@.v =~= Seq::new(16, |j: int| 0u8),
            m@.stack =~= Seq::new(16, |j: int| 0u16),
            m@.sp == 0,
            m@.pc == 0x200,
            m@.i == 0,
            m@.dt == 0,
            m@.st == 0,
    {
        Memory {
            ram: [0; 4096],
            stack: [0; 16],
            v: [0; 16],
            dt: 0,
            st: 0,
            pc: 0x200,
            sp: 0,
            i: 0,
        }
    }
}

pub struct MemoryController {
    mem: Memory,
}

impl View for MemoryController {
    type V = MemView;

    closed spec fn view(&self) -> MemView {
        self.mem@
    }
}

impl MemoryController {
    pub fn new(mem: Memory) -> (c: MemoryController)
        ensures
            c@ == mem@,
    {
        MemoryController { mem }
    }

    /// Places the ROM image and the font table into RAM.
    /// Fails, changing nothing, iff the image does not fit.
    pub fn init_ram(&mut self, rom: &Vec<u8>) -> (r: Result<(), LoadError>)
        ensures
            rom@.len() <= MAX_ROM_BYTES ==> r is Ok
                && final(self)@ =~= (MemView { ram: with_font(with_rom(old(self)@.ram, rom@)), ..old(self)@ }),
            rom@.len() > MAX_ROM_BYTES ==> r is Err && final(self)@ == old(self)@,
    {
        let res = self.load_rom(rom);
        match res {
            Ok(()) => {
                self.load_hex_digits();
                Ok(())
            },
            Err(e) => Err(e),
        }
    }

    /// Copies the ROM image into RAM starting at 0x200.
    /// Fails, changing nothing, iff the image does not fit.
    pub fn load_rom(&mut self, rom: &Vec<u8>) -> (r: Result<(), LoadError>)
        ensures
            rom@.len() <= MAX_ROM_BYTES ==> r is Ok
                && final(self)@ =~= (MemView { ram: with_rom(old(self)@.ram, rom@), ..old(self)@ }),
            rom@.len() > MAX_ROM_BYTES ==> r is Err && final(self)@ == old(self)@,
    {
        if rom.len() > MAX_ROM_BYTES {
            return Err(LoadError::RomTooLarge);
        }
        let mut idx: usize = 0;
        while idx < rom.len()
            invariant
                idx <= rom@.len(),
                rom@.len() <= MAX_ROM_BYTES,
                self@.ram.len() == 4096,
                forall|j: int| 0x200 <= j < 0x200 + idx ==> self@.ram[j] == rom@[j - 0x200],
                forall|j: int| 0 <= j < 4096 && !(0x200 <= j < 0x200 + idx) ==> self@.ram[j] == old(self)@.ram[j],
                self@ == (MemView { ram: self@.ram, ..old(self)@ }),
            decreases rom@.len() - idx,
        {
            self.mem.ram[0x200 + idx] = rom[idx];
            idx += 1;
        }
        Ok(())
    }

    /// Writes the 80-byte font table over RAM addresses 0x000-0x04F.
    pub fn load_hex_digits(&mut self)
        ensures
            final(self)@ =~= (MemView { ram: with_font(old(self)@.ram), ..old(self)@ }),
    {
        let font: [u8; 80] = [
            0xF0, 0x90, 0x90, 0x90, 0xF0,
            0x20, 0x60, 0x20, 0x20, 0x70,
            0xF0, 0x10, 0xF0, 0x80, 0xF0,
            0xF0, 0x10, 0xF0, 0x10, 0xF0,
            0x90, 0x90, 0xF0, 0x10, 0x10,
            0xF0, 0x80, 0xF0, 0x10, 0xF0,
            0xF0, 0x80, 0xF0, 0x90, 0xF0,
            0xF0, 0x10, 0x20, 0x40, 0x40,
            0xF0, 0x90, 0xF0, 0x90, 0xF0,
            0xF0, 0x90, 0xF0, 0x10, 0xF0,
            0xF0, 0x90, 0xF0, 0x90, 0x90,
            0xE0, 0x90, 0xE0, 0x90, 0xE0,
            0xF0, 0x80, 0x80, 0x80, 0xF0,
            0xE0, 0x90, 0x90, 0x90, 0xE0,
            0xF0, 0x80, 0xF0, 0x80, 0xF0,
            0xF0, 0x80, 0xF0, 0x80, 0x80,
        ];
        proof {
            assert(font@ =~= font_spec());
        }
        let mut idx: usize = 0;
        while idx < 80
            invariant
                idx <= 80,
                self@.ram.len() == 4096,
                forall|j: int| 0 <= j < idx ==> self@.ram[j] == font_spec()[j],
                forall|j: int| idx <= j < 4096 ==> self@.ram[j] == old(self)@.ram[j],
                self@ == (MemView { ram: self@.ram, ..old(self)@ }),
                font@ =~= font_spec(),
            decreases 80 - idx,
        {
            self.mem.ram[idx] = font[idx];
            idx += 1;
        }
    }

    /// A copy of the whole RAM.
    pub fn get_ram(&self) -> (r: [u8; 4096])
        ensures
            r@ == self@.ram,
    {
        self.mem.ram
    }

    pub fn set_ram(&mut self, index: usize, val: u8)
        requires
            index < 4096,
        ensures
            final(self)@ == (MemView { ram: old(self)@.ram.update(index as int, val), ..old(self)@ }),
    {
        self.mem.ram[index] = val;
    }

    /// Reads RAM at `base + off`, the address wrapped into the 4096-byte
    /// space so that an index register pushed past the top stays live.
    pub fn get_ram_masked(&self, base: u16, off: u16) -> (r: u8)
        ensures
            r == self@.ram[(base + off) % 4096],
    {
        let s: u32 = base as u32 + off as u32;
        self.mem.ram[(s % 4096) as usize]
    }

    /// Writes RAM at `base + off`, the address wrapped into the 4096-byte
    /// space so that an index register pushed past the top stays live.
    pub fn set_ram_masked(&mut self, base: u16, off: u16, val: u8)
        ensures
            final(self)@ == (MemView {
                ram: old(self)@.ram.update((base + off) % 4096, val),
                ..old(self)@
            }),
    {
        let s: u32 = base as u32 + off as u32;
        self.mem.ram[(s % 4096) as usize] = val;
    }

    /// Reads register `nibble`; selectors outside 0..16 read as 0.
    pub fn get_v(&self, nibble: u8) -> (r: u8)
        ensures
            r == vreg(self@.v, nibble),
    {
        if nibble < 16 {
            self.mem.v[nibble as usize]
        } else {
            0
        }
    }

    /// Writes register `nibble`; selectors outside 0..16 write nothing.
    pub fn set_v(&mut self, nibble: u8, val: u8)
        ensures
            final(self)@ == (MemView { v: vreg_set(old(self)@.v, nibble, val), ..old(self)@ }),
    {
        if nibble < 16 {
            self.mem.v[nibble as usize] = val;
        }
        proof {
            assert(final(self)@ =~= (MemView { v: vreg_set(old(self)@.v, nibble, val), ..old(self)@ }));
        }
    }

    /// Reads register `nibble`; selectors outside 0..16 read as 0.
    pub fn get_v_by_nibble(&self, nibble: u8) -> (r: u8)
        ensures
            r == vreg(self@.v, nibble),
    {
        self.get_v(nibble)
    }

    /// Writes register `nibble`; selectors outside 0..16 write nothing.
    pub fn set_v_by_nibble(&mut self, nibble: u8, val: u8)
        ensures
            final(self)@ == (MemView { v: vreg_set(old(self)@.v, nibble, val), ..old(self)@ }),
    {
        self.set_v(nibble, val);
    }

    pub fn get_dt(&self) -> (r: u8)
        ensures
            r == self@.dt,
    {
        self.mem.dt
    }

    pub fn set_dt(&mut self, val: u8)
        ensures
            final(self)@ == (MemView { dt: val, ..old(self)@ }),
    {
        self.mem.dt = val;
    }

    /// One 60 Hz tick of the delay timer: down by one, never below zero.
    pub fn dec_dt(&mut self)
        ensures
            final(self)@ == (MemView {
                dt: if old(self)@.dt > 0 { (old(self)@.dt - 1) as u8 } else { 0 },
                ..old(self)@
            }),
    {
        if self.mem.dt > 0 {
            self.mem.dt = self.mem.dt - 1;
        }
    }

    pub fn get_st(&self) -> (r: u8)
        ensures
            r == self@.st,
    {
        self.mem.st
    }

    pub fn set_st(&mut self, val: u8)
        ensures
            final(self)@ == (MemView { st: val, ..old(self)@ }),
    {
        self.mem.st = val;
    }

    /// One 60 Hz tick of the sound timer: down by one, never below zero.
    pub fn dec_st(&mut self)
        ensures
            final(self)@ == (MemView {
                st: if old(self)@.st > 0 { (old(self)@.st - 1) as u8 } else { 0 },
                ..old(self)@
            }),
    {
        if self.mem.st > 0 {
            self.mem.st = self.mem.st - 1;
        }
    }

    /// One 60 Hz tick of both timers.
    pub fn dec_all_timers(&mut self)
        ensures
            final(self)@ == (MemView {
                dt: if old(self)@.dt > 0 { (old(self)@.dt - 1) as u8 } else { 0 },
                st: if old(self)@.st > 0 { (old(self)@.st - 1) as u8 } else { 0 },
                ..old(self)@
            }),
    {
        self.dec_dt();
        self.dec_st();
    }

    pub fn get_pc(&self) -> (r: u16)
        ensures
            r == self@.pc,
    {
        self.mem.pc
    }

    pub fn set_pc(&mut self, val: u16)
        ensures
            final(self)@ == (MemView { pc: val, ..old(self)@ }),
    {
        self.mem.pc = val;
    }

    /// Advances the program counter, wrapping at the 16-bit boundary.
    pub fn inc_pc_by(&mut self, val: u16)
        ensures
            final(self)@ == (MemView {
                pc: ((old(self)@.pc + val) % 0x10000) as u16,
                ..old(self)@
            }),
    {
        self.mem.pc = self.mem.pc.wrapping_add(val);
    }

    pub fn get_i(&self) -> (r: u16)
        ensures
            r == self@.i,
    {
        self.mem.i
    }

    pub fn set_i(&mut self, val: u16)
        ensures
            final(self)@ == (MemView { i: val, ..old(self)@ }),
    {
        self.mem.i = val;
    }

    /// Advances the index register, wrapping at the 16-bit boundary.
    pub fn inc_i_by(&mut self, val: u16)
        ensures
            final(self)@ == (MemView {
                i: ((old(self)@.i + val) % 0x10000) as u16,
                ..old(self)@
            }),
    {
        self.mem.i = self.mem.i.wrapping_add(val);
    }

    /// The fixed sizes of the machine state, true of every controller:
    /// the backing stores are fixed-length arrays.
    pub proof fn lemma_sizes(&self)
        ensures
            self@.ram.len() == 4096,
            self@.v.len() == 16,
            self@.stack.len() == 16,
    {
    }

    /// How many return addresses the stack currently holds.
    pub fn get_sp(&self) -> (r: u8)
        ensures
            r == self@.sp,
    {
        self.mem.sp
    }

    /// Saves the current program counter on the stack and jumps to `new_pc_addr`.
    pub fn stack_push(&mut self, new_pc_addr: u16)
        requires
            old(self)@.sp < 16,
        ensures
            final(self)@ == (MemView {
                stack: old(self)@.stack.update(old(self)@.sp as int, old(self)@.pc),
                sp: (old(self)@.sp + 1) as u8,
                pc: new_pc_addr,
                ..old(self)@
            }),
    {
        self.mem.sp = self.mem.sp + 1;
        self.mem.stack[(self.mem.sp - 1) as usize] = self.mem.pc;
        self.mem.pc = new_pc_addr;
    }

    /// Returns to the address on top of the stack, clearing the slot.
    pub fn stack_pop(&mut self)
        requires
            old(self)@.sp >= 1,
            old(self)@.sp <= 16,
        ensures
            final(self)@ == (MemView {
                pc: old(self)@.stack[old(self)@.sp - 1],
                stack: old(self)@.stack.update(old(self)@.sp - 1, 0),
                sp: (old(self)@.sp - 1) as u8,
                ..old(self)@
            }),
    {
        self.mem.pc = self.mem.stack[(self.mem.sp - 1) as usize];
        self.mem.stack[(self.mem.sp - 1) as usize] = 0;
        self.mem.sp = self.mem.sp - 1;
    }
}

} // verus!
