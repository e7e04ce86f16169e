//! Pure bit-level helpers: instruction-word assembly, address assembly,
//! BCD digit decomposition, coordinate wrapping.

use vstd::prelude::*;

verus! {

/// The 16-bit big-endian word formed by two bytes.
pub open spec fn word_of_bytes(b0: u8, b1: u8) -> int {
    b0 * 256 + b1
}

/// The 12-bit address formed by three nibbles.
pub open spec fn addr_of_nibbles(x: u8, y: u8, n: u8) -> int {
    x * 256 + y * 16 + n
}

/// High nibble of a byte.
pub open spec fn hi_nibble(b: u8) -> u8 {
    (b / 16) as u8
}

/// Low nibble of a byte.
pub open spec fn lo_nibble(b: u8) -> u8 {
    (b % 16) as u8
}

/// 2-d math helpers for the display grid.
pub struct Math2d;

impl Math2d {
    /// Wraps `axis` into `[0, win_size)` by modulo.
    pub fn wrap_coord(axis: u8, win_size: u32) -> (r: u8)
        requires
            0 < win_size <= 255,
        ensures
            r == axis as int % win_size as int,
    {
        if axis as u32 > win_size - 1 {
            let m = win_size as u8;
            assert(m == win_size);
            axis % m
        } else {
            assert(axis as int % win_size as int == axis) by (nonlinear_arith)
                requires
                    0 <= axis < win_size,
            ;
            axis
        }
    }
}

/// Instruction-word and address assembly.
pub struct Bit;

impl Bit {
    /// Builds the 12-bit address `x:y:n` out of three nibbles.
    pub fn make_16bit_addr_from_nibbles(second_nibble: u8, third_nibble: u8, fourth_nibble: u8) -> (r: u16)
        requires
            second_nibble < 16,
            third_nibble < 16,
            fourth_nibble < 16,
        ensures
            r == addr_of_nibbles(second_nibble, third_nibble, fourth_nibble),
            r < 4096,
    {
        let r = ((second_nibble as u16) << 8) | ((third_nibble as u16) << 4) | (fourth_nibble as u16);
        proof {
            let (x, y, n) = (second_nibble, third_nibble, fourth_nibble);
            assert(x < 16 && y < 16 && n < 16 ==> ((x as u16) << 8) | ((y as u16) << 4) | (n as u16)
                == x * 256 + y * 16 + n) by (bit_vector);
        }
        r
    }

    /// Builds the 16-bit big-endian instruction word out of two bytes.
    pub fn make_16bit_instr_from_bytes(first_byte: u8, second_byte: u8) -> (r: u16)
        ensures
            r == word_of_bytes(first_byte, second_byte),
    {
        let r = ((first_byte as u16) << 8) | (second_byte as u16);
        proof {
            let (b0, b1) = (first_byte, second_byte);
            assert(((b0 as u16) << 8) | (b1 as u16) == b0 * 256 + b1) by (bit_vector);
        }
        r
    }

    /// Splits an 8-bit value into its decimal digits (hundreds, tens, ones).
    pub fn decimal_to_8bit_bcd_tuple(decimal: u8) -> (r: (u8, u8, u8))
        ensures
            r.0 == decimal / 100,
            r.1 == (decimal / 10) % 10,
            r.2 == decimal % 10,
            r.0 <= 9 && r.1 <= 9 && r.2 <= 9,
    {
        let hundreds = decimal / 100;
        let tens = (decimal % 100) / 10;
        let ones = decimal % 10;
        proof {
            assert((decimal % 100) / 10 == (decimal / 10) % 10) by (bit_vector);
        }
        (hundreds, tens, ones)
    }
}

/// Boolean-to-flag conversion.
pub struct Logic;

impl Logic {
    /// Turns a condition into the 0/1 flag value stored in register VF.
    pub fn bool_to_u8(exp: bool) -> (r: u8)
        ensures
            r == (if exp { 1int } else { 0int }),
    {
        match exp {
            true => 1,
            false => 0,
        }
    }
}

} // verus!
