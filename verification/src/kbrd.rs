//! The 16-key hex keypad state: pressed/released flags and the
//! "lowest key currently down" query used by the key-wait opcode.

use vstd::prelude::*;

verus! {

/// The lowest pressed key at or above `idx`, or none.
pub open spec fn lowest_key_down_from(k: Seq<u8>, idx: int) -> Option<u8>
    decreases 16 - idx,
{
    if idx < 0 || idx >= 16 {
        None
    } else if k[idx] == 1 {
        Some(idx as u8)
    } else {
        lowest_key_down_from(k, idx + 1)
    }
}

/// The lowest pressed key, or none.
pub open spec fn lowest_key_down(k: Seq<u8>) -> Option<u8> {
    lowest_key_down_from(k, 0)
}

/// If no key below `idx` is pressed, the search may as well start at `idx`.
proof fn lemma_lowest_key_down_from(k: Seq<u8>, idx: int)
    requires
        0 <= idx <= 16,
        forall|j: int| 0 <= j < idx ==> k[j] != 1,
    ensures
        lowest_key_down(k) == lowest_key_down_from(k, idx),
    decreases idx,
{
    if idx > 0 {
        lemma_lowest_key_down_from(k, idx - 1);
    }
}

/// 16 pressed/released flags, indexed by hex key 0x0-0xF, 1 = down.
pub struct Keyboard {
    key_arr: [u8; 16],
}

impl View for Keyboard {
    type V = Seq<u8>;

    closed spec fn view(&self) -> Seq<u8> {
        self.key_arr@
    }
}

impl Keyboard {
    /// All keys up.
    pub fn new() -> (k: Keyboard)
        ensures
            k@ =~= Seq::new(16, |j: int| 0u8),
    {
        Keyboard { key_arr: [0; 16] }
    }
}

pub struct KeyboardController {
    keyboard: Keyboard,
}

impl View for KeyboardController {
    type V = Seq<u8>;

    closed spec fn view(&self) -> Seq<u8> {
        self.keyboard@
    }
}

impl KeyboardController {
    pub fn new(keyboard: Keyboard) -> (c: KeyboardController)
        ensures
            c@ == keyboard@,
    {
        KeyboardController { keyboard }
    }

    /// Whether key `key_index` is down.
    pub fn is_key_x_pressed(&self, key_index: u8) -> (r: bool)
        requires
            key_index < 16,
        ensures
            r == (self@[key_index as int] == 1),
    {
        self.keyboard.key_arr[key_index as usize] == 1
    }

    /// The lowest-indexed key currently down, or none.
    pub fn get_any_key_down(&self) -> (r: Option<u8>)
        ensures
            r == lowest_key_down(self@),
    {
        let mut idx: usize = 0;
        while idx < 16
            invariant
                0 <= idx <= 16,
                self@.len() == 16,
                forall|j: int| 0 <= j < idx ==> self@[j] != 1,
            decreases 16 - idx,
        {
            if self.keyboard.key_arr[idx] == 1 {
                proof {
                    lemma_lowest_key_down_from(self@, idx as int);
                }
                return Some(idx as u8);
            }
            idx += 1;
        }
        proof {
            lemma_lowest_key_down_from(self@, 16);
        }
        None
    }

    /// Marks key `key_index` as down.
    pub fn set_key_down_by_index(&mut self, key_index: usize)
        requires
            key_index < 16,
        ensures
            final(self)@ == old(self)@.update(key_index as int, 1u8),
    {
        self.keyboard.key_arr[key_index] = 1;
    }

    /// Marks key `key_index` as down.
    pub fn set_key_down_x(&mut self, key_index: usize)
        requires
            key_index < 16,
        ensures
            final(self)@ == old(self)@.update(key_index as int, 1u8),
    {
        self.keyboard.key_arr[key_index] = 1;
    }

    /// Marks key `key_index` as up.
    pub fn set_key_up_x(&mut self, key_index: usize)
        requires
            key_index < 16,
        ensures
            final(self)@ == old(self)@.update(key_index as int, 0u8),
    {
        self.keyboard.key_arr[key_index] = 0;
    }

    /// Marks every key as up.
    pub fn reset_state(&mut self)
        ensures
            final(self)@ =~= Seq::new(16, |j: int| 0u8),
    {
        self.keyboard.key_arr = [0; 16];
    }
}

} // verus!
