//! The sixteen-key hexadecimal keypad.

use vstd::prelude::*;

verus! {

/// The state of the keys `0x0` to `0xF`.
#[derive(Debug)]
pub struct Input {
    pub keys: [bool; 16],
}

impl Input {
    /// A keypad with no key held down.
    pub fn new() -> (input: Input)
        ensures
            forall|k: int| 0 <= k < 16 ==> !input.keys@[k],
    {
        Input { keys: [false; 16] }
    }

    /// Whether `key` is held down. A value above `0xF` names no key.
    pub fn is_key_pressed(&self, key: u8) -> (pressed: bool)
        ensures
            pressed == (key < 16 && self.keys@[key as int]),
    {
        key < 16 && self.keys[key as usize]
    }

    /// Records that `key` is held down or released; a value above `0xF`
    /// changes nothing.
    pub fn set_key(&mut self, key: u8, pressed: bool)
        ensures
            key < 16 ==> final(self).keys@ == old(self).keys@.update(key as int, pressed),
            key >= 16 ==> *final(self) == *old(self),
    {
        if key < 16 {
            self.keys[key as usize] = pressed;
        }
    }
}

} // verus!
