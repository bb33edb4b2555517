//! The controllers' state, as the serial interface reports it.

use vstd::prelude::*;

verus! {

/// The bit of the first word that is set while "up" is held.
pub const UP_BUTTON: u64 = 0x0800_0000_0000_0000;

/// The eight words of the latest read of the controllers.
pub struct Controllers {
    pub data: [u64; 8],
}

/// Whether a first word says that "up" is held.
pub open spec fn up_held(word: u64) -> bool {
    word & UP_BUTTON != 0
}

impl Controllers {
    /// Controllers with nothing pressed.
    pub fn new() -> (controllers: Controllers)
        ensures
            forall|k: int| 0 <= k < 8 ==> controllers.data[k] == 0,
    {
        Controllers { data: [0;8] }
    }

    /// Takes over the words of the latest read.
    pub fn update(&mut self, data: [u64; 8])
        ensures
            final(self).data == data,
    {
        self.data = data;
    }

    /// Whether "up" is held on the first controller.
    pub fn up_pressed(&self) -> (pressed: bool)
        ensures
            pressed == up_held(self.data[0]),
    {
        let word: u64 = self.data[0];
        let buttons: u32 = (word >> 32) as u32;
        assert(((word >> 32) as u32) & 0x0800_0000u32 > 0 <==> word & 0x0800_0000_0000_0000u64 != 0)
            by (bit_vector);
        buttons & 0x0800_0000 > 0
    }

    /// "Down" is not read: it never counts as pressed.
    pub fn down_pressed(&self) -> (pressed: bool)
        ensures
            !pressed,
    {
        false
    }

    /// "Left" is not read: it never counts as pressed.
    pub fn left_pressed(&self) -> (pressed: bool)
        ensures
            !pressed,
    {
        false
    }

    /// "Right" is not read: it never counts as pressed.
    pub fn right_pressed(&self) -> (pressed: bool)
        ensures
            !pressed,
    {
        false
    }
}

} // verus!
