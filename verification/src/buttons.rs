//! The buttons that wake the watch.

use vstd::prelude::*;

verus! {

/// The buttons that were pressed when the watch woke up, one bit a button, as
/// the wake-up status register holds them.
#[derive(Clone, Copy, Debug, PartialEq, Eq, Structural)]
pub struct WakeupButtons {
    /// The bits of the status register.
    pub bits: u32,
}

impl WakeupButtons {
    /// The button at the top right.
    pub fn top_right() -> (button: Self)
        ensures
            button.bits == 0x20,
    {
        WakeupButtons { bits: 0x20 }
    }

    /// The button at the top left.
    pub fn top_left() -> (button: Self)
        ensures
            button.bits == 0x40,
    {
        WakeupButtons { bits: 0x40 }
    }

    /// The button at the bottom left.
    pub fn bottom_left() -> (button: Self)
        ensures
            button.bits == 0x80,
    {
        WakeupButtons { bits: 0x80 }
    }

    /// The button at the bottom right.
    pub fn bottom_right() -> (button: Self)
        ensures
            button.bits == 0x400,
    {
        WakeupButtons { bits: 0x400 }
    }

    /// The buttons that the value of the wake-up status register names. Bits
    /// that stand for no button are kept.
    pub fn from_wakeup_status(wakeup_bits: u32) -> (buttons: Self)
        ensures
            buttons.bits == wakeup_bits,
    {
        WakeupButtons { bits: wakeup_bits }
    }

    /// The bits of the status register.
    pub fn bits(&self) -> (bits: u32)
        ensures
            bits == self.bits,
    {
        self.bits
    }

    /// Whether every button of `other` is among these.
    pub fn contains(&self, other: Self) -> (yes: bool)
        ensures
            yes == (self.bits & other.bits == other.bits),
    {
        self.bits & other.bits == other.bits
    }
}

} // verus!
