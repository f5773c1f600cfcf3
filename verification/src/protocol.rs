//! Header flags of a frame's first byte, and the frame codec itself.

pub mod frame;

use vstd::prelude::*;

verus! {

/// Marks the final frame of a message (high bit of the first header byte).
pub const FIN: u8 = 0x80;
/// First reserved bit; meaning is assigned by a negotiated extension.
pub const RSV_1: u8 = 0x40;
/// Second reserved bit; meaning is assigned by a negotiated extension.
pub const RSV_2: u8 = 0x20;
/// Third reserved bit; meaning is assigned by a negotiated extension.
pub const RSV_3: u8 = 0x10;
/// Request that the payload be masked. This bit is consumed by the frame
/// writer: it never appears in the emitted header byte.
pub const MASKED: u8 = 0x08;

/// FIN/RSV bits of a frame's first header byte, together with the MASKED
/// request bit that the writer consumes during serialization.
#[derive(Clone, Copy, PartialEq, Eq, Structural, Debug)]
pub struct HeaderFlags {
    pub bits: u8,
}

impl HeaderFlags {
    /// Whether the MASKED request bit is set.
    pub open spec fn spec_is_masked(self) -> bool {
        self.bits & MASKED != 0
    }

    /// Whether masking of the payload was requested.
    pub fn is_masked(&self) -> (r: bool)
        ensures
            r == self.spec_is_masked(),
    {
        self.bits & MASKED != 0
    }

    /// Sets or clears one flag bit.
    pub fn set(&mut self, flag: u8, value: bool)
        ensures
            final(self).bits == if value {
                old(self).bits | flag
            } else {
                old(self).bits & !flag
            },
    {
        if value {
            self.bits = self.bits | flag;
        } else {
            self.bits = self.bits & !flag;
        }
    }
}

} // verus!
