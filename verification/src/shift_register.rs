//! Hardware shift-register co-processor: a 16-bit value plus a 3-bit window
//! offset. The CPU pushes bytes into the high half and reads back an 8-bit
//! window shifted by the offset, which the game uses for fast pixel shifting.

use vstd::prelude::*;

verus! {

/// 16-bit shifter chip state: `value` holds the two most recently pushed
/// bytes (newest in the high 8 bits), `offset` selects the read window.
pub struct ShiftRegister {
    pub value: u16,
    pub offset: u8,
}

impl ShiftRegister {
    /// The register is well formed when the offset fits in 3 bits.
    pub open spec fn wf(self) -> bool {
        self.offset <= 7
    }

    /// The byte visible through the window: bits [15-offset .. 8-offset]
    /// of `value`.
    pub open spec fn window(self) -> u8 {
        (self.value >> (8 - self.offset) as u16) as u8
    }

    /// The register after a byte is pushed: the new byte fills the high 8
    /// bits, the previous high byte becomes the new low byte.
    pub open spec fn pushed(self, upper: u8) -> ShiftRegister {
        ShiftRegister { value: ((upper as u16) << 8u16 | self.value >> 8u16) as u16, offset: self.offset }
    }

    /// The register after the window offset is set, keeping only the low 3
    /// bits of the argument.
    pub open spec fn with_offset(self, offset: u8) -> ShiftRegister {
        ShiftRegister { value: self.value, offset: (offset & 7) as u8 }
    }

    /// Reads the window byte selected by the current offset.
    pub fn get(&self) -> (r: u8)
        requires
            self.wf(),
        ensures
            r == self.window(),
    {
        let shift: u16 = 8 - (self.offset as u16);
        (self.value >> shift) as u8
    }

    /// Shifts a new byte into the high half; the previous high byte becomes
    /// the new low byte.
    pub fn push(&mut self, upper: u8)
        ensures
            *final(self) == old(self).pushed(upper),
    {
        let high: u16 = (upper as u16) << 8u16;
        let low: u16 = self.value >> 8u16;
        self.value = high | low;
    }

    /// Sets the window offset, keeping only the low 3 bits.
    pub fn set_offset(&mut self, offset: u8)
        ensures
            *final(self) == old(self).with_offset(offset),
            final(self).wf(),
    {
        proof {
            assert(offset & 7 <= 7) by (bit_vector);
        }
        self.offset = offset & 0x07;
    }
}

impl From<u16> for ShiftRegister {
    /// A register preloaded with a 16-bit value, window at offset zero.
    fn from(v: u16) -> (r: Self)
        ensures
            r == (ShiftRegister { value: v, offset: 0 }),
    {
        ShiftRegister { value: v, offset: 0 }
    }
}

impl vstd::std_specs::convert::FromSpecImpl<u16> for ShiftRegister {
    open spec fn obeys_from_spec() -> bool {
        true
    }

    open spec fn from_spec(v: u16) -> Self {
        ShiftRegister { value: v, offset: 0 }
    }
}

impl Default for ShiftRegister {
    /// A fresh register holds zero with the window at offset zero.
    fn default() -> (r: Self)
        ensures
            r.value == 0,
            r.offset == 0,
            r.wf(),
    {
        ShiftRegister { value: 0, offset: 0 }
    }
}

} // verus!
