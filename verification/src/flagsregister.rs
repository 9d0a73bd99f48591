use vstd::prelude::*;

verus! {

/// The CPU condition flags, packed into the high bits of the F register:
/// zero at bit 7, subtract at bit 6, half-carry at bit 5, carry at bit 4 and
/// the interrupt-master-enable bit at bit 3.  The low three bits of the
/// packed byte are always zero.
#[derive(Copy, Clone, Debug)]
pub struct FlagsRegister {
    pub zero: bool,
    pub subtract: bool,
    pub half_carry: bool,
    pub carry: bool,
    /// Interrupt Master Enabled flag
    pub emi: bool,
}

impl FlagsRegister {
    /// The packed byte form: each flag contributes its bit weight.
    pub open spec fn spec_to_byte(self) -> u8 {
        ((if self.zero {
            128int
        } else {
            0int
        }) + (if self.subtract {
            64int
        } else {
            0int
        }) + (if self.half_carry {
            32int
        } else {
            0int
        }) + (if self.carry {
            16int
        } else {
            0int
        }) + (if self.emi {
            8int
        } else {
            0int
        })) as u8
    }

    /// Decoding a byte reads each flag at its bit position; the low three
    /// bits are discarded.
    pub open spec fn spec_from_byte(byte: u8) -> FlagsRegister {
        FlagsRegister {
            zero: byte / 128 % 2 == 1,
            subtract: byte / 64 % 2 == 1,
            half_carry: byte / 32 % 2 == 1,
            carry: byte / 16 % 2 == 1,
            emi: byte / 8 % 2 == 1,
        }
    }

    /// Pack the five flags into their byte form.
    pub fn to_byte(&self) -> (r: u8)
        ensures
            r == self.spec_to_byte(),
    {
        (if self.zero {
            128u8
        } else {
            0u8
        }) + (if self.subtract {
            64u8
        } else {
            0u8
        }) + (if self.half_carry {
            32u8
        } else {
            0u8
        }) + (if self.carry {
            16u8
        } else {
            0u8
        }) + (if self.emi {
            8u8
        } else {
            0u8
        })
    }

    /// Unpack a byte into the five flags, discarding the low bits.
    pub fn from_byte(byte: u8) -> (r: FlagsRegister)
        ensures
            r == FlagsRegister::spec_from_byte(byte),
    {
        FlagsRegister {
            zero: byte / 128 % 2 == 1,
            subtract: byte / 64 % 2 == 1,
            half_carry: byte / 32 % 2 == 1,
            carry: byte / 16 % 2 == 1,
            emi: byte / 8 % 2 == 1,
        }
    }

    pub fn zero(&self) -> (r: bool)
        ensures
            r == self.zero,
    {
        self.zero
    }

    pub fn subtract(&self) -> (r: bool)
        ensures
            r == self.subtract,
    {
        self.subtract
    }

    pub fn half_carry(&self) -> (r: bool)
        ensures
            r == self.half_carry,
    {
        self.half_carry
    }

    pub fn carry(&self) -> (r: bool)
        ensures
            r == self.carry,
    {
        self.carry
    }

    pub fn emi(&self) -> (r: bool)
        ensures
            r == self.emi,
    {
        self.emi
    }

    pub fn set_zero(&mut self, zero: bool)
        ensures
            *final(self) == (FlagsRegister { zero, ..*old(self) }),
    {
        self.zero = zero
    }

    pub fn set_subtract(&mut self, subtract: bool)
        ensures
            *final(self) == (FlagsRegister { subtract, ..*old(self) }),
    {
        self.subtract = subtract
    }

    pub fn set_half_carry(&mut self, half_carry: bool)
        ensures
            *final(self) == (FlagsRegister { half_carry, ..*old(self) }),
    {
        self.half_carry = half_carry
    }

    pub fn set_carry(&mut self, carry: bool)
        ensures
            *final(self) == (FlagsRegister { carry, ..*old(self) }),
    {
        self.carry = carry
    }

    pub fn set_emi(&mut self, interrupt_enabled: bool)
        ensures
            *final(self) == (FlagsRegister { emi: interrupt_enabled, ..*old(self) }),
    {
        self.emi = interrupt_enabled;
    }
}

/// Packing and unpacking the flags byte loses nothing: decoding the packed
/// form of any flag set gives back exactly those flags.
pub proof fn lemma_flags_byte_round_trip(f: FlagsRegister)
    ensures
        FlagsRegister::spec_from_byte(f.spec_to_byte()) == f,
{
}

} // verus!
