use vstd::prelude::*;

verus! {

use crate::flagsregister::FlagsRegister;

/// The eight 8-bit registers.  The 16-bit pairs AF, BC, DE and HL are
/// computed views, not stored: the high byte times 256 plus the low byte.
/// Setting AF re-derives the flags through the packed-byte decoding, so the
/// low bits of F can never hold stray data.
#[derive(Debug)]
pub struct Registers {
    pub a: u8,
    pub b: u8,
    pub c: u8,
    pub d: u8,
    pub e: u8,
    pub f: FlagsRegister,
    pub h: u8,
    pub l: u8,
}

impl Registers {
    /// The BC pair as one 16-bit value.
    pub open spec fn spec_bc(self) -> u16 {
        (self.b * 256 + self.c) as u16
    }

    /// The DE pair as one 16-bit value.
    pub open spec fn spec_de(self) -> u16 {
        (self.d * 256 + self.e) as u16
    }

    /// The HL pair as one 16-bit value.
    pub open spec fn spec_hl(self) -> u16 {
        (self.h * 256 + self.l) as u16
    }

    /// The AF pair: the accumulator over the packed flags byte.
    pub open spec fn spec_af(self) -> u16 {
        (self.a * 256 + self.f.spec_to_byte()) as u16
    }

    /// The reset state: every register zero, every flag clear.
    pub open spec fn spec_new() -> Registers {
        Registers {
            a: 0,
            b: 0,
            c: 0,
            d: 0,
            e: 0,
            f: FlagsRegister::spec_from_byte(0),
            h: 0,
            l: 0,
        }
    }

    /// The register file with HL replaced by a 16-bit value.
    pub open spec fn with_hl(self, value: u16) -> Registers {
        Registers { h: (value / 256) as u8, l: (value % 256) as u8, ..self }
    }

    pub fn new() -> (r: Registers)
        ensures
            r == Registers::spec_new(),
    {
        Registers {
            a: 0,
            b: 0,
            c: 0,
            d: 0,
            e: 0,
            f: FlagsRegister::from_byte(0u8),
            h: 0,
            l: 0,
        }
    }

    pub fn a(&self) -> (r: u8)
        ensures
            r == self.a,
    {
        self.a
    }

    pub fn b(&self) -> (r: u8)
        ensures
            r == self.b,
    {
        self.b
    }

    pub fn c(&self) -> (r: u8)
        ensures
            r == self.c,
    {
        self.c
    }

    pub fn d(&self) -> (r: u8)
        ensures
            r == self.d,
    {
        self.d
    }

    pub fn e(&self) -> (r: u8)
        ensures
            r == self.e,
    {
        self.e
    }

    pub fn f(&self) -> (r: &FlagsRegister)
        ensures
            r == self.f,
    {
        &self.f
    }

    pub fn f_as_mut(&mut self) -> (r: &mut FlagsRegister)
        ensures
            *r == old(self).f,
            *final(self) == (Registers { f: *final(r), ..*old(self) }),
    {
        &mut self.f
    }

    pub fn h(&self) -> (r: u8)
        ensures
            r == self.h,
    {
        self.h
    }

    pub fn l(&self) -> (r: u8)
        ensures
            r == self.l,
    {
        self.l
    }

    pub fn set_a(&mut self, value: u8)
        ensures
            *final(self) == (Registers { a: value, ..*old(self) }),
    {
        self.a = value;
    }

    pub fn set_b(&mut self, value: u8)
        ensures
            *final(self) == (Registers { b: value, ..*old(self) }),
    {
        self.b = value;
    }

    pub fn set_c(&mut self, value: u8)
        ensures
            *final(self) == (Registers { c: value, ..*old(self) }),
    {
        self.c = value;
    }

    pub fn set_d(&mut self, value: u8)
        ensures
            *final(self) == (Registers { d: value, ..*old(self) }),
    {
        self.d = value;
    }

    pub fn set_e(&mut self, value: u8)
        ensures
            *final(self) == (Registers { e: value, ..*old(self) }),
    {
        self.e = value;
    }

    pub fn set_h(&mut self, value: u8)
        ensures
            *final(self) == (Registers { h: value, ..*old(self) }),
    {
        self.h = value;
    }

    pub fn set_l(&mut self, value: u8)
        ensures
            *final(self) == (Registers { l: value, ..*old(self) }),
    {
        self.l = value;
    }

    pub fn af(&self) -> (r: u16)
        ensures
            r == self.spec_af(),
    {
        (self.a as u16) * 256 + (self.f.to_byte() as u16)
    }

    pub fn bc(&self) -> (r: u16)
        ensures
            r == self.spec_bc(),
    {
        (self.b as u16) * 256 + (self.c as u16)
    }

    pub fn de(&self) -> (r: u16)
        ensures
            r == self.spec_de(),
    {
        (self.d as u16) * 256 + (self.e as u16)
    }

    pub fn hl(&self) -> (r: u16)
        ensures
            r == self.spec_hl(),
    {
        (self.h as u16) * 256 + (self.l as u16)
    }

    pub fn set_bc(&mut self, value: u16)
        ensures
            *final(self) == (Registers {
                b: (value / 256) as u8,
                c: (value % 256) as u8,
                ..*old(self)
            }),
            final(self).spec_bc() == value,
    {
        self.b = (value / 256) as u8;
        self.c = (value % 256) as u8;
    }

    pub fn set_af(&mut self, value: u16)
        ensures
            *final(self) == (Registers {
                a: (value / 256) as u8,
                f: FlagsRegister::spec_from_byte((value % 256) as u8),
                ..*old(self)
            }),
    {
        self.a = (value / 256) as u8;
        self.f = FlagsRegister::from_byte((value % 256) as u8);
    }

    pub fn set_de(&mut self, value: u16)
        ensures
            *final(self) == (Registers {
                d: (value / 256) as u8,
                e: (value % 256) as u8,
                ..*old(self)
            }),
            final(self).spec_de() == value,
    {
        self.d = (value / 256) as u8;
        self.e = (value % 256) as u8;
    }

    pub fn set_hl(&mut self, value: u16)
        ensures
            *final(self) == old(self).with_hl(value),
            final(self).spec_hl() == value,
    {
        self.h = (value / 256) as u8;
        self.l = (value % 256) as u8;
    }
}

} // verus!
