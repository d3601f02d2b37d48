//! The CPU register file: eight 8-bit registers and the four condition flags,
//! with the conventional 16-bit pairings AF, BC, DE and HL.

use vstd::prelude::*;

verus! {

/// The four condition flags, packed into the high nibble of the 8-bit flags
/// register when serialized; the low nibble of that byte is always zero.
#[derive(Clone, Copy, Debug, PartialEq, Eq, Structural)]
pub struct FlagsRegister {
    pub zero: bool,
    pub subtract: bool,
    pub half_carry: bool,
    pub carry: bool,
}

/// The byte encoding of the flags: zero in bit 7, subtract in bit 6,
/// half-carry in bit 5, carry in bit 4, low nibble zero.
pub open spec fn spec_flags_to_byte(f: FlagsRegister) -> u8 {
    (if f.zero {
        0x80u8
    } else {
        0u8
    }) | (if f.subtract {
        0x40u8
    } else {
        0u8
    }) | (if f.half_carry {
        0x20u8
    } else {
        0u8
    }) | (if f.carry {
        0x10u8
    } else {
        0u8
    })
}

/// The flags decoded from a byte: each flag is the corresponding bit of the
/// high nibble; the low nibble is ignored.
pub open spec fn spec_flags_from_byte(b: u8) -> FlagsRegister {
    FlagsRegister {
        zero: b & 0x80 != 0,
        subtract: b & 0x40 != 0,
        half_carry: b & 0x20 != 0,
        carry: b & 0x10 != 0,
    }
}

impl FlagsRegister {
    /// Packs the four flags into their byte encoding.
    pub fn to_byte(&self) -> (r: u8)
        ensures
            r == spec_flags_to_byte(*self),
    {
        (if self.zero {
            0x80u8
        } else {
            0u8
        }) | (if self.subtract {
            0x40u8
        } else {
            0u8
        }) | (if self.half_carry {
            0x20u8
        } else {
            0u8
        }) | (if self.carry {
            0x10u8
        } else {
            0u8
        })
    }

    /// Unpacks the four flags from a byte; the low nibble is ignored.
    pub fn from_byte(b: u8) -> (r: FlagsRegister)
        ensures
            r == spec_flags_from_byte(b),
    {
        FlagsRegister {
            zero: b & 0x80 != 0,
            subtract: b & 0x40 != 0,
            half_carry: b & 0x20 != 0,
            carry: b & 0x10 != 0,
        }
    }
}

/// Unpacking a byte into flags and packing the flags again reproduces the
/// byte's high nibble exactly; the low nibble of the packed byte is always
/// zero, and packing then unpacking reproduces the flags.
pub proof fn lemma_flags_byte_round_trip(b: u8, f: FlagsRegister)
    ensures
        spec_flags_to_byte(spec_flags_from_byte(b)) == b & 0xF0,
        spec_flags_to_byte(f) & 0x0F == 0,
        spec_flags_from_byte(spec_flags_to_byte(f)) == f,
{
    assert(((if (b & 0x80 != 0) {
        0x80u8
    } else {
        0u8
    }) | (if (b & 0x40 != 0) {
        0x40u8
    } else {
        0u8
    }) | (if (b & 0x20 != 0) {
        0x20u8
    } else {
        0u8
    }) | (if (b & 0x10 != 0) {
        0x10u8
    } else {
        0u8
    })) == b & 0xF0) by (bit_vector);
    let z = f.zero;
    let n = f.subtract;
    let h = f.half_carry;
    let c = f.carry;
    let packed = spec_flags_to_byte(f);
    assert(packed == ((if z {
        0x80u8
    } else {
        0u8
    }) | (if n {
        0x40u8
    } else {
        0u8
    }) | (if h {
        0x20u8
    } else {
        0u8
    }) | (if c {
        0x10u8
    } else {
        0u8
    })));
    assert({
        let p = (if z {
            0x80u8
        } else {
            0u8
        }) | (if n {
            0x40u8
        } else {
            0u8
        }) | (if h {
            0x20u8
        } else {
            0u8
        }) | (if c {
            0x10u8
        } else {
            0u8
        });
        p & 0x0F == 0 && ((p & 0x80 != 0) == z) && ((p & 0x40 != 0) == n) && ((p & 0x20 != 0)
            == h) && ((p & 0x10 != 0) == c)
    }) by (bit_vector);
}

/// The register file: accumulator, six general registers, and the flags.
#[derive(Clone, Copy, Debug)]
pub struct Registers {
    pub a: u8,
    pub b: u8,
    pub c: u8,
    pub d: u8,
    pub e: u8,
    pub f: FlagsRegister,
    pub h: u8,
    pub l: u8,
}

/// The AF pair: accumulator in the high byte, packed flags in the low byte.
pub open spec fn spec_af(r: Registers) -> int {
    r.a * 256 + spec_flags_to_byte(r.f)
}

/// The BC pair.
pub open spec fn spec_bc(r: Registers) -> int {
    r.b * 256 + r.c
}

/// The DE pair.
pub open spec fn spec_de(r: Registers) -> int {
    r.d * 256 + r.e
}

/// The HL pair.
pub open spec fn spec_hl(r: Registers) -> int {
    r.h * 256 + r.l
}

impl Registers {
    /// The register file at power-on, mirroring the documented state the
    /// boot sequence leaves behind: the zero flag set, the other flags
    /// clear.
    pub fn new() -> (r: Registers)
        ensures
            r.a == 0x01 && r.b == 0x00 && r.c == 0x13 && r.d == 0x00,
            r.e == 0xD8 && r.h == 0x01 && r.l == 0x4D,
            r.f == (FlagsRegister { zero: true, subtract: false, half_carry: false, carry: false }),
    {
        Registers {
            a: 0x01,
            b: 0x00,
            c: 0x13,
            d: 0x00,
            e: 0xD8,
            f: FlagsRegister { zero: true, subtract: false, half_carry: false, carry: false },
            h: 0x01,
            l: 0x4D,
        }
    }

    pub fn get_af(&self) -> (r: u16)
        ensures
            r == spec_af(*self),
    {
        proof {
            lemma_flags_byte_round_trip(0, self.f);
        }
        (self.a as u16) * 256 + (self.f.to_byte() as u16)
    }

    pub fn get_bc(&self) -> (r: u16)
        ensures
            r == spec_bc(*self),
    {
        (self.b as u16) * 256 + (self.c as u16)
    }

    pub fn get_de(&self) -> (r: u16)
        ensures
            r == spec_de(*self),
    {
        (self.d as u16) * 256 + (self.e as u16)
    }

    pub fn get_hl(&self) -> (r: u16)
        ensures
            r == spec_hl(*self),
    {
        (self.h as u16) * 256 + (self.l as u16)
    }

    /// Stores a 16-bit value into AF; the low nibble of the value is
    /// discarded, since the flags register keeps only the high nibble.
    pub fn set_af(&mut self, value: u16)
        ensures
            final(self).a == value / 256,
            final(self).f == spec_flags_from_byte((value % 256) as u8),
            final(self).b == old(self).b && final(self).c == old(self).c,
            final(self).d == old(self).d && final(self).e == old(self).e,
            final(self).h == old(self).h && final(self).l == old(self).l,
    {
        self.a = (value / 256) as u8;
        self.f = FlagsRegister::from_byte((value % 256) as u8);
    }

    pub fn set_bc(&mut self, value: u16)
        ensures
            final(self).b == value / 256 && final(self).c == value % 256,
            final(self).a == old(self).a && final(self).f == old(self).f,
            final(self).d == old(self).d && final(self).e == old(self).e,
            final(self).h == old(self).h && final(self).l == old(self).l,
            spec_bc(*final(self)) == value,
    {
        self.b = (value / 256) as u8;
        self.c = (value % 256) as u8;
    }

    pub fn set_de(&mut self, value: u16)
        ensures
            final(self).d == value / 256 && final(self).e == value % 256,
            final(self).a == old(self).a && final(self).f == old(self).f,
            final(self).b == old(self).b && final(self).c == old(self).c,
            final(self).h == old(self).h && final(self).l == old(self).l,
            spec_de(*final(self)) == value,
    {
        self.d = (value / 256) as u8;
        self.e = (value % 256) as u8;
    }

    pub fn set_hl(&mut self, value: u16)
        ensures
            final(self).h == value / 256 && final(self).l == value % 256,
            final(self).a == old(self).a && final(self).f == old(self).f,
            final(self).b == old(self).b && final(self).c == old(self).c,
            final(self).d == old(self).d && final(self).e == old(self).e,
            spec_hl(*final(self)) == value,
    {
        self.h = (value / 256) as u8;
        self.l = (value % 256) as u8;
    }
}

} // verus!
