//! The bank-switched cartridge mapper: reads below 0x4000 come from the fixed
//! first bank of the image, reads in 0x4000..=0x7FFF come from the selected
//! bank, and a write to 0x2000..=0x3FFF replaces the bank register. Writes to
//! the other mapper sub-ranges are accepted and have no modeled effect.

use vstd::prelude::*;

verus! {

/// The mapper's one piece of mutable state: the bank register. Its view is
/// the raw register byte.
pub struct MBC1 {
    bank: u8,
}

impl View for MBC1 {
    type V = u8;

    closed spec fn view(&self) -> u8 {
        self.bank
    }
}

/// The bank a register byte selects: the low five bits, with zero coerced to
/// one.
pub open spec fn spec_effective_bank(bank: u8) -> int {
    if bank & 0x1F == 0 {
        1
    } else {
        (bank & 0x1F) as int
    }
}

/// What a mapper read returns. An address below 0x4000 indexes the image
/// directly; a banked address indexes the image at
/// `addr + (effective_bank - 1) * 0x4000`. A byte beyond the end of the
/// image reads as 0xFF, like an unpopulated bus.
pub open spec fn spec_mapper_read(rom: Seq<u8>, bank: u8, addr: u16) -> u8 {
    if addr < 0x4000 {
        if addr < rom.len() {
            rom[addr as int]
        } else {
            0xFF
        }
    } else {
        let idx = addr + (spec_effective_bank(bank) - 1) * 0x4000;
        if idx < rom.len() {
            rom[idx]
        } else {
            0xFF
        }
    }
}

/// What a mapper write leaves in the bank register: only the bank-select
/// sub-range 0x2000..=0x3FFF has an effect; every other address, inside the
/// cartridge range or above it, leaves the register alone.
pub open spec fn spec_mapper_write(bank: u8, addr: u16, value: u8) -> u8 {
    if 0x2000 <= addr && addr <= 0x3FFF {
        value
    } else {
        bank
    }
}

/// The effective bank is always between 1 and 31.
pub proof fn lemma_effective_bank_bounds(bank: u8)
    ensures
        1 <= spec_effective_bank(bank) <= 31,
{
    assert(bank & 0x1F < 32) by (bit_vector);
    assert(bank & 0x1F >= 0) by (bit_vector);
}

/// Bank selection: writing any byte to the bank-select sub-range and then
/// reading from the banked region returns the image byte at
/// `0x4000 * effective_bank + offset`, where the effective bank coerces a
/// written zero to one and masks to five bits. The indexed byte must exist
/// in the image; a shorter image reads as 0xFF there instead.
pub proof fn lemma_bank_selection(rom: Seq<u8>, bank0: u8, select_addr: u16, value: u8, addr: u16)
    requires
        0x2000 <= select_addr <= 0x3FFF,
        0x4000 <= addr <= 0x7FFF,
        0x4000 * spec_effective_bank(value) + (addr - 0x4000) < rom.len(),
    ensures
        spec_mapper_read(rom, spec_mapper_write(bank0, select_addr, value), addr) == rom[0x4000
            * spec_effective_bank(value) + (addr - 0x4000)],
{
    lemma_effective_bank_bounds(value);
}

impl MBC1 {
    /// A fresh mapper with bank 1 selected.
    pub fn new() -> (r: MBC1)
        ensures
            r@ == 1u8,
    {
        MBC1 { bank: 1 }
    }

    /// Reads one byte of the image through the current bank mapping.
    pub fn read_byte(&self, raw: &Vec<u8>, addr: u16) -> (r: u8)
        requires
            addr <= 0x7FFF,
        ensures
            r == spec_mapper_read(raw@, self@, addr),
    {
        if addr < 0x4000 {
            if (addr as usize) < raw.len() {
                raw[addr as usize]
            } else {
                0xFF
            }
        } else {
            let b = self.bank;
            let mut bank: u8 = b & 0x1F;
            proof {
                assert(b & 0x1F < 32) by (bit_vector);
            }
            if bank == 0 {
                bank = 1;
            }
            let idx: usize = (addr as usize) + (bank as usize - 1) * 0x4000;
            if idx < raw.len() {
                raw[idx]
            } else {
                0xFF
            }
        }
    }

    /// Writes to the mapper: only the bank-select sub-range changes the bank
    /// register; the RAM-enable and RAM-bank sub-ranges, and any address
    /// above the cartridge range, are accepted without effect. The image is
    /// never touched.
    pub fn write_byte(&mut self, addr: u16, value: u8)
        ensures
            final(self)@ == spec_mapper_write(old(self)@, addr, value),
    {
        if 0x2000 <= addr && addr <= 0x3FFF {
            self.bank = value;
        }
    }
}

} // verus!
