//! The cartridge: an immutable ROM image tagged at load time with the
//! mapper-type, ROM-size and RAM-size bytes from its header, plus the
//! mapper's bank register. Loading validates the header and returns a typed
//! error for anything unsupported instead of aborting.

use vstd::prelude::*;

use crate::mapper::{spec_mapper_read, spec_mapper_write, MBC1};

verus! {

/// The ROM size the header declares: two or four banks of 0x4000 bytes.
#[derive(Clone, Copy, Debug, PartialEq, Eq, Structural)]
pub enum RomSize {
    Bank2,
    Bank4,
}

/// The cartridge RAM size the header declares. Cartridge RAM itself is not
/// modeled; the tag is only recorded.
#[derive(Clone, Copy, Debug, PartialEq, Eq, Structural)]
pub enum RamSize {
    No,
    Unused,
    Bank1,
}

/// Why a cartridge image was rejected at load time, each variant carrying
/// the offending header byte.
#[derive(Clone, Copy, Debug, PartialEq, Eq, Structural)]
pub enum CartridgeError {
    /// The image ends before the header fields at 0x0147..=0x0149.
    ImageTooShort,
    /// The mapper-type byte at 0x0147 is not the one supported value 0x01.
    UnsupportedCartridgeType(u8),
    /// The ROM-size byte at 0x0148 is neither 0x00 (two banks) nor 0x01
    /// (four banks).
    UnsupportedRomSize(u8),
    /// The RAM-size byte at 0x0149 is none of 0x00, 0x01 or 0x02.
    UnsupportedRamSize(u8),
}

/// The mathematical state of a cartridge: the image bytes, the mapper's bank
/// register, and the recorded header tags.
#[verifier::ext_equal]
pub struct CartView {
    pub rom: Seq<u8>,
    pub bank: u8,
    pub rom_size: RomSize,
    pub ram_size: RamSize,
}

/// A loaded cartridge image with its bank-switching mapper.
pub struct Cartridge {
    raw: Vec<u8>,
    mapper: MBC1,
    rom_size: RomSize,
    ram_size: RamSize,
}

impl View for Cartridge {
    type V = CartView;

    closed spec fn view(&self) -> CartView {
        CartView {
            rom: self.raw@,
            bank: self.mapper@,
            rom_size: self.rom_size,
            ram_size: self.ram_size,
        }
    }
}

/// Whether an image is long enough for its header fields to be read.
pub open spec fn spec_header_readable(rom: Seq<u8>) -> bool {
    rom.len() >= 0x14A
}

impl Cartridge {
    /// Validates the header of a raw image and constructs the cartridge.
    /// The checks run in header order: length, then the mapper-type byte at
    /// 0x0147, then the ROM-size byte at 0x0148, then the RAM-size byte at
    /// 0x0149. On success the image is kept whole and the mapper starts on
    /// bank 1.
    pub fn new(raw: Vec<u8>) -> (r: Result<Cartridge, CartridgeError>)
        ensures
            !spec_header_readable(raw@) ==> r == Result::<
                Cartridge,
                CartridgeError,
            >::Err(CartridgeError::ImageTooShort),
            spec_header_readable(raw@) && raw@[0x147] != 0x01 ==> r == Result::<
                Cartridge,
                CartridgeError,
            >::Err(CartridgeError::UnsupportedCartridgeType(raw@[0x147])),
            spec_header_readable(raw@) && raw@[0x147] == 0x01 && !(raw@[0x148] == 0x00 || raw@[0x148]
                == 0x01) ==> r == Result::<Cartridge, CartridgeError>::Err(
                CartridgeError::UnsupportedRomSize(raw@[0x148]),
            ),
            spec_header_readable(raw@) && raw@[0x147] == 0x01 && (raw@[0x148] == 0x00 || raw@[0x148]
                == 0x01) && !(raw@[0x149] == 0x00 || raw@[0x149] == 0x01 || raw@[0x149] == 0x02)
                ==> r == Result::<Cartridge, CartridgeError>::Err(
                CartridgeError::UnsupportedRamSize(raw@[0x149]),
            ),
            spec_header_readable(raw@) && raw@[0x147] == 0x01 && (raw@[0x148] == 0x00 || raw@[0x148]
                == 0x01) && (raw@[0x149] == 0x00 || raw@[0x149] == 0x01 || raw@[0x149] == 0x02)
                ==> (r matches Result::Ok(c) && c@ == (CartView {
                rom: raw@,
                bank: 1u8,
                rom_size: if raw@[0x148] == 0x00 {
                    RomSize::Bank2
                } else {
                    RomSize::Bank4
                },
                ram_size: if raw@[0x149] == 0x00 {
                    RamSize::No
                } else if raw@[0x149] == 0x01 {
                    RamSize::Unused
                } else {
                    RamSize::Bank1
                },
            })),
    {
        if raw.len() < 0x14A {
            return Err(CartridgeError::ImageTooShort);
        }
        let type_byte = raw[0x147];
        if type_byte != 0x01 {
            return Err(CartridgeError::UnsupportedCartridgeType(type_byte));
        }
        let rom_byte = raw[0x148];
        let rom_size = match rom_byte {
            0x00 => RomSize::Bank2,
            0x01 => RomSize::Bank4,
            _ => {
                return Err(CartridgeError::UnsupportedRomSize(rom_byte));
            },
        };
        let ram_byte = raw[0x149];
        let ram_size = match ram_byte {
            0x00 => RamSize::No,
            0x01 => RamSize::Unused,
            0x02 => RamSize::Bank1,
            _ => {
                return Err(CartridgeError::UnsupportedRamSize(ram_byte));
            },
        };
        Ok(Cartridge { raw, mapper: MBC1::new(), rom_size, ram_size })
    }

    /// Reads one byte through the mapper's current bank mapping.
    pub fn read_byte(&self, addr: u16) -> (r: u8)
        requires
            addr <= 0x7FFF,
        ensures
            r == spec_mapper_read(self@.rom, self@.bank, addr),
    {
        self.mapper.read_byte(&self.raw, addr)
    }

    /// Writes to the mapper: only the bank-select sub-range has an effect;
    /// any other address is accepted without effect and the image itself is
    /// immutable.
    pub fn write_byte(&mut self, addr: u16, value: u8)
        ensures
            final(self)@ == (CartView {
                bank: spec_mapper_write(old(self)@.bank, addr, value),
                ..old(self)@
            }),
    {
        self.mapper.write_byte(addr, value);
    }
}

} // verus!
