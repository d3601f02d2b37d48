//! The memory bus: routes every 16-bit-addressed read and write to exactly
//! one backing store, checked in a fixed priority order — the cartridge
//! range first (when a cartridge is present), then video RAM, then each
//! individually-addressed I/O register, and general RAM for everything else.

use vstd::prelude::*;

use crate::cartridge::{CartView, Cartridge};
use crate::gpu::{
    spec_control_from_byte, spec_control_to_byte, spec_gpu_wf, spec_status_from_byte,
    spec_status_to_byte, spec_tiles_of, GpuView, LcdControlregisters, LcdStatusregisters, GPU,
};
use crate::mapper::{spec_mapper_read, spec_mapper_write};

verus! {

/// First address of video RAM.
pub const VRAM_BEGIN: u16 = 0x8000;

/// Last address of video RAM.
pub const VRAM_END: u16 = 0x9FFF;

/// The mathematical state of the bus: general RAM, the video controller,
/// and the cartridge if one is inserted. Without a cartridge the whole
/// cartridge range is backed by general RAM, which is how the test harness
/// runs bare programs.
#[verifier::ext_equal]
pub struct BusView {
    pub ram: Seq<u8>,
    pub gpu: GpuView,
    pub cart: Option<CartView>,
}

/// Well-formedness of the bus: general RAM spans the full 64 KiB space and
/// the video controller is well-formed.
pub open spec fn spec_bus_wf(b: BusView) -> bool {
    &&& b.ram.len() == 0x10000
    &&& spec_gpu_wf(b.gpu)
}

/// What a bus read returns, by address-range dispatch: the mapper for the
/// cartridge range, video RAM, the four I/O registers (LCD control, LCD
/// status, current line, line compare), and general RAM for every other
/// address.
pub open spec fn spec_bus_read(b: BusView, addr: u16) -> u8 {
    if addr < 0x8000 {
        match b.cart {
            Some(c) => spec_mapper_read(c.rom, c.bank, addr),
            None => b.ram[addr as int],
        }
    } else if addr <= 0x9FFF {
        b.gpu.vram[addr - 0x8000]
    } else if addr == 0xFF40 {
        spec_control_to_byte(b.gpu.control)
    } else if addr == 0xFF41 {
        spec_status_to_byte(b.gpu.status)
    } else if addr == 0xFF44 {
        b.gpu.ly
    } else if addr == 0xFF45 {
        b.gpu.lyc
    } else {
        b.ram[addr as int]
    }
}

/// What a bus write leaves behind, by the same dispatch: the mapper's bank
/// register for the cartridge range, video RAM (with its tile cache
/// re-decoded), the writable I/O registers, and general RAM elsewhere. A
/// write to the read-only current-line register is accepted and discarded.
pub open spec fn spec_bus_write(b: BusView, addr: u16, value: u8) -> BusView {
    if addr < 0x8000 {
        match b.cart {
            Some(c) => BusView {
                cart: Some(CartView { bank: spec_mapper_write(c.bank, addr, value), ..c }),
                ..b
            },
            None => BusView { ram: b.ram.update(addr as int, value), ..b },
        }
    } else if addr <= 0x9FFF {
        BusView {
            gpu: GpuView {
                vram: b.gpu.vram.update(addr - 0x8000, value),
                tiles: spec_tiles_of(b.gpu.vram.update(addr - 0x8000, value)),
                ..b.gpu
            },
            ..b
        }
    } else if addr == 0xFF40 {
        BusView { gpu: GpuView { control: spec_control_from_byte(value), ..b.gpu }, ..b }
    } else if addr == 0xFF41 {
        BusView { gpu: GpuView { status: spec_status_from_byte(value), ..b.gpu }, ..b }
    } else if addr == 0xFF44 {
        b
    } else if addr == 0xFF45 {
        BusView { gpu: GpuView { lyc: value, ..b.gpu }, ..b }
    } else {
        BusView { ram: b.ram.update(addr as int, value), ..b }
    }
}

/// The bus with its backing stores.
pub struct MemoryBus {
    pub memory: Vec<u8>,
    pub gpu: GPU,
    pub cartridge: Option<Cartridge>,
}

impl View for MemoryBus {
    type V = BusView;

    open spec fn view(&self) -> BusView {
        BusView {
            ram: self.memory@,
            gpu: self.gpu@,
            cart: match self.cartridge {
                Some(ref c) => Some(c@),
                None => None,
            },
        }
    }
}

fn zeroed_ram() -> (r: Vec<u8>)
    ensures
        r@.len() == 0x10000,
        forall|i: int| 0 <= i < 0x10000 ==> r@[i] == 0,
{
    let mut r: Vec<u8> = Vec::new();
    let mut k: usize = 0;
    while k < 0x10000
        invariant
            k <= 0x10000,
            r@.len() == k,
            forall|i: int| 0 <= i < k ==> r@[i] == 0,
        decreases 0x10000 - k,
    {
        r.push(0);
        k = k + 1;
    }
    r
}

impl MemoryBus {
    /// A bus with the given cartridge inserted, zeroed general RAM, and a
    /// fresh video controller.
    pub fn new(cartridge: Cartridge) -> (r: MemoryBus)
        ensures
            spec_bus_wf(r@),
            r@.cart == Some(cartridge@),
            forall|i: int| 0 <= i < 0x10000 ==> r@.ram[i] == 0,
            r@.gpu.ly == 0 && r@.gpu.lyc == 0 && r@.gpu.scanline_counter == 0,
            r@.gpu.control == spec_control_from_byte(0),
            r@.gpu.status == spec_status_from_byte(0),
            forall|i: int| 0 <= i < 0x2000 ==> r@.gpu.vram[i] == 0,
    {
        MemoryBus { memory: zeroed_ram(), gpu: GPU::new(), cartridge: Some(cartridge) }
    }

    /// A bus with no cartridge: the cartridge range reads and writes plain
    /// general RAM instead, so bare programs can be loaded anywhere.
    pub fn new_without_cartridge() -> (r: MemoryBus)
        ensures
            spec_bus_wf(r@),
            r@.cart is None,
            forall|i: int| 0 <= i < 0x10000 ==> r@.ram[i] == 0,
            r@.gpu.ly == 0 && r@.gpu.lyc == 0 && r@.gpu.scanline_counter == 0,
            r@.gpu.control == spec_control_from_byte(0),
            r@.gpu.status == spec_status_from_byte(0),
            forall|i: int| 0 <= i < 0x2000 ==> r@.gpu.vram[i] == 0,
    {
        MemoryBus { memory: zeroed_ram(), gpu: GPU::new(), cartridge: None }
    }

    /// Reads the byte the address routes to.
    pub fn read_byte(&self, address: u16) -> (r: u8)
        requires
            spec_bus_wf(self@),
        ensures
            r == spec_bus_read(self@, address),
    {
        if address < 0x8000 {
            match &self.cartridge {
                Some(c) => c.read_byte(address),
                None => self.memory[address as usize],
            }
        } else if address <= VRAM_END {
            self.gpu.read_vram((address - VRAM_BEGIN) as usize)
        } else if address == 0xFF40 {
            self.gpu.control.to_byte()
        } else if address == 0xFF41 {
            self.gpu.status.to_byte()
        } else if address == 0xFF44 {
            self.gpu.ly
        } else if address == 0xFF45 {
            self.gpu.lyc
        } else {
            self.memory[address as usize]
        }
    }

    /// Writes the byte to the store the address routes to.
    pub fn write_byte(&mut self, address: u16, value: u8)
        requires
            spec_bus_wf(old(self)@),
        ensures
            spec_bus_wf(final(self)@),
            final(self)@ == spec_bus_write(old(self)@, address, value),
    {
        if address < 0x8000 {
            match &mut self.cartridge {
                Some(c) => c.write_byte(address, value),
                None => self.memory.set(address as usize, value),
            }
            proof {
                assert(self@ =~~= spec_bus_write(old(self)@, address, value));
            }
        } else if address <= VRAM_END {
            self.gpu.write_vram((address - VRAM_BEGIN) as usize, value);
            proof {
                assert(self@ =~~= spec_bus_write(old(self)@, address, value));
            }
        } else if address == 0xFF40 {
            self.gpu.control = LcdControlregisters::from_byte(value);
            proof {
                assert(self@ =~~= spec_bus_write(old(self)@, address, value));
            }
        } else if address == 0xFF41 {
            self.gpu.status = LcdStatusregisters::from_byte(value);
            proof {
                assert(self@ =~~= spec_bus_write(old(self)@, address, value));
            }
        } else if address == 0xFF44 {
            // The current-line register is read-only from the bus; the
            // write is discarded.
            proof {
                assert(self@ =~~= spec_bus_write(old(self)@, address, value));
            }
        } else if address == 0xFF45 {
            self.gpu.lyc = value;
            proof {
                assert(self@ =~~= spec_bus_write(old(self)@, address, value));
            }
        } else {
            self.memory.set(address as usize, value);
            proof {
                assert(self@ =~~= spec_bus_write(old(self)@, address, value));
            }
        }
    }
}

} // verus!
