//! The video controller surface the bus exposes: video RAM with a decoded
//! tile cache kept consistent with every write, the packed LCD control and
//! status registers, and the cycle-driven scanline counter.

use vstd::prelude::*;

verus! {

/// One 2-bit pixel of a decoded tile.
#[derive(Clone, Copy, Debug, PartialEq, Eq, Structural)]
pub enum TilePixelValue {
    Zero,
    One,
    Two,
    Three,
}

/// The LCD control register as structured booleans, bit 7 down to bit 0.
#[derive(Clone, Copy, Debug, PartialEq, Eq, Structural)]
pub struct LcdControlregisters {
    pub enabled: bool,
    pub window_tile_map: bool,
    pub window_enabled: bool,
    pub tiles: bool,
    pub bg_tile_map: bool,
    pub obj_size: bool,
    pub obj_enabled: bool,
    pub bg_window_enabled: bool,
}

/// The LCD status register as structured fields: the interrupt-select bits
/// (bits 6 down to 3), the LYC-equals-LY flag (bit 2), and the 2-bit PPU
/// mode in bits 1..0. Bit 7 is unused.
#[derive(Clone, Copy, Debug, PartialEq, Eq, Structural)]
pub struct LcdStatusregisters {
    pub lyc_int_select: bool,
    pub mode2_int_select: bool,
    pub mode1_int_select: bool,
    pub mode0_int_select: bool,
    pub lyc_eq_ly: bool,
    pub lyc_ppu_mode: u8,
}

/// The byte encoding of the LCD control register.
pub open spec fn spec_control_to_byte(r: LcdControlregisters) -> u8 {
    (if r.enabled {
        0x80u8
    } else {
        0u8
    }) | (if r.window_tile_map {
        0x40u8
    } else {
        0u8
    }) | (if r.window_enabled {
        0x20u8
    } else {
        0u8
    }) | (if r.tiles {
        0x10u8
    } else {
        0u8
    }) | (if r.bg_tile_map {
        0x08u8
    } else {
        0u8
    }) | (if r.obj_size {
        0x04u8
    } else {
        0u8
    }) | (if r.obj_enabled {
        0x02u8
    } else {
        0u8
    }) | (if r.bg_window_enabled {
        0x01u8
    } else {
        0u8
    })
}

/// The LCD control register decoded from a byte, bit by bit.
pub open spec fn spec_control_from_byte(b: u8) -> LcdControlregisters {
    LcdControlregisters {
        enabled: b & 0x80 != 0,
        window_tile_map: b & 0x40 != 0,
        window_enabled: b & 0x20 != 0,
        tiles: b & 0x10 != 0,
        bg_tile_map: b & 0x08 != 0,
        obj_size: b & 0x04 != 0,
        obj_enabled: b & 0x02 != 0,
        bg_window_enabled: b & 0x01 != 0,
    }
}

/// The byte encoding of the LCD status register: bits 6..2 from the
/// booleans, the PPU mode masked into bits 1..0, bit 7 zero.
pub open spec fn spec_status_to_byte(r: LcdStatusregisters) -> u8 {
    (if r.lyc_int_select {
        0x40u8
    } else {
        0u8
    }) | (if r.mode2_int_select {
        0x20u8
    } else {
        0u8
    }) | (if r.mode1_int_select {
        0x10u8
    } else {
        0u8
    }) | (if r.mode0_int_select {
        0x08u8
    } else {
        0u8
    }) | (if r.lyc_eq_ly {
        0x04u8
    } else {
        0u8
    }) | (r.lyc_ppu_mode & 0x03)
}

/// The LCD status register decoded from a byte.
pub open spec fn spec_status_from_byte(b: u8) -> LcdStatusregisters {
    LcdStatusregisters {
        lyc_int_select: b & 0x40 != 0,
        mode2_int_select: b & 0x20 != 0,
        mode1_int_select: b & 0x10 != 0,
        mode0_int_select: b & 0x08 != 0,
        lyc_eq_ly: b & 0x04 != 0,
        lyc_ppu_mode: b & 0x03,
    }
}

impl LcdControlregisters {
    /// The register at power-on: everything clear.
    pub fn new() -> (r: LcdControlregisters)
        ensures
            r == spec_control_from_byte(0),
    {
        proof {
            assert(0u8 & 0x80 == 0 && 0u8 & 0x40 == 0 && 0u8 & 0x20 == 0 && 0u8 & 0x10 == 0 && 0u8
                & 0x08 == 0 && 0u8 & 0x04 == 0 && 0u8 & 0x02 == 0 && 0u8 & 0x01 == 0 && 0u8 & 0x03
                == 0) by (bit_vector);
        }
        LcdControlregisters {
            enabled: false,
            window_tile_map: false,
            tiles: false,
            bg_tile_map: false,
            window_enabled: false,
            obj_size: false,
            obj_enabled: false,
            bg_window_enabled: false,
        }
    }

    /// Packs the register into its byte encoding.
    pub fn to_byte(&self) -> (r: u8)
        ensures
            r == spec_control_to_byte(*self),
    {
        (if self.enabled {
            0x80u8
        } else {
            0u8
        }) | (if self.window_tile_map {
            0x40u8
        } else {
            0u8
        }) | (if self.window_enabled {
            0x20u8
        } else {
            0u8
        }) | (if self.tiles {
            0x10u8
        } else {
            0u8
        }) | (if self.bg_tile_map {
            0x08u8
        } else {
            0u8
        }) | (if self.obj_size {
            0x04u8
        } else {
            0u8
        }) | (if self.obj_enabled {
            0x02u8
        } else {
            0u8
        }) | (if self.bg_window_enabled {
            0x01u8
        } else {
            0u8
        })
    }

    /// Unpacks the register from a byte.
    pub fn from_byte(b: u8) -> (r: LcdControlregisters)
        ensures
            r == spec_control_from_byte(b),
    {
        LcdControlregisters {
            enabled: b & 0x80 != 0,
            window_tile_map: b & 0x40 != 0,
            window_enabled: b & 0x20 != 0,
            tiles: b & 0x10 != 0,
            bg_tile_map: b & 0x08 != 0,
            obj_size: b & 0x04 != 0,
            obj_enabled: b & 0x02 != 0,
            bg_window_enabled: b & 0x01 != 0,
        }
    }
}

impl LcdStatusregisters {
    /// The register at power-on: everything clear, mode zero.
    pub fn new() -> (r: LcdStatusregisters)
        ensures
            r == spec_status_from_byte(0),
    {
        proof {
            assert(0u8 & 0x80 == 0 && 0u8 & 0x40 == 0 && 0u8 & 0x20 == 0 && 0u8 & 0x10 == 0 && 0u8
                & 0x08 == 0 && 0u8 & 0x04 == 0 && 0u8 & 0x02 == 0 && 0u8 & 0x01 == 0 && 0u8 & 0x03
                == 0) by (bit_vector);
        }
        LcdStatusregisters {
            lyc_int_select: false,
            mode2_int_select: false,
            mode1_int_select: false,
            mode0_int_select: false,
            lyc_eq_ly: false,
            lyc_ppu_mode: 0,
        }
    }

    /// Packs the register into its byte encoding; the mode field is masked
    /// to its two bits.
    pub fn to_byte(&self) -> (r: u8)
        ensures
            r == spec_status_to_byte(*self),
    {
        (if self.lyc_int_select {
            0x40u8
        } else {
            0u8
        }) | (if self.mode2_int_select {
            0x20u8
        } else {
            0u8
        }) | (if self.mode1_int_select {
            0x10u8
        } else {
            0u8
        }) | (if self.mode0_int_select {
            0x08u8
        } else {
            0u8
        }) | (if self.lyc_eq_ly {
            0x04u8
        } else {
            0u8
        }) | (self.lyc_ppu_mode & 0x03)
    }

    /// Unpacks the register from a byte; bit 7 is ignored.
    pub fn from_byte(b: u8) -> (r: LcdStatusregisters)
        ensures
            r == spec_status_from_byte(b),
    {
        LcdStatusregisters {
            lyc_int_select: b & 0x40 != 0,
            mode2_int_select: b & 0x20 != 0,
            mode1_int_select: b & 0x10 != 0,
            mode0_int_select: b & 0x08 != 0,
            lyc_eq_ly: b & 0x04 != 0,
            lyc_ppu_mode: b & 0x03,
        }
    }
}

/// Unpack-then-repack of the LCD control register reproduces every byte
/// exactly (all eight bits are defined), and pack-then-unpack reproduces the
/// structured register.
pub proof fn lemma_control_byte_round_trip(b: u8, r: LcdControlregisters)
    ensures
        spec_control_to_byte(spec_control_from_byte(b)) == b,
        spec_control_from_byte(spec_control_to_byte(r)) == r,
{
    assert(((if (b & 0x80 != 0) {
        0x80u8
    } else {
        0u8
    }) | (if (b & 0x40 != 0) {
        0x40u8
    } else {
        0u8
    }) | (if (b & 0x20 != 0) {
        0x20u8
    } else {
        0u8
    }) | (if (b & 0x10 != 0) {
        0x10u8
    } else {
        0u8
    }) | (if (b & 0x08 != 0) {
        0x08u8
    } else {
        0u8
    }) | (if (b & 0x04 != 0) {
        0x04u8
    } else {
        0u8
    }) | (if (b & 0x02 != 0) {
        0x02u8
    } else {
        0u8
    }) | (if (b & 0x01 != 0) {
        0x01u8
    } else {
        0u8
    })) == b) by (bit_vector);
    let b7 = r.enabled;
    let b6 = r.window_tile_map;
    let b5 = r.window_enabled;
    let b4 = r.tiles;
    let b3 = r.bg_tile_map;
    let b2 = r.obj_size;
    let b1 = r.obj_enabled;
    let b0 = r.bg_window_enabled;
    assert({
        let p = (if b7 {
            0x80u8
        } else {
            0u8
        }) | (if b6 {
            0x40u8
        } else {
            0u8
        }) | (if b5 {
            0x20u8
        } else {
            0u8
        }) | (if b4 {
            0x10u8
        } else {
            0u8
        }) | (if b3 {
            0x08u8
        } else {
            0u8
        }) | (if b2 {
            0x04u8
        } else {
            0u8
        }) | (if b1 {
            0x02u8
        } else {
            0u8
        }) | (if b0 {
            0x01u8
        } else {
            0u8
        });
        ((p & 0x80 != 0) == b7) && ((p & 0x40 != 0) == b6) && ((p & 0x20 != 0) == b5) && ((p & 0x10
            != 0) == b4) && ((p & 0x08 != 0) == b3) && ((p & 0x04 != 0) == b2) && ((p & 0x02 != 0)
            == b1) && ((p & 0x01 != 0) == b0)
    }) by (bit_vector);
}

/// Unpack-then-repack of the LCD status register reproduces a byte masked to
/// its defined bits 6..0, and pack-then-unpack reproduces a structured
/// register whose mode field already fits in two bits.
pub proof fn lemma_status_byte_round_trip(b: u8, r: LcdStatusregisters)
    ensures
        spec_status_to_byte(spec_status_from_byte(b)) == b & 0x7F,
        r.lyc_ppu_mode < 4 ==> spec_status_from_byte(spec_status_to_byte(r)) == r,
{
    assert(((if (b & 0x40 != 0) {
        0x40u8
    } else {
        0u8
    }) | (if (b & 0x20 != 0) {
        0x20u8
    } else {
        0u8
    }) | (if (b & 0x10 != 0) {
        0x10u8
    } else {
        0u8
    }) | (if (b & 0x08 != 0) {
        0x08u8
    } else {
        0u8
    }) | (if (b & 0x04 != 0) {
        0x04u8
    } else {
        0u8
    }) | ((b & 0x03) & 0x03)) == b & 0x7F) by (bit_vector);
    let b6 = r.lyc_int_select;
    let b5 = r.mode2_int_select;
    let b4 = r.mode1_int_select;
    let b3 = r.mode0_int_select;
    let b2 = r.lyc_eq_ly;
    let m = r.lyc_ppu_mode;
    assert({
        let p = (if b6 {
            0x40u8
        } else {
            0u8
        }) | (if b5 {
            0x20u8
        } else {
            0u8
        }) | (if b4 {
            0x10u8
        } else {
            0u8
        }) | (if b3 {
            0x08u8
        } else {
            0u8
        }) | (if b2 {
            0x04u8
        } else {
            0u8
        }) | (m & 0x03);
        ((p & 0x40 != 0) == b6) && ((p & 0x20 != 0) == b5) && ((p & 0x10 != 0) == b4) && ((p & 0x08
            != 0) == b3) && ((p & 0x04 != 0) == b2) && (m < 4 ==> p & 0x03 == m)
    }) by (bit_vector);
}

/// The single-bit mask that selects pixel column `c` of a tile row byte:
/// column 0 is the high bit.
pub open spec fn spec_pixel_mask(c: int) -> u8 {
    if c == 0 {
        0x80
    } else if c == 1 {
        0x40
    } else if c == 2 {
        0x20
    } else if c == 3 {
        0x10
    } else if c == 4 {
        0x08
    } else if c == 5 {
        0x04
    } else if c == 6 {
        0x02
    } else {
        0x01
    }
}

/// The 2-bit pixel encoded by a tile row's two interleaved bitplane bytes at
/// column `c`: the first byte carries the low bit, the second the high bit.
pub open spec fn spec_tile_pixel(b1: u8, b2: u8, c: int) -> TilePixelValue {
    let m = spec_pixel_mask(c);
    if b1 & m != 0 && b2 & m != 0 {
        TilePixelValue::Three
    } else if b2 & m != 0 {
        TilePixelValue::Two
    } else if b1 & m != 0 {
        TilePixelValue::One
    } else {
        TilePixelValue::Zero
    }
}

/// The video RAM offset of the first bitplane byte of the tile row that
/// holds flattened tile-cache entry `j`: 16 bytes per tile, 2 per row.
pub open spec fn spec_tile_row_byte(j: int) -> int {
    (j / 64) * 16 + ((j % 64) / 8) * 2
}

/// The whole tile cache decoded from video RAM: 384 tiles of 8 rows of 8
/// pixels, flattened tile-major then row-major.
pub open spec fn spec_tiles_of(vram: Seq<u8>) -> Seq<TilePixelValue> {
    Seq::new(
        24576,
        |j: int| spec_tile_pixel(vram[spec_tile_row_byte(j)], vram[spec_tile_row_byte(j) + 1], j % 8),
    )
}

/// The mathematical state of the video controller.
#[verifier::ext_equal]
pub struct GpuView {
    pub vram: Seq<u8>,
    pub tiles: Seq<TilePixelValue>,
    pub ly: u8,
    pub lyc: u8,
    pub control: LcdControlregisters,
    pub status: LcdStatusregisters,
    pub scanline_counter: u16,
}

/// Well-formedness of the video controller: the backing stores have their
/// fixed sizes, the scanline counter sits below the per-line threshold, and
/// the tile cache is exactly the decoding of video RAM.
pub open spec fn spec_gpu_wf(g: GpuView) -> bool {
    &&& g.vram.len() == 0x2000
    &&& g.tiles.len() == 24576
    &&& g.scanline_counter < 456
    &&& g.tiles == spec_tiles_of(g.vram)
}

/// The scanline counter and current line after an elapsed-cycle total is
/// folded in: each full 456-cycle line advances the line register, which
/// wraps to zero after line 153.
pub open spec fn spec_gpu_advance(counter: int, ly: u8) -> (int, u8)
    decreases counter,
{
    if counter < 456 {
        (counter, ly)
    } else {
        spec_gpu_advance(counter - 456, spec_next_line(ly))
    }
}

/// The line after a given one: lines run 0..=153 and wrap.
pub open spec fn spec_next_line(ly: u8) -> u8 {
    if ly >= 153 {
        0
    } else {
        (ly + 1) as u8
    }
}

/// The video controller state: video RAM, its decoded tile cache, the packed
/// register pair, and the scanline bookkeeping.
pub struct GPU {
    pub vram: Vec<u8>,
    pub ly: u8,
    pub lyc: u8,
    pub control: LcdControlregisters,
    pub status: LcdStatusregisters,
    pub tile_set: Vec<TilePixelValue>,
    pub scanline_counter: u16,
}

impl View for GPU {
    type V = GpuView;

    open spec fn view(&self) -> GpuView {
        GpuView {
            vram: self.vram@,
            tiles: self.tile_set@,
            ly: self.ly,
            lyc: self.lyc,
            control: self.control,
            status: self.status,
            scanline_counter: self.scanline_counter,
        }
    }
}

/// A bitwise AND with zero is zero.
proof fn lemma_and_zero(m: u8)
    ensures
        0u8 & m == 0,
{
    assert(0u8 & m == 0) by (bit_vector);
}

/// A write to video RAM leaves every tile-cache entry unchanged except those
/// of the row the written byte belongs to.
proof fn lemma_tile_unchanged(vram: Seq<u8>, i: int, v: u8, j: int)
    requires
        vram.len() == 0x2000,
        0 <= i < 0x2000,
        0 <= j < 24576,
        i >= 0x1800 || !(j / 64 == i / 16 && (j % 64) / 8 == (i % 16) / 2),
    ensures
        spec_tiles_of(vram.update(i, v))[j] == spec_tiles_of(vram)[j],
{
    let rb = spec_tile_row_byte(j);
    let tj = j / 64;
    let rj = (j % 64) / 8;
    assert(0 <= tj < 384);
    assert(0 <= rj < 8);
    assert(rb == tj * 16 + rj * 2);
    assert(0 <= rb && rb + 1 < 0x1800) by (nonlinear_arith)
        requires
            rb == tj * 16 + rj * 2,
            0 <= tj < 384,
            0 <= rj < 8,
    ;
    if i >= 0x1800 {
        assert(rb != i && rb + 1 != i);
    } else {
        let ti = i / 16;
        let mi = i % 16;
        assert(i == ti * 16 + mi && 0 <= mi < 16);
        if tj != ti {
            assert(rb != i && rb + 1 != i) by (nonlinear_arith)
                requires
                    rb == tj * 16 + rj * 2,
                    i == ti * 16 + mi,
                    0 <= mi < 16,
                    0 <= rj < 8,
                    tj != ti,
            ;
        } else {
            let ri = mi / 2;
            assert(rj != ri);
            assert(mi == ri * 2 || mi == ri * 2 + 1);
            assert(rb != i && rb + 1 != i) by (nonlinear_arith)
                requires
                    rb == tj * 16 + rj * 2,
                    i == ti * 16 + mi,
                    tj == ti,
                    rj != ri,
                    mi == ri * 2 || mi == ri * 2 + 1,
            ;
        }
    }
    assert(vram.update(i, v)[rb] == vram[rb]);
    assert(vram.update(i, v)[rb + 1] == vram[rb + 1]);
}

fn pixel_mask(c: usize) -> (m: u8)
    requires
        c < 8,
    ensures
        m == spec_pixel_mask(c as int),
{
    if c == 0 {
        0x80
    } else if c == 1 {
        0x40
    } else if c == 2 {
        0x20
    } else if c == 3 {
        0x10
    } else if c == 4 {
        0x08
    } else if c == 5 {
        0x04
    } else if c == 6 {
        0x02
    } else {
        0x01
    }
}

fn filled_bytes(n: usize, v: u8) -> (r: Vec<u8>)
    ensures
        r@.len() == n,
        forall|i: int| 0 <= i < n ==> r@[i] == v,
{
    let mut r: Vec<u8> = Vec::new();
    let mut k: usize = 0;
    while k < n
        invariant
            k <= n,
            r@.len() == k,
            forall|i: int| 0 <= i < k ==> r@[i] == v,
        decreases n - k,
    {
        r.push(v);
        k = k + 1;
    }
    r
}

fn filled_pixels(n: usize) -> (r: Vec<TilePixelValue>)
    ensures
        r@.len() == n,
        forall|i: int| 0 <= i < n ==> r@[i] == TilePixelValue::Zero,
{
    let mut r: Vec<TilePixelValue> = Vec::new();
    let mut k: usize = 0;
    while k < n
        invariant
            k <= n,
            r@.len() == k,
            forall|i: int| 0 <= i < k ==> r@[i] == TilePixelValue::Zero,
        decreases n - k,
    {
        r.push(TilePixelValue::Zero);
        k = k + 1;
    }
    r
}

impl GPU {
    /// A fresh controller: zeroed video RAM, an all-zero tile cache, both
    /// registers clear, line zero.
    pub fn new() -> (r: GPU)
        ensures
            spec_gpu_wf(r@),
            r@.vram =~= Seq::new(0x2000, |i: int| 0u8),
            r@.ly == 0 && r@.lyc == 0 && r@.scanline_counter == 0,
            r@.control == spec_control_from_byte(0),
            r@.status == spec_status_from_byte(0),
    {
        let r = GPU {
            vram: filled_bytes(0x2000, 0),
            ly: 0,
            lyc: 0,
            control: LcdControlregisters::new(),
            status: LcdStatusregisters::new(),
            tile_set: filled_pixels(24576),
            scanline_counter: 0,
        };
        proof {
            assert forall|j: int| 0 <= j < 24576 implies spec_tiles_of(r@.vram)[j]
                == TilePixelValue::Zero by {
                let rb = spec_tile_row_byte(j);
                let tj = j / 64;
                let rj = (j % 64) / 8;
                assert(0 <= rb && rb + 1 < 0x1800) by (nonlinear_arith)
                    requires
                        rb == tj * 16 + rj * 2,
                        tj == j / 64,
                        rj == (j % 64) / 8,
                        0 <= j < 24576,
                ;
                lemma_and_zero(spec_pixel_mask(j % 8));
            }
            assert(r@.tiles =~= spec_tiles_of(r@.vram));
        }
        r
    }

    /// Reads one byte of video RAM.
    pub fn read_vram(&self, address: usize) -> (r: u8)
        requires
            spec_gpu_wf(self@),
            address < 0x2000,
        ensures
            r == self@.vram[address as int],
    {
        self.vram[address]
    }

    /// Writes one byte of video RAM and immediately re-decodes the affected
    /// tile row, so the tile cache stays exactly the decoding of video RAM.
    /// Writes in the tile-map area above the tile data leave the cache
    /// untouched.
    pub fn write_vram(&mut self, index: usize, value: u8)
        requires
            spec_gpu_wf(old(self)@),
            index < 0x2000,
        ensures
            spec_gpu_wf(final(self)@),
            final(self)@ == (GpuView {
                vram: old(self)@.vram.update(index as int, value),
                tiles: spec_tiles_of(old(self)@.vram.update(index as int, value)),
                ..old(self)@
            }),
    {
        let ghost old_tiles = self.tile_set@;
        self.vram.set(index, value);
        let ghost new_vram = self.vram@;
        let ghost target = spec_tiles_of(new_vram);
        if index >= 0x1800 {
            proof {
                assert forall|j: int| 0 <= j < 24576 implies old_tiles[j] == target[j] by {
                    lemma_tile_unchanged(old(self)@.vram, index as int, value, j);
                }
                assert(self.tile_set@ =~= target);
            }
            return ;
        }
        let normalized: usize = index / 2 * 2;
        let byte1 = self.vram[normalized];
        let byte2 = self.vram[normalized + 1];
        let tile_index: usize = index / 16;
        let row_index: usize = (index % 16) / 2;
        let base: usize = tile_index * 64 + row_index * 8;
        proof {
            assert(normalized == spec_tile_row_byte(base as int) && base + 8 <= 24576 && base as int
                / 64 == tile_index && ((base as int) % 64) / 8 == row_index) by (nonlinear_arith)
                requires
                    normalized == (index as int) / 2 * 2,
                    tile_index == (index as int) / 16,
                    row_index == ((index as int) % 16) / 2,
                    base == tile_index * 64 + row_index * 8,
                    0 <= index < 0x1800,
            ;
        }
        let mut pixel_index: usize = 0;
        while pixel_index < 8
            invariant
                spec_gpu_wf(old(self)@),
                pixel_index <= 8,
                index < 0x1800,
                base + 8 <= 24576,
                self.vram@ == new_vram,
                new_vram == old(self)@.vram.update(index as int, value),
                new_vram.len() == 0x2000,
                target == spec_tiles_of(new_vram),
                byte1 == new_vram[spec_tile_row_byte(base as int)],
                byte2 == new_vram[spec_tile_row_byte(base as int) + 1],
                base as int / 64 == tile_index && ((base as int) % 64) / 8 == row_index,
                base == tile_index * 64 + row_index * 8,
                tile_index < 384,
                row_index < 8,
                tile_index == (index as int) / 16,
                row_index == ((index as int) % 16) / 2,
                self.tile_set@.len() == 24576,
                old_tiles.len() == 24576,
                forall|j: int|
                    0 <= j < 24576 && !(base <= j < base + pixel_index) ==> self.tile_set@[j]
                        == old_tiles[j],
                forall|j: int| base <= j < base + pixel_index ==> self.tile_set@[j] == target[j],
                self.ly == old(self).ly && self.lyc == old(self).lyc,
                self.control == old(self).control && self.status == old(self).status,
                self.scanline_counter == old(self).scanline_counter,
            decreases 8 - pixel_index,
        {
            let mask = pixel_mask(pixel_index);
            let lsb = byte1 & mask;
            let msb = byte2 & mask;
            let v = if lsb != 0 && msb != 0 {
                TilePixelValue::Three
            } else if msb != 0 {
                TilePixelValue::Two
            } else if lsb != 0 {
                TilePixelValue::One
            } else {
                TilePixelValue::Zero
            };
            self.tile_set.set(base + pixel_index, v);
            proof {
                let j = base + pixel_index;
                assert(j / 64 == tile_index && (j % 64) / 8 == row_index && j % 8 == pixel_index)
                    by (nonlinear_arith)
                    requires
                        base == tile_index * 64 + row_index * 8,
                        j == base + pixel_index,
                        0 <= pixel_index < 8,
                        0 <= row_index < 8,
                        0 <= tile_index < 384,
                ;
                assert(spec_tile_row_byte(j as int) == spec_tile_row_byte(base as int));
                assert(v == spec_tile_pixel(byte1, byte2, pixel_index as int));
                assert(self.tile_set@[j as int] == target[j as int]);
            }
            pixel_index = pixel_index + 1;
        }
        proof {
            assert forall|j: int| 0 <= j < 24576 && !(base <= j < base + 8) implies old_tiles[j]
                == target[j] by {
                assert(!(j / 64 == (index as int) / 16 && (j % 64) / 8 == ((index as int) % 16)
                    / 2)) by (nonlinear_arith)
                    requires
                        base == ((index as int) / 16) * 64 + (((index as int) % 16) / 2) * 8,
                        0 <= j < 24576,
                        !(base <= j < base + 8),
                        0 <= index < 0x1800,
                ;
                lemma_tile_unchanged(old(self)@.vram, index as int, value, j);
            }
            assert(self.tile_set@ =~= target);
        }
    }

    /// Folds an elapsed-cycle count into the scanline counter, advancing the
    /// current-line register once per full 456-cycle line.
    pub fn update(&mut self, cycles: u16)
        requires
            spec_gpu_wf(old(self)@),
            old(self)@.scanline_counter + cycles <= u16::MAX,
        ensures
            spec_gpu_wf(final(self)@),
            final(self)@ == (GpuView {
                ly: spec_gpu_advance(old(self)@.scanline_counter + cycles, old(self)@.ly).1,
                scanline_counter: spec_gpu_advance(
                    old(self)@.scanline_counter + cycles,
                    old(self)@.ly,
                ).0 as u16,
                ..old(self)@
            }),
    {
        self.scanline_counter = self.scanline_counter + cycles;
        while self.scanline_counter >= 456
            invariant
                spec_gpu_advance(self.scanline_counter as int, self.ly) == spec_gpu_advance(
                    old(self)@.scanline_counter + cycles,
                    old(self)@.ly,
                ),
                self.vram@ == old(self)@.vram,
                self.tile_set@ == old(self)@.tiles,
                self.lyc == old(self).lyc,
                self.control == old(self).control && self.status == old(self).status,
            decreases self.scanline_counter,
        {
            self.scanline_counter = self.scanline_counter - 456;
            self.ly = if self.ly >= 153 {
                0
            } else {
                self.ly + 1
            };
        }
    }
}

} // verus!
