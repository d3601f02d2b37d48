//! The execution engine: owns the register file, program counter, stack
//! pointer and memory bus; fetches, decodes and executes one operation per
//! step; and forwards the elapsed cycle count to the video controller.

use vstd::prelude::*;

use crate::instruction::{
    spec_from_byte, spec_from_byte_not_prefixed, ArithmeticTarget, Instruction, JumpTest, LoadType,
    StackTarget,
};
use crate::memory_bus::{spec_bus_read, spec_bus_wf, spec_bus_write, BusView, MemoryBus};
use crate::cartridge::Cartridge;
use crate::gpu::{spec_gpu_advance, GpuView};
use crate::registers::{
    spec_af, spec_bc, spec_de, spec_flags_from_byte, spec_hl, FlagsRegister, Registers,
};

verus! {

/// The condition the execution engine surfaces instead of aborting: the
/// fetched byte decodes to no operation on its page.
#[derive(Clone, Copy, Debug, PartialEq, Eq, Structural)]
pub enum StepError {
    UndefinedOpcode { opcode: u8, prefixed: bool },
}

/// The per-step overhead forwarded to the video controller after every
/// executed instruction, on top of the instruction's tabulated cost. Kept as
/// a named constant because it pins observed cycle accounting; whether the
/// fetch cycle should instead live in the tables is an open question.
pub const STEP_OVERHEAD_CYCLES: u16 = 1;

/// The register file at power-on: the documented post-boot snapshot, with
/// the zero flag set and the other flags clear.
pub open spec fn spec_power_on_registers() -> Registers {
    Registers {
        a: 0x01,
        b: 0x00,
        c: 0x13,
        d: 0x00,
        e: 0xD8,
        f: FlagsRegister { zero: true, subtract: false, half_carry: false, carry: false },
        h: 0x01,
        l: 0x4D,
    }
}

/// The mathematical state of the whole machine.
#[verifier::ext_equal]
pub struct CpuView {
    pub regs: Registers,
    pub pc: u16,
    pub sp: u16,
    pub bus: BusView,
    pub is_halted: bool,
    pub cycle2_flag: bool,
    pub ime: bool,
}

/// Well-formedness of the machine: the bus and its video controller are
/// well-formed.
pub open spec fn spec_cpu_wf(s: CpuView) -> bool {
    spec_bus_wf(s.bus)
}

/// A signed 8-bit displacement widened to the 16-bit value that, added with
/// wraparound, moves the address by that displacement.
pub open spec fn spec_sext(b: u8) -> u16 {
    if b < 0x80 {
        b as u16
    } else {
        (b + 0xFF00) as u16
    }
}

/// The BC pair as a 16-bit value.
pub open spec fn spec_bc16(r: Registers) -> u16 {
    spec_bc(r) as u16
}

/// The DE pair as a 16-bit value.
pub open spec fn spec_de16(r: Registers) -> u16 {
    spec_de(r) as u16
}

/// The HL pair as a 16-bit value.
pub open spec fn spec_hl16(r: Registers) -> u16 {
    spec_hl(r) as u16
}

/// The AF pair as a 16-bit value.
pub open spec fn spec_af16(r: Registers) -> u16 {
    spec_af(r) as u16
}

/// The little-endian word whose two bytes follow the opcode at `pc`.
pub open spec fn spec_word_at(b: BusView, pc: u16) -> u16 {
    (spec_bus_read(b, pc.wrapping_add(1)) + 256 * spec_bus_read(b, pc.wrapping_add(2))) as u16
}

/// The immediate byte after the opcode.
pub open spec fn spec_next_byte(s: CpuView) -> u8 {
    spec_bus_read(s.bus, s.pc.wrapping_add(1))
}

/// The immediate word after the opcode.
pub open spec fn spec_next_word(s: CpuView) -> u16 {
    spec_word_at(s.bus, s.pc)
}

/// The register file with new flags.
pub open spec fn spec_with_flags(
    r: Registers,
    zero: bool,
    subtract: bool,
    half_carry: bool,
    carry: bool,
) -> Registers {
    Registers { f: FlagsRegister { zero, subtract, half_carry, carry }, ..r }
}

/// The register file with HL replaced.
pub open spec fn spec_regs_set_hl(r: Registers, v: u16) -> Registers {
    Registers { h: (v / 256) as u8, l: (v % 256) as u8, ..r }
}

/// The register file with BC replaced.
pub open spec fn spec_regs_set_bc(r: Registers, v: u16) -> Registers {
    Registers { b: (v / 256) as u8, c: (v % 256) as u8, ..r }
}

/// The register file with DE replaced.
pub open spec fn spec_regs_set_de(r: Registers, v: u16) -> Registers {
    Registers { d: (v / 256) as u8, e: (v % 256) as u8, ..r }
}

/// The register file with AF replaced; the low nibble of the value is
/// discarded when it enters the flags register.
pub open spec fn spec_regs_set_af(r: Registers, v: u16) -> Registers {
    Registers { a: (v / 256) as u8, f: spec_flags_from_byte((v % 256) as u8), ..r }
}

/// The base-page cycle table, indexed by raw opcode byte.
pub open spec fn spec_cycle_base(op: u8) -> u16 {
    if 0x40 <= op && op <= 0xBF {
        if op == 0x76 {
            4
        } else if 0x70 <= op && op <= 0x77 {
            8
        } else if op % 8 == 6 {
            8
        } else {
            4
        }
    } else {
        match op {
            0x00 | 0x04 | 0x05 | 0x07 | 0x0C | 0x0D | 0x0F | 0x10 | 0x14 | 0x15 | 0x17 | 0x1C
            | 0x1D | 0x1F | 0x24 | 0x25 | 0x27 | 0x2C | 0x2D | 0x2F | 0x37 | 0x3C | 0x3D | 0x3F
            | 0xCB | 0xD3 | 0xDB | 0xDD | 0xE3 | 0xE4 | 0xE9 | 0xEB | 0xEC | 0xED | 0xF3 | 0xF4
            | 0xFB | 0xFC | 0xFD => 4,
            0x02 | 0x03 | 0x06 | 0x09 | 0x0A | 0x0B | 0x0E | 0x12 | 0x13 | 0x16 | 0x19 | 0x1A
            | 0x1B | 0x1E | 0x22 | 0x23 | 0x26 | 0x29 | 0x2A | 0x2B | 0x2E | 0x32 | 0x33 | 0x39
            | 0x3A | 0x3B | 0x3E | 0xC6 | 0xCE | 0xD6 | 0xDE | 0xE2 | 0xE6 | 0xEE | 0xF2 | 0xF6
            | 0xF9 | 0xFE => 8,
            0x01 | 0x11 | 0x18 | 0x20 | 0x21 | 0x28 | 0x30 | 0x31 | 0x34 | 0x35 | 0x36 | 0x38
            | 0xC1 | 0xD1 | 0xE0 | 0xE1 | 0xF0 | 0xF1 | 0xF8 => 12,
            0xC2 | 0xC3 | 0xC5 | 0xC7 | 0xC9 | 0xCA | 0xCF | 0xD2 | 0xD5 | 0xD7 | 0xD9 | 0xDA
            | 0xDF | 0xE5 | 0xE7 | 0xE8 | 0xEA | 0xEF | 0xF5 | 0xF7 | 0xFA | 0xFF => 16,
            0x08 | 0xC0 | 0xC8 | 0xD0 | 0xD8 => 20,
            _ => 24,
        }
    }
}

/// The alternate cycle table used when a branch was not taken; zero
/// everywhere else.
pub open spec fn spec_cycle_alt(op: u8) -> u16 {
    match op {
        0x20 | 0x28 | 0x30 | 0x38 | 0xC0 | 0xC8 | 0xD0 | 0xD8 => 8,
        0xC2 | 0xCA | 0xD2 | 0xDA | 0xC4 | 0xCC | 0xD4 | 0xDC => 12,
        _ => 0,
    }
}

/// The extended-page cycle table.
pub open spec fn spec_cycle_prefixed(op: u8) -> u16 {
    if op % 8 == 6 {
        if 0x40 <= op && op <= 0x7F {
            12
        } else {
            16
        }
    } else {
        8
    }
}

fn cycle_base(op: u8) -> (r: u16)
    ensures
        r == spec_cycle_base(op),
{
    if 0x40 <= op && op <= 0xBF {
        if op == 0x76 {
            4
        } else if 0x70 <= op && op <= 0x77 {
            8
        } else if op % 8 == 6 {
            8
        } else {
            4
        }
    } else {
        match op {
            0x00 | 0x04 | 0x05 | 0x07 | 0x0C | 0x0D | 0x0F | 0x10 | 0x14 | 0x15 | 0x17 | 0x1C
            | 0x1D | 0x1F | 0x24 | 0x25 | 0x27 | 0x2C | 0x2D | 0x2F | 0x37 | 0x3C | 0x3D | 0x3F
            | 0xCB | 0xD3 | 0xDB | 0xDD | 0xE3 | 0xE4 | 0xE9 | 0xEB | 0xEC | 0xED | 0xF3 | 0xF4
            | 0xFB | 0xFC | 0xFD => 4,
            0x02 | 0x03 | 0x06 | 0x09 | 0x0A | 0x0B | 0x0E | 0x12 | 0x13 | 0x16 | 0x19 | 0x1A
            | 0x1B | 0x1E | 0x22 | 0x23 | 0x26 | 0x29 | 0x2A | 0x2B | 0x2E | 0x32 | 0x33 | 0x39
            | 0x3A | 0x3B | 0x3E | 0xC6 | 0xCE | 0xD6 | 0xDE | 0xE2 | 0xE6 | 0xEE | 0xF2 | 0xF6
            | 0xF9 | 0xFE => 8,
            0x01 | 0x11 | 0x18 | 0x20 | 0x21 | 0x28 | 0x30 | 0x31 | 0x34 | 0x35 | 0x36 | 0x38
            | 0xC1 | 0xD1 | 0xE0 | 0xE1 | 0xF0 | 0xF1 | 0xF8 => 12,
            0xC2 | 0xC3 | 0xC5 | 0xC7 | 0xC9 | 0xCA | 0xCF | 0xD2 | 0xD5 | 0xD7 | 0xD9 | 0xDA
            | 0xDF | 0xE5 | 0xE7 | 0xE8 | 0xEA | 0xEF | 0xF5 | 0xF7 | 0xFA | 0xFF => 16,
            0x08 | 0xC0 | 0xC8 | 0xD0 | 0xD8 => 20,
            _ => 24,
        }
    }
}

fn cycle_alt(op: u8) -> (r: u16)
    ensures
        r == spec_cycle_alt(op),
{
    match op {
        0x20 | 0x28 | 0x30 | 0x38 | 0xC0 | 0xC8 | 0xD0 | 0xD8 => 8,
        0xC2 | 0xCA | 0xD2 | 0xDA | 0xC4 | 0xCC | 0xD4 | 0xDC => 12,
        _ => 0,
    }
}

fn cycle_prefixed(op: u8) -> (r: u16)
    ensures
        r == spec_cycle_prefixed(op),
{
    if op % 8 == 6 {
        if 0x40 <= op && op <= 0x7F {
            12
        } else {
            16
        }
    } else {
        8
    }
}

/// The bus and stack pointer after a 16-bit push: the stack pointer is
/// decremented before each byte write, the high byte going first so the word
/// sits little-endian in memory.
pub open spec fn spec_push16(b: BusView, sp: u16, v: u16) -> (BusView, u16) {
    let sp1 = sp.wrapping_sub(1);
    let b1 = spec_bus_write(b, sp1, (v / 256) as u8);
    let sp2 = sp1.wrapping_sub(1);
    let b2 = spec_bus_write(b1, sp2, (v % 256) as u8);
    (b2, sp2)
}

/// The word and stack pointer after a 16-bit pop: the low byte is read
/// first, the stack pointer incremented after each byte read, mirroring the
/// push exactly.
pub open spec fn spec_pop16(b: BusView, sp: u16) -> (u16, u16) {
    let lsb = spec_bus_read(b, sp);
    let sp1 = sp.wrapping_add(1);
    let msb = spec_bus_read(b, sp1);
    let sp2 = sp1.wrapping_add(1);
    ((lsb + 256 * msb) as u16, sp2)
}

/// A bus write never disturbs well-formedness.
pub proof fn lemma_bus_write_wf(b: BusView, addr: u16, value: u8)
    requires
        spec_bus_wf(b),
    ensures
        spec_bus_wf(spec_bus_write(b, addr, value)),
{
}

/// An address whose backing store returns exactly what was written: general
/// RAM, video RAM, and the writable registers that keep the whole byte. The
/// cartridge range (when a cartridge is inserted), the status register
/// (which drops a bit) and the read-only current-line register are excluded.
pub open spec fn spec_addr_writes_back(b: BusView, addr: u16) -> bool {
    &&& !(addr < 0x8000 && b.cart is Some)
    &&& addr != 0xFF41
    &&& addr != 0xFF44
}

/// Reading back the address just written returns the written byte, for
/// every address whose store keeps whole bytes.
pub proof fn lemma_bus_read_after_write(b: BusView, addr: u16, value: u8)
    requires
        spec_bus_wf(b),
        spec_addr_writes_back(b, addr),
    ensures
        spec_bus_read(spec_bus_write(b, addr, value), addr) == value,
{
    if addr == 0xFF40 {
        crate::gpu::lemma_control_byte_round_trip(value, crate::gpu::spec_control_from_byte(value));
    }
}

/// A write to one whole-byte address leaves every read at a different
/// address unchanged.
pub proof fn lemma_bus_write_other(b: BusView, addr: u16, value: u8, other: u16)
    requires
        spec_bus_wf(b),
        spec_addr_writes_back(b, addr),
        other != addr,
    ensures
        spec_bus_read(spec_bus_write(b, addr, value), other) == spec_bus_read(b, other),
{
}

/// Stack round-trip: pushing a word and popping it back returns the word
/// unchanged and restores the stack pointer, provided the stack pointer is
/// not at the very bottom of the address space and the two stack cells land
/// on stores that keep whole bytes.
pub proof fn lemma_stack_round_trip(b: BusView, sp: u16, v: u16)
    requires
        spec_bus_wf(b),
        sp >= 2,
        spec_addr_writes_back(b, (sp - 1) as u16),
        spec_addr_writes_back(b, (sp - 2) as u16),
    ensures
        ({
            let (b2, sp2) = spec_push16(b, sp, v);
            spec_pop16(b2, sp2) == ((v as u16), sp)
        }),
{
    let sp1 = (sp - 1) as u16;
    let sp2 = (sp - 2) as u16;
    let hi = (v / 256) as u8;
    let lo = (v % 256) as u8;
    let b1 = spec_bus_write(b, sp1, hi);
    let b2 = spec_bus_write(b1, sp2, lo);
    assert(sp.wrapping_sub(1) == sp1 && sp1.wrapping_sub(1) == sp2);
    lemma_bus_write_wf(b, sp1, hi);
    lemma_bus_read_after_write(b1, sp2, lo);
    lemma_bus_read_after_write(b, sp1, hi);
    lemma_bus_write_other(b1, sp2, lo, sp1);
    assert(spec_bus_read(b2, sp2) == lo);
    assert(spec_bus_read(b2, sp1) == hi);
    assert(sp2.wrapping_add(1) == sp1 && sp1.wrapping_add(1) == sp);
    assert(lo + 256 * hi == v);
}

/// The video controller bookkeeping after an elapsed-cycle count is folded
/// in.
pub open spec fn spec_gpu_tick(g: GpuView, cycles: u16) -> GpuView {
    GpuView {
        scanline_counter: spec_gpu_advance(g.scanline_counter + cycles, g.ly).0 as u16,
        ly: spec_gpu_advance(g.scanline_counter + cycles, g.ly).1,
        ..g
    }
}

/// Whether an operand names an 8-bit quantity (a register or memory cell)
/// rather than a 16-bit one.
pub open spec fn spec_target_is_8bit(t: ArithmeticTarget) -> bool {
    match t {
        ArithmeticTarget::BC => false,
        ArithmeticTarget::DE => false,
        ArithmeticTarget::HL => false,
        ArithmeticTarget::SP => false,
        ArithmeticTarget::D16 => false,
        ArithmeticTarget::SPA => false,
        _ => true,
    }
}

/// Whether an operand can stand on the storing side of an operation. The
/// immediates and the stack-relative form are read-only.
pub open spec fn spec_target_writable(t: ArithmeticTarget) -> bool {
    !(t is D8 || t is D16 || t is SPA)
}

/// The value an operand reading yields, widened to 16 bits.
pub open spec fn spec_read_value(s: CpuView, t: ArithmeticTarget) -> u16 {
    match t {
        ArithmeticTarget::A => s.regs.a as u16,
        ArithmeticTarget::B => s.regs.b as u16,
        ArithmeticTarget::C => s.regs.c as u16,
        ArithmeticTarget::D => s.regs.d as u16,
        ArithmeticTarget::E => s.regs.e as u16,
        ArithmeticTarget::H => s.regs.h as u16,
        ArithmeticTarget::L => s.regs.l as u16,
        ArithmeticTarget::HL_ => spec_bus_read(s.bus, spec_hl16(s.regs)) as u16,
        ArithmeticTarget::HLi_ => spec_bus_read(s.bus, spec_hl16(s.regs)) as u16,
        ArithmeticTarget::HLd_ => spec_bus_read(s.bus, spec_hl16(s.regs)) as u16,
        ArithmeticTarget::BC_ => spec_bus_read(s.bus, spec_bc16(s.regs)) as u16,
        ArithmeticTarget::DE_ => spec_bus_read(s.bus, spec_de16(s.regs)) as u16,
        ArithmeticTarget::D8 => spec_next_byte(s) as u16,
        ArithmeticTarget::D16_ => spec_bus_read(s.bus, spec_next_word(s)) as u16,
        ArithmeticTarget::FD8_ => spec_bus_read(s.bus, (0xFF00 + spec_next_byte(s)) as u16) as u16,
        ArithmeticTarget::FDC_ => spec_bus_read(s.bus, (0xFF00 + s.regs.c) as u16) as u16,
        ArithmeticTarget::BC => spec_bc16(s.regs),
        ArithmeticTarget::DE => spec_de16(s.regs),
        ArithmeticTarget::HL => spec_hl16(s.regs),
        ArithmeticTarget::SP => s.sp,
        ArithmeticTarget::D16 => spec_next_word(s),
        ArithmeticTarget::SPA => s.sp,
    }
}

/// The machine state after an operand was read: only the auto-incrementing
/// and auto-decrementing HL forms have a side effect, which fires exactly
/// once per access.
pub open spec fn spec_read_state(s: CpuView, t: ArithmeticTarget) -> CpuView {
    match t {
        ArithmeticTarget::HLi_ => CpuView {
            regs: spec_regs_set_hl(s.regs, spec_hl16(s.regs).wrapping_add(1)),
            ..s
        },
        ArithmeticTarget::HLd_ => CpuView {
            regs: spec_regs_set_hl(s.regs, spec_hl16(s.regs).wrapping_sub(1)),
            ..s
        },
        _ => s,
    }
}

/// The machine state after a value was stored into an operand: registers
/// take the truncated low byte (or the full word for a pair), memory cells
/// go through the bus, and the auto-increment and auto-decrement forms bump
/// HL once after the write. The read-only operands store nothing.
pub open spec fn spec_write_target(s: CpuView, t: ArithmeticTarget, v: u16) -> CpuView {
    let v8 = (v % 256) as u8;
    match t {
        ArithmeticTarget::A => CpuView { regs: Registers { a: v8, ..s.regs }, ..s },
        ArithmeticTarget::B => CpuView { regs: Registers { b: v8, ..s.regs }, ..s },
        ArithmeticTarget::C => CpuView { regs: Registers { c: v8, ..s.regs }, ..s },
        ArithmeticTarget::D => CpuView { regs: Registers { d: v8, ..s.regs }, ..s },
        ArithmeticTarget::E => CpuView { regs: Registers { e: v8, ..s.regs }, ..s },
        ArithmeticTarget::H => CpuView { regs: Registers { h: v8, ..s.regs }, ..s },
        ArithmeticTarget::L => CpuView { regs: Registers { l: v8, ..s.regs }, ..s },
        ArithmeticTarget::BC_ => CpuView {
            bus: spec_bus_write(s.bus, spec_bc16(s.regs), v8),
            ..s
        },
        ArithmeticTarget::DE_ => CpuView {
            bus: spec_bus_write(s.bus, spec_de16(s.regs), v8),
            ..s
        },
        ArithmeticTarget::HL_ => CpuView {
            bus: spec_bus_write(s.bus, spec_hl16(s.regs), v8),
            ..s
        },
        ArithmeticTarget::HLi_ => CpuView {
            bus: spec_bus_write(s.bus, spec_hl16(s.regs), v8),
            regs: spec_regs_set_hl(s.regs, spec_hl16(s.regs).wrapping_add(1)),
            ..s
        },
        ArithmeticTarget::HLd_ => CpuView {
            bus: spec_bus_write(s.bus, spec_hl16(s.regs), v8),
            regs: spec_regs_set_hl(s.regs, spec_hl16(s.regs).wrapping_sub(1)),
            ..s
        },
        ArithmeticTarget::D16_ => CpuView {
            bus: spec_bus_write(s.bus, spec_next_word(s), v8),
            ..s
        },
        ArithmeticTarget::FD8_ => CpuView {
            bus: spec_bus_write(s.bus, (0xFF00 + spec_next_byte(s)) as u16, v8),
            ..s
        },
        ArithmeticTarget::FDC_ => CpuView {
            bus: spec_bus_write(s.bus, (0xFF00 + s.regs.c) as u16, v8),
            ..s
        },
        ArithmeticTarget::BC => CpuView { regs: spec_regs_set_bc(s.regs, v), ..s },
        ArithmeticTarget::DE => CpuView { regs: spec_regs_set_de(s.regs, v), ..s },
        ArithmeticTarget::HL => CpuView { regs: spec_regs_set_hl(s.regs, v), ..s },
        ArithmeticTarget::SP => CpuView { sp: v, ..s },
        ArithmeticTarget::D8 => s,
        ArithmeticTarget::D16 => s,
        ArithmeticTarget::SPA => s,
    }
}

/// Whether the flags satisfy a branch condition.
pub open spec fn spec_should_jump(f: FlagsRegister, test: JumpTest) -> bool {
    match test {
        JumpTest::NotZero => !f.zero,
        JumpTest::NotCarry => !f.carry,
        JumpTest::Zero => f.zero,
        JumpTest::Carry => f.carry,
        JumpTest::Always => true,
    }
}

/// The single-bit mask for bit `n` of a byte.
pub open spec fn spec_bit_mask(n: u8) -> u8 {
    if n == 0 {
        0x01
    } else if n == 1 {
        0x02
    } else if n == 2 {
        0x04
    } else if n == 3 {
        0x08
    } else if n == 4 {
        0x10
    } else if n == 5 {
        0x20
    } else if n == 6 {
        0x40
    } else {
        0x80
    }
}

/// Whether bit `n` of a byte is set.
pub open spec fn spec_get_bit(v: u8, n: u8) -> bool {
    v & spec_bit_mask(n) != 0
}

/// The byte with bit `n` set.
pub open spec fn spec_set_bit(v: u8, n: u8) -> u8 {
    v | spec_bit_mask(n)
}

/// The byte with bit `n` cleared.
pub open spec fn spec_res_bit(v: u8, n: u8) -> u8 {
    (spec_bit_mask(n) ^ 0xFF) & v
}

fn bit_mask(n: u8) -> (m: u8)
    requires
        n < 8,
    ensures
        m == spec_bit_mask(n),
{
    if n == 0 {
        0x01
    } else if n == 1 {
        0x02
    } else if n == 2 {
        0x04
    } else if n == 3 {
        0x08
    } else if n == 4 {
        0x10
    } else if n == 5 {
        0x20
    } else if n == 6 {
        0x40
    } else {
        0x80
    }
}

/// The state and next program counter after a load.
pub open spec fn spec_ld(s: CpuView, lt: LoadType) -> (CpuView, u16) {
    match lt {
        LoadType::Byte(target, source) => {
            let v = spec_read_value(s, source);
            let s1 = spec_read_state(s, source);
            let s2 = spec_write_target(s1, target, v);
            let adv: u16 = if source is D8 {
                2
            } else {
                1
            };
            (s2, s.pc.wrapping_add(adv))
        },
        LoadType::WORD(target, source) => {
            if source is SPA {
                let d = spec_next_byte(s);
                let nv = s.sp.wrapping_add(spec_sext(d));
                let half = s.sp % 256 % 16 + d % 16 > 15;
                let carry = s.sp + spec_sext(d) > 0xFFFF;
                let s1 = CpuView { regs: spec_with_flags(s.regs, false, false, half, carry), ..s };
                let s2 = spec_write_target(s1, target, nv);
                (s2, s.pc.wrapping_add(2))
            } else {
                let v = spec_read_value(s, source);
                let s1 = spec_read_state(s, source);
                let s2 = spec_write_target(s1, target, v);
                (s2, s.pc.wrapping_add(3))
            }
        },
    }
}

/// The state and next program counter after an increment: the 8-bit form
/// sets zero and half-carry from the result and leaves carry untouched; the
/// 16-bit form touches no flags at all.
pub open spec fn spec_inc(s: CpuView, t: ArithmeticTarget) -> (CpuView, u16) {
    if spec_target_is_8bit(t) {
        let v = (spec_read_value(s, t) % 256) as u8;
        let s1 = spec_read_state(s, t);
        let nv = v.wrapping_add(1);
        let s2 = CpuView {
            regs: spec_with_flags(s1.regs, nv == 0, false, v % 16 == 15, s.regs.f.carry),
            ..s1
        };
        (spec_write_target(s2, t, nv as u16), s.pc.wrapping_add(1))
    } else {
        let v = spec_read_value(s, t);
        let s1 = spec_read_state(s, t);
        (spec_write_target(s1, t, v.wrapping_add(1)), s.pc.wrapping_add(1))
    }
}

/// The state and next program counter after a decrement; mirror of the
/// increment with the subtract flag set in the 8-bit form.
pub open spec fn spec_dec(s: CpuView, t: ArithmeticTarget) -> (CpuView, u16) {
    if spec_target_is_8bit(t) {
        let v = (spec_read_value(s, t) % 256) as u8;
        let s1 = spec_read_state(s, t);
        let nv = v.wrapping_sub(1);
        let s2 = CpuView {
            regs: spec_with_flags(s1.regs, nv == 0, true, v % 16 == 0, s.regs.f.carry),
            ..s1
        };
        (spec_write_target(s2, t, nv as u16), s.pc.wrapping_add(1))
    } else {
        let v = spec_read_value(s, t);
        let s1 = spec_read_state(s, t);
        (spec_write_target(s1, t, v.wrapping_sub(1)), s.pc.wrapping_add(1))
    }
}

/// The state and next program counter after an addition to the accumulator,
/// or, for the stack-pointer form, after adding a signed immediate to the
/// stack pointer with the flags of the low-byte addition.
pub open spec fn spec_add(s: CpuView, t: ArithmeticTarget) -> (CpuView, u16) {
    if t is SP {
        let d = spec_next_byte(s);
        let nv = s.sp.wrapping_add(spec_sext(d));
        let half = s.sp % 256 % 16 + d % 16 > 15;
        let carry = s.sp + spec_sext(d) > 0xFFFF;
        let s1 = CpuView {
            regs: spec_with_flags(s.regs, false, false, half, carry),
            sp: nv,
            ..s
        };
        (s1, s.pc.wrapping_add(2))
    } else {
        let v = (spec_read_value(s, t) % 256) as u8;
        let s1 = spec_read_state(s, t);
        let a = s.regs.a;
        let nv = a.wrapping_add(v);
        let s2 = CpuView {
            regs: Registers {
                a: nv,
                ..spec_with_flags(s1.regs, nv == 0, false, a % 16 + v % 16 > 15, a + v > 255)
            },
            ..s1
        };
        let adv: u16 = if t is D8 {
            2
        } else {
            1
        };
        (s2, s.pc.wrapping_add(adv))
    }
}

/// The state and next program counter after an add-with-carry.
pub open spec fn spec_adc(s: CpuView, t: ArithmeticTarget) -> (CpuView, u16) {
    let v = (spec_read_value(s, t) % 256) as u8;
    let s1 = spec_read_state(s, t);
    let a = s.regs.a;
    let c: u8 = if s.regs.f.carry {
        1
    } else {
        0
    };
    let nv = a.wrapping_add(v).wrapping_add(c);
    let s2 = CpuView {
        regs: Registers {
            a: nv,
            ..spec_with_flags(s1.regs, nv == 0, false, a % 16 + v % 16 + c > 15, a + v + c > 255)
        },
        ..s1
    };
    let adv: u16 = if t is D8 {
        2
    } else {
        1
    };
    (s2, s.pc.wrapping_add(adv))
}

/// The state and next program counter after a 16-bit add to HL: zero is
/// untouched, half-carry comes from bit 11 and carry from bit 15.
pub open spec fn spec_addhl(s: CpuView, t: ArithmeticTarget) -> (CpuView, u16) {
    let v = spec_read_value(s, t);
    let s1 = spec_read_state(s, t);
    let hl = spec_hl16(s1.regs);
    let nv = hl.wrapping_add(v);
    let half = hl % 0x1000 + v % 0x1000 > 0x0FFF;
    let carry = hl + v > 0xFFFF;
    let regs2 = spec_regs_set_hl(
        Registers {
            f: FlagsRegister {
                zero: s.regs.f.zero,
                subtract: false,
                half_carry: half,
                carry,
            },
            ..s1.regs
        },
        nv,
    );
    (CpuView { regs: regs2, ..s1 }, s.pc.wrapping_add(1))
}

/// The state and next program counter after a subtraction from the
/// accumulator: subtract set, half-carry on a low-nibble borrow, carry on a
/// full borrow.
pub open spec fn spec_sub(s: CpuView, t: ArithmeticTarget) -> (CpuView, u16) {
    let v = (spec_read_value(s, t) % 256) as u8;
    let s1 = spec_read_state(s, t);
    let a = s.regs.a;
    let nv = a.wrapping_sub(v);
    let s2 = CpuView {
        regs: Registers {
            a: nv,
            ..spec_with_flags(s1.regs, nv == 0, true, a % 16 < v % 16, a < v)
        },
        ..s1
    };
    let adv: u16 = if t is D8 {
        2
    } else {
        1
    };
    (s2, s.pc.wrapping_add(adv))
}

/// The state and next program counter after a subtract-with-carry.
pub open spec fn spec_sbc(s: CpuView, t: ArithmeticTarget) -> (CpuView, u16) {
    let v = (spec_read_value(s, t) % 256) as u8;
    let s1 = spec_read_state(s, t);
    let a = s.regs.a;
    let c: u8 = if s.regs.f.carry {
        1
    } else {
        0
    };
    let nv = a.wrapping_sub(v).wrapping_sub(c);
    let s2 = CpuView {
        regs: Registers {
            a: nv,
            ..spec_with_flags(s1.regs, nv == 0, true, a % 16 < v % 16 + c, a < v + c)
        },
        ..s1
    };
    let adv: u16 = if t is D8 {
        2
    } else {
        1
    };
    (s2, s.pc.wrapping_add(adv))
}

/// The state and next program counter after a compare: the flags of the
/// subtraction with the accumulator left unchanged.
pub open spec fn spec_cp(s: CpuView, t: ArithmeticTarget) -> (CpuView, u16) {
    let v = (spec_read_value(s, t) % 256) as u8;
    let s1 = spec_read_state(s, t);
    let a = s.regs.a;
    let nv = a.wrapping_sub(v);
    let s2 = CpuView {
        regs: spec_with_flags(s1.regs, nv == 0, true, a % 16 < v % 16, a < v),
        ..s1
    };
    let adv: u16 = if t is D8 {
        2
    } else {
        1
    };
    (s2, s.pc.wrapping_add(adv))
}

/// The state and next program counter after a decimal adjust of the
/// accumulator: after an addition each nibble that left the decimal range
/// (or carried) is corrected upward, setting carry when the high correction
/// fires; after a subtraction the recorded half-carry and carry correct
/// downward. Half-carry is always cleared.
pub open spec fn spec_daa(s: CpuView) -> (CpuView, u16) {
    let a = s.regs.a;
    let f = s.regs.f;
    if !f.subtract {
        let low_adjust = f.half_carry || a % 16 > 9;
        let high_adjust = f.carry || a > 0x99;
        let adj: u8 = ((if low_adjust {
            6int
        } else {
            0int
        }) + (if high_adjust {
            0x60int
        } else {
            0int
        })) as u8;
        let nv = a.wrapping_add(adj);
        let s2 = CpuView {
            regs: Registers {
                a: nv,
                f: FlagsRegister {
                    zero: nv == 0,
                    subtract: false,
                    half_carry: false,
                    carry: f.carry || high_adjust,
                },
                ..s.regs
            },
            ..s
        };
        (s2, s.pc.wrapping_add(1))
    } else {
        let adj: u8 = ((if f.half_carry {
            6int
        } else {
            0int
        }) + (if f.carry {
            0x60int
        } else {
            0int
        })) as u8;
        let nv = a.wrapping_sub(adj);
        let s2 = CpuView {
            regs: Registers {
                a: nv,
                f: FlagsRegister {
                    zero: nv == 0,
                    subtract: true,
                    half_carry: false,
                    carry: f.carry,
                },
                ..s.regs
            },
            ..s
        };
        (s2, s.pc.wrapping_add(1))
    }
}

/// The state and next program counter after a bitwise AND into the
/// accumulator: half-carry forced set, carry cleared.
pub open spec fn spec_and(s: CpuView, t: ArithmeticTarget) -> (CpuView, u16) {
    let v = (spec_read_value(s, t) % 256) as u8;
    let s1 = spec_read_state(s, t);
    let nv = s.regs.a & v;
    let s2 = CpuView {
        regs: Registers { a: nv, ..spec_with_flags(s1.regs, nv == 0, false, true, false) },
        ..s1
    };
    let adv: u16 = if t is D8 {
        2
    } else {
        1
    };
    (s2, s.pc.wrapping_add(adv))
}

/// The state and next program counter after a bitwise OR into the
/// accumulator: half-carry and carry cleared.
pub open spec fn spec_or(s: CpuView, t: ArithmeticTarget) -> (CpuView, u16) {
    let v = (spec_read_value(s, t) % 256) as u8;
    let s1 = spec_read_state(s, t);
    let nv = s.regs.a | v;
    let s2 = CpuView {
        regs: Registers { a: nv, ..spec_with_flags(s1.regs, nv == 0, false, false, false) },
        ..s1
    };
    let adv: u16 = if t is D8 {
        2
    } else {
        1
    };
    (s2, s.pc.wrapping_add(adv))
}

/// The state and next program counter after a bitwise XOR into the
/// accumulator: half-carry and carry cleared.
pub open spec fn spec_xor(s: CpuView, t: ArithmeticTarget) -> (CpuView, u16) {
    let v = (spec_read_value(s, t) % 256) as u8;
    let s1 = spec_read_state(s, t);
    let nv = s.regs.a ^ v;
    let s2 = CpuView {
        regs: Registers { a: nv, ..spec_with_flags(s1.regs, nv == 0, false, false, false) },
        ..s1
    };
    let adv: u16 = if t is D8 {
        2
    } else {
        1
    };
    (s2, s.pc.wrapping_add(adv))
}

/// The rotated-right-through-carry byte: the old carry enters bit 7, bit 0
/// leaves into the carry.
pub open spec fn spec_rr8(v: u8, carry_in: bool) -> u8 {
    ((v / 2) + (if carry_in {
        128int
    } else {
        0int
    })) as u8
}

/// The state and next program counter after a rotate right through carry of
/// an operand; the zero flag reflects the result.
pub open spec fn spec_rr(s: CpuView, t: ArithmeticTarget) -> (CpuView, u16) {
    let v = (spec_read_value(s, t) % 256) as u8;
    let s1 = spec_read_state(s, t);
    let nv = spec_rr8(v, s.regs.f.carry);
    let s2 = spec_write_target(s1, t, nv as u16);
    let s3 = CpuView { regs: spec_with_flags(s2.regs, nv == 0, false, false, v % 2 == 1), ..s2 };
    (s3, s.pc.wrapping_add(1))
}

/// The state and next program counter after the accumulator-only legacy
/// rotate right through carry, which clears the zero flag unconditionally.
pub open spec fn spec_rra(s: CpuView) -> (CpuView, u16) {
    let v = s.regs.a;
    let nv = spec_rr8(v, s.regs.f.carry);
    let s2 = CpuView {
        regs: Registers { a: nv, ..spec_with_flags(s.regs, false, false, false, v % 2 == 1) },
        ..s
    };
    (s2, s.pc.wrapping_add(1))
}

/// The circularly rotated-right byte: bit 0 wraps to bit 7.
pub open spec fn spec_rrc8(v: u8) -> u8 {
    ((v / 2) + (if v % 2 == 1 {
        128int
    } else {
        0int
    })) as u8
}

/// The state and next program counter after a circular rotate right of an
/// operand; the bit that wrapped also lands in the carry.
pub open spec fn spec_rrc(s: CpuView, t: ArithmeticTarget) -> (CpuView, u16) {
    let v = (spec_read_value(s, t) % 256) as u8;
    let s1 = spec_read_state(s, t);
    let nv = spec_rrc8(v);
    let s2 = spec_write_target(s1, t, nv as u16);
    let s3 = CpuView { regs: spec_with_flags(s2.regs, nv == 0, false, false, v % 2 == 1), ..s2 };
    (s3, s.pc.wrapping_add(1))
}

/// The accumulator-only legacy circular rotate right; zero flag cleared.
pub open spec fn spec_rrca(s: CpuView) -> (CpuView, u16) {
    let v = s.regs.a;
    let nv = spec_rrc8(v);
    let s2 = CpuView {
        regs: Registers { a: nv, ..spec_with_flags(s.regs, false, false, false, v % 2 == 1) },
        ..s
    };
    (s2, s.pc.wrapping_add(1))
}

/// The rotated-left-through-carry byte: the old carry enters bit 0, bit 7
/// leaves into the carry.
pub open spec fn spec_rl8(v: u8, carry_in: bool) -> u8 {
    ((v % 128) * 2 + (if carry_in {
        1int
    } else {
        0int
    })) as u8
}

/// The state and next program counter after a rotate left through carry of
/// an operand; the zero flag reflects the result.
pub open spec fn spec_rl(s: CpuView, t: ArithmeticTarget) -> (CpuView, u16) {
    let v = (spec_read_value(s, t) % 256) as u8;
    let s1 = spec_read_state(s, t);
    let nv = spec_rl8(v, s.regs.f.carry);
    let s2 = spec_write_target(s1, t, nv as u16);
    let s3 = CpuView { regs: spec_with_flags(s2.regs, nv == 0, false, false, v >= 128), ..s2 };
    (s3, s.pc.wrapping_add(1))
}

/// The accumulator-only legacy rotate left through carry; zero flag
/// cleared.
pub open spec fn spec_rla(s: CpuView) -> (CpuView, u16) {
    let v = s.regs.a;
    let nv = spec_rl8(v, s.regs.f.carry);
    let s2 = CpuView {
        regs: Registers { a: nv, ..spec_with_flags(s.regs, false, false, false, v >= 128) },
        ..s
    };
    (s2, s.pc.wrapping_add(1))
}

/// The circularly rotated-left byte: bit 7 wraps to bit 0.
pub open spec fn spec_rlc8(v: u8) -> u8 {
    ((v % 128) * 2 + (if v >= 128 {
        1int
    } else {
        0int
    })) as u8
}

/// The state and next program counter after a circular rotate left of an
/// operand; the bit that wrapped also lands in the carry.
pub open spec fn spec_rlc(s: CpuView, t: ArithmeticTarget) -> (CpuView, u16) {
    let v = (spec_read_value(s, t) % 256) as u8;
    let s1 = spec_read_state(s, t);
    let nv = spec_rlc8(v);
    let s2 = spec_write_target(s1, t, nv as u16);
    let s3 = CpuView { regs: spec_with_flags(s2.regs, nv == 0, false, false, v >= 128), ..s2 };
    (s3, s.pc.wrapping_add(1))
}

/// The accumulator-only legacy circular rotate left; zero flag cleared.
pub open spec fn spec_rlca(s: CpuView) -> (CpuView, u16) {
    let v = s.regs.a;
    let nv = spec_rlc8(v);
    let s2 = CpuView {
        regs: Registers { a: nv, ..spec_with_flags(s.regs, false, false, false, v >= 128) },
        ..s
    };
    (s2, s.pc.wrapping_add(1))
}

/// The state and next program counter after an arithmetic shift left: bit 7
/// leaves into the carry, bit 0 is filled with zero.
pub open spec fn spec_sla(s: CpuView, t: ArithmeticTarget) -> (CpuView, u16) {
    let v = (spec_read_value(s, t) % 256) as u8;
    let s1 = spec_read_state(s, t);
    let nv = ((v % 128) * 2) as u8;
    let s2 = spec_write_target(s1, t, nv as u16);
    let s3 = CpuView { regs: spec_with_flags(s2.regs, nv == 0, false, false, v >= 128), ..s2 };
    (s3, s.pc.wrapping_add(1))
}

/// The state and next program counter after an arithmetic shift right: bit
/// 7 is kept, bit 0 leaves into the carry.
pub open spec fn spec_sra(s: CpuView, t: ArithmeticTarget) -> (CpuView, u16) {
    let v = (spec_read_value(s, t) % 256) as u8;
    let s1 = spec_read_state(s, t);
    let nv = ((v / 2) + (if v >= 128 {
        128int
    } else {
        0int
    })) as u8;
    let s2 = spec_write_target(s1, t, nv as u16);
    let s3 = CpuView { regs: spec_with_flags(s2.regs, nv == 0, false, false, v % 2 == 1), ..s2 };
    (s3, s.pc.wrapping_add(1))
}

/// The byte with its nibbles exchanged.
pub open spec fn spec_swap8(v: u8) -> u8 {
    ((v % 16) * 16 + v / 16) as u8
}

/// The state and next program counter after a nibble swap: zero from the
/// result, the other three flags cleared.
pub open spec fn spec_swap(s: CpuView, t: ArithmeticTarget) -> (CpuView, u16) {
    let v = (spec_read_value(s, t) % 256) as u8;
    let s1 = spec_read_state(s, t);
    let nv = spec_swap8(v);
    let s2 = spec_write_target(s1, t, nv as u16);
    let s3 = CpuView { regs: spec_with_flags(s2.regs, nv == 0, false, false, false), ..s2 };
    (s3, s.pc.wrapping_add(1))
}

/// The state and next program counter after a logical shift right: bit 0
/// leaves into the carry, bit 7 is filled with zero.
pub open spec fn spec_srl(s: CpuView, t: ArithmeticTarget) -> (CpuView, u16) {
    let v = (spec_read_value(s, t) % 256) as u8;
    let s1 = spec_read_state(s, t);
    let nv = v / 2;
    let s2 = spec_write_target(s1, t, nv as u16);
    let s3 = CpuView { regs: spec_with_flags(s2.regs, nv == 0, false, false, v % 2 == 1), ..s2 };
    (s3, s.pc.wrapping_add(1))
}

/// The state and next program counter after a bit test: zero is set exactly
/// when the tested bit is clear, half-carry forced set, subtract cleared,
/// carry untouched.
pub open spec fn spec_bit_test(s: CpuView, t: ArithmeticTarget, n: u8) -> (CpuView, u16) {
    let v = (spec_read_value(s, t) % 256) as u8;
    let s1 = spec_read_state(s, t);
    let s2 = CpuView {
        regs: spec_with_flags(s1.regs, !spec_get_bit(v, n), false, true, s.regs.f.carry),
        ..s1
    };
    (s2, s.pc.wrapping_add(1))
}

/// The state and next program counter after clearing one bit of an operand;
/// no flag effects.
pub open spec fn spec_res_instr(s: CpuView, t: ArithmeticTarget, n: u8) -> (CpuView, u16) {
    let v = (spec_read_value(s, t) % 256) as u8;
    let s1 = spec_read_state(s, t);
    (spec_write_target(s1, t, spec_res_bit(v, n) as u16), s.pc.wrapping_add(1))
}

/// The state and next program counter after setting one bit of an operand;
/// no flag effects.
pub open spec fn spec_set_instr(s: CpuView, t: ArithmeticTarget, n: u8) -> (CpuView, u16) {
    let v = (spec_read_value(s, t) % 256) as u8;
    let s1 = spec_read_state(s, t);
    (spec_write_target(s1, t, spec_set_bit(v, n) as u16), s.pc.wrapping_add(1))
}

/// The state and next program counter after complementing the accumulator:
/// subtract and half-carry set, zero and carry untouched.
pub open spec fn spec_cpl(s: CpuView) -> (CpuView, u16) {
    let nv = (255 - s.regs.a) as u8;
    let s2 = CpuView {
        regs: Registers {
            a: nv,
            ..spec_with_flags(s.regs, s.regs.f.zero, true, true, s.regs.f.carry)
        },
        ..s
    };
    (s2, s.pc.wrapping_add(1))
}

/// The state and next program counter after complementing the carry flag;
/// subtract and half-carry cleared, zero untouched.
pub open spec fn spec_ccf(s: CpuView) -> (CpuView, u16) {
    (
        CpuView {
            regs: spec_with_flags(s.regs, s.regs.f.zero, false, false, !s.regs.f.carry),
            ..s
        },
        s.pc.wrapping_add(1),
    )
}

/// The state and next program counter after setting the carry flag;
/// subtract and half-carry cleared, zero untouched.
pub open spec fn spec_scf(s: CpuView) -> (CpuView, u16) {
    (
        CpuView { regs: spec_with_flags(s.regs, s.regs.f.zero, false, false, true), ..s },
        s.pc.wrapping_add(1),
    )
}

/// The state and next program counter after an absolute jump: taken, the
/// immediate word becomes the program counter; not taken, the program
/// counter advances past the 3-byte encoding and the alternate cycle cost
/// is recorded.
pub open spec fn spec_jump(s: CpuView, test: JumpTest) -> (CpuView, u16) {
    if spec_should_jump(s.regs.f, test) {
        (s, spec_next_word(s))
    } else {
        (CpuView { cycle2_flag: true, ..s }, s.pc.wrapping_add(3))
    }
}

/// The state and next program counter after the jump-to-HL form.
pub open spec fn spec_jumphl(s: CpuView) -> (CpuView, u16) {
    (s, spec_hl16(s.regs))
}

/// The state and next program counter after a relative jump: taken, the
/// signed displacement is added past the 2-byte encoding; not taken, the
/// program counter advances past it and the alternate cost is recorded.
pub open spec fn spec_jr(s: CpuView, test: JumpTest) -> (CpuView, u16) {
    if spec_should_jump(s.regs.f, test) {
        let d = spec_next_byte(s);
        (s, s.pc.wrapping_add(2).wrapping_add(spec_sext(d)))
    } else {
        (CpuView { cycle2_flag: true, ..s }, s.pc.wrapping_add(2))
    }
}

/// The word a stack target names for a push.
pub open spec fn spec_stack_value(s: CpuView, st: StackTarget) -> u16 {
    match st {
        StackTarget::AF => spec_af16(s.regs),
        StackTarget::BC => spec_bc16(s.regs),
        StackTarget::DE => spec_de16(s.regs),
        StackTarget::HL => spec_hl16(s.regs),
        StackTarget::D16(x) => x,
        StackTarget::NONE => 0,
    }
}

/// The state and next program counter after a push.
pub open spec fn spec_push_instr(s: CpuView, st: StackTarget) -> (CpuView, u16) {
    let v = spec_stack_value(s, st);
    let bsp = spec_push16(s.bus, s.sp, v);
    (CpuView { bus: bsp.0, sp: bsp.1, ..s }, s.pc.wrapping_add(1))
}

/// The state and next program counter after a pop: the word is read low
/// byte first and stored into the named pair (a pop into AF drops the low
/// nibble of the flags byte). The internal raw form returns the word itself
/// as the next program counter, which is how returns are built.
pub open spec fn spec_pop_instr(s: CpuView, st: StackTarget) -> (CpuView, u16) {
    let vsp = spec_pop16(s.bus, s.sp);
    let v = vsp.0;
    let s1 = CpuView { sp: vsp.1, ..s };
    match st {
        StackTarget::NONE => (s1, v),
        StackTarget::AF => (
            CpuView { regs: spec_regs_set_af(s1.regs, v), ..s1 },
            s.pc.wrapping_add(1),
        ),
        StackTarget::BC => (
            CpuView { regs: spec_regs_set_bc(s1.regs, v), ..s1 },
            s.pc.wrapping_add(1),
        ),
        StackTarget::DE => (
            CpuView { regs: spec_regs_set_de(s1.regs, v), ..s1 },
            s.pc.wrapping_add(1),
        ),
        StackTarget::HL => (
            CpuView { regs: spec_regs_set_hl(s1.regs, v), ..s1 },
            s.pc.wrapping_add(1),
        ),
        StackTarget::D16(_) => (s1, s.pc.wrapping_add(1)),
    }
}

/// The state and next program counter after a call: taken, the address of
/// the instruction after the 3-byte call is pushed and the target word
/// (read after the push, from the possibly-changed bus) becomes the program
/// counter; not taken, the alternate cost is recorded.
pub open spec fn spec_call(s: CpuView, test: JumpTest) -> (CpuView, u16) {
    let next = s.pc.wrapping_add(3);
    if spec_should_jump(s.regs.f, test) {
        let bsp = spec_push16(s.bus, s.sp, next);
        let s1 = CpuView { bus: bsp.0, sp: bsp.1, ..s };
        (s1, spec_word_at(s1.bus, s.pc))
    } else {
        (CpuView { cycle2_flag: true, ..s }, next)
    }
}

/// The state and next program counter after a restart: the address of the
/// instruction after the 1-byte restart is pushed and the fixed vector
/// becomes the program counter.
pub open spec fn spec_rst(s: CpuView, addr: u16) -> (CpuView, u16) {
    let ret = s.pc.wrapping_add(1);
    let bsp = spec_push16(s.bus, s.sp, ret);
    (CpuView { bus: bsp.0, sp: bsp.1, ..s }, addr)
}

/// The state and next program counter after a return: taken, the popped
/// word becomes the program counter; not taken, the alternate cost is
/// recorded.
pub open spec fn spec_ret(s: CpuView, test: JumpTest) -> (CpuView, u16) {
    if spec_should_jump(s.regs.f, test) {
        spec_pop_instr(s, StackTarget::NONE)
    } else {
        (CpuView { cycle2_flag: true, ..s }, s.pc.wrapping_add(1))
    }
}

/// The state and next program counter after the halting forms: the halted
/// flag is set and every later step is a no-op until the machine is
/// externally resumed.
pub open spec fn spec_halt(s: CpuView) -> (CpuView, u16) {
    (CpuView { is_halted: true, ..s }, s.pc.wrapping_add(1))
}

/// The state and next program counter after one decoded operation.
pub open spec fn spec_execute(s: CpuView, i: Instruction) -> (CpuView, u16) {
    match i {
        Instruction::NOP => (s, s.pc.wrapping_add(1)),
        Instruction::LD(lt) => spec_ld(s, lt),
        Instruction::INC(t) => spec_inc(s, t),
        Instruction::DEC(t) => spec_dec(s, t),
        Instruction::ADD(t) => spec_add(s, t),
        Instruction::ADDHL(t) => spec_addhl(s, t),
        Instruction::ADC(t) => spec_adc(s, t),
        Instruction::SUB(t) => spec_sub(s, t),
        Instruction::SBC(t) => spec_sbc(s, t),
        Instruction::CP(t) => spec_cp(s, t),
        Instruction::DAA => spec_daa(s),
        Instruction::AND(t) => spec_and(s, t),
        Instruction::OR(t) => spec_or(s, t),
        Instruction::XOR(t) => spec_xor(s, t),
        Instruction::RR(t) => spec_rr(s, t),
        Instruction::RRA => spec_rra(s),
        Instruction::RRC(t) => spec_rrc(s, t),
        Instruction::RRCA => spec_rrca(s),
        Instruction::RL(t) => spec_rl(s, t),
        Instruction::RLA => spec_rla(s),
        Instruction::RLC(t) => spec_rlc(s, t),
        Instruction::RLCA => spec_rlca(s),
        Instruction::SLA(t) => spec_sla(s, t),
        Instruction::SRA(t) => spec_sra(s, t),
        Instruction::SWAP(t) => spec_swap(s, t),
        Instruction::SRL(t) => spec_srl(s, t),
        Instruction::BIT(t, n) => spec_bit_test(s, t, n),
        Instruction::RES(t, n) => spec_res_instr(s, t, n),
        Instruction::SET(t, n) => spec_set_instr(s, t, n),
        Instruction::CPL => spec_cpl(s),
        Instruction::CCF => spec_ccf(s),
        Instruction::SCF => spec_scf(s),
        Instruction::JP(test) => spec_jump(s, test),
        Instruction::JPHL => spec_jumphl(s),
        Instruction::JR(test) => spec_jr(s, test),
        Instruction::PUSH(st) => spec_push_instr(s, st),
        Instruction::POP(st) => spec_pop_instr(s, st),
        Instruction::CALL(test) => spec_call(s, test),
        Instruction::RST(addr) => spec_rst(s, addr),
        Instruction::RET(test) => spec_ret(s, test),
        Instruction::RETI => spec_pop_instr(s, StackTarget::NONE),
        Instruction::STOP => spec_halt(s),
        Instruction::HALT => spec_halt(s),
        Instruction::DI => (CpuView { ime: false, ..s }, s.pc.wrapping_add(1)),
        Instruction::EI => (CpuView { ime: true, ..s }, s.pc.wrapping_add(1)),
    }
}

/// The constraints every decoded operation satisfies: stored-to operands
/// are writable, bit indices fit in a byte, and a push names a real pair.
pub open spec fn spec_instr_wf(i: Instruction) -> bool {
    match i {
        Instruction::LD(LoadType::Byte(t, _)) => spec_target_writable(t),
        Instruction::LD(LoadType::WORD(t, _)) => spec_target_writable(t),
        Instruction::INC(t) => spec_target_writable(t),
        Instruction::DEC(t) => spec_target_writable(t),
        Instruction::RR(t) => spec_target_writable(t),
        Instruction::RRC(t) => spec_target_writable(t),
        Instruction::RL(t) => spec_target_writable(t),
        Instruction::RLC(t) => spec_target_writable(t),
        Instruction::SLA(t) => spec_target_writable(t),
        Instruction::SRA(t) => spec_target_writable(t),
        Instruction::SWAP(t) => spec_target_writable(t),
        Instruction::SRL(t) => spec_target_writable(t),
        Instruction::BIT(_, n) => n < 8,
        Instruction::RES(t, n) => spec_target_writable(t) && n < 8,
        Instruction::SET(t, n) => spec_target_writable(t) && n < 8,
        Instruction::PUSH(st) => !(st is NONE),
        Instruction::POP(st) => !(st is D16),
        _ => true,
    }
}

/// Every operand the regular decode quarters produce is writable.
proof fn lemma_reg8_target_writable(i: int)
    ensures
        spec_target_writable(crate::instruction::spec_reg8_target(i)),
{
}

/// Every operation the base-page decoder produces satisfies the execution
/// engine's constraints.
#[verifier::rlimit(100)]
proof fn lemma_base_decoded_instr_wf(byte: u8)
    ensures
        spec_from_byte_not_prefixed(byte) matches Some(i) ==> spec_instr_wf(i),
{
    if 0x40 <= byte && byte <= 0x7F {
        lemma_reg8_target_writable(((byte - 0x40) / 8) as int);
        lemma_reg8_target_writable((byte % 8) as int);
    } else if 0x80 <= byte && byte <= 0xBF {
        lemma_reg8_target_writable((byte % 8) as int);
    }
}

/// Every operation the decoder produces satisfies the execution engine's
/// constraints.
pub proof fn lemma_decoded_instr_wf(byte: u8, prefixed: bool)
    ensures
        spec_from_byte(byte, prefixed) matches Some(i) ==> spec_instr_wf(i),
{
    if prefixed {
        lemma_reg8_target_writable((byte % 8) as int);
    } else {
        lemma_base_decoded_instr_wf(byte);
    }
}


/// Incrementing an 8-bit register that holds 0xFF wraps to 0x00 with the
/// zero and half-carry flags set, subtract cleared, and the carry flag
/// untouched.
pub proof fn lemma_inc8_wraparound(s: CpuView, t: ArithmeticTarget)
    requires
        t is A || t is B || t is C || t is D || t is E || t is H || t is L,
        spec_read_value(s, t) == 0xFF,
    ensures
        ({
            let r = spec_inc(s, t);
            &&& spec_read_value(r.0, t) == 0
            &&& r.0.regs.f.zero
            &&& r.0.regs.f.half_carry
            &&& !r.0.regs.f.subtract
            &&& r.0.regs.f.carry == s.regs.f.carry
            &&& r.1 == s.pc.wrapping_add(1)
        }),
{
}

/// Incrementing a 16-bit pair (or the stack pointer) that holds 0xFFFF
/// wraps to 0x0000 and affects no flags at all.
pub proof fn lemma_inc16_wraparound(s: CpuView, t: ArithmeticTarget)
    requires
        t is BC || t is DE || t is HL || t is SP,
        spec_read_value(s, t) == 0xFFFF,
    ensures
        ({
            let r = spec_inc(s, t);
            &&& spec_read_value(r.0, t) == 0
            &&& r.0.regs.f == s.regs.f
            &&& r.1 == s.pc.wrapping_add(1)
        }),
{
}

/// Decrementing an 8-bit register that holds 0x00 wraps to 0xFF with the
/// subtract and half-carry flags set, zero cleared, and the carry flag
/// untouched.
pub proof fn lemma_dec8_wraparound(s: CpuView, t: ArithmeticTarget)
    requires
        t is A || t is B || t is C || t is D || t is E || t is H || t is L,
        spec_read_value(s, t) == 0x00,
    ensures
        ({
            let r = spec_dec(s, t);
            &&& spec_read_value(r.0, t) == 0xFF
            &&& !r.0.regs.f.zero
            &&& r.0.regs.f.half_carry
            &&& r.0.regs.f.subtract
            &&& r.0.regs.f.carry == s.regs.f.carry
            &&& r.1 == s.pc.wrapping_add(1)
        }),
{
}

/// Decrementing a 16-bit pair (or the stack pointer) that holds 0x0000
/// wraps to 0xFFFF and affects no flags at all.
pub proof fn lemma_dec16_wraparound(s: CpuView, t: ArithmeticTarget)
    requires
        t is BC || t is DE || t is HL || t is SP,
        spec_read_value(s, t) == 0x0000,
    ensures
        ({
            let r = spec_dec(s, t);
            &&& spec_read_value(r.0, t) == 0xFFFF
            &&& r.0.regs.f == s.regs.f
            &&& r.1 == s.pc.wrapping_add(1)
        }),
{
}

/// Whether an operation belongs to the load and arithmetic families.
pub open spec fn spec_is_arith_instr(i: Instruction) -> bool {
    match i {
        Instruction::NOP => true,
        Instruction::LD(_) => true,
        Instruction::INC(_) => true,
        Instruction::DEC(_) => true,
        Instruction::ADD(_) => true,
        Instruction::ADDHL(_) => true,
        Instruction::ADC(_) => true,
        Instruction::SUB(_) => true,
        Instruction::SBC(_) => true,
        Instruction::CP(_) => true,
        Instruction::DAA => true,
        Instruction::AND(_) => true,
        Instruction::OR(_) => true,
        Instruction::XOR(_) => true,
        _ => false,
    }
}

/// Whether an operation belongs to the rotate, shift and bit families.
pub open spec fn spec_is_bits_instr(i: Instruction) -> bool {
    match i {
        Instruction::RR(_) => true,
        Instruction::RRA => true,
        Instruction::RRC(_) => true,
        Instruction::RRCA => true,
        Instruction::RL(_) => true,
        Instruction::RLA => true,
        Instruction::RLC(_) => true,
        Instruction::RLCA => true,
        Instruction::SLA(_) => true,
        Instruction::SRA(_) => true,
        Instruction::SWAP(_) => true,
        Instruction::SRL(_) => true,
        Instruction::BIT(_, _) => true,
        Instruction::RES(_, _) => true,
        Instruction::SET(_, _) => true,
        _ => false,
    }
}

/// The whole machine after one successful step: fetch (consuming the
/// extended-page sentinel when present), decode, execute, forward the
/// tabulated cycle cost to the video controller, commit the next program
/// counter, and forward the per-step overhead.
pub open spec fn spec_step_state(s: CpuView) -> CpuView {
    let b0 = spec_bus_read(s.bus, s.pc);
    let prefixed = b0 == 0xCB;
    let ob = if prefixed {
        spec_bus_read(s.bus, s.pc.wrapping_add(1))
    } else {
        b0
    };
    let s0 = CpuView {
        pc: if prefixed {
            s.pc.wrapping_add(1)
        } else {
            s.pc
        },
        cycle2_flag: false,
        ..s
    };
    match spec_from_byte(ob, prefixed) {
        Some(i) => {
            let es = spec_execute(s0, i);
            let s2 = es.0;
            let next_pc = es.1;
            let cycles = if s2.cycle2_flag {
                spec_cycle_alt(ob)
            } else if prefixed {
                spec_cycle_prefixed(ob)
            } else {
                spec_cycle_base(ob)
            };
            let s3 = CpuView { bus: BusView { gpu: spec_gpu_tick(s2.bus.gpu, cycles), ..s2.bus }, ..s2 };
            let s4 = CpuView { pc: next_pc, ..s3 };
            CpuView {
                bus: BusView { gpu: spec_gpu_tick(s4.bus.gpu, STEP_OVERHEAD_CYCLES), ..s4.bus },
                ..s4
            }
        },
        None => s,
    }
}

/// The execution engine's state: the register file, program counter, stack
/// pointer, the bus it exclusively owns, the halt and interrupt-master
/// flags, and the marker recording that the last branch was not taken.
pub struct CPU {
    pub registers: Registers,
    pub pc: u16,
    pub sp: u16,
    pub bus: MemoryBus,
    pub is_halted: bool,
    pub cycle2_flag: bool,
    pub ime: bool,
}

impl View for CPU {
    type V = CpuView;

    open spec fn view(&self) -> CpuView {
        CpuView {
            regs: self.registers,
            pc: self.pc,
            sp: self.sp,
            bus: self.bus@,
            is_halted: self.is_halted,
            cycle2_flag: self.cycle2_flag,
            ime: self.ime,
        }
    }
}

impl CPU {
    /// A bare machine for running programs directly: no cartridge, so the
    /// whole cartridge range is plain RAM; the program counter at address
    /// zero; and, unlike the post-boot snapshot, all four flags cleared, so
    /// conditional branches start from a neutral state.
    pub fn new() -> (r: CPU)
        ensures
            spec_cpu_wf(r@),
            r@.regs == (Registers {
                f: FlagsRegister { zero: false, subtract: false, half_carry: false, carry: false },
                ..spec_power_on_registers()
            }),
            r@.pc == 0x0000 && r@.sp == 0xFFFE,
            !r@.is_halted && !r@.cycle2_flag && !r@.ime,
            r@.bus.cart is None,
            forall|i: int| 0 <= i < 0x10000 ==> r@.bus.ram[i] == 0,
            r@.bus.gpu.ly == 0 && r@.bus.gpu.lyc == 0 && r@.bus.gpu.scanline_counter == 0,
    {
        let mut registers = Registers::new();
        registers.f = FlagsRegister { zero: false, subtract: false, half_carry: false, carry: false };
        CPU {
            registers,
            pc: 0x0000,
            sp: 0xFFFE,
            bus: MemoryBus::new_without_cartridge(),
            is_halted: false,
            cycle2_flag: false,
            ime: false,
        }
    }

    /// A machine with the given cartridge inserted: registers in the
    /// documented post-boot snapshot and the program counter at the
    /// cartridge entry point.
    pub fn with_cartridge(cartridge: Cartridge) -> (r: CPU)
        ensures
            spec_cpu_wf(r@),
            r@.regs == spec_power_on_registers(),
            r@.pc == 0x0100 && r@.sp == 0xFFFE,
            !r@.is_halted && !r@.cycle2_flag && !r@.ime,
            r@.bus.cart == Some(cartridge@),
            forall|i: int| 0 <= i < 0x10000 ==> r@.bus.ram[i] == 0,
            r@.bus.gpu.ly == 0 && r@.bus.gpu.lyc == 0 && r@.bus.gpu.scanline_counter == 0,
    {
        CPU {
            registers: Registers::new(),
            pc: 0x0100,
            sp: 0xFFFE,
            bus: MemoryBus::new(cartridge),
            is_halted: false,
            cycle2_flag: false,
            ime: false,
        }
    }

    fn read_next_byte(&self) -> (r: u8)
        requires
            spec_cpu_wf(self@),
        ensures
            r == spec_next_byte(self@),
    {
        self.bus.read_byte(self.pc.wrapping_add(1))
    }

    fn read_next_word(&self) -> (r: u16)
        requires
            spec_cpu_wf(self@),
        ensures
            r == spec_next_word(self@),
    {
        let l = self.bus.read_byte(self.pc.wrapping_add(1)) as u16;
        let u = self.bus.read_byte(self.pc.wrapping_add(2)) as u16;
        l + 256 * u
    }

    /// Reads an operand's value, firing its auto-increment or -decrement
    /// side effect on HL exactly once.
    #[allow(non_snake_case)]
    fn read_registers_arithmeticTarget(&mut self, target: ArithmeticTarget) -> (r: u16)
        requires
            spec_cpu_wf(old(self)@),
        ensures
            spec_cpu_wf(final(self)@),
            r == spec_read_value(old(self)@, target),
            final(self)@ == spec_read_state(old(self)@, target),
    {
        match target {
            ArithmeticTarget::A => self.registers.a as u16,
            ArithmeticTarget::B => self.registers.b as u16,
            ArithmeticTarget::C => self.registers.c as u16,
            ArithmeticTarget::D => self.registers.d as u16,
            ArithmeticTarget::E => self.registers.e as u16,
            ArithmeticTarget::H => self.registers.h as u16,
            ArithmeticTarget::L => self.registers.l as u16,
            ArithmeticTarget::HL_ => self.bus.read_byte(self.registers.get_hl()) as u16,
            ArithmeticTarget::HLi_ => {
                let value = self.bus.read_byte(self.registers.get_hl()) as u16;
                let hl = self.registers.get_hl();
                self.registers.set_hl(hl.wrapping_add(1));
                value
            },
            ArithmeticTarget::HLd_ => {
                let value = self.bus.read_byte(self.registers.get_hl()) as u16;
                let hl = self.registers.get_hl();
                self.registers.set_hl(hl.wrapping_sub(1));
                value
            },
            ArithmeticTarget::BC_ => self.bus.read_byte(self.registers.get_bc()) as u16,
            ArithmeticTarget::DE_ => self.bus.read_byte(self.registers.get_de()) as u16,
            ArithmeticTarget::D8 => self.read_next_byte() as u16,
            ArithmeticTarget::D16_ => {
                let addr = self.read_next_word();
                self.bus.read_byte(addr) as u16
            },
            ArithmeticTarget::FD8_ => {
                let offset = self.read_next_byte() as u16;
                self.bus.read_byte(0xFF00 + offset) as u16
            },
            ArithmeticTarget::FDC_ => self.bus.read_byte(0xFF00 + self.registers.c as u16) as u16,
            ArithmeticTarget::BC => self.registers.get_bc(),
            ArithmeticTarget::DE => self.registers.get_de(),
            ArithmeticTarget::HL => self.registers.get_hl(),
            ArithmeticTarget::SP => self.sp,
            ArithmeticTarget::D16 => self.read_next_word(),
            ArithmeticTarget::SPA => self.sp,
        }
    }

    /// Stores a value into an operand, firing its auto-increment or
    /// -decrement side effect on HL exactly once after the write.
    #[allow(non_snake_case)]
    fn change_registers_arithmeticTarget(&mut self, target: ArithmeticTarget, value: u16)
        requires
            spec_cpu_wf(old(self)@),
            spec_target_writable(target),
        ensures
            spec_cpu_wf(final(self)@),
            final(self)@ == spec_write_target(old(self)@, target, value),
    {
        match target {
            ArithmeticTarget::A => self.registers.a = (value % 256) as u8,
            ArithmeticTarget::B => self.registers.b = (value % 256) as u8,
            ArithmeticTarget::C => self.registers.c = (value % 256) as u8,
            ArithmeticTarget::D => self.registers.d = (value % 256) as u8,
            ArithmeticTarget::E => self.registers.e = (value % 256) as u8,
            ArithmeticTarget::H => self.registers.h = (value % 256) as u8,
            ArithmeticTarget::L => self.registers.l = (value % 256) as u8,
            ArithmeticTarget::BC_ => {
                let addr = self.registers.get_bc();
                self.bus.write_byte(addr, (value % 256) as u8);
            },
            ArithmeticTarget::DE_ => {
                let addr = self.registers.get_de();
                self.bus.write_byte(addr, (value % 256) as u8);
            },
            ArithmeticTarget::HL_ => {
                let addr = self.registers.get_hl();
                self.bus.write_byte(addr, (value % 256) as u8);
            },
            ArithmeticTarget::HLi_ => {
                let addr = self.registers.get_hl();
                self.bus.write_byte(addr, (value % 256) as u8);
                let hl = self.registers.get_hl();
                self.registers.set_hl(hl.wrapping_add(1));
            },
            ArithmeticTarget::HLd_ => {
                let addr = self.registers.get_hl();
                self.bus.write_byte(addr, (value % 256) as u8);
                let hl = self.registers.get_hl();
                self.registers.set_hl(hl.wrapping_sub(1));
            },
            ArithmeticTarget::D16_ => {
                let addr = self.read_next_word();
                self.bus.write_byte(addr, (value % 256) as u8);
            },
            ArithmeticTarget::FD8_ => {
                let offset = self.read_next_byte() as u16;
                self.bus.write_byte(0xFF00 + offset, (value % 256) as u8);
            },
            ArithmeticTarget::FDC_ => {
                self.bus.write_byte(0xFF00 + self.registers.c as u16, (value % 256) as u8);
            },
            ArithmeticTarget::BC => self.registers.set_bc(value),
            ArithmeticTarget::DE => self.registers.set_de(value),
            ArithmeticTarget::HL => self.registers.set_hl(value),
            ArithmeticTarget::SP => self.sp = value,
            ArithmeticTarget::D8 => {},
            ArithmeticTarget::D16 => {},
            ArithmeticTarget::SPA => {},
        }
    }

    fn is_8bit(&self, target: ArithmeticTarget) -> (r: bool)
        ensures
            r == spec_target_is_8bit(target),
    {
        match target {
            ArithmeticTarget::BC => false,
            ArithmeticTarget::DE => false,
            ArithmeticTarget::HL => false,
            ArithmeticTarget::SP => false,
            ArithmeticTarget::D16 => false,
            ArithmeticTarget::SPA => false,
            _ => true,
        }
    }

    fn change_flag(&mut self, zero: bool, subtract: bool, half_carry: bool, carry: bool)
        ensures
            final(self)@ == (CpuView {
                regs: spec_with_flags(old(self)@.regs, zero, subtract, half_carry, carry),
                ..old(self)@
            }),
    {
        self.registers.f.zero = zero;
        self.registers.f.subtract = subtract;
        self.registers.f.half_carry = half_carry;
        self.registers.f.carry = carry;
    }

    fn should_jump(&self, test: JumpTest) -> (r: bool)
        ensures
            r == spec_should_jump(self@.regs.f, test),
    {
        match test {
            JumpTest::NotZero => !self.registers.f.zero,
            JumpTest::NotCarry => !self.registers.f.carry,
            JumpTest::Zero => self.registers.f.zero,
            JumpTest::Carry => self.registers.f.carry,
            JumpTest::Always => true,
        }
    }

    fn get_bit(&self, value: u8, n: u8) -> (r: bool)
        requires
            n < 8,
        ensures
            r == spec_get_bit(value, n),
    {
        value & bit_mask(n) != 0
    }

    fn set_bit(&self, value: u8, n: u8) -> (r: u8)
        requires
            n < 8,
        ensures
            r == spec_set_bit(value, n),
    {
        value | bit_mask(n)
    }

    fn res_bit(&self, value: u8, n: u8) -> (r: u8)
        requires
            n < 8,
        ensures
            r == spec_res_bit(value, n),
    {
        let mask = bit_mask(n) ^ 0xFF;
        mask & value
    }
}


impl CPU {
    /// Executes a load.
    #[verifier::rlimit(100)]
    fn ld(&mut self, load_type: LoadType) -> (next_pc: u16)
        requires
            spec_cpu_wf(old(self)@),
            load_type matches LoadType::Byte(t, _) ==> spec_target_writable(t),
            load_type matches LoadType::WORD(t, _) ==> spec_target_writable(t),
        ensures
            spec_cpu_wf(final(self)@),
            final(self)@ == spec_ld(old(self)@, load_type).0,
            next_pc == spec_ld(old(self)@, load_type).1,
    {
        match load_type {
            LoadType::Byte(target, source) => {
                let source_value = self.read_registers_arithmeticTarget(source);
                self.change_registers_arithmeticTarget(target, source_value);
                match source {
                    ArithmeticTarget::D8 => self.pc.wrapping_add(2),
                    _ => self.pc.wrapping_add(1),
                }
            },
            LoadType::WORD(target, source) => {
                match source {
                    ArithmeticTarget::SPA => {
                        let d = self.read_next_byte();
                        let disp: u16 = if d < 0x80 {
                            d as u16
                        } else {
                            d as u16 + 0xFF00
                        };
                        let sp = self.sp;
                        let new_value = sp.wrapping_add(disp);
                        let half = sp % 256 % 16 + (d % 16) as u16 > 15;
                        let carry = (sp as u32) + (disp as u32) > 0xFFFF;
                        self.change_flag(false, false, half, carry);
                        self.change_registers_arithmeticTarget(target, new_value);
                        self.pc.wrapping_add(2)
                    },
                    _ => {
                        let source_value = self.read_registers_arithmeticTarget(source);
                        self.change_registers_arithmeticTarget(target, source_value);
                        self.pc.wrapping_add(3)
                    },
                }
            },
        }
    }

    /// Executes an increment.
    fn inc(&mut self, target: ArithmeticTarget) -> (next_pc: u16)
        requires
            spec_cpu_wf(old(self)@),
            spec_target_writable(target),
        ensures
            spec_cpu_wf(final(self)@),
            final(self)@ == spec_inc(old(self)@, target).0,
            next_pc == spec_inc(old(self)@, target).1,
    {
        let is8bit = self.is_8bit(target);
        let value = self.read_registers_arithmeticTarget(target);
        if is8bit {
            let v = (value % 256) as u8;
            let new_value = v.wrapping_add(1);
            let carry = self.registers.f.carry;
            self.change_flag(new_value == 0, false, v % 16 == 15, carry);
            self.change_registers_arithmeticTarget(target, new_value as u16);
        } else {
            let new_value = value.wrapping_add(1);
            self.change_registers_arithmeticTarget(target, new_value);
        }
        self.pc.wrapping_add(1)
    }

    /// Executes a decrement.
    fn dec(&mut self, target: ArithmeticTarget) -> (next_pc: u16)
        requires
            spec_cpu_wf(old(self)@),
            spec_target_writable(target),
        ensures
            spec_cpu_wf(final(self)@),
            final(self)@ == spec_dec(old(self)@, target).0,
            next_pc == spec_dec(old(self)@, target).1,
    {
        let is8bit = self.is_8bit(target);
        let value = self.read_registers_arithmeticTarget(target);
        if is8bit {
            let v = (value % 256) as u8;
            let new_value = v.wrapping_sub(1);
            let carry = self.registers.f.carry;
            self.change_flag(new_value == 0, true, v % 16 == 0, carry);
            self.change_registers_arithmeticTarget(target, new_value as u16);
        } else {
            let new_value = value.wrapping_sub(1);
            self.change_registers_arithmeticTarget(target, new_value);
        }
        self.pc.wrapping_add(1)
    }

    /// Executes an addition to the accumulator, or the stack-pointer form.
    fn add(&mut self, target: ArithmeticTarget) -> (next_pc: u16)
        requires
            spec_cpu_wf(old(self)@),
        ensures
            spec_cpu_wf(final(self)@),
            final(self)@ == spec_add(old(self)@, target).0,
            next_pc == spec_add(old(self)@, target).1,
    {
        match target {
            ArithmeticTarget::SP => {
                let d = self.read_next_byte();
                let disp: u16 = if d < 0x80 {
                    d as u16
                } else {
                    d as u16 + 0xFF00
                };
                let sp = self.sp;
                let new_value = sp.wrapping_add(disp);
                let half = sp % 256 % 16 + (d % 16) as u16 > 15;
                let carry = (sp as u32) + (disp as u32) > 0xFFFF;
                self.change_flag(false, false, half, carry);
                self.sp = new_value;
                self.pc.wrapping_add(2)
            },
            _ => {
                let value = self.read_registers_arithmeticTarget(target);
                let v = (value % 256) as u8;
                let a = self.registers.a;
                let new_value = a.wrapping_add(v);
                self.change_flag(
                    new_value == 0,
                    false,
                    a % 16 + v % 16 > 15,
                    (a as u16) + (v as u16) > 255,
                );
                self.registers.a = new_value;
                match target {
                    ArithmeticTarget::D8 => self.pc.wrapping_add(2),
                    _ => self.pc.wrapping_add(1),
                }
            },
        }
    }

    /// Executes an add-with-carry.
    fn adc(&mut self, target: ArithmeticTarget) -> (next_pc: u16)
        requires
            spec_cpu_wf(old(self)@),
        ensures
            spec_cpu_wf(final(self)@),
            final(self)@ == spec_adc(old(self)@, target).0,
            next_pc == spec_adc(old(self)@, target).1,
    {
        let value = self.read_registers_arithmeticTarget(target);
        let v = (value % 256) as u8;
        let a = self.registers.a;
        let carry_inc: u8 = if self.registers.f.carry {
            1
        } else {
            0
        };
        let new_value = a.wrapping_add(v).wrapping_add(carry_inc);
        self.change_flag(
            new_value == 0,
            false,
            a % 16 + v % 16 + carry_inc > 15,
            (a as u16) + (v as u16) + (carry_inc as u16) > 255,
        );
        self.registers.a = new_value;
        match target {
            ArithmeticTarget::D8 => self.pc.wrapping_add(2),
            _ => self.pc.wrapping_add(1),
        }
    }

    /// Executes a 16-bit add to HL.
    fn addhl(&mut self, target: ArithmeticTarget) -> (next_pc: u16)
        requires
            spec_cpu_wf(old(self)@),
        ensures
            spec_cpu_wf(final(self)@),
            final(self)@ == spec_addhl(old(self)@, target).0,
            next_pc == spec_addhl(old(self)@, target).1,
    {
        let value = self.read_registers_arithmeticTarget(target);
        let hl = self.registers.get_hl();
        let new_value = hl.wrapping_add(value);
        let half = hl % 0x1000 + value % 0x1000 > 0x0FFF;
        let carry = (hl as u32) + (value as u32) > 0xFFFF;
        let zero = self.registers.f.zero;
        self.change_flag(zero, false, half, carry);
        self.registers.set_hl(new_value);
        self.pc.wrapping_add(1)
    }

    /// Executes a subtraction from the accumulator.
    fn sub(&mut self, target: ArithmeticTarget) -> (next_pc: u16)
        requires
            spec_cpu_wf(old(self)@),
        ensures
            spec_cpu_wf(final(self)@),
            final(self)@ == spec_sub(old(self)@, target).0,
            next_pc == spec_sub(old(self)@, target).1,
    {
        let value = self.read_registers_arithmeticTarget(target);
        let v = (value % 256) as u8;
        let a = self.registers.a;
        let new_value = a.wrapping_sub(v);
        self.change_flag(new_value == 0, true, a % 16 < v % 16, a < v);
        self.registers.a = new_value;
        match target {
            ArithmeticTarget::D8 => self.pc.wrapping_add(2),
            _ => self.pc.wrapping_add(1),
        }
    }

    /// Executes a subtract-with-carry.
    fn sbc(&mut self, target: ArithmeticTarget) -> (next_pc: u16)
        requires
            spec_cpu_wf(old(self)@),
        ensures
            spec_cpu_wf(final(self)@),
            final(self)@ == spec_sbc(old(self)@, target).0,
            next_pc == spec_sbc(old(self)@, target).1,
    {
        let value = self.read_registers_arithmeticTarget(target);
        let v = (value % 256) as u8;
        let a = self.registers.a;
        let carry_inc: u8 = if self.registers.f.carry {
            1
        } else {
            0
        };
        let new_value = a.wrapping_sub(v).wrapping_sub(carry_inc);
        self.change_flag(
            new_value == 0,
            true,
            ((a % 16) as u16) < (v % 16) as u16 + carry_inc as u16,
            (a as u16) < (v as u16) + (carry_inc as u16),
        );
        self.registers.a = new_value;
        match target {
            ArithmeticTarget::D8 => self.pc.wrapping_add(2),
            _ => self.pc.wrapping_add(1),
        }
    }

    /// Executes a compare against the accumulator.
    fn cp(&mut self, target: ArithmeticTarget) -> (next_pc: u16)
        requires
            spec_cpu_wf(old(self)@),
        ensures
            spec_cpu_wf(final(self)@),
            final(self)@ == spec_cp(old(self)@, target).0,
            next_pc == spec_cp(old(self)@, target).1,
    {
        let value = self.read_registers_arithmeticTarget(target);
        let v = (value % 256) as u8;
        let a = self.registers.a;
        let new_value = a.wrapping_sub(v);
        self.change_flag(new_value == 0, true, a % 16 < v % 16, a < v);
        match target {
            ArithmeticTarget::D8 => self.pc.wrapping_add(2),
            _ => self.pc.wrapping_add(1),
        }
    }

    /// Executes a decimal adjust of the accumulator.
    fn daa(&mut self) -> (next_pc: u16)
        requires
            spec_cpu_wf(old(self)@),
        ensures
            spec_cpu_wf(final(self)@),
            final(self)@ == spec_daa(old(self)@).0,
            next_pc == spec_daa(old(self)@).1,
    {
        let a = self.registers.a;
        let subtract = self.registers.f.subtract;
        let half = self.registers.f.half_carry;
        let carry = self.registers.f.carry;
        if !subtract {
            let low_adjust = half || a % 16 > 9;
            let high_adjust = carry || a > 0x99;
            let adj: u8 = (if low_adjust {
                6u8
            } else {
                0u8
            }) + (if high_adjust {
                0x60u8
            } else {
                0u8
            });
            let new_value = a.wrapping_add(adj);
            self.change_flag(new_value == 0, false, false, carry || high_adjust);
            self.registers.a = new_value;
        } else {
            let adj: u8 = (if half {
                6u8
            } else {
                0u8
            }) + (if carry {
                0x60u8
            } else {
                0u8
            });
            let new_value = a.wrapping_sub(adj);
            self.change_flag(new_value == 0, true, false, carry);
            self.registers.a = new_value;
        }
        self.pc.wrapping_add(1)
    }

    /// Executes a bitwise AND into the accumulator.
    fn and(&mut self, target: ArithmeticTarget) -> (next_pc: u16)
        requires
            spec_cpu_wf(old(self)@),
        ensures
            spec_cpu_wf(final(self)@),
            final(self)@ == spec_and(old(self)@, target).0,
            next_pc == spec_and(old(self)@, target).1,
    {
        let value = self.read_registers_arithmeticTarget(target);
        let v = (value % 256) as u8;
        let new_value = self.registers.a & v;
        self.change_flag(new_value == 0, false, true, false);
        self.registers.a = new_value;
        match target {
            ArithmeticTarget::D8 => self.pc.wrapping_add(2),
            _ => self.pc.wrapping_add(1),
        }
    }

    /// Executes a bitwise OR into the accumulator.
    fn or(&mut self, target: ArithmeticTarget) -> (next_pc: u16)
        requires
            spec_cpu_wf(old(self)@),
        ensures
            spec_cpu_wf(final(self)@),
            final(self)@ == spec_or(old(self)@, target).0,
            next_pc == spec_or(old(self)@, target).1,
    {
        let value = self.read_registers_arithmeticTarget(target);
        let v = (value % 256) as u8;
        let new_value = self.registers.a | v;
        self.change_flag(new_value == 0, false, false, false);
        self.registers.a = new_value;
        match target {
            ArithmeticTarget::D8 => self.pc.wrapping_add(2),
            _ => self.pc.wrapping_add(1),
        }
    }

    /// Executes a bitwise XOR into the accumulator.
    fn xor(&mut self, target: ArithmeticTarget) -> (next_pc: u16)
        requires
            spec_cpu_wf(old(self)@),
        ensures
            spec_cpu_wf(final(self)@),
            final(self)@ == spec_xor(old(self)@, target).0,
            next_pc == spec_xor(old(self)@, target).1,
    {
        let value = self.read_registers_arithmeticTarget(target);
        let v = (value % 256) as u8;
        let new_value = self.registers.a ^ v;
        self.change_flag(new_value == 0, false, false, false);
        self.registers.a = new_value;
        match target {
            ArithmeticTarget::D8 => self.pc.wrapping_add(2),
            _ => self.pc.wrapping_add(1),
        }
    }

    /// Executes a rotate right through carry of an operand.
    fn rr(&mut self, target: ArithmeticTarget) -> (next_pc: u16)
        requires
            spec_cpu_wf(old(self)@),
            spec_target_writable(target),
        ensures
            spec_cpu_wf(final(self)@),
            final(self)@ == spec_rr(old(self)@, target).0,
            next_pc == spec_rr(old(self)@, target).1,
    {
        let value = self.read_registers_arithmeticTarget(target);
        let v = (value % 256) as u8;
        let new_value = v / 2 + if self.registers.f.carry {
            128
        } else {
            0
        };
        self.change_registers_arithmeticTarget(target, new_value as u16);
        self.change_flag(new_value == 0, false, false, v % 2 == 1);
        self.pc.wrapping_add(1)
    }

    /// Executes the accumulator-only rotate right through carry.
    fn rra(&mut self) -> (next_pc: u16)
        requires
            spec_cpu_wf(old(self)@),
        ensures
            spec_cpu_wf(final(self)@),
            final(self)@ == spec_rra(old(self)@).0,
            next_pc == spec_rra(old(self)@).1,
    {
        let v = self.registers.a;
        let new_value = v / 2 + if self.registers.f.carry {
            128
        } else {
            0
        };
        self.registers.a = new_value;
        self.change_flag(false, false, false, v % 2 == 1);
        self.pc.wrapping_add(1)
    }

    /// Executes a circular rotate right of an operand.
    fn rrc(&mut self, target: ArithmeticTarget) -> (next_pc: u16)
        requires
            spec_cpu_wf(old(self)@),
            spec_target_writable(target),
        ensures
            spec_cpu_wf(final(self)@),
            final(self)@ == spec_rrc(old(self)@, target).0,
            next_pc == spec_rrc(old(self)@, target).1,
    {
        let value = self.read_registers_arithmeticTarget(target);
        let v = (value % 256) as u8;
        let new_value = v / 2 + if v % 2 == 1 {
            128
        } else {
            0
        };
        self.change_registers_arithmeticTarget(target, new_value as u16);
        self.change_flag(new_value == 0, false, false, v % 2 == 1);
        self.pc.wrapping_add(1)
    }

    /// Executes the accumulator-only circular rotate right.
    fn rrca(&mut self) -> (next_pc: u16)
        requires
            spec_cpu_wf(old(self)@),
        ensures
            spec_cpu_wf(final(self)@),
            final(self)@ == spec_rrca(old(self)@).0,
            next_pc == spec_rrca(old(self)@).1,
    {
        let v = self.registers.a;
        let new_value = v / 2 + if v % 2 == 1 {
            128
        } else {
            0
        };
        self.registers.a = new_value;
        self.change_flag(false, false, false, v % 2 == 1);
        self.pc.wrapping_add(1)
    }

    /// Executes a rotate left through carry of an operand.
    fn rl(&mut self, target: ArithmeticTarget) -> (next_pc: u16)
        requires
            spec_cpu_wf(old(self)@),
            spec_target_writable(target),
        ensures
            spec_cpu_wf(final(self)@),
            final(self)@ == spec_rl(old(self)@, target).0,
            next_pc == spec_rl(old(self)@, target).1,
    {
        let value = self.read_registers_arithmeticTarget(target);
        let v = (value % 256) as u8;
        let new_value = (v % 128) * 2 + if self.registers.f.carry {
            1
        } else {
            0
        };
        self.change_registers_arithmeticTarget(target, new_value as u16);
        self.change_flag(new_value == 0, false, false, v >= 128);
        self.pc.wrapping_add(1)
    }

    /// Executes the accumulator-only rotate left through carry.
    fn rla(&mut self) -> (next_pc: u16)
        requires
            spec_cpu_wf(old(self)@),
        ensures
            spec_cpu_wf(final(self)@),
            final(self)@ == spec_rla(old(self)@).0,
            next_pc == spec_rla(old(self)@).1,
    {
        let v = self.registers.a;
        let new_value = (v % 128) * 2 + if self.registers.f.carry {
            1
        } else {
            0
        };
        self.registers.a = new_value;
        self.change_flag(false, false, false, v >= 128);
        self.pc.wrapping_add(1)
    }

    /// Executes a circular rotate left of an operand.
    fn rlc(&mut self, target: ArithmeticTarget) -> (next_pc: u16)
        requires
            spec_cpu_wf(old(self)@),
            spec_target_writable(target),
        ensures
            spec_cpu_wf(final(self)@),
            final(self)@ == spec_rlc(old(self)@, target).0,
            next_pc == spec_rlc(old(self)@, target).1,
    {
        let value = self.read_registers_arithmeticTarget(target);
        let v = (value % 256) as u8;
        let new_value = (v % 128) * 2 + if v >= 128 {
            1
        } else {
            0
        };
        self.change_registers_arithmeticTarget(target, new_value as u16);
        self.change_flag(new_value == 0, false, false, v >= 128);
        self.pc.wrapping_add(1)
    }

    /// Executes the accumulator-only circular rotate left.
    fn rlca(&mut self) -> (next_pc: u16)
        requires
            spec_cpu_wf(old(self)@),
        ensures
            spec_cpu_wf(final(self)@),
            final(self)@ == spec_rlca(old(self)@).0,
            next_pc == spec_rlca(old(self)@).1,
    {
        let v = self.registers.a;
        let new_value = (v % 128) * 2 + if v >= 128 {
            1
        } else {
            0
        };
        self.registers.a = new_value;
        self.change_flag(false, false, false, v >= 128);
        self.pc.wrapping_add(1)
    }

    /// Executes an arithmetic shift left of an operand.
    fn sla(&mut self, target: ArithmeticTarget) -> (next_pc: u16)
        requires
            spec_cpu_wf(old(self)@),
            spec_target_writable(target),
        ensures
            spec_cpu_wf(final(self)@),
            final(self)@ == spec_sla(old(self)@, target).0,
            next_pc == spec_sla(old(self)@, target).1,
    {
        let value = self.read_registers_arithmeticTarget(target);
        let v = (value % 256) as u8;
        let new_value = (v % 128) * 2;
        self.change_registers_arithmeticTarget(target, new_value as u16);
        self.change_flag(new_value == 0, false, false, v >= 128);
        self.pc.wrapping_add(1)
    }

    /// Executes an arithmetic shift right of an operand.
    fn sra(&mut self, target: ArithmeticTarget) -> (next_pc: u16)
        requires
            spec_cpu_wf(old(self)@),
            spec_target_writable(target),
        ensures
            spec_cpu_wf(final(self)@),
            final(self)@ == spec_sra(old(self)@, target).0,
            next_pc == spec_sra(old(self)@, target).1,
    {
        let value = self.read_registers_arithmeticTarget(target);
        let v = (value % 256) as u8;
        let new_value = v / 2 + if v >= 128 {
            128
        } else {
            0
        };
        self.change_registers_arithmeticTarget(target, new_value as u16);
        self.change_flag(new_value == 0, false, false, v % 2 == 1);
        self.pc.wrapping_add(1)
    }

    /// Executes a nibble swap of an operand.
    fn swap(&mut self, target: ArithmeticTarget) -> (next_pc: u16)
        requires
            spec_cpu_wf(old(self)@),
            spec_target_writable(target),
        ensures
            spec_cpu_wf(final(self)@),
            final(self)@ == spec_swap(old(self)@, target).0,
            next_pc == spec_swap(old(self)@, target).1,
    {
        let value = self.read_registers_arithmeticTarget(target);
        let v = (value % 256) as u8;
        let new_value = (v % 16) * 16 + v / 16;
        self.change_registers_arithmeticTarget(target, new_value as u16);
        self.change_flag(new_value == 0, false, false, false);
        self.pc.wrapping_add(1)
    }

    /// Executes a logical shift right of an operand.
    fn srl(&mut self, target: ArithmeticTarget) -> (next_pc: u16)
        requires
            spec_cpu_wf(old(self)@),
            spec_target_writable(target),
        ensures
            spec_cpu_wf(final(self)@),
            final(self)@ == spec_srl(old(self)@, target).0,
            next_pc == spec_srl(old(self)@, target).1,
    {
        let value = self.read_registers_arithmeticTarget(target);
        let v = (value % 256) as u8;
        let new_value = v / 2;
        self.change_registers_arithmeticTarget(target, new_value as u16);
        self.change_flag(new_value == 0, false, false, v % 2 == 1);
        self.pc.wrapping_add(1)
    }

    /// Executes a bit test.
    fn bit(&mut self, target: ArithmeticTarget, n: u8) -> (next_pc: u16)
        requires
            spec_cpu_wf(old(self)@),
            n < 8,
        ensures
            spec_cpu_wf(final(self)@),
            final(self)@ == spec_bit_test(old(self)@, target, n).0,
            next_pc == spec_bit_test(old(self)@, target, n).1,
    {
        let value = self.read_registers_arithmeticTarget(target);
        let v = (value % 256) as u8;
        let carry = self.registers.f.carry;
        let b = self.get_bit(v, n);
        self.change_flag(!b, false, true, carry);
        self.pc.wrapping_add(1)
    }

    /// Executes a bit clear.
    fn res(&mut self, target: ArithmeticTarget, n: u8) -> (next_pc: u16)
        requires
            spec_cpu_wf(old(self)@),
            spec_target_writable(target),
            n < 8,
        ensures
            spec_cpu_wf(final(self)@),
            final(self)@ == spec_res_instr(old(self)@, target, n).0,
            next_pc == spec_res_instr(old(self)@, target, n).1,
    {
        let value = self.read_registers_arithmeticTarget(target);
        let v = (value % 256) as u8;
        let new_value = self.res_bit(v, n);
        self.change_registers_arithmeticTarget(target, new_value as u16);
        self.pc.wrapping_add(1)
    }

    /// Executes a bit set.
    fn set(&mut self, target: ArithmeticTarget, n: u8) -> (next_pc: u16)
        requires
            spec_cpu_wf(old(self)@),
            spec_target_writable(target),
            n < 8,
        ensures
            spec_cpu_wf(final(self)@),
            final(self)@ == spec_set_instr(old(self)@, target, n).0,
            next_pc == spec_set_instr(old(self)@, target, n).1,
    {
        let value = self.read_registers_arithmeticTarget(target);
        let v = (value % 256) as u8;
        let new_value = self.set_bit(v, n);
        self.change_registers_arithmeticTarget(target, new_value as u16);
        self.pc.wrapping_add(1)
    }

    /// Executes a complement of the accumulator.
    fn cpl(&mut self) -> (next_pc: u16)
        requires
            spec_cpu_wf(old(self)@),
        ensures
            spec_cpu_wf(final(self)@),
            final(self)@ == spec_cpl(old(self)@).0,
            next_pc == spec_cpl(old(self)@).1,
    {
        let a = self.registers.a;
        self.registers.a = 255 - a;
        let zero = self.registers.f.zero;
        let carry = self.registers.f.carry;
        self.change_flag(zero, true, true, carry);
        self.pc.wrapping_add(1)
    }

    /// Executes a complement of the carry flag.
    fn ccf(&mut self) -> (next_pc: u16)
        requires
            spec_cpu_wf(old(self)@),
        ensures
            spec_cpu_wf(final(self)@),
            final(self)@ == spec_ccf(old(self)@).0,
            next_pc == spec_ccf(old(self)@).1,
    {
        let zero = self.registers.f.zero;
        let carry = self.registers.f.carry;
        self.change_flag(zero, false, false, !carry);
        self.pc.wrapping_add(1)
    }

    /// Executes a set of the carry flag.
    fn scf(&mut self) -> (next_pc: u16)
        requires
            spec_cpu_wf(old(self)@),
        ensures
            spec_cpu_wf(final(self)@),
            final(self)@ == spec_scf(old(self)@).0,
            next_pc == spec_scf(old(self)@).1,
    {
        let zero = self.registers.f.zero;
        self.change_flag(zero, false, false, true);
        self.pc.wrapping_add(1)
    }

    /// Executes an absolute jump.
    fn jump(&mut self, test: JumpTest) -> (next_pc: u16)
        requires
            spec_cpu_wf(old(self)@),
        ensures
            spec_cpu_wf(final(self)@),
            final(self)@ == spec_jump(old(self)@, test).0,
            next_pc == spec_jump(old(self)@, test).1,
    {
        if self.should_jump(test) {
            self.read_next_word()
        } else {
            self.cycle2_flag = true;
            self.pc.wrapping_add(3)
        }
    }

    /// Executes the jump-to-HL form.
    fn jumphl(&self) -> (next_pc: u16)
        ensures
            next_pc == spec_jumphl(self@).1,
    {
        self.registers.get_hl()
    }

    /// Executes a relative jump.
    fn jr(&mut self, test: JumpTest) -> (next_pc: u16)
        requires
            spec_cpu_wf(old(self)@),
        ensures
            spec_cpu_wf(final(self)@),
            final(self)@ == spec_jr(old(self)@, test).0,
            next_pc == spec_jr(old(self)@, test).1,
    {
        if self.should_jump(test) {
            let d = self.read_next_byte();
            let disp: u16 = if d < 0x80 {
                d as u16
            } else {
                d as u16 + 0xFF00
            };
            self.pc.wrapping_add(2).wrapping_add(disp)
        } else {
            self.cycle2_flag = true;
            self.pc.wrapping_add(2)
        }
    }

    /// Executes a push: the high byte goes to the first decremented stack
    /// address, the low byte below it.
    fn push(&mut self, target: StackTarget) -> (next_pc: u16)
        requires
            spec_cpu_wf(old(self)@),
            !(target is NONE),
        ensures
            spec_cpu_wf(final(self)@),
            final(self)@ == spec_push_instr(old(self)@, target).0,
            next_pc == spec_push_instr(old(self)@, target).1,
    {
        let value = match target {
            StackTarget::AF => self.registers.get_af(),
            StackTarget::BC => self.registers.get_bc(),
            StackTarget::DE => self.registers.get_de(),
            StackTarget::HL => self.registers.get_hl(),
            StackTarget::D16(address) => address,
            StackTarget::NONE => 0,
        };
        self.sp = self.sp.wrapping_sub(1);
        let hi_addr = self.sp;
        self.bus.write_byte(hi_addr, (value / 256) as u8);
        self.sp = self.sp.wrapping_sub(1);
        let lo_addr = self.sp;
        self.bus.write_byte(lo_addr, (value % 256) as u8);
        self.pc.wrapping_add(1)
    }

    /// Executes a pop: the low byte is read first; the raw form returns the
    /// word itself.
    fn pop(&mut self, target: StackTarget) -> (next_pc: u16)
        requires
            spec_cpu_wf(old(self)@),
            !(target is D16),
        ensures
            spec_cpu_wf(final(self)@),
            final(self)@ == spec_pop_instr(old(self)@, target).0,
            next_pc == spec_pop_instr(old(self)@, target).1,
    {
        let lsb = self.bus.read_byte(self.sp) as u16;
        self.sp = self.sp.wrapping_add(1);
        let msb = self.bus.read_byte(self.sp) as u16;
        self.sp = self.sp.wrapping_add(1);
        let result = lsb + 256 * msb;
        match target {
            StackTarget::NONE => result,
            StackTarget::AF => {
                self.registers.set_af(result);
                self.pc.wrapping_add(1)
            },
            StackTarget::BC => {
                self.registers.set_bc(result);
                self.pc.wrapping_add(1)
            },
            StackTarget::DE => {
                self.registers.set_de(result);
                self.pc.wrapping_add(1)
            },
            StackTarget::HL => {
                self.registers.set_hl(result);
                self.pc.wrapping_add(1)
            },
            StackTarget::D16(_) => self.pc.wrapping_add(1),
        }
    }

    /// Executes a call: the return address is pushed, then the target word
    /// is read from the bus as it stands after the push.
    fn call(&mut self, test: JumpTest) -> (next_pc: u16)
        requires
            spec_cpu_wf(old(self)@),
        ensures
            spec_cpu_wf(final(self)@),
            final(self)@ == spec_call(old(self)@, test).0,
            next_pc == spec_call(old(self)@, test).1,
    {
        let next = self.pc.wrapping_add(3);
        if self.should_jump(test) {
            self.push(StackTarget::D16(next));
            self.read_next_word()
        } else {
            self.cycle2_flag = true;
            next
        }
    }

    /// Executes a restart: the address of the following instruction is
    /// pushed and the fixed vector becomes the program counter.
    fn rst(&mut self, address: u16) -> (next_pc: u16)
        requires
            spec_cpu_wf(old(self)@),
        ensures
            spec_cpu_wf(final(self)@),
            final(self)@ == spec_rst(old(self)@, address).0,
            next_pc == spec_rst(old(self)@, address).1,
    {
        let ret = self.pc.wrapping_add(1);
        self.push(StackTarget::D16(ret));
        address
    }

    /// Executes a return.
    fn ret(&mut self, test: JumpTest) -> (next_pc: u16)
        requires
            spec_cpu_wf(old(self)@),
        ensures
            spec_cpu_wf(final(self)@),
            final(self)@ == spec_ret(old(self)@, test).0,
            next_pc == spec_ret(old(self)@, test).1,
    {
        if self.should_jump(test) {
            self.pop(StackTarget::NONE)
        } else {
            self.cycle2_flag = true;
            self.pc.wrapping_add(1)
        }
    }

    /// Executes a return-from-interrupt, which pops unconditionally.
    fn reti(&mut self) -> (next_pc: u16)
        requires
            spec_cpu_wf(old(self)@),
        ensures
            spec_cpu_wf(final(self)@),
            final(self)@ == spec_pop_instr(old(self)@, StackTarget::NONE).0,
            next_pc == spec_pop_instr(old(self)@, StackTarget::NONE).1,
    {
        self.pop(StackTarget::NONE)
    }

    /// Executes the halting forms: every later step is a no-op until
    /// `resume` is called.
    fn halt(&mut self) -> (next_pc: u16)
        requires
            spec_cpu_wf(old(self)@),
        ensures
            spec_cpu_wf(final(self)@),
            final(self)@ == spec_halt(old(self)@).0,
            next_pc == spec_halt(old(self)@).1,
    {
        self.is_halted = true;
        self.pc.wrapping_add(1)
    }

    /// Executes a disable of the interrupt master flag.
    fn di(&mut self) -> (next_pc: u16)
        requires
            spec_cpu_wf(old(self)@),
        ensures
            spec_cpu_wf(final(self)@),
            final(self)@ == (CpuView { ime: false, ..old(self)@ }),
            next_pc == old(self)@.pc.wrapping_add(1),
    {
        self.ime = false;
        self.pc.wrapping_add(1)
    }

    /// Executes an enable of the interrupt master flag.
    fn ei(&mut self) -> (next_pc: u16)
        requires
            spec_cpu_wf(old(self)@),
        ensures
            spec_cpu_wf(final(self)@),
            final(self)@ == (CpuView { ime: true, ..old(self)@ }),
            next_pc == old(self)@.pc.wrapping_add(1),
    {
        self.ime = true;
        self.pc.wrapping_add(1)
    }

    /// The external resume signal: clears the halted state so stepping
    /// continues.
    pub fn resume(&mut self)
        ensures
            final(self)@ == (CpuView { is_halted: false, ..old(self)@ }),
    {
        self.is_halted = false;
    }

    /// Executes one decoded operation from the load and arithmetic
    /// families.
    #[verifier::rlimit(100)]
    fn execute_arith(&mut self, instruction: Instruction) -> (next_pc: u16)
        requires
            spec_cpu_wf(old(self)@),
            spec_instr_wf(instruction),
            spec_is_arith_instr(instruction),
        ensures
            spec_cpu_wf(final(self)@),
            final(self)@ == spec_execute(old(self)@, instruction).0,
            next_pc == spec_execute(old(self)@, instruction).1,
    {
        match instruction {
            Instruction::LD(load_type) => self.ld(load_type),
            Instruction::INC(target) => self.inc(target),
            Instruction::DEC(target) => self.dec(target),
            Instruction::ADD(target) => self.add(target),
            Instruction::ADDHL(target) => self.addhl(target),
            Instruction::ADC(target) => self.adc(target),
            Instruction::SUB(target) => self.sub(target),
            Instruction::SBC(target) => self.sbc(target),
            Instruction::CP(target) => self.cp(target),
            Instruction::DAA => self.daa(),
            Instruction::AND(target) => self.and(target),
            Instruction::OR(target) => self.or(target),
            Instruction::XOR(target) => self.xor(target),
            _ => self.pc.wrapping_add(1),
        }
    }

    /// Executes one decoded operation from the rotate, shift and bit
    /// families.
    #[verifier::rlimit(100)]
    fn execute_bits(&mut self, instruction: Instruction) -> (next_pc: u16)
        requires
            spec_cpu_wf(old(self)@),
            spec_instr_wf(instruction),
            spec_is_bits_instr(instruction),
        ensures
            spec_cpu_wf(final(self)@),
            final(self)@ == spec_execute(old(self)@, instruction).0,
            next_pc == spec_execute(old(self)@, instruction).1,
    {
        match instruction {
            Instruction::RR(target) => self.rr(target),
            Instruction::RRA => self.rra(),
            Instruction::RRC(target) => self.rrc(target),
            Instruction::RRCA => self.rrca(),
            Instruction::RL(target) => self.rl(target),
            Instruction::RLA => self.rla(),
            Instruction::RLC(target) => self.rlc(target),
            Instruction::RLCA => self.rlca(),
            Instruction::SLA(target) => self.sla(target),
            Instruction::SRA(target) => self.sra(target),
            Instruction::SWAP(target) => self.swap(target),
            Instruction::SRL(target) => self.srl(target),
            Instruction::BIT(target, n) => self.bit(target, n),
            Instruction::RES(target, n) => self.res(target, n),
            Instruction::SET(target, n) => self.set(target, n),
            _ => self.pc.wrapping_add(1),
        }
    }

    /// Executes one decoded operation from the flag and control-flow
    /// families.
    #[verifier::rlimit(100)]
    fn execute_flow(&mut self, instruction: Instruction) -> (next_pc: u16)
        requires
            spec_cpu_wf(old(self)@),
            spec_instr_wf(instruction),
            !spec_is_arith_instr(instruction) && !spec_is_bits_instr(instruction),
        ensures
            spec_cpu_wf(final(self)@),
            final(self)@ == spec_execute(old(self)@, instruction).0,
            next_pc == spec_execute(old(self)@, instruction).1,
    {
        match instruction {
            Instruction::CPL => self.cpl(),
            Instruction::CCF => self.ccf(),
            Instruction::SCF => self.scf(),
            Instruction::JP(test) => self.jump(test),
            Instruction::JPHL => self.jumphl(),
            Instruction::JR(test) => self.jr(test),
            Instruction::PUSH(target) => self.push(target),
            Instruction::POP(target) => self.pop(target),
            Instruction::CALL(test) => self.call(test),
            Instruction::RST(address) => self.rst(address),
            Instruction::RET(test) => self.ret(test),
            Instruction::RETI => self.reti(),
            Instruction::STOP => self.halt(),
            Instruction::HALT => self.halt(),
            Instruction::DI => self.di(),
            Instruction::EI => self.ei(),
            _ => self.pc.wrapping_add(1),
        }
    }

    /// Executes one decoded operation and returns the next program counter
    /// to commit.
    fn execute(&mut self, instruction: Instruction) -> (next_pc: u16)
        requires
            spec_cpu_wf(old(self)@),
            spec_instr_wf(instruction),
        ensures
            spec_cpu_wf(final(self)@),
            final(self)@ == spec_execute(old(self)@, instruction).0,
            next_pc == spec_execute(old(self)@, instruction).1,
    {
        match instruction {
            Instruction::NOP | Instruction::LD(_) | Instruction::INC(_) | Instruction::DEC(_)
            | Instruction::ADD(_) | Instruction::ADDHL(_) | Instruction::ADC(_)
            | Instruction::SUB(_) | Instruction::SBC(_) | Instruction::CP(_) | Instruction::DAA
            | Instruction::AND(_) | Instruction::OR(_) | Instruction::XOR(_) => self.execute_arith(
                instruction,
            ),
            Instruction::RR(_) | Instruction::RRA | Instruction::RRC(_) | Instruction::RRCA
            | Instruction::RL(_) | Instruction::RLA | Instruction::RLC(_) | Instruction::RLCA
            | Instruction::SLA(_) | Instruction::SRA(_) | Instruction::SWAP(_)
            | Instruction::SRL(_) | Instruction::BIT(_, _) | Instruction::RES(_, _)
            | Instruction::SET(_, _) => self.execute_bits(instruction),
            _ => self.execute_flow(instruction),
        }
    }

    /// Performs one fetch-decode-execute step. A halted machine does
    /// nothing. A byte that decodes to no operation on its page is surfaced
    /// as an undefined-opcode error with the machine left untouched;
    /// otherwise the operation runs, the elapsed cycles (the alternate cost
    /// for a branch not taken, the extended-page cost for an extended
    /// opcode, the base cost otherwise) go to the video controller, the
    /// program counter is committed, and the per-step overhead follows.
    pub fn step(&mut self) -> (r: Result<(), StepError>)
        requires
            spec_cpu_wf(old(self)@),
        ensures
            spec_cpu_wf(final(self)@),
            old(self)@.is_halted ==> r is Ok && final(self)@ == old(self)@,
            !old(self)@.is_halted ==> ({
                let b0 = spec_bus_read(old(self)@.bus, old(self)@.pc);
                let prefixed = b0 == 0xCB;
                let ob = if prefixed {
                    spec_bus_read(old(self)@.bus, old(self)@.pc.wrapping_add(1))
                } else {
                    b0
                };
                &&& (spec_from_byte(ob, prefixed) is Some ==> r is Ok && final(self)@
                    == spec_step_state(old(self)@))
                &&& (spec_from_byte(ob, prefixed) is None ==> r == Result::<
                    (),
                    StepError,
                >::Err(StepError::UndefinedOpcode { opcode: ob, prefixed }) && final(self)@ == old(
                    self,
                )@)
            }),
    {
        if self.is_halted {
            return Ok(());
        }
        let mut instruction_byte = self.bus.read_byte(self.pc);
        let prefixed = instruction_byte == 0xCB;
        if prefixed {
            instruction_byte = self.bus.read_byte(self.pc.wrapping_add(1));
        }
        match Instruction::from_byte(instruction_byte, prefixed) {
            None => Err(StepError::UndefinedOpcode { opcode: instruction_byte, prefixed }),
            Some(instruction) => {
                proof {
                    lemma_decoded_instr_wf(instruction_byte, prefixed);
                }
                if prefixed {
                    self.pc = self.pc.wrapping_add(1);
                }
                self.cycle2_flag = false;
                let next_pc = self.execute(instruction);
                let cycles = if self.cycle2_flag {
                    cycle_alt(instruction_byte)
                } else if prefixed {
                    cycle_prefixed(instruction_byte)
                } else {
                    cycle_base(instruction_byte)
                };
                self.bus.gpu.update(cycles);
                self.pc = next_pc;
                self.bus.gpu.update(STEP_OVERHEAD_CYCLES);
                proof {
                    assert(self@ =~~= spec_step_state(old(self)@));
                }
                Ok(())
            },
        }
    }
}

} // verus!
