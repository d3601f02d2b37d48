use gbemu::cartridge::{Cartridge, CartridgeError};
use gbemu::cpu::{StepError, CPU};
use gbemu::gpu::{TilePixelValue, GPU};
use gbemu::memory_bus::MemoryBus;

/// A well-formed four-bank image whose every byte identifies its own
/// offset, so bank mapping mistakes are visible.
fn four_bank_image() -> Vec<u8> {
    let mut raw: Vec<u8> = (0..0x10000).map(|i| (i % 251) as u8).collect();
    raw[0x147] = 0x01;
    raw[0x148] = 0x01;
    raw[0x149] = 0x00;
    raw
}

#[test]
fn test_cartridge_load_ok() {
    let raw = four_bank_image();
    let first = raw[0];
    let cart = Cartridge::new(raw).unwrap();
    assert_eq!(cart.read_byte(0x0000), first);
}

#[test]
fn test_cartridge_load_too_short() {
    let raw = vec![0u8; 0x100];
    assert!(matches!(
        Cartridge::new(raw),
        Err(CartridgeError::ImageTooShort)
    ));
}

#[test]
fn test_cartridge_load_bad_type() {
    let mut raw = four_bank_image();
    raw[0x147] = 0x00;
    assert!(matches!(
        Cartridge::new(raw),
        Err(CartridgeError::UnsupportedCartridgeType(0x00))
    ));
}

#[test]
fn test_cartridge_load_bad_rom_size() {
    let mut raw = four_bank_image();
    raw[0x148] = 0x05;
    assert!(matches!(
        Cartridge::new(raw),
        Err(CartridgeError::UnsupportedRomSize(0x05))
    ));
}

#[test]
fn test_cartridge_load_bad_ram_size() {
    let mut raw = four_bank_image();
    raw[0x149] = 0x03;
    assert!(matches!(
        Cartridge::new(raw),
        Err(CartridgeError::UnsupportedRamSize(0x03))
    ));
}

#[test]
fn test_bank_selection() {
    let raw = four_bank_image();
    let expect_bank3 = raw[0x4000 * 3 + 0x10];
    let expect_bank1 = raw[0x4000 + 0x10];
    let mut cart = Cartridge::new(raw).unwrap();

    // Select bank 3 and read from the banked window.
    cart.write_byte(0x2000, 0x03);
    assert_eq!(cart.read_byte(0x4010), expect_bank3);

    // A written zero is coerced to bank 1.
    cart.write_byte(0x2000, 0x00);
    assert_eq!(cart.read_byte(0x4010), expect_bank1);

    // Only the low five bits select: 0x23 masks to bank 3.
    cart.write_byte(0x2000, 0x23);
    assert_eq!(cart.read_byte(0x4010), expect_bank3);

    // A bank beyond the end of the image reads as the unpopulated bus.
    cart.write_byte(0x2000, 0x1F);
    assert_eq!(cart.read_byte(0x4010), 0xFF);

    // Writes outside the bank-select sub-range leave the bank alone,
    // including addresses above the cartridge range.
    cart.write_byte(0x2000, 0x03);
    cart.write_byte(0x0000, 0x1F);
    cart.write_byte(0x6000, 0x1F);
    cart.write_byte(0x9000, 0x1F);
    cart.write_byte(0xFFFF, 0x1F);
    assert_eq!(cart.read_byte(0x4010), expect_bank3);
}

#[test]
fn test_power_on_snapshot_with_cartridge() {
    let cart = Cartridge::new(four_bank_image()).unwrap();
    let cpu = CPU::with_cartridge(cart);
    assert_eq!(cpu.pc, 0x0100);
    assert_eq!(cpu.sp, 0xFFFE);
    assert_eq!(cpu.registers.a, 0x01);
    assert_eq!(cpu.registers.get_bc(), 0x0013);
    assert_eq!(cpu.registers.get_de(), 0x00D8);
    assert_eq!(cpu.registers.get_hl(), 0x014D);
    // The documented post-boot snapshot sets the zero flag only.
    assert!(cpu.registers.f.zero);
    assert!(!cpu.registers.f.subtract);
    assert!(!cpu.registers.f.half_carry);
    assert!(!cpu.registers.f.carry);
    assert!(!cpu.is_halted);
    assert!(!cpu.ime);
}

#[test]
fn test_bank_selection_through_bus() {
    let raw = four_bank_image();
    let expect = raw[0x4000 * 2 + 0x123];
    let cart = Cartridge::new(raw).unwrap();
    let mut cpu = CPU::with_cartridge(cart);
    cpu.bus.write_byte(0x3000, 0x02);
    assert_eq!(cpu.bus.read_byte(0x4123), expect);
}

#[test]
fn test_bus_io_registers() {
    let mut bus = MemoryBus::new_without_cartridge();
    // The LCD control register keeps all eight bits.
    bus.write_byte(0xFF40, 0xAB);
    assert_eq!(bus.read_byte(0xFF40), 0xAB);
    // The status register keeps its defined seven bits.
    bus.write_byte(0xFF41, 0xFF);
    assert_eq!(bus.read_byte(0xFF41), 0x7F);
    // The current-line register discards writes.
    bus.write_byte(0xFF44, 0x55);
    assert_eq!(bus.read_byte(0xFF44), 0x00);
    // The line-compare register is plain read/write.
    bus.write_byte(0xFF45, 0x90);
    assert_eq!(bus.read_byte(0xFF45), 0x90);
}

#[test]
fn test_bus_vram_and_ram() {
    let mut bus = MemoryBus::new_without_cartridge();
    bus.write_byte(0x8010, 0x3C);
    assert_eq!(bus.read_byte(0x8010), 0x3C);
    bus.write_byte(0x9FFF, 0x7E);
    assert_eq!(bus.read_byte(0x9FFF), 0x7E);
    bus.write_byte(0xC000, 0x11);
    assert_eq!(bus.read_byte(0xC000), 0x11);
    bus.write_byte(0xFFFF, 0x22);
    assert_eq!(bus.read_byte(0xFFFF), 0x22);
    // Without a cartridge the low range is plain RAM too.
    bus.write_byte(0x0000, 0x33);
    assert_eq!(bus.read_byte(0x0000), 0x33);
}

#[test]
fn test_stack_round_trip() {
    // PUSH BC; LD BC,0x0000; POP BC restores both the pair and the stack
    // pointer.
    let mut cpu = CPU::new();
    cpu.bus.write_byte(0x0000, 0xC5);
    cpu.bus.write_byte(0x0001, 0x01);
    cpu.bus.write_byte(0x0002, 0x00);
    cpu.bus.write_byte(0x0003, 0x00);
    cpu.bus.write_byte(0x0004, 0xC1);
    cpu.registers.set_bc(0x1234);
    let sp0 = cpu.sp;
    cpu.step().unwrap();
    assert_eq!(cpu.sp, sp0 - 2);
    // High byte first in memory order as the stack grows downward.
    assert_eq!(cpu.bus.read_byte(sp0 - 1), 0x12);
    assert_eq!(cpu.bus.read_byte(sp0 - 2), 0x34);
    cpu.step().unwrap();
    assert_eq!(cpu.registers.get_bc(), 0x0000);
    cpu.step().unwrap();
    assert_eq!(cpu.registers.get_bc(), 0x1234);
    assert_eq!(cpu.sp, sp0);
}

#[test]
fn test_pop_af_masks_low_nibble() {
    // PUSH BC with 0x12FF, POP AF: the flags register keeps only the high
    // nibble of the low byte.
    let mut cpu = CPU::new();
    cpu.bus.write_byte(0x0000, 0xC5);
    cpu.bus.write_byte(0x0001, 0xF1);
    cpu.bus.write_byte(0x0002, 0xF5);
    cpu.bus.write_byte(0x0003, 0xC1);
    cpu.registers.set_bc(0x12FF);
    cpu.step().unwrap();
    cpu.step().unwrap();
    assert_eq!(cpu.registers.a, 0x12);
    assert_eq!(cpu.registers.get_af(), 0x12F0);
    // Pushing AF back shows the masked byte.
    cpu.step().unwrap();
    cpu.step().unwrap();
    assert_eq!(cpu.registers.get_bc(), 0x12F0);
}

#[test]
fn test_undefined_opcode_error() {
    let mut cpu = CPU::new();
    cpu.bus.write_byte(0x0000, 0xD3);
    assert_eq!(
        cpu.step(),
        Err(StepError::UndefinedOpcode {
            opcode: 0xD3,
            prefixed: false
        })
    );
    // The machine is left untouched and can be pointed elsewhere.
    assert_eq!(cpu.pc, 0x0000);
    assert_eq!(cpu.sp, 0xFFFE);

    let mut cpu = CPU::new();
    cpu.bus.write_byte(0x0000, 0xED);
    assert_eq!(
        cpu.step(),
        Err(StepError::UndefinedOpcode {
            opcode: 0xED,
            prefixed: false
        })
    );

    let mut cpu = CPU::new();
    cpu.bus.write_byte(0x0000, 0xEC);
    assert_eq!(
        cpu.step(),
        Err(StepError::UndefinedOpcode {
            opcode: 0xEC,
            prefixed: false
        })
    );
}

#[test]
fn test_halt_and_resume() {
    let mut cpu = CPU::new();
    cpu.bus.write_byte(0x0000, 0x76);
    cpu.step().unwrap();
    assert!(cpu.is_halted);
    assert_eq!(cpu.pc, 0x0001);
    // Every step while halted is a no-op.
    cpu.step().unwrap();
    cpu.step().unwrap();
    assert_eq!(cpu.pc, 0x0001);
    // The external resume signal clears the halt.
    cpu.resume();
    assert!(!cpu.is_halted);
    cpu.step().unwrap();
    assert_eq!(cpu.pc, 0x0002);
}

#[test]
fn test_scanline_advances_with_cycles() {
    // Each NOP step forwards 4 tabulated cycles plus the 1-cycle per-step
    // overhead; the line counter advances after 456 cycles.
    let mut cpu = CPU::new();
    for _ in 0..91 {
        cpu.step().unwrap();
    }
    assert_eq!(cpu.bus.gpu.ly, 0);
    cpu.step().unwrap();
    assert_eq!(cpu.bus.gpu.ly, 1);
}

#[test]
fn test_conditional_jump_not_taken() {
    // JP NZ with the zero flag set falls through past the 3-byte encoding.
    let mut cpu = CPU::new();
    cpu.bus.write_byte(0x0000, 0xC2);
    cpu.bus.write_byte(0x0001, 0x01);
    cpu.bus.write_byte(0x0002, 0x02);
    cpu.registers.f.zero = true;
    cpu.step().unwrap();
    assert_eq!(cpu.pc, 0x0003);

    // RET C with the carry flag clear falls through.
    let mut cpu = CPU::new();
    cpu.bus.write_byte(0x0000, 0xD8);
    cpu.step().unwrap();
    assert_eq!(cpu.pc, 0x0001);
}

#[test]
fn test_store_sp_low_byte() {
    // The absolute-address word store keeps only the low byte of SP, which
    // is how the operand machinery treats the one-byte memory cell.
    let mut cpu = CPU::new();
    cpu.bus.write_byte(0x0000, 0x08);
    cpu.bus.write_byte(0x0001, 0x00);
    cpu.bus.write_byte(0x0002, 0xC0);
    cpu.sp = 0x1234;
    cpu.step().unwrap();
    assert_eq!(cpu.bus.read_byte(0xC000), 0x34);
    assert_eq!(cpu.pc, 0x0003);
}

#[test]
fn test_tile_cache_follows_vram_writes() {
    // Writing the two bitplane bytes of tile 0, row 0 re-decodes the row:
    // the first byte carries the low bit of each pixel, the second the high
    // bit, column 0 in the high bit position.
    let mut bus = MemoryBus::new_without_cartridge();
    bus.write_byte(0x8000, 0xA5);
    bus.write_byte(0x8001, 0xC3);
    let expected = [
        TilePixelValue::Three,
        TilePixelValue::Two,
        TilePixelValue::One,
        TilePixelValue::Zero,
        TilePixelValue::Zero,
        TilePixelValue::One,
        TilePixelValue::Two,
        TilePixelValue::Three,
    ];
    for (c, want) in expected.iter().enumerate() {
        assert_eq!(bus.gpu.tile_set[c], *want);
    }
    // A second row of another tile decodes independently.
    bus.write_byte(0x8010 + 2, 0xFF);
    assert_eq!(bus.gpu.tile_set[64 + 8], TilePixelValue::One);
    // Writes in the tile-map area leave the cache alone.
    bus.write_byte(0x9800, 0xFF);
    assert_eq!(bus.gpu.tile_set[0], TilePixelValue::Three);
}

#[test]
fn test_scanline_counter_wraps_lines() {
    let mut gpu = GPU::new();
    gpu.update(456);
    assert_eq!(gpu.ly, 1);
    gpu.update(455);
    assert_eq!(gpu.ly, 1);
    gpu.update(1);
    assert_eq!(gpu.ly, 2);
    // The line register wraps to zero after the last line, 153.
    for _ in 0..152 {
        gpu.update(456);
    }
    assert_eq!(gpu.ly, 0);
}
