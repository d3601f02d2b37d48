use gbemu::cpu::CPU;
use gbemu::gpu::{LcdControlregisters, LcdStatusregisters};
use gbemu::instruction::{ArithmeticTarget, Instruction, JumpTest, LoadType, StackTarget};
use gbemu::registers::{FlagsRegister, Registers};

#[allow(non_snake_case)]
fn F(zero: bool, subtract: bool, half_carry: bool, carry: bool) -> FlagsRegister {
    FlagsRegister {
        zero,
        subtract,
        half_carry,
        carry,
    }
}

const UNDEFINED_BASE_OPCODES: [u8; 12] = [
    0xCB, 0xD3, 0xDB, 0xDD, 0xE3, 0xE4, 0xEB, 0xEC, 0xED, 0xF4, 0xFC, 0xFD,
];

#[test]
fn test_decoder_totality() {
    for b in 0..=255u8 {
        assert!(Instruction::from_byte_prefixed(b).is_some());
        let base = Instruction::from_byte_not_prefixed(b);
        assert_eq!(base.is_none(), UNDEFINED_BASE_OPCODES.contains(&b));
        assert_eq!(Instruction::from_byte(b, false).is_none(), base.is_none());
        assert!(Instruction::from_byte(b, true).is_some());
    }
}

#[test]
fn test_decoder_entries() {
    assert_eq!(
        Instruction::from_byte_not_prefixed(0xC3),
        Some(Instruction::JP(JumpTest::Always))
    );
    assert_eq!(
        Instruction::from_byte_not_prefixed(0xCD),
        Some(Instruction::CALL(JumpTest::Always))
    );
    assert_eq!(
        Instruction::from_byte_not_prefixed(0x41),
        Some(Instruction::LD(LoadType::Byte(
            ArithmeticTarget::B,
            ArithmeticTarget::C
        )))
    );
    assert_eq!(
        Instruction::from_byte_not_prefixed(0x76),
        Some(Instruction::HALT)
    );
    assert_eq!(
        Instruction::from_byte_not_prefixed(0x86),
        Some(Instruction::ADD(ArithmeticTarget::HL_))
    );
    assert_eq!(
        Instruction::from_byte_not_prefixed(0xF5),
        Some(Instruction::PUSH(StackTarget::AF))
    );
    assert_eq!(
        Instruction::from_byte_not_prefixed(0xFB),
        Some(Instruction::EI)
    );
    assert_eq!(
        Instruction::from_byte_not_prefixed(0xEE),
        Some(Instruction::XOR(ArithmeticTarget::D8))
    );
    assert_eq!(
        Instruction::from_byte_not_prefixed(0xDE),
        Some(Instruction::SBC(ArithmeticTarget::D8))
    );
    assert_eq!(Instruction::from_byte_not_prefixed(0xEC), None);
    assert_eq!(
        Instruction::from_byte_prefixed(0x40),
        Some(Instruction::BIT(ArithmeticTarget::B, 0))
    );
    assert_eq!(
        Instruction::from_byte_prefixed(0xFF),
        Some(Instruction::SET(ArithmeticTarget::A, 7))
    );
    assert_eq!(
        Instruction::from_byte_prefixed(0x37),
        Some(Instruction::SWAP(ArithmeticTarget::A))
    );
}

#[test]
fn test_flags_byte_round_trip() {
    for b in 0..=255u8 {
        let unpacked = FlagsRegister::from_byte(b);
        assert_eq!(unpacked.to_byte(), b & 0xF0);
    }
    let f = F(true, false, true, false);
    assert_eq!(f.to_byte(), 0xA0);
    assert_eq!(FlagsRegister::from_byte(f.to_byte()), f);
}

#[test]
fn test_control_byte_round_trip() {
    for b in 0..=255u8 {
        let unpacked = LcdControlregisters::from_byte(b);
        assert_eq!(unpacked.to_byte(), b);
    }
    let r = LcdControlregisters::from_byte(0x91);
    assert!(r.enabled);
    assert!(r.tiles);
    assert!(r.bg_window_enabled);
    assert!(!r.window_enabled);
}

#[test]
fn test_status_byte_round_trip() {
    for b in 0..=255u8 {
        let unpacked = LcdStatusregisters::from_byte(b);
        assert_eq!(unpacked.to_byte(), b & 0x7F);
    }
    let r = LcdStatusregisters::from_byte(0x43);
    assert!(r.lyc_int_select);
    assert_eq!(r.lyc_ppu_mode, 0x03);
}

#[test]
fn test_register_pairs() {
    let mut regs = Registers::new();
    assert_eq!(regs.a, 0x01);
    assert_eq!(regs.c, 0x13);
    assert_eq!(regs.e, 0xD8);
    assert_eq!(regs.get_hl(), 0x014D);
    // The documented post-boot snapshot has the zero flag set.
    assert_eq!(regs.f, F(true, false, false, false));
    regs.set_bc(0xABCD);
    assert_eq!(regs.b, 0xAB);
    assert_eq!(regs.c, 0xCD);
    assert_eq!(regs.get_bc(), 0xABCD);
    regs.set_de(0x1234);
    assert_eq!(regs.get_de(), 0x1234);
    regs.set_hl(0xFF00);
    assert_eq!(regs.get_hl(), 0xFF00);
    // The low nibble of a value stored into AF is discarded by the flags
    // register.
    regs.set_af(0x12FF);
    assert_eq!(regs.a, 0x12);
    assert_eq!(regs.f, F(true, true, true, true));
    assert_eq!(regs.get_af(), 0x12F0);
}

#[test]
fn test_adc_carry_chain() {
    let mut cpu = CPU::new();
    cpu.bus.write_byte(0x0000, 0x88);
    cpu.registers.a = 0xFF;
    cpu.registers.b = 0xFF;
    cpu.registers.f.carry = true;
    cpu.step().unwrap();
    assert_eq!(cpu.registers.a, 0xFF);
    assert_eq!(cpu.registers.f, F(false, false, true, true));

    // ADC A,d8 with carry set adds one extra.
    let mut cpu = CPU::new();
    cpu.bus.write_byte(0x0000, 0xCE);
    cpu.bus.write_byte(0x0001, 0x0F);
    cpu.registers.a = 0x00;
    cpu.registers.f.carry = true;
    cpu.step().unwrap();
    assert_eq!(cpu.registers.a, 0x10);
    assert_eq!(cpu.pc, 0x0002);
    assert_eq!(cpu.registers.f, F(false, false, true, false));
}

#[test]
fn test_sub_sets_subtract_flag() {
    let mut cpu = CPU::new();
    cpu.bus.write_byte(0x0000, 0x90);
    cpu.registers.a = 0x10;
    cpu.registers.b = 0x01;
    cpu.step().unwrap();
    assert_eq!(cpu.registers.a, 0x0F);
    assert_eq!(cpu.registers.f, F(false, true, true, false));

    // Full borrow sets the carry flag.
    let mut cpu = CPU::new();
    cpu.bus.write_byte(0x0000, 0x90);
    cpu.registers.a = 0x00;
    cpu.registers.b = 0x01;
    cpu.step().unwrap();
    assert_eq!(cpu.registers.a, 0xFF);
    assert_eq!(cpu.registers.f, F(false, true, true, true));
}

#[test]
fn test_sbc_borrow_chain() {
    let mut cpu = CPU::new();
    cpu.bus.write_byte(0x0000, 0x98);
    cpu.registers.a = 0x00;
    cpu.registers.b = 0x01;
    cpu.registers.f.carry = true;
    cpu.step().unwrap();
    assert_eq!(cpu.registers.a, 0xFE);
    assert_eq!(cpu.registers.f, F(false, true, true, true));
}

#[test]
fn test_cp_leaves_accumulator() {
    let mut cpu = CPU::new();
    cpu.bus.write_byte(0x0000, 0xB8);
    cpu.registers.a = 0x05;
    cpu.registers.b = 0x05;
    cpu.step().unwrap();
    assert_eq!(cpu.registers.a, 0x05);
    assert_eq!(cpu.registers.f, F(true, true, false, false));
}

#[test]
fn test_and_xor() {
    let mut cpu = CPU::new();
    cpu.bus.write_byte(0x0000, 0xA0);
    cpu.registers.a = 0xF0;
    cpu.registers.b = 0x0F;
    cpu.step().unwrap();
    assert_eq!(cpu.registers.a, 0x00);
    assert_eq!(cpu.registers.f, F(true, false, true, false));

    let mut cpu = CPU::new();
    cpu.bus.write_byte(0x0000, 0xA8);
    cpu.registers.a = 0xFF;
    cpu.registers.b = 0x0F;
    cpu.step().unwrap();
    assert_eq!(cpu.registers.a, 0xF0);
    assert_eq!(cpu.registers.f, F(false, false, false, false));

    // XOR A,d8.
    let mut cpu = CPU::new();
    cpu.bus.write_byte(0x0000, 0xEE);
    cpu.bus.write_byte(0x0001, 0xFF);
    cpu.registers.a = 0xFF;
    cpu.step().unwrap();
    assert_eq!(cpu.registers.a, 0x00);
    assert_eq!(cpu.pc, 0x0002);
    assert_eq!(cpu.registers.f, F(true, false, false, false));
}

#[test]
fn test_swap_sla_sra() {
    let mut cpu = CPU::new();
    cpu.bus.write_byte(0x0000, 0xCB);
    cpu.bus.write_byte(0x0001, 0x30);
    cpu.registers.b = 0xAB;
    cpu.step().unwrap();
    assert_eq!(cpu.registers.b, 0xBA);
    assert_eq!(cpu.registers.f, F(false, false, false, false));

    let mut cpu = CPU::new();
    cpu.bus.write_byte(0x0000, 0xCB);
    cpu.bus.write_byte(0x0001, 0x20);
    cpu.registers.b = 0x81;
    cpu.step().unwrap();
    assert_eq!(cpu.registers.b, 0x02);
    assert_eq!(cpu.registers.f, F(false, false, false, true));

    let mut cpu = CPU::new();
    cpu.bus.write_byte(0x0000, 0xCB);
    cpu.bus.write_byte(0x0001, 0x28);
    cpu.registers.b = 0x81;
    cpu.step().unwrap();
    assert_eq!(cpu.registers.b, 0xC0);
    assert_eq!(cpu.registers.f, F(false, false, false, true));
}

#[test]
fn test_rl_rlc_legacy_forms() {
    let mut cpu = CPU::new();
    cpu.bus.write_byte(0x0000, 0xCB);
    cpu.bus.write_byte(0x0001, 0x10);
    cpu.registers.b = 0x80;
    cpu.registers.f.carry = true;
    cpu.step().unwrap();
    assert_eq!(cpu.registers.b, 0x01);
    assert_eq!(cpu.registers.f, F(false, false, false, true));

    let mut cpu = CPU::new();
    cpu.bus.write_byte(0x0000, 0xCB);
    cpu.bus.write_byte(0x0001, 0x00);
    cpu.registers.b = 0x80;
    cpu.step().unwrap();
    assert_eq!(cpu.registers.b, 0x01);
    assert_eq!(cpu.registers.f, F(false, false, false, true));

    // RLA and RLCA clear the zero flag even when the result is zero.
    let mut cpu = CPU::new();
    cpu.bus.write_byte(0x0000, 0x17);
    cpu.registers.a = 0x80;
    cpu.step().unwrap();
    assert_eq!(cpu.registers.a, 0x00);
    assert_eq!(cpu.registers.f, F(false, false, false, true));

    let mut cpu = CPU::new();
    cpu.bus.write_byte(0x0000, 0x07);
    cpu.registers.a = 0x80;
    cpu.step().unwrap();
    assert_eq!(cpu.registers.a, 0x01);
    assert_eq!(cpu.registers.f, F(false, false, false, true));
}

#[test]
fn test_daa_after_addition() {
    // 0x15 + 0x27 = 0x3C; the decimal adjust corrects it to 0x42.
    let mut cpu = CPU::new();
    cpu.bus.write_byte(0x0000, 0x27);
    cpu.registers.a = 0x3C;
    cpu.step().unwrap();
    assert_eq!(cpu.registers.a, 0x42);
    assert_eq!(cpu.registers.f, F(false, false, false, false));

    // 0x9A adjusts past the top of the decimal range: wraps to 0x00 with
    // carry.
    let mut cpu = CPU::new();
    cpu.bus.write_byte(0x0000, 0x27);
    cpu.registers.a = 0x9A;
    cpu.step().unwrap();
    assert_eq!(cpu.registers.a, 0x00);
    assert_eq!(cpu.registers.f, F(true, false, false, true));
}

#[test]
fn test_daa_after_subtraction() {
    // After a subtraction with a half-borrow, the adjust subtracts 6.
    let mut cpu = CPU::new();
    cpu.bus.write_byte(0x0000, 0x27);
    cpu.registers.a = 0x0F;
    cpu.registers.f.subtract = true;
    cpu.registers.f.half_carry = true;
    cpu.step().unwrap();
    assert_eq!(cpu.registers.a, 0x09);
    assert_eq!(cpu.registers.f, F(false, true, false, false));
}

#[test]
fn test_cpl_ccf_scf() {
    let mut cpu = CPU::new();
    cpu.bus.write_byte(0x0000, 0x2F);
    cpu.registers.a = 0xAA;
    cpu.step().unwrap();
    assert_eq!(cpu.registers.a, 0x55);
    assert_eq!(cpu.registers.f, F(false, true, true, false));

    let mut cpu = CPU::new();
    cpu.bus.write_byte(0x0000, 0x3F);
    cpu.registers.f.carry = true;
    cpu.registers.f.zero = true;
    cpu.step().unwrap();
    assert_eq!(cpu.registers.f, F(true, false, false, false));

    let mut cpu = CPU::new();
    cpu.bus.write_byte(0x0000, 0x37);
    cpu.step().unwrap();
    assert_eq!(cpu.registers.f, F(false, false, false, true));
}

#[test]
fn test_ld_byte_forms() {
    // LD B,d8
    let mut cpu = CPU::new();
    cpu.bus.write_byte(0x0000, 0x06);
    cpu.bus.write_byte(0x0001, 0x42);
    cpu.step().unwrap();
    assert_eq!(cpu.registers.b, 0x42);
    assert_eq!(cpu.pc, 0x0002);

    // LD B,C
    let mut cpu = CPU::new();
    cpu.bus.write_byte(0x0000, 0x41);
    cpu.registers.c = 0x99;
    cpu.step().unwrap();
    assert_eq!(cpu.registers.b, 0x99);
    assert_eq!(cpu.pc, 0x0001);

    // LD (HL+),A writes then increments HL.
    let mut cpu = CPU::new();
    cpu.bus.write_byte(0x0000, 0x22);
    cpu.registers.a = 0x5A;
    cpu.registers.set_hl(0x1234);
    cpu.step().unwrap();
    assert_eq!(cpu.bus.read_byte(0x1234), 0x5A);
    assert_eq!(cpu.registers.get_hl(), 0x1235);
    assert_eq!(cpu.pc, 0x0001);

    // LD A,(HL-) reads then decrements HL.
    let mut cpu = CPU::new();
    cpu.bus.write_byte(0x0000, 0x3A);
    cpu.bus.write_byte(0x1234, 0x77);
    cpu.registers.set_hl(0x1234);
    cpu.step().unwrap();
    assert_eq!(cpu.registers.a, 0x77);
    assert_eq!(cpu.registers.get_hl(), 0x1233);

    // LD (0xFF00+C),A lands in the high page.
    let mut cpu = CPU::new();
    cpu.bus.write_byte(0x0000, 0xE2);
    cpu.registers.a = 0x77;
    cpu.registers.c = 0x80;
    cpu.step().unwrap();
    assert_eq!(cpu.bus.read_byte(0xFF80), 0x77);
    assert_eq!(cpu.pc, 0x0001);
}

#[test]
fn test_ld_word_forms() {
    // LD BC,d16
    let mut cpu = CPU::new();
    cpu.bus.write_byte(0x0000, 0x01);
    cpu.bus.write_byte(0x0001, 0x34);
    cpu.bus.write_byte(0x0002, 0x12);
    cpu.step().unwrap();
    assert_eq!(cpu.registers.get_bc(), 0x1234);
    assert_eq!(cpu.pc, 0x0003);

    // LD SP,d16
    let mut cpu = CPU::new();
    cpu.bus.write_byte(0x0000, 0x31);
    cpu.bus.write_byte(0x0001, 0xFE);
    cpu.bus.write_byte(0x0002, 0xDF);
    cpu.step().unwrap();
    assert_eq!(cpu.sp, 0xDFFE);
    assert_eq!(cpu.pc, 0x0003);

    // LD HL,SP+d8 computes the offset sum with the low-byte flags.
    let mut cpu = CPU::new();
    cpu.bus.write_byte(0x0000, 0xF8);
    cpu.bus.write_byte(0x0001, 0x10);
    cpu.sp = 0x00F0;
    cpu.step().unwrap();
    assert_eq!(cpu.registers.get_hl(), 0x0100);
    assert_eq!(cpu.sp, 0x00F0);
    assert_eq!(cpu.pc, 0x0002);
    assert_eq!(cpu.registers.f, F(false, false, false, false));
}

#[test]
fn test_inc_a_half_carry_boundary() {
    // INC of 0x0F carries out of bit 3.
    let mut cpu = CPU::new();
    cpu.bus.write_byte(0x0000, 0x3C);
    cpu.registers.a = 0x0F;
    cpu.registers.f.carry = true;
    cpu.step().unwrap();
    assert_eq!(cpu.registers.a, 0x10);
    // The carry flag is untouched by an 8-bit increment.
    assert_eq!(cpu.registers.f, F(false, false, true, true));
}

#[test]
fn test_rst_pushes_following_address() {
    let mut cpu = CPU::new();
    cpu.bus.write_byte(0x0100, 0xEF);
    cpu.pc = 0x0100;
    cpu.step().unwrap();
    assert_eq!(cpu.pc, 0x0028);
    assert_eq!(cpu.sp, 0xFFFC);
    assert_eq!(cpu.bus.read_byte(0xFFFC), 0x01);
    assert_eq!(cpu.bus.read_byte(0xFFFD), 0x01);
    // Returning lands on the instruction after the 1-byte restart.
    cpu.bus.write_byte(0x0028, 0xC9);
    cpu.step().unwrap();
    assert_eq!(cpu.pc, 0x0101);
}

#[test]
fn test_jp_hl() {
    let mut cpu = CPU::new();
    cpu.bus.write_byte(0x0000, 0xE9);
    cpu.registers.set_hl(0x4321);
    cpu.step().unwrap();
    assert_eq!(cpu.pc, 0x4321);
}

#[test]
fn test_di_ei() {
    let mut cpu = CPU::new();
    cpu.bus.write_byte(0x0000, 0xFB);
    cpu.bus.write_byte(0x0001, 0xF3);
    assert!(!cpu.ime);
    cpu.step().unwrap();
    assert!(cpu.ime);
    cpu.step().unwrap();
    assert!(!cpu.ime);
    assert_eq!(cpu.pc, 0x0002);
}
