use gbemu::cpu::CPU;
use gbemu::registers::FlagsRegister;

#[allow(non_snake_case)]
fn F(zero: bool, subtract: bool, half_carry: bool, carry: bool) -> FlagsRegister {
    FlagsRegister {
        zero,
        subtract,
        half_carry,
        carry,
    }
}

#[test]
fn test_inc() {
    // B
    let mut cpu = CPU::new();
    cpu.bus.write_byte(0x0000, 0x04);
    cpu.registers.b = 0x00;
    cpu.step().unwrap();
    assert_eq!(cpu.registers.b, 0x01);
    assert_eq!(cpu.pc, 0x0001);
    assert_eq!(cpu.registers.f, F(false, false, false, false));

    // B zero
    let mut cpu = CPU::new();
    cpu.bus.write_byte(0x0000, 0x04);
    cpu.registers.b = 0xFF;
    cpu.step().unwrap();
    assert_eq!(cpu.registers.b, 0x00);
    assert_eq!(cpu.pc, 0x0001);
    assert_eq!(cpu.registers.f, F(true, false, true, false));

    // (HL)
    let mut cpu = CPU::new();
    cpu.bus.write_byte(0x0000, 0x34);
    cpu.bus.write_byte(0x1000, 0x00);
    cpu.registers.set_hl(0x1000);
    cpu.step().unwrap();
    assert_eq!(cpu.bus.read_byte(0x1000), 0x01);
    assert_eq!(cpu.pc, 0x0001);
    assert_eq!(cpu.registers.f, F(false, false, false, false));

    // BC
    let mut cpu = CPU::new();
    cpu.bus.write_byte(0x0000, 0x03);
    cpu.registers.set_bc(0x1000);
    cpu.step().unwrap();
    assert_eq!(cpu.registers.get_bc(), 0x1001);
    assert_eq!(cpu.pc, 0x0001);
    assert_eq!(cpu.registers.f, F(false, false, false, false));

    // BC 8
    let mut cpu = CPU::new();
    cpu.bus.write_byte(0x0000, 0x03);
    cpu.registers.set_bc(0x00FF);
    cpu.step().unwrap();
    assert_eq!(cpu.registers.get_bc(), 0x0100);
    assert_eq!(cpu.pc, 0x0001);
    assert_eq!(cpu.registers.f, F(false, false, false, false));

    // BC over
    let mut cpu = CPU::new();
    cpu.bus.write_byte(0x0000, 0x03);
    cpu.registers.set_bc(0xFFFF);
    cpu.step().unwrap();
    assert_eq!(cpu.registers.get_bc(), 0x0000);
    assert_eq!(cpu.pc, 0x0001);
    assert_eq!(cpu.registers.f, F(false, false, false, false));
}

#[test]
fn test_dec() {
    // B
    let mut cpu = CPU::new();
    cpu.bus.write_byte(0x0000, 0x05);
    cpu.registers.b = 0x02;
    cpu.step().unwrap();
    assert_eq!(cpu.registers.b, 0x01);
    assert_eq!(cpu.pc, 0x0001);
    assert_eq!(cpu.registers.f, F(false, true, false, false));

    // B zero
    let mut cpu = CPU::new();
    cpu.bus.write_byte(0x0000, 0x05);
    cpu.registers.b = 0x01;
    cpu.step().unwrap();
    assert_eq!(cpu.registers.b, 0x00);
    assert_eq!(cpu.pc, 0x0001);
    assert_eq!(cpu.registers.f, F(true, true, false, false));

    // (HL)
    let mut cpu = CPU::new();
    cpu.bus.write_byte(0x0000, 0x35);
    cpu.bus.write_byte(0x1000, 0x02);
    cpu.registers.set_hl(0x1000);
    cpu.step().unwrap();
    assert_eq!(cpu.bus.read_byte(0x1000), 0x01);
    assert_eq!(cpu.pc, 0x0001);
    assert_eq!(cpu.registers.f, F(false, true, false, false));

    // BC
    let mut cpu = CPU::new();
    cpu.bus.write_byte(0x0000, 0x0B);
    cpu.registers.set_bc(0x1002);
    cpu.step().unwrap();
    assert_eq!(cpu.registers.get_bc(), 0x1001);
    assert_eq!(cpu.pc, 0x0001);
    assert_eq!(cpu.registers.f, F(false, false, false, false));

    // BC 8
    let mut cpu = CPU::new();
    cpu.bus.write_byte(0x0000, 0x0B);
    cpu.registers.set_bc(0x0100);
    cpu.step().unwrap();
    assert_eq!(cpu.registers.get_bc(), 0x00FF);
    assert_eq!(cpu.pc, 0x0001);
    assert_eq!(cpu.registers.f, F(false, false, false, false));

    // BC over
    let mut cpu = CPU::new();
    cpu.bus.write_byte(0x0000, 0x0B);
    cpu.registers.set_bc(0x0000);
    cpu.step().unwrap();
    assert_eq!(cpu.registers.get_bc(), 0xFFFF);
    assert_eq!(cpu.pc, 0x0001);
    assert_eq!(cpu.registers.f, F(false, false, false, false));
}

#[test]
fn test_add_a() {
    // A, A
    let mut cpu = CPU::new();
    cpu.bus.write_byte(0x0000, 0x87);
    cpu.registers.a = 0x02;
    cpu.step().unwrap();
    assert_eq!(cpu.registers.a, 0x04);
    assert_eq!(cpu.pc, 0x0001);
    assert_eq!(cpu.registers.f, F(false, false, false, false));

    // A, B
    cpu.bus.write_byte(0x0001, 0x80);
    cpu.registers.b = 0x03;
    cpu.registers.a = 0x02;
    cpu.step().unwrap();
    assert_eq!(cpu.registers.a, 0x05);
    assert_eq!(cpu.pc, 0x0002);
    assert_eq!(cpu.registers.f, F(false, false, false, false));

    // A, C
    cpu.bus.write_byte(0x0002, 0x81);
    cpu.registers.c = 0x03;
    cpu.registers.a = 0x02;
    cpu.step().unwrap();
    assert_eq!(cpu.registers.a, 0x05);
    assert_eq!(cpu.pc, 0x0003);
    assert_eq!(cpu.registers.f, F(false, false, false, false));

    // A, D
    cpu.bus.write_byte(0x0003, 0x82);
    cpu.registers.d = 0x03;
    cpu.registers.a = 0x02;
    cpu.step().unwrap();
    assert_eq!(cpu.registers.a, 0x05);
    assert_eq!(cpu.pc, 0x0004);
    assert_eq!(cpu.registers.f, F(false, false, false, false));

    // A, E
    cpu.bus.write_byte(0x0004, 0x83);
    cpu.registers.e = 0x03;
    cpu.registers.a = 0x02;
    cpu.step().unwrap();
    assert_eq!(cpu.registers.a, 0x05);
    assert_eq!(cpu.pc, 0x0005);
    assert_eq!(cpu.registers.f, F(false, false, false, false));

    // A, H
    cpu.bus.write_byte(0x0005, 0x84);
    cpu.registers.h = 0x03;
    cpu.registers.a = 0x02;
    cpu.step().unwrap();
    assert_eq!(cpu.registers.a, 0x05);
    assert_eq!(cpu.pc, 0x0006);
    assert_eq!(cpu.registers.f, F(false, false, false, false));

    // A, L
    cpu.bus.write_byte(0x0006, 0x85);
    cpu.registers.l = 0x03;
    cpu.registers.a = 0x02;
    cpu.step().unwrap();
    assert_eq!(cpu.registers.a, 0x05);
    assert_eq!(cpu.pc, 0x0007);
    assert_eq!(cpu.registers.f, F(false, false, false, false));

    // A, (HL)
    cpu.bus.write_byte(0x0007, 0x86);
    cpu.bus.write_byte(0x1000, 0x0A);
    cpu.registers.set_hl(0x1000);
    cpu.registers.a = 0x02;
    cpu.step().unwrap();
    assert_eq!(cpu.registers.a, 0x0C);
    assert_eq!(cpu.pc, 0x0008);
    assert_eq!(cpu.registers.f, F(false, false, false, false));

    // A, D8
    cpu.bus.write_byte(0x0008, 0xC6);
    cpu.bus.write_byte(0x0009, 0x03);
    cpu.registers.a = 0x02;
    cpu.step().unwrap();
    assert_eq!(cpu.registers.a, 0x05);
    assert_eq!(cpu.pc, 0x000A);
    assert_eq!(cpu.registers.f, F(false, false, false, false));
}

#[test]
fn test_add_sp() {
    // SP, D8
    let mut cpu = CPU::new();
    cpu.bus.write_byte(0x0000, 0xE8);
    cpu.bus.write_byte(0x0001, 0x03);
    cpu.sp = 0x0100;
    cpu.registers.a = 0x02;
    cpu.step().unwrap();
    assert_eq!(cpu.sp, 0x0103);
    assert_eq!(cpu.pc, 0x0002);
    assert_eq!(cpu.registers.f, F(false, false, false, false));

    // SP, D8 miner
    let mut cpu = CPU::new();
    cpu.bus.write_byte(0x0000, 0xE8);
    cpu.bus.write_byte(0x0001, 0xF0);
    cpu.sp = 0x0000;
    cpu.registers.a = 0x02;
    cpu.step().unwrap();
    assert_eq!(cpu.sp, 0xFFF0);
    assert_eq!(cpu.pc, 0x0002);
    assert_eq!(cpu.registers.f, F(false, false, false, false));

    // SP, D8 carry
    let mut cpu = CPU::new();
    cpu.bus.write_byte(0x0000, 0xE8);
    cpu.bus.write_byte(0x0001, 0x10);
    cpu.sp = 0x00F0;
    cpu.registers.a = 0x02;
    cpu.step().unwrap();
    assert_eq!(cpu.sp, 0x0100);
    assert_eq!(cpu.pc, 0x0002);
    assert_eq!(cpu.registers.f, F(false, false, false, false));
}

#[test]
fn test_add_c() {
    let mut cpu = CPU::new();
    cpu.bus.write_byte(0x0000, 0x81);
    cpu.registers.c = 0x03;
    cpu.registers.a = 0x02;
    cpu.step().unwrap();
    assert_eq!(cpu.registers.a, 0x05);
    assert_eq!(cpu.pc, 0x0001);
    assert_eq!(cpu.registers.f, F(false, false, false, false))
}

#[test]
fn test_add_c_zero() {
    let mut cpu = CPU::new();
    cpu.bus.write_byte(0x0000, 0x81);
    cpu.registers.c = 0x00;
    cpu.registers.a = 0x00;
    cpu.step().unwrap();
    assert_eq!(cpu.registers.a, 0x00);
    assert_eq!(cpu.pc, 0x0001);
    assert_eq!(cpu.registers.f, F(true, false, false, false))
}

#[test]
fn test_add_c_carry() {
    let mut cpu = CPU::new();
    cpu.bus.write_byte(0x0000, 0x81);
    cpu.registers.c = 0xF0;
    cpu.registers.a = 0x20;
    cpu.step().unwrap();
    assert_eq!(cpu.registers.a, 0x10);
    assert_eq!(cpu.pc, 0x0001);
    assert_eq!(cpu.registers.f, F(false, false, false, true))
}

#[test]
fn test_add_c_half_carry() {
    let mut cpu = CPU::new();
    cpu.bus.write_byte(0x0000, 0x81);
    cpu.registers.c = 0x0F;
    cpu.registers.a = 0x01;
    cpu.step().unwrap();
    assert_eq!(cpu.registers.a, 0x10);
    assert_eq!(cpu.pc, 0x0001);
    assert_eq!(cpu.registers.f, F(false, false, true, false))
}

#[test]
fn test_add_hl() {
    // HL, BC
    let mut cpu = CPU::new();
    cpu.bus.write_byte(0x0000, 0x09);
    cpu.registers.set_bc(0x0005);
    cpu.registers.set_hl(0x0003);
    cpu.step().unwrap();
    assert_eq!(cpu.registers.get_hl(), 0x0008);
    assert_eq!(cpu.pc, 0x0001);
    assert_eq!(cpu.registers.f, F(false, false, false, false));

    // HL, DE
    let mut cpu = CPU::new();
    cpu.bus.write_byte(0x0000, 0x19);
    cpu.registers.set_de(0x0001);
    cpu.registers.set_hl(0x00FF);
    cpu.step().unwrap();
    assert_eq!(cpu.registers.get_hl(), 0x0100);
    assert_eq!(cpu.pc, 0x0001);
    assert_eq!(cpu.registers.f, F(false, false, false, false));

    // HL, HL
    let mut cpu = CPU::new();
    cpu.bus.write_byte(0x0000, 0x29);
    cpu.registers.set_hl(0x00FF);
    cpu.step().unwrap();
    assert_eq!(cpu.registers.get_hl(), 0x01FE);
    assert_eq!(cpu.pc, 0x0001);
    assert_eq!(cpu.registers.f, F(false, false, false, false));

    // HL, SP
    let mut cpu = CPU::new();
    cpu.bus.write_byte(0x0000, 0x39);
    cpu.sp = 0x00FF;
    cpu.registers.set_hl(0x00FF);
    cpu.step().unwrap();
    assert_eq!(cpu.registers.get_hl(), 0x01FE);
    assert_eq!(cpu.pc, 0x0001);
    assert_eq!(cpu.registers.f, F(false, false, false, false));

    // half carry
    let mut cpu = CPU::new();
    cpu.bus.write_byte(0x0000, 0x09);
    cpu.registers.set_bc(0x0100);
    cpu.registers.set_hl(0x0F10);
    cpu.step().unwrap();
    assert_eq!(cpu.registers.get_hl(), 0x1010);
    assert_eq!(cpu.pc, 0x0001);
    assert_eq!(cpu.registers.f, F(false, false, true, false));

    // carry
    let mut cpu = CPU::new();
    cpu.bus.write_byte(0x0000, 0x09);
    cpu.registers.set_bc(0xF000);
    cpu.registers.set_hl(0x1000);
    cpu.step().unwrap();
    assert_eq!(cpu.registers.get_hl(), 0x0000);
    assert_eq!(cpu.pc, 0x0001);
    assert_eq!(cpu.registers.f, F(false, false, false, true));
}

#[test]
fn test_or() {
    let mut cpu = CPU::new();
    cpu.bus.write_byte(0x0000, 0xB0);
    cpu.registers.b = 0x0F;
    cpu.registers.a = 0x81;
    cpu.step().unwrap();
    assert_eq!(cpu.registers.a, 0x8F);
    assert_eq!(cpu.pc, 0x0001);
    assert_eq!(cpu.registers.f, F(false, false, false, false));

    let mut cpu = CPU::new();
    cpu.bus.write_byte(0x0000, 0xB0);
    cpu.registers.b = 0x00;
    cpu.registers.a = 0x00;
    cpu.step().unwrap();
    assert_eq!(cpu.registers.a, 0x00);
    assert_eq!(cpu.pc, 0x0001);
    assert_eq!(cpu.registers.f, F(true, false, false, false));

    let mut cpu = CPU::new();
    cpu.bus.write_byte(0x0000, 0xF6);
    cpu.bus.write_byte(0x0001, 0x01);
    cpu.registers.a = 0x80;
    cpu.step().unwrap();
    assert_eq!(cpu.registers.a, 0x81);
    assert_eq!(cpu.pc, 0x0002);
    assert_eq!(cpu.registers.f, F(false, false, false, false));
}

#[test]
fn test_jp() {
    let mut cpu = CPU::new();
    cpu.bus.write_byte(0x0000, 0xC3);
    cpu.bus.write_byte(0x0001, 0x01);
    cpu.bus.write_byte(0x0002, 0x02);
    cpu.step().unwrap();
    assert_eq!(cpu.pc, 0x0201);

    // JP HL
    let mut cpu = CPU::new();
    cpu.bus.write_byte(0x0000, 0xC3);
    cpu.bus.write_byte(0x0001, 0x01);
    cpu.bus.write_byte(0x0002, 0x02);
    cpu.step().unwrap();
    assert_eq!(cpu.pc, 0x0201);
}

#[test]
fn test_call_ret() {
    let mut cpu = CPU::new();
    cpu.bus.write_byte(0x0000, 0xCD);
    cpu.bus.write_byte(0x0001, 0x01);
    cpu.bus.write_byte(0x0002, 0x02);
    cpu.bus.write_byte(0x0201, 0xC9);
    cpu.step().unwrap();
    assert_eq!(cpu.pc, 0x0201);
    cpu.step().unwrap();
    assert_eq!(cpu.pc, 0x0003);

    let mut cpu = CPU::new();
    cpu.bus.write_byte(0x0000, 0xCC);
    cpu.bus.write_byte(0x0001, 0x01);
    cpu.bus.write_byte(0x0002, 0x02);
    cpu.bus.write_byte(0x0201, 0xC9);
    cpu.step().unwrap();
    assert_eq!(cpu.pc, 0x0003);

    let mut cpu = CPU::new();
    cpu.bus.write_byte(0x0000, 0xCC);
    cpu.bus.write_byte(0x0001, 0x01);
    cpu.bus.write_byte(0x0002, 0x02);
    cpu.bus.write_byte(0x0201, 0xC9);
    cpu.registers.f.zero = true;
    cpu.step().unwrap();
    assert_eq!(cpu.pc, 0x0201);
    cpu.step().unwrap();
    assert_eq!(cpu.pc, 0x0003);
}

#[test]
fn test_jr() {
    let mut cpu = CPU::new();
    cpu.bus.write_byte(0x0000, 0x18);
    cpu.bus.write_byte(0x0001, 0xF0);
    cpu.step().unwrap();
    assert_eq!(cpu.pc, 0xFFF2);

    let mut cpu = CPU::new();
    cpu.bus.write_byte(0xFFFE, 0x18);
    cpu.bus.write_byte(0xFFFF, 0x03);
    cpu.pc = 0xFFFE;
    cpu.step().unwrap();
    assert_eq!(cpu.pc, 0x0003);

    let mut cpu = CPU::new();
    cpu.bus.write_byte(0x0000, 0x18);
    cpu.bus.write_byte(0x0001, 0x80);
    cpu.step().unwrap();
    assert_eq!(cpu.pc, 0xFF82);

    let mut cpu = CPU::new();
    cpu.bus.write_byte(0x0000, 0x18);
    cpu.bus.write_byte(0x0001, 0xFF);
    cpu.step().unwrap();
    assert_eq!(cpu.pc, 0x0001);

    let mut cpu = CPU::new();
    cpu.bus.write_byte(0x0000, 0x28);
    cpu.bus.write_byte(0x0001, 0x10);
    cpu.step().unwrap();
    assert_eq!(cpu.pc, 0x0002);
}

#[test]
fn test_rr() {
    let mut cpu = CPU::new();
    cpu.bus.write_byte(0x0000, 0xCB);
    cpu.bus.write_byte(0x0001, 0x18);
    cpu.registers.b = 0x22;
    cpu.step().unwrap();
    assert_eq!(cpu.registers.b, 0x11);
    assert_eq!(cpu.pc, 0x0002);
    assert_eq!(cpu.registers.f, F(false, false, false, false));

    let mut cpu = CPU::new();
    cpu.bus.write_byte(0x0000, 0xCB);
    cpu.bus.write_byte(0x0001, 0x18);
    cpu.registers.b = 0x22;
    cpu.registers.f.carry = true;
    cpu.step().unwrap();
    assert_eq!(cpu.registers.b, 0x91);
    assert_eq!(cpu.pc, 0x0002);
    assert_eq!(cpu.registers.f, F(false, false, false, false));

    let mut cpu = CPU::new();
    cpu.bus.write_byte(0x0000, 0xCB);
    cpu.bus.write_byte(0x0001, 0x18);
    cpu.registers.b = 0x01;
    cpu.step().unwrap();
    assert_eq!(cpu.registers.b, 0x00);
    assert_eq!(cpu.pc, 0x0002);
    assert_eq!(cpu.registers.f, F(true, false, false, true));

    // rra
    let mut cpu = CPU::new();
    cpu.bus.write_byte(0x0000, 0x1F);
    cpu.registers.a = 0x01;
    cpu.step().unwrap();
    assert_eq!(cpu.registers.a, 0x00);
    assert_eq!(cpu.pc, 0x0001);
    assert_eq!(cpu.registers.f, F(false, false, false, true));
}

#[test]
fn test_rrc() {
    let mut cpu = CPU::new();
    cpu.bus.write_byte(0x0000, 0xCB);
    cpu.bus.write_byte(0x0001, 0x08);
    cpu.registers.b = 0x22;
    cpu.step().unwrap();
    assert_eq!(cpu.registers.b, 0x11);
    assert_eq!(cpu.pc, 0x0002);
    assert_eq!(cpu.registers.f, F(false, false, false, false));

    let mut cpu = CPU::new();
    cpu.bus.write_byte(0x0000, 0xCB);
    cpu.bus.write_byte(0x0001, 0x08);
    cpu.registers.b = 0x01;
    cpu.step().unwrap();
    assert_eq!(cpu.registers.b, 0x80);
    assert_eq!(cpu.pc, 0x0002);
    assert_eq!(cpu.registers.f, F(false, false, false, true));

    let mut cpu = CPU::new();
    cpu.bus.write_byte(0x0000, 0xCB);
    cpu.bus.write_byte(0x0001, 0x08);
    cpu.registers.b = 0x00;
    cpu.step().unwrap();
    assert_eq!(cpu.registers.b, 0x00);
    assert_eq!(cpu.pc, 0x0002);
    assert_eq!(cpu.registers.f, F(true, false, false, false));

    //rrca
    let mut cpu = CPU::new();
    cpu.bus.write_byte(0x0000, 0x0F);
    cpu.registers.a = 0x00;
    cpu.step().unwrap();
    assert_eq!(cpu.registers.a, 0x00);
    assert_eq!(cpu.pc, 0x0001);
    assert_eq!(cpu.registers.f, F(false, false, false, false));

    let mut cpu = CPU::new();
    cpu.bus.write_byte(0x0000, 0x0F);
    cpu.registers.a = 0x81;
    cpu.step().unwrap();
    assert_eq!(cpu.registers.a, 0xC0);
    assert_eq!(cpu.pc, 0x0001);
    assert_eq!(cpu.registers.f, F(false, false, false, true));
}

#[test]
fn test_bit_res_set() {
    // BIT
    let mut cpu = CPU::new();
    cpu.bus.write_byte(0x0000, 0xCB);
    cpu.bus.write_byte(0x0001, 0x40);
    cpu.registers.b = 0x81;
    cpu.step().unwrap();
    assert_eq!(cpu.pc, 0x0002);
    assert_eq!(cpu.registers.f, F(false, false, true, false));

    let mut cpu = CPU::new();
    cpu.bus.write_byte(0x0000, 0xCB);
    cpu.bus.write_byte(0x0001, 0x48);
    cpu.registers.b = 0x81;
    cpu.step().unwrap();
    assert_eq!(cpu.pc, 0x0002);
    assert_eq!(cpu.registers.f, F(true, false, true, false));

    let mut cpu = CPU::new();
    cpu.bus.write_byte(0x0000, 0xCB);
    cpu.bus.write_byte(0x0001, 0x78);
    cpu.registers.b = 0x81;
    cpu.step().unwrap();
    assert_eq!(cpu.pc, 0x0002);
    assert_eq!(cpu.registers.f, F(false, false, true, false));

    // RES
    let mut cpu = CPU::new();
    cpu.bus.write_byte(0x0000, 0xCB);
    cpu.bus.write_byte(0x0001, 0x80);
    cpu.registers.b = 0x81;
    cpu.step().unwrap();
    assert_eq!(cpu.registers.b, 0x80);
    assert_eq!(cpu.pc, 0x0002);
    assert_eq!(cpu.registers.f, F(false, false, false, false));

    let mut cpu = CPU::new();
    cpu.bus.write_byte(0x0000, 0xCB);
    cpu.bus.write_byte(0x0001, 0xA0);
    cpu.registers.b = 0xFF;
    cpu.step().unwrap();
    assert_eq!(cpu.registers.b, 0xEF);
    assert_eq!(cpu.pc, 0x0002);
    assert_eq!(cpu.registers.f, F(false, false, false, false));

    let mut cpu = CPU::new();
    cpu.bus.write_byte(0x0000, 0xCB);
    cpu.bus.write_byte(0x0001, 0xB8);
    cpu.registers.b = 0x80;
    cpu.step().unwrap();
    assert_eq!(cpu.registers.b, 0x00);
    assert_eq!(cpu.pc, 0x0002);
    assert_eq!(cpu.registers.f, F(false, false, false, false));

    // SET
    let mut cpu = CPU::new();
    cpu.bus.write_byte(0x0000, 0xCB);
    cpu.bus.write_byte(0x0001, 0xC0);
    cpu.registers.b = 0x80;
    cpu.step().unwrap();
    assert_eq!(cpu.registers.b, 0x81);
    assert_eq!(cpu.pc, 0x0002);
    assert_eq!(cpu.registers.f, F(false, false, false, false));

    let mut cpu = CPU::new();
    cpu.bus.write_byte(0x0000, 0xCB);
    cpu.bus.write_byte(0x0001, 0xE0);
    cpu.registers.b = 0x80;
    cpu.step().unwrap();
    assert_eq!(cpu.registers.b, 0x90);
    assert_eq!(cpu.pc, 0x0002);
    assert_eq!(cpu.registers.f, F(false, false, false, false));
}

#[test]
fn test_srl() {
    let mut cpu = CPU::new();
    cpu.bus.write_byte(0x0000, 0xCB);
    cpu.bus.write_byte(0x0001, 0x38);
    cpu.registers.b = 0x7E;
    cpu.step().unwrap();
    assert_eq!(cpu.registers.b, 0x3F);
    assert_eq!(cpu.pc, 0x0002);
    assert_eq!(cpu.registers.f, F(false, false, false, false));

    let mut cpu = CPU::new();
    cpu.bus.write_byte(0x0000, 0xCB);
    cpu.bus.write_byte(0x0001, 0x38);
    cpu.registers.b = 0x7E;
    cpu.registers.f.carry = true;
    cpu.step().unwrap();
    assert_eq!(cpu.registers.b, 0x3F);
    assert_eq!(cpu.pc, 0x0002);
    assert_eq!(cpu.registers.f, F(false, false, false, false));

    let mut cpu = CPU::new();
    cpu.bus.write_byte(0x0000, 0xCB);
    cpu.bus.write_byte(0x0001, 0x38);
    cpu.registers.b = 0x81;
    cpu.step().unwrap();
    assert_eq!(cpu.registers.b, 0x40);
    assert_eq!(cpu.pc, 0x0002);
    assert_eq!(cpu.registers.f, F(false, false, false, true));
}
