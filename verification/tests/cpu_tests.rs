use gb_core::arithmetictarget::{ArithmeticTarget, WideArithmeticTarget};
use gb_core::cpu::create_cpu;
use gb_core::instruction::{Instruction, JumpTest, JumpType};
use std::ops::Not;

#[test]
fn add() {
    let mut cpu = create_cpu();
    cpu.registers.set_a(1);
    cpu.registers.set_b(2);
    let instruction = Instruction::Add(ArithmeticTarget::B);
    cpu.execute(instruction);
    assert_eq!(cpu.registers.a(), 3)
}

#[test]
fn adc() {
    let mut cpu = create_cpu();
    cpu.registers.set_a(1);
    cpu.registers.set_b(2);
    let instruction = Instruction::Adc(ArithmeticTarget::B);
    cpu.execute(instruction);
    assert_eq!(cpu.registers.a(), 3);
    assert!(cpu.registers.f().carry().not());
    // testing overflow
    cpu.registers.set_a(250);
    cpu.registers.set_b(7);
    let instruction = Instruction::Adc(ArithmeticTarget::B);
    cpu.execute(instruction);
    assert_eq!(cpu.registers.a(), 1);
    assert!(cpu.registers.f().carry());
}

#[test]
fn sub() {
    let mut cpu = create_cpu();
    cpu.registers.set_a(0);
    cpu.registers.set_b(1);
    let instruction = Instruction::Sub(ArithmeticTarget::B);
    cpu.execute(instruction);
    assert_eq!(cpu.registers.a(), 255);
    assert!(cpu.registers.f().carry());
    // testing overflow
    cpu.registers.set_a(4);
    cpu.registers.set_b(1);
    let instruction = Instruction::Sub(ArithmeticTarget::B);
    cpu.execute(instruction);
    assert_eq!(cpu.registers.a(), 3);
}

#[test]
fn sbc() {
    let mut cpu = create_cpu();
    cpu.registers.set_a(0);
    cpu.registers.set_b(1);
    let instruction = Instruction::Sub(ArithmeticTarget::B);
    cpu.execute(instruction);
    assert_eq!(cpu.registers.a(), 255);
    assert!(cpu.registers.f().carry());
    let instruction = Instruction::Sub(ArithmeticTarget::B);
    cpu.execute(instruction);
    assert_eq!(cpu.registers.a(), 254);
    assert!(cpu.registers.f().carry().not());
}

#[test]
fn and() {
    let mut cpu = create_cpu();
    cpu.registers.set_a(0xf0);
    cpu.registers.set_b(0x0f);
    let instruction = Instruction::And(ArithmeticTarget::B);
    cpu.execute(instruction);
    assert_eq!(cpu.registers.a(), 0);
    assert!(cpu.registers.f().carry().not());
}

#[test]
fn xor() {
    let mut cpu = create_cpu();
    cpu.registers.set_a(0xf0);
    cpu.registers.set_b(0x0f);
    let instruction = Instruction::Xor(ArithmeticTarget::B);
    cpu.execute(instruction);
    assert_eq!(cpu.registers.a(), 0xff);
    assert!(cpu.registers.f().carry().not());
    cpu.registers.set_a(0x0f);
    let instruction = Instruction::Xor(ArithmeticTarget::B);
    cpu.execute(instruction);
    assert_eq!(cpu.registers.a(), 0x00);
    assert!(cpu.registers.f().carry().not());
}

#[test]
fn or() {
    let mut cpu = create_cpu();
    cpu.registers.set_a(0xf0);
    cpu.registers.set_b(0x0f);
    let instruction = Instruction::Or(ArithmeticTarget::B);
    cpu.execute(instruction);
    assert_eq!(cpu.registers.a(), 0xff);
    assert!(cpu.registers.f().carry().not());
    cpu.registers.set_a(0x0f);
    let instruction = Instruction::Or(ArithmeticTarget::B);
    cpu.execute(instruction);
    assert_eq!(cpu.registers.a(), 0x0f);
    assert!(cpu.registers.f().carry().not());
}

#[test]
fn cp() {
    let mut cpu = create_cpu();
    // A > B
    cpu.registers.set_a(0xf0);
    cpu.registers.set_b(0x0f);
    let instruction = Instruction::Cp(ArithmeticTarget::B);
    cpu.execute(instruction);
    assert_eq!(cpu.registers.a(), 0xf0);
    assert!(cpu.registers.f().carry().not());
    assert!(cpu.registers.f().zero().not());
    // Eq
    cpu.registers.set_a(0x0f);
    let instruction = Instruction::Cp(ArithmeticTarget::B);
    cpu.execute(instruction);
    assert_eq!(cpu.registers.a(), 0x0f);
    assert!(cpu.registers.f().carry().not());
    assert!(cpu.registers.f().zero());
    // B > A
    cpu.registers.set_a(0x0e);
    let instruction = Instruction::Cp(ArithmeticTarget::B);
    cpu.execute(instruction);
    assert_eq!(cpu.registers.a(), 0x0e);
    assert!(cpu.registers.f().carry());
    assert!(cpu.registers.f().zero().not());
}

#[test]
fn inc() {
    let mut cpu = create_cpu();
    cpu.registers.set_b(0x0f);
    let instruction = Instruction::Inc(ArithmeticTarget::B);
    cpu.execute(instruction);
    assert_eq!(cpu.registers.b(), 0x10);
    assert!(cpu.registers.f().carry().not());
    assert!(cpu.registers.f().zero().not());

    cpu.registers.set_b(0xff);
    let instruction = Instruction::Inc(ArithmeticTarget::B);
    cpu.execute(instruction);
    assert_eq!(cpu.registers.b(), 0x0);
    assert!(cpu.registers.f().carry().not());
    assert!(cpu.registers.f().zero());
}

#[test]
fn dec() {
    let mut cpu = create_cpu();
    cpu.registers.set_b(0x01);
    let instruction = Instruction::Dec(ArithmeticTarget::B);
    cpu.execute(instruction);
    assert_eq!(cpu.registers.b(), 0x0);
    assert!(cpu.registers.f().carry().not());
    assert!(cpu.registers.f().zero());

    cpu.registers.set_b(0xff);
    let instruction = Instruction::Dec(ArithmeticTarget::B);
    cpu.execute(instruction);
    assert_eq!(cpu.registers.b(), 0xfe);
    assert!(cpu.registers.f().carry().not());
    assert!(cpu.registers.f().zero().not());
}

#[test]
fn cpl() {
    let mut cpu = create_cpu();

    cpu.registers.set_a(0x01);
    let instruction = Instruction::Cpl;
    cpu.execute(instruction);
    assert_eq!(cpu.registers.a(), 0xfe);
    assert!(cpu.registers.f().half_carry());
    assert!(cpu.registers.f().subtract());
}

#[test]
fn add_hl() {
    // The 16-bit register adds are not part of the modeled opcode set:
    // their opcodes decode to nothing and a step runs them as a no-op.
    assert!(Instruction::from_byte(0x09).is_none());
    assert!(Instruction::from_byte(0x19).is_none());
    assert!(Instruction::from_byte(0x29).is_none());
    assert!(Instruction::from_byte(0x39).is_none());
}

#[test]
fn cpu_tests_inc() {
    let mut cpu = create_cpu();
    cpu.registers.set_bc(0x00ff);
    let instruction = Instruction::Inc16(WideArithmeticTarget::BC);
    cpu.execute(instruction);
    assert_eq!(cpu.registers.bc(), 0x0100);
    // wrap around
    cpu.registers.set_bc(0xffff);
    let instruction = Instruction::Inc16(WideArithmeticTarget::BC);
    cpu.execute(instruction);
    assert_eq!(cpu.registers.bc(), 0x0000);
}

#[test]
fn cpu_tests_dec() {
    let mut cpu = create_cpu();
    cpu.registers.set_de(0x0100);
    let instruction = Instruction::Dec16(WideArithmeticTarget::DE);
    cpu.execute(instruction);
    assert_eq!(cpu.registers.de(), 0x00ff);
    // wrap around
    cpu.registers.set_de(0x0000);
    let instruction = Instruction::Dec16(WideArithmeticTarget::DE);
    cpu.execute(instruction);
    assert_eq!(cpu.registers.de(), 0xffff);
}

#[test]
fn add_sp() {
    let mut cpu = create_cpu();
    cpu.sp = 0xFFFC;
    // word on top of the stack
    cpu.memory.write_byte(0xFFFC, 0x34);
    cpu.memory.write_byte(0xFFFD, 0x12);
    // the byte following the opcode
    cpu.memory.write_byte(0x0001, 0x05);
    let (next_pc, delay) = cpu.execute(Instruction::AddSp);
    assert_eq!(next_pc, 2);
    assert_eq!(delay, 16);
    // the top-of-stack word was adjusted in place
    assert_eq!(cpu.sp, 0xFFFC);
    assert_eq!(cpu.memory.read_byte(0xFFFC), 0x39);
    assert_eq!(cpu.memory.read_byte(0xFFFD), 0x12);
}

#[test]
fn ld() {
    let mut cpu = create_cpu();
    cpu.registers.set_b(7);
    let instruction = Instruction::Load { to: ArithmeticTarget::A, from: ArithmeticTarget::B };
    cpu.execute(instruction);
    assert_eq!(cpu.registers.a(), 7);
    // through memory, with the post-increment form
    cpu.registers.set_hl(0xC123);
    cpu.memory.write_byte(0xC123, 0x42);
    let instruction = Instruction::Load { to: ArithmeticTarget::A, from: ArithmeticTarget::HLInc };
    cpu.execute(instruction);
    assert_eq!(cpu.registers.a(), 0x42);
    assert_eq!(cpu.registers.hl(), 0xC124);
}

#[test]
fn rlca() {
    let mut cpu = create_cpu();
    cpu.registers.set_a(0b0100_0000);
    let instruction = Instruction::Rlc(ArithmeticTarget::A);
    cpu.execute(instruction);
    assert_eq!(cpu.registers.a(), 0b1000_0000);
    assert!(cpu.registers.f().carry().not());

    let instruction = Instruction::Rlc(ArithmeticTarget::A);
    cpu.execute(instruction);
    assert_eq!(cpu.registers.a(), 0b0000_0001);
    assert!(cpu.registers.f().carry());
}

#[test]
fn rla() {
    let mut cpu = create_cpu();
    cpu.registers.set_a(0b0100_0000);
    let instruction = Instruction::Rla;
    cpu.execute(instruction);
    assert_eq!(cpu.registers.a(), 0b1000_0000);
    assert!(cpu.registers.f().carry().not());

    let instruction = Instruction::Rla;
    cpu.execute(instruction);
    assert_eq!(cpu.registers.a(), 0b0000_0000);
    assert!(cpu.registers.f().carry());
    assert!(cpu.registers.f().zero());
}

#[test]
fn rrca() {
    let mut cpu = create_cpu();
    cpu.registers.set_a(0b0000_0001);
    let instruction = Instruction::Rrca;
    cpu.execute(instruction);
    assert_eq!(cpu.registers.a(), 0b1000_0000);
    assert!(cpu.registers.f().carry());
}

#[test]
fn rra() {
    let mut cpu = create_cpu();
    cpu.registers.set_a(0b0000_0001);
    let instruction = Instruction::Rrca;
    cpu.execute(instruction);
    assert_eq!(cpu.registers.a(), 0b1000_0000);
    assert!(cpu.registers.f().carry());
}

#[test]
fn rlc() {
    let mut cpu = create_cpu();
    cpu.registers.set_b(0b0100_0000);
    let instruction = Instruction::Rlc(ArithmeticTarget::B);
    cpu.execute(instruction);
    assert_eq!(cpu.registers.b(), 0b1000_0000);
    assert!(cpu.registers.f().carry().not());

    let instruction = Instruction::Rlc(ArithmeticTarget::B);
    cpu.execute(instruction);
    assert_eq!(cpu.registers.b(), 0b0000_0001);
    assert!(cpu.registers.f().carry());
}

#[test]
fn rl() {
    let mut cpu = create_cpu();
    cpu.registers.set_b(0b0100_0000);
    let instruction = Instruction::Rl(ArithmeticTarget::B);
    cpu.execute(instruction);
    assert_eq!(cpu.registers.b(), 0b1000_0000);
    assert!(cpu.registers.f().carry().not());
    // Retrieve carry
    let instruction = Instruction::Rl(ArithmeticTarget::B);
    cpu.execute(instruction);
    assert_eq!(cpu.registers.b(), 0b0000_0000);
    assert!(cpu.registers.f().carry());
    // With carry
    let instruction = Instruction::Rl(ArithmeticTarget::B);
    cpu.execute(instruction);
    assert_eq!(cpu.registers.b(), 0b0000_0001);
    assert!(cpu.registers.f().carry().not());
}

#[test]
fn rrc() {
    let mut cpu = create_cpu();
    cpu.registers.set_b(0b0000_0001);
    let instruction = Instruction::Rrc(ArithmeticTarget::B);
    cpu.execute(instruction);
    assert_eq!(cpu.registers.b(), 0b1000_0000);
    assert!(cpu.registers.f().carry());
}

#[test]
fn rr() {
    let mut cpu = create_cpu();
    cpu.registers.set_b(0b0000_0001);
    let instruction = Instruction::Rr(ArithmeticTarget::B);
    cpu.execute(instruction);
    assert_eq!(cpu.registers.b(), 0b0000_0000);
    assert!(cpu.registers.f().carry());
    assert!(cpu.registers.f().zero());
    // With carry
    let instruction = Instruction::Rr(ArithmeticTarget::B);
    cpu.execute(instruction);
    assert_eq!(cpu.registers.b(), 0b1000_0000);
    assert!(cpu.registers.f().carry().not());
    assert!(cpu.registers.f().zero().not());
}

#[test]
fn sla() {
    let mut cpu = create_cpu();
    cpu.registers.set_b(0b0100_0000);
    let instruction = Instruction::Sla(ArithmeticTarget::B);
    cpu.execute(instruction);
    assert_eq!(cpu.registers.b(), 0b1000_0000);
    assert!(cpu.registers.f().carry().not());

    let instruction = Instruction::Sla(ArithmeticTarget::B);
    cpu.execute(instruction);
    assert_eq!(cpu.registers.b(), 0b0000_0000);
    assert!(cpu.registers.f().carry());
}

#[test]
fn swap() {
    // Not zero
    let mut cpu = create_cpu();
    cpu.registers.set_b(0xFA);
    let instruction = Instruction::Swap(ArithmeticTarget::B);
    cpu.execute(instruction);
    assert_eq!(cpu.registers.b(), 0xAF);
    assert!(cpu.registers.f().carry().not());
    assert!(cpu.registers.f().zero().not());
    assert!(cpu.registers.f().half_carry().not());
    assert!(cpu.registers.f().subtract().not());

    // Zero
    cpu.registers.set_c(0x00);
    let instruction = Instruction::Swap(ArithmeticTarget::C);
    cpu.execute(instruction);
    assert_eq!(cpu.registers.c(), 0x00);
    assert!(cpu.registers.f().carry().not());
    assert!(cpu.registers.f().zero());
    assert!(cpu.registers.f().half_carry().not());
    assert!(cpu.registers.f().subtract().not());
}

#[test]
fn sra() {
    let mut cpu = create_cpu();
    cpu.registers.set_b(0b0000_0010);
    let instruction = Instruction::Sra(ArithmeticTarget::B);
    cpu.execute(instruction);
    assert_eq!(cpu.registers.b(), 0b0000_0001);
    assert!(cpu.registers.f().carry().not());
    assert!(cpu.registers.f().zero().not());

    let instruction = Instruction::Sra(ArithmeticTarget::B);
    cpu.execute(instruction);
    assert_eq!(cpu.registers.b(), 0b0000_0000);
    assert!(cpu.registers.f().carry());
    assert!(cpu.registers.f().zero());
}

#[test]
fn srl() {
    let mut cpu = create_cpu();
    cpu.registers.set_b(0b0000_0010);
    let instruction = Instruction::Srl(ArithmeticTarget::B);
    cpu.execute(instruction);
    assert_eq!(cpu.registers.b(), 0b0000_0001);
    assert!(cpu.registers.f().carry().not());
    assert!(cpu.registers.f().zero().not());

    let instruction = Instruction::Srl(ArithmeticTarget::B);
    cpu.execute(instruction);
    assert_eq!(cpu.registers.b(), 0b0000_0000);
    assert!(cpu.registers.f().carry());
    assert!(cpu.registers.f().zero());
}

#[test]
fn bit() {
    let mut cpu = create_cpu();
    cpu.registers.set_b(0b0100_0000);
    let instruction = Instruction::Bit(ArithmeticTarget::B, 6);
    cpu.execute(instruction);
    assert_eq!(cpu.registers.b(), 0b0100_0000);
    assert!(cpu.registers.f().half_carry());
    assert!(cpu.registers.f().zero().not());
    assert!(cpu.registers.f().subtract().not());
    // not carry; zero
    let instruction = Instruction::Bit(ArithmeticTarget::B, 7);
    cpu.execute(instruction);
    assert_eq!(cpu.registers.b(), 0b0100_0000);
    assert!(cpu.registers.f().half_carry());
    assert!(cpu.registers.f().zero());
    assert!(cpu.registers.f().subtract().not());
}

#[test]
fn set() {
    let mut cpu = create_cpu();
    cpu.registers.set_b(0b0100_0000);
    let instruction = Instruction::SetBit(ArithmeticTarget::B, 6);
    cpu.execute(instruction);
    assert_eq!(cpu.registers.b(), 0b0100_0000);

    let instruction = Instruction::SetBit(ArithmeticTarget::B, 0);
    cpu.execute(instruction);
    assert_eq!(cpu.registers.b(), 0b0100_0001);
}

#[test]
fn res() {
    let mut cpu = create_cpu();
    cpu.registers.set_b(0b0100_0001);
    let instruction = Instruction::Res(ArithmeticTarget::B, 6);
    cpu.execute(instruction);
    assert_eq!(cpu.registers.b(), 0b0000_0001);

    let instruction = Instruction::Res(ArithmeticTarget::B, 2);
    cpu.execute(instruction);
    assert_eq!(cpu.registers.b(), 0b0000_0001);
}

#[test]
fn daa() {
    let mut cpu = create_cpu();
    cpu.registers.set_b(0x01);
    let instruction = Instruction::Dec(ArithmeticTarget::B);
    cpu.execute(instruction);
    assert_eq!(cpu.registers.b(), 0x0);
    assert!(cpu.registers.f().carry().not());
    assert!(cpu.registers.f().zero());
}

#[test]
fn cpu_tests_daa() {
    let mut cpu = create_cpu();

    cpu.registers.set_a(0x00);
    let instruction = Instruction::Daa;
    cpu.execute(instruction);
    assert_eq!(cpu.registers.a(), 0x00);

    cpu.registers.set_a(0x88);
    let instruction = Instruction::Daa;
    cpu.execute(instruction);
    assert_eq!(cpu.registers.a(), 0x88);

    cpu.registers.set_a(0x0f);
    let instruction = Instruction::Daa;
    cpu.execute(instruction);
    assert_eq!(cpu.registers.a(), 0x15);

    cpu.registers.set_a(0xa9);
    let instruction = Instruction::Daa;
    cpu.execute(instruction);
    assert_eq!(cpu.registers.a(), 0x09);
    assert!(cpu.registers.f().carry());

    // Test subtract
    cpu.registers.f_as_mut().set_subtract(true);
    // Carry is set
    cpu.registers.set_a(0xe4);
    let instruction = Instruction::Daa;
    cpu.execute(instruction);
    assert_eq!(cpu.registers.a(), 0x84);
}

#[test]
fn ccf() {
    let mut cpu = create_cpu();
    cpu.registers.f_as_mut().set_carry(true);
    cpu.registers.f_as_mut().set_subtract(true);
    cpu.registers.f_as_mut().set_half_carry(true);
    cpu.execute(Instruction::Ccf);
    assert!(cpu.registers.f().carry().not());
    assert!(cpu.registers.f().subtract().not());
    assert!(cpu.registers.f().half_carry().not());
    cpu.execute(Instruction::Ccf);
    assert!(cpu.registers.f().carry());
}

#[test]
fn scf() {
    let mut cpu = create_cpu();
    cpu.registers.f_as_mut().set_subtract(true);
    cpu.registers.f_as_mut().set_half_carry(true);
    cpu.execute(Instruction::Scf);
    assert!(cpu.registers.f().carry());
    assert!(cpu.registers.f().subtract().not());
    assert!(cpu.registers.f().half_carry().not());
}

#[test]
fn nop() {
    let mut cpu = create_cpu();
    // a zeroed bus holds the no-op opcode everywhere
    let delay = cpu.step();
    assert_eq!(cpu.pc, 1);
    assert_eq!(delay, 1);
    assert!(!cpu.is_halted);
}

#[test]
fn halt() {
    let mut cpu = create_cpu();
    let (next_pc, _delay) = cpu.execute(Instruction::Halt);
    assert!(cpu.is_halted);
    assert_eq!(next_pc, 1);
}

#[test]
fn stop() {
    let mut cpu = create_cpu();
    let (next_pc, delay) = cpu.execute(Instruction::Stop);
    assert_eq!(next_pc, 1);
    assert_eq!(delay, 4);
}

#[test]
fn di() {
    let mut cpu = create_cpu();
    cpu.registers.f_as_mut().set_emi(true);
    cpu.execute(Instruction::DisableInterrupt);
    assert!(cpu.registers.f().emi().not());
}

#[test]
fn ei() {
    let mut cpu = create_cpu();
    cpu.execute(Instruction::EnableInterrupt);
    assert!(cpu.registers.f().emi());
}

#[test]
fn jp_nn() {
    let mut cpu = create_cpu();
    cpu.memory.write_byte(0x0001, 0x34);
    cpu.memory.write_byte(0x0002, 0x12);
    let (next_pc, delay) = cpu.execute(Instruction::Jump(JumpTest::Always, JumpType::Pointer16));
    assert_eq!(next_pc, 0x1234);
    assert_eq!(delay, 16);
}

#[test]
fn jp_hl() {
    let mut cpu = create_cpu();
    cpu.registers.set_hl(0x4242);
    let (next_pc, delay) = cpu.execute(Instruction::Jump(JumpTest::Always, JumpType::HL));
    assert_eq!(next_pc, 0x4242);
    assert_eq!(delay, 4);
}

#[test]
fn jp_conditionnal() {
    let mut cpu = create_cpu();
    cpu.memory.write_byte(0x0001, 0x34);
    cpu.memory.write_byte(0x0002, 0x12);
    // not taken: step over the three instruction bytes
    let (next_pc, delay) = cpu.execute(Instruction::Jump(JumpTest::Zero, JumpType::Pointer16));
    assert_eq!(next_pc, 3);
    assert_eq!(delay, 12);
    // taken once the flag holds
    cpu.registers.f_as_mut().set_zero(true);
    let (next_pc, delay) = cpu.execute(Instruction::Jump(JumpTest::Zero, JumpType::Pointer16));
    assert_eq!(next_pc, 0x1234);
    assert_eq!(delay, 16);
}

#[test]
fn jp_relative() {
    let mut cpu = create_cpu();
    cpu.memory.write_byte(0x0001, 0x05);
    let (next_pc, delay) = cpu.execute(Instruction::Jump(JumpTest::Always, JumpType::Relative8));
    assert_eq!(next_pc, 7);
    assert_eq!(delay, 12);
    // a negative displacement comes back before the instruction
    cpu.pc = 0x0100;
    cpu.memory.write_byte(0x0101, 0xFE);
    let (next_pc, _delay) = cpu.execute(Instruction::Jump(JumpTest::Always, JumpType::Relative8));
    assert_eq!(next_pc, 0x0100);
}

#[test]
fn jp_relative_conditionnal() {
    let mut cpu = create_cpu();
    // the displacement byte is present but never applied when the test fails
    cpu.memory.write_byte(0x0001, 0x40);
    let (next_pc, delay) = cpu.execute(Instruction::Jump(JumpTest::Carry, JumpType::Relative8));
    assert_eq!(next_pc, 2);
    assert_eq!(delay, 8);
}

#[test]
fn call_nn() {
    let mut cpu = create_cpu();
    cpu.sp = 0xFFFE;
    cpu.memory.write_byte(0x0001, 0x34);
    cpu.memory.write_byte(0x0002, 0x12);
    let (next_pc, delay) = cpu.execute(Instruction::Call(JumpTest::Always));
    assert_eq!(next_pc, 0x1234);
    assert_eq!(delay, 12);
    // the address past the 3-byte instruction was pushed
    assert_eq!(cpu.sp, 0xFFFC);
    assert_eq!(cpu.memory.read_byte(0xFFFC), 0x03);
    assert_eq!(cpu.memory.read_byte(0xFFFD), 0x00);
}

#[test]
fn call_conditionnal() {
    let mut cpu = create_cpu();
    cpu.sp = 0xFFFE;
    cpu.registers.f_as_mut().set_zero(true);
    let (next_pc, _delay) = cpu.execute(Instruction::Call(JumpTest::NotZero));
    assert_eq!(next_pc, 3);
    // nothing was pushed
    assert_eq!(cpu.sp, 0xFFFE);
}

#[test]
fn ret() {
    let mut cpu = create_cpu();
    cpu.sp = 0xFFFC;
    cpu.memory.write_byte(0xFFFC, 0x03);
    cpu.memory.write_byte(0xFFFD, 0x00);
    let (next_pc, delay) = cpu.execute(Instruction::Ret(JumpTest::Always));
    assert_eq!(next_pc, 0x0003);
    assert_eq!(delay, 16);
    assert_eq!(cpu.sp, 0xFFFE);
}

#[test]
fn ret_conditionnal() {
    let mut cpu = create_cpu();
    cpu.sp = 0xFFFC;
    let (next_pc, delay) = cpu.execute(Instruction::Ret(JumpTest::Zero));
    assert_eq!(next_pc, 1);
    assert_eq!(delay, 20);
    assert_eq!(cpu.sp, 0xFFFC);
}

#[test]
fn ret_interrupt() {
    // The return-from-interrupt opcode is not part of the modeled set: it
    // decodes to nothing and a step runs it as a no-op.
    assert!(Instruction::from_byte(0xD9).is_none());
}

#[test]
fn rst() {
    let mut cpu = create_cpu();
    cpu.pc = 0x0100;
    cpu.sp = 0xFFFE;
    let (next_pc, delay) = cpu.execute(Instruction::Rst(0x0008));
    assert_eq!(next_pc, 0x0008);
    assert_eq!(delay, 4);
    // the address of the following instruction was pushed
    assert_eq!(cpu.memory.read_byte(0xFFFC), 0x01);
    assert_eq!(cpu.memory.read_byte(0xFFFD), 0x01);
    assert_eq!(cpu.sp, 0xFFFC);
}

#[test]
fn add_flags_for_all_shapes_of_carry() {
    // a + b modulo 256, carry on byte overflow, half-carry on nibble overflow
    let mut cpu = create_cpu();
    cpu.registers.set_a(200);
    cpu.registers.set_b(100);
    cpu.execute(Instruction::Add(ArithmeticTarget::B));
    assert_eq!(cpu.registers.a(), 44);
    assert!(cpu.registers.f().carry());

    cpu.registers.set_a(0x08);
    cpu.registers.set_b(0x08);
    cpu.execute(Instruction::Add(ArithmeticTarget::B));
    assert_eq!(cpu.registers.a(), 0x10);
    assert!(cpu.registers.f().half_carry());
    assert!(cpu.registers.f().carry().not());

    cpu.registers.set_a(0x10);
    cpu.registers.set_b(0x20);
    cpu.execute(Instruction::Add(ArithmeticTarget::B));
    assert_eq!(cpu.registers.a(), 0x30);
    assert!(cpu.registers.f().half_carry().not());
    assert!(cpu.registers.f().carry().not());
    assert!(cpu.registers.f().zero().not());
}

#[test]
fn push_pop_round_trip() {
    // pushing any word and popping it back returns the word and restores SP
    let mut cpu = create_cpu();
    cpu.sp = 0xFFFE;
    for value in [0x0000u16, 0x00FF, 0xABCD, 0xFFFF] {
        cpu.push_word(value);
        assert_eq!(cpu.sp, 0xFFFC);
        let back = cpu.pop_word();
        assert_eq!(back, value);
        assert_eq!(cpu.sp, 0xFFFE);
    }
    // the round trip holds even where the stack pointer wraps
    cpu.sp = 0x0001;
    cpu.push_word(0x1234);
    assert_eq!(cpu.sp, 0xFFFF);
    assert_eq!(cpu.pop_word(), 0x1234);
    assert_eq!(cpu.sp, 0x0001);
}

#[test]
fn bit_twice_leaves_flags_and_operand_alone() {
    let mut cpu = create_cpu();
    cpu.registers.set_hl(0xC050);
    cpu.memory.write_byte(0xC050, 0b0010_0000);
    cpu.registers.f_as_mut().set_carry(true);
    cpu.execute(Instruction::Bit(ArithmeticTarget::HLTarget, 5));
    let first = *cpu.registers.f();
    cpu.execute(Instruction::Bit(ArithmeticTarget::HLTarget, 5));
    let second = *cpu.registers.f();
    assert_eq!(first.zero(), second.zero());
    assert_eq!(first.subtract(), second.subtract());
    assert_eq!(first.half_carry(), second.half_carry());
    assert_eq!(first.carry(), second.carry());
    // the operand is never written back
    assert_eq!(cpu.memory.read_byte(0xC050), 0b0010_0000);
    assert!(first.carry());
    assert!(first.zero().not());
}

#[test]
fn step_decodes_prefixed_opcodes() {
    let mut cpu = create_cpu();
    // SWAP B through the prefix byte
    cpu.memory.write_byte(0x0000, 0xCB);
    cpu.memory.write_byte(0x0001, 0x30);
    cpu.registers.set_b(0xFA);
    cpu.step();
    assert_eq!(cpu.registers.b(), 0xAF);
    assert_eq!(cpu.pc, 2);
}

#[test]
fn step_runs_unknown_opcodes_as_nop() {
    let mut cpu = create_cpu();
    cpu.memory.write_byte(0x0000, 0xD3);
    cpu.step();
    assert_eq!(cpu.pc, 1);
}
