use gb_core::flagsregister::FlagsRegister;
use gb_core::registers::Registers;

#[test]
fn hl() {
    let mut registers = Registers::new();
    assert_eq!(registers.hl(), 0);
    registers.set_hl(42);
    assert_eq!(registers.hl(), 42);
    registers.set_hl(0xFFEE);
    assert_eq!(registers.hl(), 0xFFEE);
    assert_eq!(registers.l(), 0xEE);
    assert_eq!(registers.h(), 0xFF);
}

#[test]
fn de() {
    let mut registers = Registers::new();
    assert_eq!(registers.de(), 0);
    registers.set_de(42);
    assert_eq!(registers.de(), 42);
    registers.set_de(0xFFEE);
    assert_eq!(registers.de(), 0xFFEE);
    assert_eq!(registers.e(), 0xEE);
    assert_eq!(registers.d(), 0xFF);
}

#[test]
fn bc() {
    let mut registers = Registers::new();
    registers.set_bc(0x1234);
    assert_eq!(registers.bc(), 0x1234);
    assert_eq!(registers.b(), 0x12);
    assert_eq!(registers.c(), 0x34);
    registers.set_b(0x56);
    assert_eq!(registers.bc(), 0x5634);
}

#[test]
fn af_packs_the_flags_into_the_low_byte() {
    let mut registers = Registers::new();
    registers.set_a(0x12);
    registers.f_as_mut().set_zero(true);
    registers.f_as_mut().set_carry(true);
    // zero at bit 7, carry at bit 4
    assert_eq!(registers.af(), 0x1290);
    // setting AF re-derives the flags from the byte, dropping the low bits
    registers.set_af(0x3465);
    assert_eq!(registers.a(), 0x34);
    assert!(registers.f().subtract());
    assert!(registers.f().half_carry());
    assert!(!registers.f().carry());
    assert!(!registers.f().zero());
    // bits 0 and 2 of 0x65 carry nothing and vanish in the packed view
    assert_eq!(registers.af(), 0x3460);
}

#[test]
fn flags_byte_round_trip() {
    let flags = FlagsRegister::from_byte(0b1011_1000);
    assert!(flags.zero());
    assert!(!flags.subtract());
    assert!(flags.half_carry());
    assert!(flags.carry());
    assert!(flags.emi());
    assert_eq!(flags.to_byte(), 0b1011_1000);
    // the low three bits of the byte carry nothing
    assert_eq!(FlagsRegister::from_byte(0b1011_1111).to_byte(), 0b1011_1000);
}
