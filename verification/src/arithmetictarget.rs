use vstd::prelude::*;

verus! {

/// Where a 16-bit operand is read from or written to.
#[derive(Debug, Clone, Copy)]
pub enum WideArithmeticTarget {
    // Double register
    HL,
    BC,
    DE,
    AF,
    // Stack pointer
    SP,
    // The word following the opcode (read-only)
    ReadWord,
    // The address following the opcode (write-only, for storing SP to memory)
    ReadAddress,
}

/// Where an 8-bit operand is read from or written to.
#[derive(Debug, Clone, Copy)]
pub enum ArithmeticTarget {
    // registers
    A,
    B,
    C,
    D,
    E,
    H,
    L,
    // The byte following the opcode (read-only)
    ReadByte,
    // High-page access at 0xFF00 plus the byte following the opcode
    FFRead,
    // High-page access at 0xFF00 plus the content of register C
    FFC,
    // Memory pointed to by a register pair
    BCTarget,
    DETarget,
    HLTarget,
    // Memory pointed to by HL; the access decrements or increments HL
    HLDec,
    HLInc,
}

} // verus!
