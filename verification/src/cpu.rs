use vstd::prelude::*;

verus! {

use crate::arithmetictarget::{ArithmeticTarget, WideArithmeticTarget};
use crate::flagsregister::FlagsRegister;
use crate::instruction::{Instruction, JumpTest, JumpType};
use crate::memorybus::{mapped, MemoryBus};
use crate::registers::Registers;
use vstd::arithmetic::div_mod::{
    lemma_add_mod_noop, lemma_fundamental_div_mod, lemma_mod_twice,
};
use vstd::pervasive::unreached;

/// Reduce an integer into the 16-bit space: address, stack and
/// program-counter arithmetic all wrap on the machine.
pub open spec fn wrap16(x: int) -> u16 {
    (x % 0x10000) as u16
}

/// Wrapped arithmetic distributes over 16-bit reduction.
pub proof fn lemma_wrap16_add(a: int, b: int)
    ensures
        wrap16(wrap16(a) + b) == wrap16(a + b),
{
    lemma_mod_twice(a, 0x10000);
    lemma_add_mod_noop(a % 0x10000, b, 0x10000);
    lemma_add_mod_noop(a, b, 0x10000);
}

/// Number of cycles one step costs, for external pacing.
pub type Delay = u32;

/// A program-counter value.
pub type ProgramCounter = u16;

/// The execution engine: the register file, the program counter, the stack
/// pointer, the halt state and the memory bus it owns.
pub struct Cpu {
    pub registers: Registers,
    pub pc: ProgramCounter,
    pub sp: u16,
    pub is_halted: bool,
    pub memory: MemoryBus,
}

impl Cpu {
    /// The machine is well formed when its bus is.
    pub open spec fn wf(self) -> bool {
        self.memory.wf()
    }

    /// The byte `k` places after the program counter, wrapping.
    pub open spec fn byte_after_pc(self, k: int) -> u8 {
        self.memory@[wrap16(self.pc + k) as int]
    }

    /// The high-page address an FFRead operand denotes: 0xFF00 plus the byte
    /// following the opcode.
    pub open spec fn ffread_addr(self) -> u16 {
        (0xFF00 + self.byte_after_pc(1)) as u16
    }

    /// The word following the opcode, little-endian.
    pub open spec fn word_after_pc(self) -> u16 {
        (self.byte_after_pc(1) + self.byte_after_pc(2) * 256) as u16
    }

    /// The value an 8-bit operand denotes, before any side effect.
    pub open spec fn read8(self, t: ArithmeticTarget) -> u8 {
        match t {
            ArithmeticTarget::A => self.registers.a,
            ArithmeticTarget::B => self.registers.b,
            ArithmeticTarget::C => self.registers.c,
            ArithmeticTarget::D => self.registers.d,
            ArithmeticTarget::E => self.registers.e,
            ArithmeticTarget::H => self.registers.h,
            ArithmeticTarget::L => self.registers.l,
            ArithmeticTarget::ReadByte => self.byte_after_pc(1),
            ArithmeticTarget::FFRead => self.memory@[self.ffread_addr() as int],
            ArithmeticTarget::FFC => self.memory@[0xFF00 + self.registers.c],
            ArithmeticTarget::BCTarget => self.memory@[self.registers.spec_bc() as int],
            ArithmeticTarget::DETarget => self.memory@[self.registers.spec_de() as int],
            ArithmeticTarget::HLTarget => self.memory@[self.registers.spec_hl() as int],
            ArithmeticTarget::HLDec => self.memory@[self.registers.spec_hl() as int],
            ArithmeticTarget::HLInc => self.memory@[self.registers.spec_hl() as int],
        }
    }

    /// Operand bytes a read of the target consumes beyond the opcode.
    pub open spec fn read8_bytes(t: ArithmeticTarget) -> u16 {
        match t {
            ArithmeticTarget::ReadByte => 1,
            ArithmeticTarget::FFRead => 1,
            _ => 0,
        }
    }

    /// Extra cycles a read of the target costs.
    pub open spec fn read8_delay(t: ArithmeticTarget) -> Delay {
        match t {
            ArithmeticTarget::A => 0,
            ArithmeticTarget::B => 0,
            ArithmeticTarget::C => 0,
            ArithmeticTarget::D => 0,
            ArithmeticTarget::E => 0,
            ArithmeticTarget::H => 0,
            ArithmeticTarget::L => 0,
            ArithmeticTarget::ReadByte => 4,
            ArithmeticTarget::FFRead => 4,
            ArithmeticTarget::FFC => 4,
            ArithmeticTarget::BCTarget => 4,
            ArithmeticTarget::DETarget => 4,
            ArithmeticTarget::HLTarget => 4,
            ArithmeticTarget::HLDec => 8,
            ArithmeticTarget::HLInc => 8,
        }
    }

    /// Every address a read of the target touches is mapped.
    pub open spec fn read8_ok(self, t: ArithmeticTarget) -> bool {
        match t {
            ArithmeticTarget::ReadByte => mapped(wrap16(self.pc + 1)),
            ArithmeticTarget::FFRead => mapped(wrap16(self.pc + 1)) && mapped(self.ffread_addr()),
            ArithmeticTarget::FFC => mapped((0xFF00 + self.registers.c) as u16),
            ArithmeticTarget::BCTarget => mapped(self.registers.spec_bc()),
            ArithmeticTarget::DETarget => mapped(self.registers.spec_de()),
            ArithmeticTarget::HLTarget => mapped(self.registers.spec_hl()),
            ArithmeticTarget::HLDec => mapped(self.registers.spec_hl()),
            ArithmeticTarget::HLInc => mapped(self.registers.spec_hl()),
            _ => true,
        }
    }

    /// The registers after the operand access's own side effect: only the
    /// post-increment and post-decrement forms move HL.
    pub open spec fn regs_after_read8(self, t: ArithmeticTarget) -> Registers {
        match t {
            ArithmeticTarget::HLInc => self.registers.with_hl(
                wrap16(self.registers.spec_hl() + 1),
            ),
            ArithmeticTarget::HLDec => self.registers.with_hl(
                wrap16(self.registers.spec_hl() - 1),
            ),
            _ => self.registers,
        }
    }

    /// The machine after reading an 8-bit operand: memory is untouched and
    /// only HL may have moved.
    pub open spec fn after_read8(self, t: ArithmeticTarget) -> Cpu {
        Cpu { registers: self.regs_after_read8(t), ..self }
    }

    /// Every address a write to the target touches is mapped; the "next
    /// byte" operand is read-only, so a write to it is a programming
    /// invariant violation and admits no state at all.
    pub open spec fn write8_ok(self, t: ArithmeticTarget) -> bool {
        match t {
            ArithmeticTarget::ReadByte => false,
            ArithmeticTarget::FFRead => mapped(wrap16(self.pc + 1)) && mapped(self.ffread_addr()),
            ArithmeticTarget::FFC => mapped((0xFF00 + self.registers.c) as u16),
            ArithmeticTarget::BCTarget => mapped(self.registers.spec_bc()),
            ArithmeticTarget::DETarget => mapped(self.registers.spec_de()),
            ArithmeticTarget::HLTarget => mapped(self.registers.spec_hl()),
            ArithmeticTarget::HLDec => mapped(self.registers.spec_hl()),
            ArithmeticTarget::HLInc => mapped(self.registers.spec_hl()),
            _ => true,
        }
    }

    /// Operand bytes a write to the target consumes beyond the opcode.
    pub open spec fn write8_bytes(t: ArithmeticTarget) -> u16 {
        match t {
            ArithmeticTarget::FFRead => 1,
            _ => 0,
        }
    }

    /// Extra cycles a write to the target costs.
    pub open spec fn write8_delay(t: ArithmeticTarget) -> Delay {
        match t {
            ArithmeticTarget::A => 0,
            ArithmeticTarget::B => 0,
            ArithmeticTarget::C => 0,
            ArithmeticTarget::D => 0,
            ArithmeticTarget::E => 0,
            ArithmeticTarget::H => 0,
            ArithmeticTarget::L => 0,
            _ => 4,
        }
    }

    /// A memory-target write: the byte lands at `addr`, the registers become
    /// `regs` (HL may have moved), and nothing else changes.
    pub open spec fn mem_write8_post(self, post: Cpu, addr: u16, v: u8, regs: Registers) -> bool {
        &&& post.registers == regs
        &&& post.pc == self.pc
        &&& post.sp == self.sp
        &&& post.is_halted == self.is_halted
        &&& post.memory.wf()
        &&& post.memory@ == self.memory@.update(addr as int, v)
    }

    /// What writing the value `v` to the target does to the machine.
    pub open spec fn write8_post(self, t: ArithmeticTarget, v: u8, post: Cpu) -> bool {
        match t {
            ArithmeticTarget::A => post == Cpu {
                registers: Registers { a: v, ..self.registers },
                ..self
            },
            ArithmeticTarget::B => post == Cpu {
                registers: Registers { b: v, ..self.registers },
                ..self
            },
            ArithmeticTarget::C => post == Cpu {
                registers: Registers { c: v, ..self.registers },
                ..self
            },
            ArithmeticTarget::D => post == Cpu {
                registers: Registers { d: v, ..self.registers },
                ..self
            },
            ArithmeticTarget::E => post == Cpu {
                registers: Registers { e: v, ..self.registers },
                ..self
            },
            ArithmeticTarget::H => post == Cpu {
                registers: Registers { h: v, ..self.registers },
                ..self
            },
            ArithmeticTarget::L => post == Cpu {
                registers: Registers { l: v, ..self.registers },
                ..self
            },
            ArithmeticTarget::ReadByte => false,
            ArithmeticTarget::FFRead => self.mem_write8_post(
                post,
                self.ffread_addr(),
                v,
                self.registers,
            ),
            ArithmeticTarget::FFC => self.mem_write8_post(
                post,
                (0xFF00 + self.registers.c) as u16,
                v,
                self.registers,
            ),
            ArithmeticTarget::BCTarget => self.mem_write8_post(
                post,
                self.registers.spec_bc(),
                v,
                self.registers,
            ),
            ArithmeticTarget::DETarget => self.mem_write8_post(
                post,
                self.registers.spec_de(),
                v,
                self.registers,
            ),
            ArithmeticTarget::HLTarget => self.mem_write8_post(
                post,
                self.registers.spec_hl(),
                v,
                self.registers,
            ),
            ArithmeticTarget::HLDec => self.mem_write8_post(
                post,
                self.registers.spec_hl(),
                v,
                self.registers.with_hl(wrap16(self.registers.spec_hl() - 1)),
            ),
            ArithmeticTarget::HLInc => self.mem_write8_post(
                post,
                self.registers.spec_hl(),
                v,
                self.registers.with_hl(wrap16(self.registers.spec_hl() + 1)),
            ),
        }
    }

    /// The value a 16-bit operand denotes.
    pub open spec fn read16(self, t: WideArithmeticTarget) -> u16 {
        match t {
            WideArithmeticTarget::HL => self.registers.spec_hl(),
            WideArithmeticTarget::BC => self.registers.spec_bc(),
            WideArithmeticTarget::DE => self.registers.spec_de(),
            WideArithmeticTarget::AF => self.registers.spec_af(),
            WideArithmeticTarget::SP => self.sp,
            WideArithmeticTarget::ReadWord => self.word_after_pc(),
            WideArithmeticTarget::ReadAddress => 0,
        }
    }

    /// Operand bytes a 16-bit read consumes beyond the opcode.
    pub open spec fn read16_bytes(t: WideArithmeticTarget) -> u16 {
        match t {
            WideArithmeticTarget::ReadWord => 2,
            _ => 0,
        }
    }

    /// Extra cycles a 16-bit read costs.
    pub open spec fn read16_delay(t: WideArithmeticTarget) -> Delay {
        match t {
            WideArithmeticTarget::ReadWord => 4,
            _ => 0,
        }
    }

    /// A 16-bit read is feasible: the write-only address operand has no
    /// value to read, and fetched operand bytes must be mapped.
    pub open spec fn read16_ok(self, t: WideArithmeticTarget) -> bool {
        match t {
            WideArithmeticTarget::ReadWord => mapped(wrap16(self.pc + 1)) && mapped(
                wrap16(self.pc + 2),
            ),
            WideArithmeticTarget::ReadAddress => false,
            _ => true,
        }
    }

    /// A 16-bit write is feasible: the word operand is read-only, and a
    /// store through the address operand must land on mapped addresses.
    pub open spec fn write16_ok(self, t: WideArithmeticTarget) -> bool {
        match t {
            WideArithmeticTarget::ReadWord => false,
            WideArithmeticTarget::ReadAddress => mapped(wrap16(self.pc + 1)) && mapped(
                wrap16(self.pc + 2),
            ) && self.word_after_pc() < 0xFFFF && mapped(self.word_after_pc()) && mapped(
                (self.word_after_pc() + 1) as u16,
            ),
            _ => true,
        }
    }

    /// Operand bytes a 16-bit write consumes beyond the opcode.
    pub open spec fn write16_bytes(t: WideArithmeticTarget) -> u16 {
        match t {
            WideArithmeticTarget::ReadAddress => 2,
            _ => 0,
        }
    }

    /// Extra cycles a 16-bit write costs.
    pub open spec fn write16_delay(t: WideArithmeticTarget) -> Delay {
        match t {
            WideArithmeticTarget::ReadAddress => 2,
            _ => 0,
        }
    }

    /// What writing the value `v` to the wide target does to the machine.
    pub open spec fn write16_post(self, t: WideArithmeticTarget, v: u16, post: Cpu) -> bool {
        match t {
            WideArithmeticTarget::HL => post == Cpu {
                registers: self.registers.with_hl(v),
                ..self
            },
            WideArithmeticTarget::BC => post == Cpu {
                registers: Registers {
                    b: (v / 256) as u8,
                    c: (v % 256) as u8,
                    ..self.registers
                },
                ..self
            },
            WideArithmeticTarget::DE => post == Cpu {
                registers: Registers {
                    d: (v / 256) as u8,
                    e: (v % 256) as u8,
                    ..self.registers
                },
                ..self
            },
            WideArithmeticTarget::AF => post == Cpu {
                registers: Registers {
                    a: (v / 256) as u8,
                    f: FlagsRegister::spec_from_byte((v % 256) as u8),
                    ..self.registers
                },
                ..self
            },
            WideArithmeticTarget::SP => post == Cpu { sp: v, ..self },
            WideArithmeticTarget::ReadWord => false,
            WideArithmeticTarget::ReadAddress => {
                let addr = self.word_after_pc();
                &&& post.registers == self.registers
                &&& post.pc == self.pc
                &&& post.sp == self.sp
                &&& post.is_halted == self.is_halted
                &&& post.memory.wf()
                &&& post.memory@ == self.memory@.update(addr as int, (v % 256) as u8).update(
                    addr + 1,
                    (v / 256) as u8,
                )
            },
        }
    }

    /// A push lands the word below the old stack top and moves SP down by
    /// exactly 2: high byte first, low byte below it.
    pub open spec fn push_post(self, value: u16, post: Cpu) -> bool {
        &&& post.registers == self.registers
        &&& post.pc == self.pc
        &&& post.is_halted == self.is_halted
        &&& post.sp == wrap16(self.sp - 2)
        &&& post.memory.wf()
        &&& post.memory@ == self.memory@.update(wrap16(self.sp - 1) as int, (value / 256) as u8)
            .update(wrap16(self.sp - 2) as int, (value % 256) as u8)
    }

    /// The two stack bytes a push touches are mapped.
    pub open spec fn push_ok(self) -> bool {
        mapped(wrap16(self.sp - 1)) && mapped(wrap16(self.sp - 2))
    }

    /// A pop reads the low byte at SP and the high byte above it and moves
    /// SP up by exactly 2: the mirror image of a push.
    pub open spec fn pop_post(self, post: Cpu, r: u16) -> bool {
        &&& r == self.memory@[self.sp as int] + self.memory@[wrap16(self.sp + 1) as int] * 256
        &&& post == Cpu { sp: wrap16(self.sp + 2), ..self }
    }

    /// The two stack bytes a pop touches are mapped.
    pub open spec fn pop_ok(self) -> bool {
        mapped(self.sp) && mapped(wrap16(self.sp + 1))
    }

    pub fn new(memory: MemoryBus) -> (r: Self)
        ensures
            r.registers == Registers::spec_new(),
            r.pc == 0,
            r.sp == 0,
            !r.is_halted,
            r.memory == memory,
    {
        Self { registers: Registers::new(), pc: 0, sp: 0, is_halted: false, memory }
    }

    /// Read an 8-bit operand: its value, the operand bytes consumed beyond
    /// the opcode, and the cycles the access cost.
    pub fn read_value(&mut self, target: &ArithmeticTarget) -> (r: (u8, ProgramCounter, Delay))
        requires
            old(self).wf(),
            old(self).read8_ok(*target),
        ensures
            *final(self) == old(self).after_read8(*target),
            r.0 == old(self).read8(*target),
            r.1 == Cpu::read8_bytes(*target),
            r.2 == Cpu::read8_delay(*target),
    {
        match target {
            ArithmeticTarget::A => (self.registers.a(), 0, 0),
            ArithmeticTarget::B => (self.registers.b(), 0, 0),
            ArithmeticTarget::C => (self.registers.c(), 0, 0),
            ArithmeticTarget::D => (self.registers.d(), 0, 0),
            ArithmeticTarget::E => (self.registers.e(), 0, 0),
            ArithmeticTarget::H => (self.registers.h(), 0, 0),
            ArithmeticTarget::L => (self.registers.l(), 0, 0),
            // Memory
            ArithmeticTarget::BCTarget => (self.memory.read_byte(self.registers.bc()), 0, 4),
            ArithmeticTarget::DETarget => (self.memory.read_byte(self.registers.de()), 0, 4),
            ArithmeticTarget::HLTarget => (self.memory.read_byte(self.registers.hl()), 0, 4),
            ArithmeticTarget::FFC => (
                self.memory.read_byte(0xFF00 + self.registers.c() as u16),
                0,
                4,
            ),
            ArithmeticTarget::FFRead => {
                let offset = self.memory.read_byte(self.pc.wrapping_add(1));
                (self.memory.read_byte(0xFF00 + offset as u16), 1, 4)
            },
            ArithmeticTarget::ReadByte => (self.memory.read_byte(self.pc.wrapping_add(1)), 1, 4),
            // Read the value pointed to by HL, then increment HL
            ArithmeticTarget::HLInc => {
                let address = self.registers.hl();
                let value = self.memory.read_byte(address);
                self.registers.set_hl(address.wrapping_add(1));
                (value, 0, 8)
            },
            // Read the value pointed to by HL, then decrement HL
            ArithmeticTarget::HLDec => {
                let address = self.registers.hl();
                let value = self.memory.read_byte(address);
                self.registers.set_hl(address.wrapping_sub(1));
                (value, 0, 8)
            },
        }
    }

    /// Read a 16-bit operand: its value, the operand bytes consumed beyond
    /// the opcode, and the cycles the access cost.
    pub fn read_value_16(&self, target: &WideArithmeticTarget) -> (r: (u16, ProgramCounter, Delay))
        requires
            self.wf(),
            self.read16_ok(*target),
        ensures
            r.0 == self.read16(*target),
            r.1 == Cpu::read16_bytes(*target),
            r.2 == Cpu::read16_delay(*target),
    {
        match target {
            WideArithmeticTarget::HL => (self.registers.hl(), 0, 0),
            WideArithmeticTarget::BC => (self.registers.bc(), 0, 0),
            WideArithmeticTarget::DE => (self.registers.de(), 0, 0),
            WideArithmeticTarget::AF => (self.registers.af(), 0, 0),
            WideArithmeticTarget::SP => (self.sp, 0, 0),
            WideArithmeticTarget::ReadWord => {
                let low = self.memory.read_byte(self.pc.wrapping_add(1));
                let high = self.memory.read_byte(self.pc.wrapping_add(2));
                ((low as u16) + (high as u16) * 256, 2, 4)
            },
            WideArithmeticTarget::ReadAddress => unreached(),
        }
    }

    /// Write the provided value to the 8-bit target: the operand bytes
    /// consumed beyond the opcode and the cycles the access cost.
    pub fn write_value(&mut self, target: &ArithmeticTarget, value: u8) -> (r: (
        ProgramCounter,
        Delay,
    ))
        requires
            old(self).wf(),
            old(self).write8_ok(*target),
        ensures
            old(self).write8_post(*target, value, *final(self)),
            r.0 == Cpu::write8_bytes(*target),
            r.1 == Cpu::write8_delay(*target),
            final(self).pc == old(self).pc,
    {
        match target {
            ArithmeticTarget::A => {
                self.registers.set_a(value);
                (0, 0)
            },
            ArithmeticTarget::B => {
                self.registers.set_b(value);
                (0, 0)
            },
            ArithmeticTarget::C => {
                self.registers.set_c(value);
                (0, 0)
            },
            ArithmeticTarget::D => {
                self.registers.set_d(value);
                (0, 0)
            },
            ArithmeticTarget::E => {
                self.registers.set_e(value);
                (0, 0)
            },
            ArithmeticTarget::H => {
                self.registers.set_h(value);
                (0, 0)
            },
            ArithmeticTarget::L => {
                self.registers.set_l(value);
                (0, 0)
            },
            ArithmeticTarget::BCTarget => {
                let address = self.registers.bc();
                self.memory.write_byte(address, value);
                (0, 4)
            },
            ArithmeticTarget::DETarget => {
                let address = self.registers.de();
                self.memory.write_byte(address, value);
                (0, 4)
            },
            ArithmeticTarget::HLTarget => {
                let address = self.registers.hl();
                self.memory.write_byte(address, value);
                (0, 4)
            },
            ArithmeticTarget::FFRead => {
                let offset = self.memory.read_byte(self.pc.wrapping_add(1));
                let address = 0xFF00 + (offset as u16);
                self.memory.write_byte(address, value);
                (1, 4)
            },
            ArithmeticTarget::FFC => {
                let address = 0xFF00 + (self.registers.c() as u16);
                self.memory.write_byte(address, value);
                (0, 4)
            },
            // The "next byte" operand is read-only; a write to it can only
            // come from a decoder mismatch and is excluded outright.
            ArithmeticTarget::ReadByte => unreached(),
            ArithmeticTarget::HLDec => {
                let address = self.registers.hl();
                self.memory.write_byte(address, value);
                self.registers.set_hl(address.wrapping_sub(1));
                (0, 4)
            },
            ArithmeticTarget::HLInc => {
                let address = self.registers.hl();
                self.memory.write_byte(address, value);
                self.registers.set_hl(address.wrapping_add(1));
                (0, 4)
            },
        }
    }

    /// Write the provided value to the 16-bit target; returns the cycles the
    /// access cost.
    pub fn write_value_16(&mut self, target: &WideArithmeticTarget, value: u16) -> (r: Delay)
        requires
            old(self).wf(),
            old(self).write16_ok(*target),
        ensures
            old(self).write16_post(*target, value, *final(self)),
            r == Cpu::write16_delay(*target),
            final(self).pc == old(self).pc,
    {
        match target {
            WideArithmeticTarget::HL => {
                self.registers.set_hl(value);
                0
            },
            WideArithmeticTarget::BC => {
                self.registers.set_bc(value);
                0
            },
            WideArithmeticTarget::DE => {
                self.registers.set_de(value);
                0
            },
            WideArithmeticTarget::AF => {
                self.registers.set_af(value);
                0
            },
            WideArithmeticTarget::SP => {
                self.sp = value;
                0
            },
            // The word operand is read-only; a write to it can only come
            // from a decoder mismatch and is excluded outright.
            WideArithmeticTarget::ReadWord => unreached(),
            WideArithmeticTarget::ReadAddress => {
                let low = self.memory.read_byte(self.pc.wrapping_add(1));
                let high = self.memory.read_byte(self.pc.wrapping_add(2));
                let address = (low as u16) + (high as u16) * 256;
                self.memory.write_word(address, value);
                2
            },
        }
    }

    /// Write a word to the stack: SP moves down by two, the high byte going
    /// in first.
    pub fn push_word(&mut self, value: u16)
        requires
            old(self).wf(),
            old(self).push_ok(),
        ensures
            old(self).push_post(value, *final(self)),
            final(self).pc == old(self).pc,
    {
        // decrease stack
        self.sp = self.sp.wrapping_sub(1);
        // write most significant part first
        self.memory.write_byte(self.sp, (value / 256) as u8);
        // decrease stack
        self.sp = self.sp.wrapping_sub(1);
        // write least significant part then
        self.memory.write_byte(self.sp, (value % 256) as u8);
    }

    /// Pop a word from the stack: the mirror image of `push_word`.
    pub fn pop_word(&mut self) -> (r: u16)
        requires
            old(self).wf(),
            old(self).pop_ok(),
        ensures
            old(self).pop_post(*final(self), r),
            final(self).pc == old(self).pc,
    {
        let lower_part = self.memory.read_byte(self.sp);
        self.sp = self.sp.wrapping_add(1);
        let higher_part = self.memory.read_byte(self.sp);
        self.sp = self.sp.wrapping_add(1);
        (lower_part as u16) + (higher_part as u16) * 256
    }
}


/// Reduce an integer into a byte, as 8-bit arithmetic wraps.
pub open spec fn wrap8(x: int) -> u8 {
    (x % 256) as u8
}

impl Cpu {
    /// Both the read and the write of a read-modify-write operand are
    /// feasible, the write judged after the read's own side effect.
    pub open spec fn rmw_ok(self, t: ArithmeticTarget) -> bool {
        self.read8_ok(t) && self.after_read8(t).write8_ok(t)
    }

    /// Adding the operand to the accumulator: the sum modulo 256, carry on
    /// byte overflow, half-carry on low-nibble overflow.
    #[verifier::opaque]
    pub open spec fn add_post(self, t: ArithmeticTarget, post: Cpu, next_pc: u16, delay: Delay) -> bool {
        let v = self.read8(t);
        let a = self.registers.a;
        let res = wrap8(a + v);
        &&& post == Cpu {
            registers: Registers {
                a: res,
                f: FlagsRegister {
                    zero: res == 0,
                    subtract: false,
                    half_carry: a % 16 + v % 16 > 15,
                    carry: a + v > 255,
                    emi: self.registers.f.emi,
                },
                ..self.regs_after_read8(t)
            },
            ..self
        }
        &&& next_pc == wrap16(self.pc + 1 + Cpu::read8_bytes(t))
        &&& delay == Cpu::read8_delay(t)
    }

    /// Add the content of the targeted operand to the A register.
    pub fn add(&mut self, target: &ArithmeticTarget) -> (r: (ProgramCounter, Delay))
        requires
            old(self).wf(),
            old(self).read8_ok(*target),
        ensures
            old(self).add_post(*target, *final(self), r.0, r.1),
            final(self).pc == old(self).pc,
    {
        proof { reveal(Cpu::add_post); }
        let (value, pc_offset, offset) = self.read_value(target);
        let a = self.registers.a;
        let sum: u16 = a as u16 + value as u16;
        let new_value: u8 = (sum % 256) as u8;
        self.registers.f = FlagsRegister {
            zero: new_value == 0,
            subtract: false,
            half_carry: (a % 16) + (value % 16) > 15,
            carry: sum > 255,
            emi: self.registers.f.emi,
        };
        self.registers.a = new_value;
        (self.pc.wrapping_add(1 + pc_offset), offset)
    }

    /// Add with carry: the incoming carry flag joins the sum, and both the
    /// carry and the half-carry account for it.
    #[verifier::opaque]
    pub open spec fn adc_post(self, t: ArithmeticTarget, post: Cpu, next_pc: u16, delay: Delay) -> bool {
        let v = self.read8(t);
        let a = self.registers.a;
        let cin: int = if self.registers.f.carry { 1 } else { 0 };
        let res = wrap8(a + v + cin);
        &&& post == Cpu {
            registers: Registers {
                a: res,
                f: FlagsRegister {
                    zero: res == 0,
                    subtract: false,
                    half_carry: a % 16 + v % 16 + cin > 15,
                    carry: a + v + cin > 255,
                    emi: self.registers.f.emi,
                },
                ..self.regs_after_read8(t)
            },
            ..self
        }
        &&& next_pc == wrap16(self.pc + 1 + Cpu::read8_bytes(t))
        &&& delay == 4 + Cpu::read8_delay(t)
    }

    /// Add with carry.
    pub fn adc(&mut self, target: &ArithmeticTarget) -> (r: (ProgramCounter, Delay))
        requires
            old(self).wf(),
            old(self).read8_ok(*target),
        ensures
            old(self).adc_post(*target, *final(self), r.0, r.1),
            final(self).pc == old(self).pc,
    {
        proof { reveal(Cpu::adc_post); }
        let (value, pc_offset, offset) = self.read_value(target);
        let a = self.registers.a;
        let cin: u16 = if self.registers.f.carry {
            1
        } else {
            0
        };
        let sum: u16 = a as u16 + value as u16 + cin;
        let new_value: u8 = (sum % 256) as u8;
        self.registers.f = FlagsRegister {
            zero: new_value == 0,
            subtract: false,
            half_carry: (a % 16) as u16 + (value % 16) as u16 + cin > 15,
            carry: sum > 255,
            emi: self.registers.f.emi,
        };
        self.registers.a = new_value;
        (self.pc.wrapping_add(1 + pc_offset), 4 + offset)
    }

    /// Subtracting the operand from the accumulator: the difference modulo
    /// 256, carry on byte underflow, half-carry on low-nibble underflow.
    #[verifier::opaque]
    pub open spec fn sub_post(self, t: ArithmeticTarget, post: Cpu, next_pc: u16, delay: Delay) -> bool {
        let v = self.read8(t);
        let a = self.registers.a;
        let res = wrap8(a - v);
        &&& post == Cpu {
            registers: Registers {
                a: res,
                f: FlagsRegister {
                    zero: res == 0,
                    subtract: true,
                    half_carry: a % 16 < v % 16,
                    carry: a < v,
                    emi: self.registers.f.emi,
                },
                ..self.regs_after_read8(t)
            },
            ..self
        }
        &&& next_pc == wrap16(self.pc + 1 + Cpu::read8_bytes(t))
        &&& delay == 4 + Cpu::read8_delay(t)
    }

    /// Subtract the targeted operand from the A register.
    pub fn sub(&mut self, target: &ArithmeticTarget) -> (r: (ProgramCounter, Delay))
        requires
            old(self).wf(),
            old(self).read8_ok(*target),
        ensures
            old(self).sub_post(*target, *final(self), r.0, r.1),
            final(self).pc == old(self).pc,
    {
        proof { reveal(Cpu::sub_post); }
        let (value, pc_offset, offset) = self.read_value(target);
        let a = self.registers.a;
        let new_value: u8 = (((a as u16 + 256) - value as u16) % 256) as u8;
        self.registers.f = FlagsRegister {
            zero: new_value == 0,
            subtract: true,
            half_carry: a % 16 < value % 16,
            carry: a < value,
            emi: self.registers.f.emi,
        };
        self.registers.a = new_value;
        (self.pc.wrapping_add(1 + pc_offset), 4 + offset)
    }

    /// Subtract with carry: the incoming carry deepens the subtraction, and
    /// both the carry and the half-carry account for it across the whole
    /// difference.
    #[verifier::opaque]
    pub open spec fn sbc_post(self, t: ArithmeticTarget, post: Cpu, next_pc: u16, delay: Delay) -> bool {
        let v = self.read8(t);
        let a = self.registers.a;
        let cin: int = if self.registers.f.carry { 1 } else { 0 };
        let res = wrap8(a - v - cin);
        &&& post == Cpu {
            registers: Registers {
                a: res,
                f: FlagsRegister {
                    zero: res == 0,
                    subtract: true,
                    half_carry: a % 16 < v % 16 + cin,
                    carry: a < v + cin,
                    emi: self.registers.f.emi,
                },
                ..self.regs_after_read8(t)
            },
            ..self
        }
        &&& next_pc == wrap16(self.pc + 1 + Cpu::read8_bytes(t))
        &&& delay == 4 + Cpu::read8_delay(t)
    }

    /// Like sub, but the carry value is also subtracted.
    #[verifier::rlimit(100)]
    #[verifier::spinoff_prover]
    pub fn sbc(&mut self, target: &ArithmeticTarget) -> (r: (ProgramCounter, Delay))
        requires
            old(self).wf(),
            old(self).read8_ok(*target),
        ensures
            old(self).sbc_post(*target, *final(self), r.0, r.1),
            final(self).pc == old(self).pc,
    {
        proof { reveal(Cpu::sbc_post); }
        let (value, pc_offset, offset) = self.read_value(target);
        let a = self.registers.a;
        let cin: u16 = if self.registers.f.carry {
            1
        } else {
            0
        };
        let new_value: u8 = (((a as u16 + 512) - value as u16 - cin) % 256) as u8;
        proof {
            assert(new_value == wrap8(a - value - cin));
        }
        self.registers.f = FlagsRegister {
            zero: new_value == 0,
            subtract: true,
            half_carry: ((a % 16) as u16) < ((value % 16) as u16 + cin),
            carry: (a as u16) < (value as u16 + cin),
            emi: self.registers.f.emi,
        };
        self.registers.a = new_value;
        (self.pc.wrapping_add(1 + pc_offset), 4 + offset)
    }

    /// Bitwise conjunction into the accumulator; every other flag clears.
    #[verifier::opaque]
    pub open spec fn and_post(self, t: ArithmeticTarget, post: Cpu, next_pc: u16, delay: Delay) -> bool {
        let res = self.registers.a & self.read8(t);
        &&& post == Cpu {
            registers: Registers {
                a: res,
                f: FlagsRegister {
                    zero: res == 0,
                    subtract: false,
                    half_carry: false,
                    carry: false,
                    emi: self.registers.f.emi,
                },
                ..self.regs_after_read8(t)
            },
            ..self
        }
        &&& next_pc == wrap16(self.pc + 1 + Cpu::read8_bytes(t))
        &&& delay == 4 + Cpu::read8_delay(t)
    }

    pub fn and(&mut self, target: &ArithmeticTarget) -> (r: (ProgramCounter, Delay))
        requires
            old(self).wf(),
            old(self).read8_ok(*target),
        ensures
            old(self).and_post(*target, *final(self), r.0, r.1),
            final(self).pc == old(self).pc,
    {
        proof { reveal(Cpu::and_post); }
        let (value, pc_offset, offset) = self.read_value(target);
        let new_value = self.registers.a & value;
        self.registers.f = FlagsRegister {
            zero: new_value == 0,
            subtract: false,
            half_carry: false,
            carry: false,
            emi: self.registers.f.emi,
        };
        self.registers.a = new_value;
        (self.pc.wrapping_add(1 + pc_offset), 4 + offset)
    }

    /// Bitwise exclusive disjunction into the accumulator; every other flag
    /// clears.
    #[verifier::opaque]
    pub open spec fn xor_post(self, t: ArithmeticTarget, post: Cpu, next_pc: u16, delay: Delay) -> bool {
        let res = self.registers.a ^ self.read8(t);
        &&& post == Cpu {
            registers: Registers {
                a: res,
                f: FlagsRegister {
                    zero: res == 0,
                    subtract: false,
                    half_carry: false,
                    carry: false,
                    emi: self.registers.f.emi,
                },
                ..self.regs_after_read8(t)
            },
            ..self
        }
        &&& next_pc == wrap16(self.pc + 1 + Cpu::read8_bytes(t))
        &&& delay == 4 + Cpu::read8_delay(t)
    }

    pub fn xor(&mut self, target: &ArithmeticTarget) -> (r: (ProgramCounter, Delay))
        requires
            old(self).wf(),
            old(self).read8_ok(*target),
        ensures
            old(self).xor_post(*target, *final(self), r.0, r.1),
            final(self).pc == old(self).pc,
    {
        proof { reveal(Cpu::xor_post); }
        let (value, pc_offset, offset) = self.read_value(target);
        let new_value = self.registers.a ^ value;
        self.registers.f = FlagsRegister {
            zero: new_value == 0,
            subtract: false,
            half_carry: false,
            carry: false,
            emi: self.registers.f.emi,
        };
        self.registers.a = new_value;
        (self.pc.wrapping_add(1 + pc_offset), 4 + offset)
    }

    /// Bitwise disjunction into the accumulator; every other flag clears.
    #[verifier::opaque]
    pub open spec fn or_post(self, t: ArithmeticTarget, post: Cpu, next_pc: u16, delay: Delay) -> bool {
        let res = self.registers.a | self.read8(t);
        &&& post == Cpu {
            registers: Registers {
                a: res,
                f: FlagsRegister {
                    zero: res == 0,
                    subtract: false,
                    half_carry: false,
                    carry: false,
                    emi: self.registers.f.emi,
                },
                ..self.regs_after_read8(t)
            },
            ..self
        }
        &&& next_pc == wrap16(self.pc + 1 + Cpu::read8_bytes(t))
        &&& delay == 4 + Cpu::read8_delay(t)
    }

    pub fn or(&mut self, target: &ArithmeticTarget) -> (r: (ProgramCounter, Delay))
        requires
            old(self).wf(),
            old(self).read8_ok(*target),
        ensures
            old(self).or_post(*target, *final(self), r.0, r.1),
            final(self).pc == old(self).pc,
    {
        proof { reveal(Cpu::or_post); }
        let (value, pc_offset, offset) = self.read_value(target);
        let new_value = self.registers.a | value;
        self.registers.f = FlagsRegister {
            zero: new_value == 0,
            subtract: false,
            half_carry: false,
            carry: false,
            emi: self.registers.f.emi,
        };
        self.registers.a = new_value;
        (self.pc.wrapping_add(1 + pc_offset), 4 + offset)
    }

    /// Compare: the subtraction's flags without writing the accumulator.
    #[verifier::opaque]
    pub open spec fn cp_post(self, t: ArithmeticTarget, post: Cpu, next_pc: u16, delay: Delay) -> bool {
        let v = self.read8(t);
        let a = self.registers.a;
        let res = wrap8(a - v);
        &&& post == Cpu {
            registers: Registers {
                f: FlagsRegister {
                    zero: res == 0,
                    subtract: true,
                    half_carry: a % 16 < v % 16,
                    carry: a < v,
                    emi: self.registers.f.emi,
                },
                ..self.regs_after_read8(t)
            },
            ..self
        }
        &&& next_pc == wrap16(self.pc + 1 + Cpu::read8_bytes(t))
        &&& delay == 4 + Cpu::read8_delay(t)
    }

    /// Compare the operand against the accumulator, for the flags only.
    pub fn cp(&mut self, target: &ArithmeticTarget) -> (r: (ProgramCounter, Delay))
        requires
            old(self).wf(),
            old(self).read8_ok(*target),
        ensures
            old(self).cp_post(*target, *final(self), r.0, r.1),
            final(self).pc == old(self).pc,
    {
        proof { reveal(Cpu::cp_post); }
        let (value, pc_offset, offset) = self.read_value(target);
        let a = self.registers.a;
        let new_value: u8 = (((a as u16 + 256) - value as u16) % 256) as u8;
        self.registers.f = FlagsRegister {
            zero: new_value == 0,
            subtract: true,
            half_carry: a % 16 < value % 16,
            carry: a < value,
            emi: self.registers.f.emi,
        };
        (self.pc.wrapping_add(1 + pc_offset), 4 + offset)
    }

    /// The accumulator's complement; subtract and half-carry set, the rest
    /// kept.
    #[verifier::opaque]
    pub open spec fn cpl_post(self, post: Cpu, next_pc: u16, delay: Delay) -> bool {
        &&& post == Cpu {
            registers: Registers {
                a: self.registers.a ^ 0xff,
                f: FlagsRegister { subtract: true, half_carry: true, ..self.registers.f },
                ..self.registers
            },
            ..self
        }
        &&& next_pc == wrap16(self.pc + 1)
        &&& delay == 4
    }

    /// Set the complement of register A.
    pub fn cpl(&mut self) -> (r: (ProgramCounter, Delay))
        ensures
            old(self).cpl_post(*final(self), r.0, r.1),
            final(self).pc == old(self).pc,
    {
        proof { reveal(Cpu::cpl_post); }
        let value = self.registers.a;
        self.registers.f = FlagsRegister { subtract: true, half_carry: true, ..self.registers.f };
        self.registers.a = value ^ 0xff;
        (self.pc.wrapping_add(1), 4)
    }

    /// The carry flag complemented; subtract and half-carry clear.
    #[verifier::opaque]
    pub open spec fn ccf_post(self, post: Cpu, next_pc: u16, delay: Delay) -> bool {
        &&& post == Cpu {
            registers: Registers {
                f: FlagsRegister {
                    subtract: false,
                    half_carry: false,
                    carry: !self.registers.f.carry,
                    ..self.registers.f
                },
                ..self.registers
            },
            ..self
        }
        &&& next_pc == wrap16(self.pc + 1)
        &&& delay == 4
    }

    /// Complement carry flag.
    pub fn ccf(&mut self) -> (r: (ProgramCounter, Delay))
        ensures
            old(self).ccf_post(*final(self), r.0, r.1),
            final(self).pc == old(self).pc,
    {
        proof { reveal(Cpu::ccf_post); }
        let carry = self.registers.f.carry;
        self.registers.f = FlagsRegister {
            subtract: false,
            half_carry: false,
            carry: !carry,
            ..self.registers.f
        };
        (self.pc.wrapping_add(1), 4)
    }

    /// The carry flag set; subtract and half-carry clear.
    #[verifier::opaque]
    pub open spec fn scf_post(self, post: Cpu, next_pc: u16, delay: Delay) -> bool {
        &&& post == Cpu {
            registers: Registers {
                f: FlagsRegister {
                    subtract: false,
                    half_carry: false,
                    carry: true,
                    ..self.registers.f
                },
                ..self.registers
            },
            ..self
        }
        &&& next_pc == wrap16(self.pc + 1)
        &&& delay == 4
    }

    /// Set Carry Flag.
    pub fn scf(&mut self) -> (r: (ProgramCounter, Delay))
        ensures
            old(self).scf_post(*final(self), r.0, r.1),
            final(self).pc == old(self).pc,
    {
        proof { reveal(Cpu::scf_post); }
        self.registers.f = FlagsRegister {
            subtract: false,
            half_carry: false,
            carry: true,
            ..self.registers.f
        };
        (self.pc.wrapping_add(1), 4)
    }

    /// No operation: the program counter advances past the opcode.
    #[verifier::opaque]
    pub open spec fn nop_post(self, post: Cpu, next_pc: u16, delay: Delay) -> bool {
        &&& post == self
        &&& next_pc == wrap16(self.pc + 1)
        &&& delay == 1
    }

    /// no operation
    pub fn nop(&mut self) -> (r: (ProgramCounter, Delay))
        ensures
            old(self).nop_post(*final(self), r.0, r.1),
            final(self).pc == old(self).pc,
    {
        proof { reveal(Cpu::nop_post); }
        (self.pc.wrapping_add(1), 1)
    }

    /// Enter the halted state.
    #[verifier::opaque]
    pub open spec fn halt_post(self, post: Cpu, next_pc: u16, delay: Delay) -> bool {
        &&& post == Cpu { is_halted: true, ..self }
        &&& next_pc == wrap16(self.pc + 1)
        &&& delay == 4
    }

    pub fn halt(&mut self) -> (r: (ProgramCounter, Delay))
        ensures
            old(self).halt_post(*final(self), r.0, r.1),
            final(self).pc == old(self).pc,
    {
        proof { reveal(Cpu::halt_post); }
        self.is_halted = true;
        (self.pc.wrapping_add(1), 4)
    }

    /// Low-power placeholder: nothing changes but the program counter.
    #[verifier::opaque]
    pub open spec fn stop_post(self, post: Cpu, next_pc: u16, delay: Delay) -> bool {
        &&& post == self
        &&& next_pc == wrap16(self.pc + 1)
        &&& delay == 4
    }

    /// Enter CPU very low power mode; a placeholder in this engine.
    pub fn stop(&mut self) -> (r: (ProgramCounter, Delay))
        ensures
            old(self).stop_post(*final(self), r.0, r.1),
            final(self).pc == old(self).pc,
    {
        proof { reveal(Cpu::stop_post); }
        (self.pc.wrapping_add(1), 4)
    }

    /// The interrupt-master-enable flag cleared.
    #[verifier::opaque]
    pub open spec fn disable_interrupt_post(self, post: Cpu, next_pc: u16, delay: Delay) -> bool {
        &&& post == Cpu {
            registers: Registers {
                f: FlagsRegister { emi: false, ..self.registers.f },
                ..self.registers
            },
            ..self
        }
        &&& next_pc == wrap16(self.pc + 1)
        &&& delay == 4
    }

    /// Disable the interrupt flag.
    pub fn disable_interrupt(&mut self) -> (r: (ProgramCounter, Delay))
        ensures
            old(self).disable_interrupt_post(*final(self), r.0, r.1),
            final(self).pc == old(self).pc,
    {
        proof { reveal(Cpu::disable_interrupt_post); }
        self.registers.f = FlagsRegister { emi: false, ..self.registers.f };
        (self.pc.wrapping_add(1), 4)
    }

    /// The interrupt-master-enable flag set.
    #[verifier::opaque]
    pub open spec fn enable_interrupt_post(self, post: Cpu, next_pc: u16, delay: Delay) -> bool {
        &&& post == Cpu {
            registers: Registers {
                f: FlagsRegister { emi: true, ..self.registers.f },
                ..self.registers
            },
            ..self
        }
        &&& next_pc == wrap16(self.pc + 1)
        &&& delay == 4
    }

    /// Enable the interrupt flag.
    pub fn enable_interrupt(&mut self) -> (r: (ProgramCounter, Delay))
        ensures
            old(self).enable_interrupt_post(*final(self), r.0, r.1),
            final(self).pc == old(self).pc,
    {
        proof { reveal(Cpu::enable_interrupt_post); }
        self.registers.f = FlagsRegister { emi: true, ..self.registers.f };
        (self.pc.wrapping_add(1), 4)
    }

    /// Decimal adjustment: the standard table keyed on carry-or-high-range,
    /// half-carry-or-low-nibble-over-nine and the subtract direction; carry
    /// is set exactly when a 0x60 adjustment was applied.
    #[verifier::opaque]
    pub open spec fn daa_post(self, post: Cpu, next_pc: u16, delay: Delay) -> bool {
        let a = self.registers.a;
        let f = self.registers.f;
        let high_adjust = f.carry || (a > 0x99 && !f.subtract);
        let low_adjust = f.half_carry || (a % 16 > 9 && !f.subtract);
        let adjust: int = (if high_adjust { 0x60int } else { 0int }) + (if low_adjust { 6int } else { 0int });
        let res = if f.subtract { wrap8(a - adjust) } else { wrap8(a + adjust) };
        &&& post == Cpu {
            registers: Registers {
                a: res,
                f: FlagsRegister {
                    zero: res == 0,
                    half_carry: false,
                    carry: high_adjust,
                    ..f
                },
                ..self.registers
            },
            ..self
        }
        &&& next_pc == wrap16(self.pc + 1)
        &&& delay == 4
    }

    /// Decimal Adjust Accumulator: re-bias A into packed-BCD range.
    pub fn daa(&mut self) -> (r: (ProgramCounter, Delay))
        ensures
            old(self).daa_post(*final(self), r.0, r.1),
            final(self).pc == old(self).pc,
    {
        proof { reveal(Cpu::daa_post); }
        let a = self.registers.a;
        let subtract = self.registers.f.subtract;
        let high_adjust = self.registers.f.carry || (a > 0x99 && !subtract);
        let low_adjust = self.registers.f.half_carry || (a % 16 > 9 && !subtract);
        let adjust: u8 = (if high_adjust {
            0x60u8
        } else {
            0u8
        }) + (if low_adjust {
            6u8
        } else {
            0u8
        });
        let value = if subtract {
            a.wrapping_sub(adjust)
        } else {
            a.wrapping_add(adjust)
        };
        self.registers.f = FlagsRegister {
            zero: value == 0,
            half_carry: false,
            carry: high_adjust,
            ..self.registers.f
        };
        self.registers.a = value;
        (self.pc.wrapping_add(1), 4)
    }

    /// The accumulator rotated left through the carry flag: the old carry
    /// becomes bit 0 and the old top bit the new carry.  Zero follows the
    /// result; subtract and half-carry are left alone.
    #[verifier::opaque]
    pub open spec fn rla_post(self, post: Cpu, next_pc: u16, delay: Delay) -> bool {
        let a = self.registers.a;
        let cin: int = if self.registers.f.carry { 1 } else { 0 };
        let res = wrap8(a * 2 + cin);
        &&& post == Cpu {
            registers: Registers {
                a: res,
                f: FlagsRegister { zero: res == 0, carry: a >= 128, ..self.registers.f },
                ..self.registers
            },
            ..self
        }
        &&& next_pc == wrap16(self.pc + 1)
        &&& delay == 4
    }

    /// Rotate left through carry for register A.
    pub fn rla(&mut self) -> (r: (ProgramCounter, Delay))
        ensures
            old(self).rla_post(*final(self), r.0, r.1),
            final(self).pc == old(self).pc,
    {
        proof { reveal(Cpu::rla_post); }
        let a = self.registers.a;
        let cin: u8 = if self.registers.f.carry {
            1
        } else {
            0
        };
        let new_value = (a % 128) * 2 + cin;
        self.registers.f = FlagsRegister {
            zero: new_value == 0,
            carry: a >= 128,
            ..self.registers.f
        };
        self.registers.a = new_value;
        (self.pc.wrapping_add(1), 4)
    }

    /// The accumulator rotated right through the carry flag: the old carry
    /// becomes bit 7 and the old bottom bit the new carry.
    #[verifier::opaque]
    pub open spec fn rra_post(self, post: Cpu, next_pc: u16, delay: Delay) -> bool {
        let a = self.registers.a;
        let cin: int = if self.registers.f.carry { 128 } else { 0 };
        let res = wrap8(a / 2 + cin);
        &&& post == Cpu {
            registers: Registers {
                a: res,
                f: FlagsRegister { zero: res == 0, carry: a % 2 == 1, ..self.registers.f },
                ..self.registers
            },
            ..self
        }
        &&& next_pc == wrap16(self.pc + 1)
        &&& delay == 4
    }

    /// Rotate right through carry for register A.
    pub fn rra(&mut self) -> (r: (ProgramCounter, Delay))
        ensures
            old(self).rra_post(*final(self), r.0, r.1),
            final(self).pc == old(self).pc,
    {
        proof { reveal(Cpu::rra_post); }
        let a = self.registers.a;
        let cin: u8 = if self.registers.f.carry {
            128
        } else {
            0
        };
        let new_value = a / 2 + cin;
        self.registers.f = FlagsRegister {
            zero: new_value == 0,
            carry: a % 2 == 1,
            ..self.registers.f
        };
        self.registers.a = new_value;
        (self.pc.wrapping_add(1), 4)
    }

    /// The accumulator rotated left circularly: the old top bit becomes both
    /// the new bit 0 and the carry.
    #[verifier::opaque]
    pub open spec fn rlca_post(self, post: Cpu, next_pc: u16, delay: Delay) -> bool {
        let a = self.registers.a;
        let res = wrap8(a * 2 + a / 128);
        &&& post == Cpu {
            registers: Registers {
                a: res,
                f: FlagsRegister { zero: res == 0, carry: a >= 128, ..self.registers.f },
                ..self.registers
            },
            ..self
        }
        &&& next_pc == wrap16(self.pc + 1)
        &&& delay == 4
    }

    /// Rotate left circularly for register A.
    pub fn rlca(&mut self) -> (r: (ProgramCounter, Delay))
        ensures
            old(self).rlca_post(*final(self), r.0, r.1),
            final(self).pc == old(self).pc,
    {
        proof { reveal(Cpu::rlca_post); }
        let a = self.registers.a;
        let new_value = (a % 128) * 2 + a / 128;
        self.registers.f = FlagsRegister {
            zero: new_value == 0,
            carry: a >= 128,
            ..self.registers.f
        };
        self.registers.a = new_value;
        (self.pc.wrapping_add(1), 4)
    }

    /// The accumulator rotated right circularly: the old bottom bit becomes
    /// both the new bit 7 and the carry.
    #[verifier::opaque]
    pub open spec fn rrca_post(self, post: Cpu, next_pc: u16, delay: Delay) -> bool {
        let a = self.registers.a;
        let res = wrap8(a / 2 + (a % 2) * 128);
        &&& post == Cpu {
            registers: Registers {
                a: res,
                f: FlagsRegister { zero: res == 0, carry: a % 2 == 1, ..self.registers.f },
                ..self.registers
            },
            ..self
        }
        &&& next_pc == wrap16(self.pc + 1)
        &&& delay == 4
    }

    /// Rotate right circularly for register A.
    pub fn rrca(&mut self) -> (r: (ProgramCounter, Delay))
        ensures
            old(self).rrca_post(*final(self), r.0, r.1),
            final(self).pc == old(self).pc,
    {
        proof { reveal(Cpu::rrca_post); }
        let a = self.registers.a;
        let new_value = a / 2 + (a % 2) * 128;
        self.registers.f = FlagsRegister {
            zero: new_value == 0,
            carry: a % 2 == 1,
            ..self.registers.f
        };
        self.registers.a = new_value;
        (self.pc.wrapping_add(1), 4)
    }
}


/// The weight of one bit position: two to the power of the index, for the
/// eight positions of a byte.
pub open spec fn bit_weight(n: u8) -> u8 {
    if n == 0 {
        1
    } else if n == 1 {
        2
    } else if n == 2 {
        4
    } else if n == 3 {
        8
    } else if n == 4 {
        16
    } else if n == 5 {
        32
    } else if n == 6 {
        64
    } else {
        128
    }
}

/// The weight of one bit position of a byte.
pub fn bit_weight_of(n: u8) -> (r: u8)
    ensures
        r == bit_weight(n),
{
    if n == 0 {
        1
    } else if n == 1 {
        2
    } else if n == 2 {
        4
    } else if n == 3 {
        8
    } else if n == 4 {
        16
    } else if n == 5 {
        32
    } else if n == 6 {
        64
    } else {
        128
    }
}

/// A byte whose bit at the given weight is clear has room to add the
/// weight; one whose bit is set is at least the weight.
proof fn lemma_bit_weight_bounds(v: u8, w: u8)
    requires
        w == 1 || w == 2 || w == 4 || w == 8 || w == 16 || w == 32 || w == 64 || w == 128,
    ensures
        (v / w) % 2 == 0 ==> v + w < 256,
        (v / w) % 2 == 1 ==> v >= w,
{
    if w == 1 {
        lemma_fundamental_div_mod(v as int, 1);
        lemma_fundamental_div_mod(v as int / 1, 2);
    } else if w == 2 {
        lemma_fundamental_div_mod(v as int, 2);
        lemma_fundamental_div_mod(v as int / 2, 2);
    } else if w == 4 {
        lemma_fundamental_div_mod(v as int, 4);
        lemma_fundamental_div_mod(v as int / 4, 2);
    } else if w == 8 {
        lemma_fundamental_div_mod(v as int, 8);
        lemma_fundamental_div_mod(v as int / 8, 2);
    } else if w == 16 {
        lemma_fundamental_div_mod(v as int, 16);
        lemma_fundamental_div_mod(v as int / 16, 2);
    } else if w == 32 {
        lemma_fundamental_div_mod(v as int, 32);
        lemma_fundamental_div_mod(v as int / 32, 2);
    } else if w == 64 {
        lemma_fundamental_div_mod(v as int, 64);
        lemma_fundamental_div_mod(v as int / 64, 2);
    } else {
        lemma_fundamental_div_mod(v as int, 128);
        lemma_fundamental_div_mod(v as int / 128, 2);
    }
}

impl Cpu {
    /// Shift left arithmetic: multiplies by 2, the old top bit leaving
    /// through the carry.
    #[verifier::opaque]
    pub open spec fn sla_post(self, t: ArithmeticTarget, post: Cpu, next_pc: u16, delay: Delay) -> bool {
        let v = self.read8(t);
        let res = wrap8(v * 2);
        let mid = Cpu {
            registers: Registers {
                f: FlagsRegister {
                    zero: res == 0,
                    subtract: false,
                    half_carry: false,
                    carry: v >= 128,
                    emi: self.registers.f.emi,
                },
                ..self.regs_after_read8(t)
            },
            ..self
        };
        &&& mid.write8_post(t, res, post)
        &&& next_pc == wrap16(self.pc + 2)
        &&& delay == 8 + Cpu::read8_delay(t) + Cpu::write8_delay(t)
    }

    /// Shift left arithmetic. Multiplies by 2.
    #[verifier::rlimit(100)]
    #[verifier::spinoff_prover]
    pub fn sla(&mut self, target: &ArithmeticTarget) -> (r: (ProgramCounter, Delay))
        requires
            old(self).wf(),
            old(self).rmw_ok(*target),
        ensures
            old(self).sla_post(*target, *final(self), r.0, r.1),
            final(self).pc == old(self).pc,
    {
        proof { reveal(Cpu::sla_post); }
        let (value, _pc_offset, source_offset) = self.read_value(target);
        let new_value = (value % 128) * 2;
        self.registers.f = FlagsRegister {
            zero: new_value == 0,
            subtract: false,
            half_carry: false,
            carry: value >= 128,
            emi: self.registers.f.emi,
        };
        proof {
            assert(new_value == wrap8(old(self).read8(*target) * 2));
            assert(*self == (Cpu {
                registers: Registers {
                    f: (FlagsRegister { zero: new_value == 0, subtract: false, half_carry: false, carry: old(self).read8(*target) >= 128, emi: old(self).registers.f.emi }),
                    ..old(self).regs_after_read8(*target)
                },
                ..*old(self)
            }));
        }
        let (_write_pc_offset, write_delay_offset) = self.write_value(target, new_value);
        (self.pc.wrapping_add(2), 8 + source_offset + write_delay_offset)
    }

    /// Shift right arithmetic: divides by 2, the top bit kept (sign
    /// preserving), the old bottom bit leaving through the carry.
    #[verifier::opaque]
    pub open spec fn sra_post(self, t: ArithmeticTarget, post: Cpu, next_pc: u16, delay: Delay) -> bool {
        let v = self.read8(t);
        let res = (v / 2 + (v / 128) * 128) as u8;
        let mid = Cpu {
            registers: Registers {
                f: FlagsRegister {
                    zero: res == 0,
                    subtract: false,
                    half_carry: false,
                    carry: v % 2 == 1,
                    emi: self.registers.f.emi,
                },
                ..self.regs_after_read8(t)
            },
            ..self
        };
        &&& mid.write8_post(t, res, post)
        &&& next_pc == wrap16(self.pc + 2)
        &&& delay == 4 + Cpu::read8_delay(t) + Cpu::write8_delay(t)
    }

    /// Shift right arithmetic. Divides by 2, preserving the sign bit.
    #[verifier::rlimit(100)]
    #[verifier::spinoff_prover]
    pub fn sra(&mut self, target: &ArithmeticTarget) -> (r: (ProgramCounter, Delay))
        requires
            old(self).wf(),
            old(self).rmw_ok(*target),
        ensures
            old(self).sra_post(*target, *final(self), r.0, r.1),
            final(self).pc == old(self).pc,
    {
        proof { reveal(Cpu::sra_post); }
        let (value, _pc_offset, read_offset) = self.read_value(target);
        let new_value = value / 2 + (value / 128) * 128;
        self.registers.f = FlagsRegister {
            zero: new_value == 0,
            subtract: false,
            half_carry: false,
            carry: value % 2 == 1,
            emi: self.registers.f.emi,
        };
        proof {
            assert(new_value == (old(self).read8(*target) / 2 + (old(self).read8(*target) / 128) * 128) as u8);
            assert(*self == (Cpu {
                registers: Registers {
                    f: (FlagsRegister { zero: new_value == 0, subtract: false, half_carry: false, carry: old(self).read8(*target) % 2 == 1, emi: old(self).registers.f.emi }),
                    ..old(self).regs_after_read8(*target)
                },
                ..*old(self)
            }));
        }
        let (_write_pc_offset, write_delay_offset) = self.write_value(target, new_value);
        (self.pc.wrapping_add(2), 4 + read_offset + write_delay_offset)
    }

    /// Shift right logical: divides by 2, the vacated top bit filled with
    /// zero, the old bottom bit leaving through the carry.
    #[verifier::opaque]
    pub open spec fn srl_post(self, t: ArithmeticTarget, post: Cpu, next_pc: u16, delay: Delay) -> bool {
        let v = self.read8(t);
        let res = (v / 2) as u8;
        let mid = Cpu {
            registers: Registers {
                f: FlagsRegister {
                    zero: res == 0,
                    subtract: false,
                    half_carry: false,
                    carry: v % 2 == 1,
                    emi: self.registers.f.emi,
                },
                ..self.regs_after_read8(t)
            },
            ..self
        };
        &&& mid.write8_post(t, res, post)
        &&& next_pc == wrap16(self.pc + 2)
        &&& delay == 4 + Cpu::read8_delay(t) + Cpu::write8_delay(t)
    }

    /// Bit shift right.
    #[verifier::rlimit(100)]
    #[verifier::spinoff_prover]
    pub fn srl(&mut self, target: &ArithmeticTarget) -> (r: (ProgramCounter, Delay))
        requires
            old(self).wf(),
            old(self).rmw_ok(*target),
        ensures
            old(self).srl_post(*target, *final(self), r.0, r.1),
            final(self).pc == old(self).pc,
    {
        proof { reveal(Cpu::srl_post); }
        let (value, _pc_offset, read_offset) = self.read_value(target);
        let new_value = value / 2;
        self.registers.f = FlagsRegister {
            zero: new_value == 0,
            subtract: false,
            half_carry: false,
            carry: value % 2 == 1,
            emi: self.registers.f.emi,
        };
        proof {
            assert(new_value == (old(self).read8(*target) / 2) as u8);
            assert(*self == (Cpu {
                registers: Registers {
                    f: (FlagsRegister { zero: new_value == 0, subtract: false, half_carry: false, carry: old(self).read8(*target) % 2 == 1, emi: old(self).registers.f.emi }),
                    ..old(self).regs_after_read8(*target)
                },
                ..*old(self)
            }));
        }
        let (_write_pc_offset, write_delay_offset) = self.write_value(target, new_value);
        (self.pc.wrapping_add(2), 4 + read_offset + write_delay_offset)
    }

    /// Rotate left through the carry flag.
    #[verifier::opaque]
    pub open spec fn rl_post(self, t: ArithmeticTarget, post: Cpu, next_pc: u16, delay: Delay) -> bool {
        let v = self.read8(t);
        let cin: int = if self.registers.f.carry { 1 } else { 0 };
        let res = wrap8(v * 2 + cin);
        let mid = Cpu {
            registers: Registers {
                f: FlagsRegister {
                    zero: res == 0,
                    subtract: false,
                    half_carry: false,
                    carry: v >= 128,
                    emi: self.registers.f.emi,
                },
                ..self.regs_after_read8(t)
            },
            ..self
        };
        &&& mid.write8_post(t, res, post)
        &&& next_pc == wrap16(self.pc + 2)
        &&& delay == 8 + Cpu::read8_delay(t) + Cpu::write8_delay(t)
    }

    /// Rotate left via the carry flag by one bit.
    #[verifier::rlimit(100)]
    #[verifier::spinoff_prover]
    pub fn rl(&mut self, target: &ArithmeticTarget) -> (r: (ProgramCounter, Delay))
        requires
            old(self).wf(),
            old(self).rmw_ok(*target),
        ensures
            old(self).rl_post(*target, *final(self), r.0, r.1),
            final(self).pc == old(self).pc,
    {
        proof { reveal(Cpu::rl_post); }
        let (value, _pc_offset, read_offset) = self.read_value(target);
        let cin: u8 = if self.registers.f.carry {
            1
        } else {
            0
        };
        let new_value = (value % 128) * 2 + cin;
        self.registers.f = FlagsRegister {
            zero: new_value == 0,
            subtract: false,
            half_carry: false,
            carry: value >= 128,
            emi: self.registers.f.emi,
        };
        proof {
            assert(new_value == wrap8(old(self).read8(*target) * 2 + (if old(self).registers.f.carry { 1int } else { 0int })));
            assert(*self == (Cpu {
                registers: Registers {
                    f: (FlagsRegister { zero: new_value == 0, subtract: false, half_carry: false, carry: old(self).read8(*target) >= 128, emi: old(self).registers.f.emi }),
                    ..old(self).regs_after_read8(*target)
                },
                ..*old(self)
            }));
        }
        let (_write_pc_offset, write_delay_offset) = self.write_value(target, new_value);
        (self.pc.wrapping_add(2), 8 + read_offset + write_delay_offset)
    }

    /// Rotate left circularly: the old top bit becomes both bit 0 and the
    /// carry.
    #[verifier::opaque]
    pub open spec fn rlc_post(self, t: ArithmeticTarget, post: Cpu, next_pc: u16, delay: Delay) -> bool {
        let v = self.read8(t);
        let res = wrap8(v * 2 + v / 128);
        let mid = Cpu {
            registers: Registers {
                f: FlagsRegister {
                    zero: res == 0,
                    subtract: false,
                    half_carry: false,
                    carry: v >= 128,
                    emi: self.registers.f.emi,
                },
                ..self.regs_after_read8(t)
            },
            ..self
        };
        &&& mid.write8_post(t, res, post)
        &&& next_pc == wrap16(self.pc + 2)
        &&& delay == 8 + Cpu::read8_delay(t) + Cpu::write8_delay(t)
    }

    /// Rotate left, not through the carry flag.
    #[verifier::rlimit(100)]
    #[verifier::spinoff_prover]
    pub fn rlc(&mut self, target: &ArithmeticTarget) -> (r: (ProgramCounter, Delay))
        requires
            old(self).wf(),
            old(self).rmw_ok(*target),
        ensures
            old(self).rlc_post(*target, *final(self), r.0, r.1),
            final(self).pc == old(self).pc,
    {
        proof { reveal(Cpu::rlc_post); }
        let (value, _pc_offset, read_offset) = self.read_value(target);
        let new_value = (value % 128) * 2 + value / 128;
        self.registers.f = FlagsRegister {
            zero: new_value == 0,
            subtract: false,
            half_carry: false,
            carry: value >= 128,
            emi: self.registers.f.emi,
        };
        proof {
            assert(new_value == wrap8(old(self).read8(*target) * 2 + old(self).read8(*target) / 128));
            assert(*self == (Cpu {
                registers: Registers {
                    f: (FlagsRegister { zero: new_value == 0, subtract: false, half_carry: false, carry: old(self).read8(*target) >= 128, emi: old(self).registers.f.emi }),
                    ..old(self).regs_after_read8(*target)
                },
                ..*old(self)
            }));
        }
        let (_write_pc_offset, write_delay_offset) = self.write_value(target, new_value);
        (self.pc.wrapping_add(2), 8 + read_offset + write_delay_offset)
    }

    /// Rotate right through the carry flag.
    #[verifier::opaque]
    pub open spec fn rr_post(self, t: ArithmeticTarget, post: Cpu, next_pc: u16, delay: Delay) -> bool {
        let v = self.read8(t);
        let cin: int = if self.registers.f.carry { 128 } else { 0 };
        let res = wrap8(v / 2 + cin);
        let mid = Cpu {
            registers: Registers {
                f: FlagsRegister {
                    zero: res == 0,
                    subtract: false,
                    half_carry: false,
                    carry: v % 2 == 1,
                    emi: self.registers.f.emi,
                },
                ..self.regs_after_read8(t)
            },
            ..self
        };
        &&& mid.write8_post(t, res, post)
        &&& next_pc == wrap16(self.pc + 2)
        &&& delay == 8 + Cpu::read8_delay(t) + Cpu::write8_delay(t)
    }

    /// Rotate right via the carry flag by one bit.
    #[verifier::rlimit(100)]
    #[verifier::spinoff_prover]
    pub fn rr(&mut self, target: &ArithmeticTarget) -> (r: (ProgramCounter, Delay))
        requires
            old(self).wf(),
            old(self).rmw_ok(*target),
        ensures
            old(self).rr_post(*target, *final(self), r.0, r.1),
            final(self).pc == old(self).pc,
    {
        proof { reveal(Cpu::rr_post); }
        let (value, _pc_offset, read_offset) = self.read_value(target);
        let cin: u8 = if self.registers.f.carry {
            128
        } else {
            0
        };
        let new_value = value / 2 + cin;
        self.registers.f = FlagsRegister {
            zero: new_value == 0,
            subtract: false,
            half_carry: false,
            carry: value % 2 == 1,
            emi: self.registers.f.emi,
        };
        proof {
            assert(new_value == wrap8(old(self).read8(*target) / 2 + (if old(self).registers.f.carry { 128int } else { 0int })));
            assert(*self == (Cpu {
                registers: Registers {
                    f: (FlagsRegister { zero: new_value == 0, subtract: false, half_carry: false, carry: old(self).read8(*target) % 2 == 1, emi: old(self).registers.f.emi }),
                    ..old(self).regs_after_read8(*target)
                },
                ..*old(self)
            }));
        }
        let (_write_pc_offset, write_delay_offset) = self.write_value(target, new_value);
        (self.pc.wrapping_add(2), 8 + read_offset + write_delay_offset)
    }

    /// Rotate right circularly: the old bottom bit becomes both bit 7 and
    /// the carry.
    #[verifier::opaque]
    pub open spec fn rrc_post(self, t: ArithmeticTarget, post: Cpu, next_pc: u16, delay: Delay) -> bool {
        let v = self.read8(t);
        let res = (v / 2 + (v % 2) * 128) as u8;
        let mid = Cpu {
            registers: Registers {
                f: FlagsRegister {
                    zero: res == 0,
                    subtract: false,
                    half_carry: false,
                    carry: v % 2 == 1,
                    emi: self.registers.f.emi,
                },
                ..self.regs_after_read8(t)
            },
            ..self
        };
        &&& mid.write8_post(t, res, post)
        &&& next_pc == wrap16(self.pc + 2)
        &&& delay == 8 + Cpu::read8_delay(t) + Cpu::write8_delay(t)
    }

    /// Rotate right, not through the carry flag.
    #[verifier::rlimit(100)]
    #[verifier::spinoff_prover]
    pub fn rrc(&mut self, target: &ArithmeticTarget) -> (r: (ProgramCounter, Delay))
        requires
            old(self).wf(),
            old(self).rmw_ok(*target),
        ensures
            old(self).rrc_post(*target, *final(self), r.0, r.1),
            final(self).pc == old(self).pc,
    {
        proof { reveal(Cpu::rrc_post); }
        let (value, _pc_offset, read_offset) = self.read_value(target);
        let new_value = value / 2 + (value % 2) * 128;
        self.registers.f = FlagsRegister {
            zero: new_value == 0,
            subtract: false,
            half_carry: false,
            carry: value % 2 == 1,
            emi: self.registers.f.emi,
        };
        proof {
            assert(new_value == (old(self).read8(*target) / 2 + (old(self).read8(*target) % 2) * 128) as u8);
            assert(*self == (Cpu {
                registers: Registers {
                    f: (FlagsRegister { zero: new_value == 0, subtract: false, half_carry: false, carry: old(self).read8(*target) % 2 == 1, emi: old(self).registers.f.emi }),
                    ..old(self).regs_after_read8(*target)
                },
                ..*old(self)
            }));
        }
        let (_write_pc_offset, write_delay_offset) = self.write_value(target, new_value);
        (self.pc.wrapping_add(2), 8 + read_offset + write_delay_offset)
    }

    /// The high and low nibbles exchanged; every flag but zero clears.
    #[verifier::opaque]
    pub open spec fn swap_post(self, t: ArithmeticTarget, post: Cpu, next_pc: u16, delay: Delay) -> bool {
        let v = self.read8(t);
        let res = ((v % 16) * 16 + v / 16) as u8;
        let mid = Cpu {
            registers: Registers {
                f: FlagsRegister {
                    zero: res == 0,
                    subtract: false,
                    half_carry: false,
                    carry: false,
                    emi: self.registers.f.emi,
                },
                ..self.regs_after_read8(t)
            },
            ..self
        };
        &&& mid.write8_post(t, res, post)
        &&& next_pc == wrap16(self.pc + 2)
        &&& delay == 8 + Cpu::read8_delay(t) + Cpu::write8_delay(t)
    }

    /// Swap the lower and higher nibble of the operand.
    #[verifier::rlimit(100)]
    #[verifier::spinoff_prover]
    pub fn swap(&mut self, target: &ArithmeticTarget) -> (r: (ProgramCounter, Delay))
        requires
            old(self).wf(),
            old(self).rmw_ok(*target),
        ensures
            old(self).swap_post(*target, *final(self), r.0, r.1),
            final(self).pc == old(self).pc,
    {
        proof { reveal(Cpu::swap_post); }
        let (value, _pc_offset, read_offset) = self.read_value(target);
        let new_value = (value % 16) * 16 + value / 16;
        self.registers.f = FlagsRegister {
            zero: new_value == 0,
            subtract: false,
            half_carry: false,
            carry: false,
            emi: self.registers.f.emi,
        };
        proof {
            assert(new_value == ((old(self).read8(*target) % 16) * 16 + old(self).read8(*target) / 16) as u8);
            assert(*self == (Cpu {
                registers: Registers {
                    f: (FlagsRegister { zero: new_value == 0, subtract: false, half_carry: false, carry: false, emi: old(self).registers.f.emi }),
                    ..old(self).regs_after_read8(*target)
                },
                ..*old(self)
            }));
        }
        let (_write_pc_offset, write_delay_offset) = self.write_value(target, new_value);
        (self.pc.wrapping_add(2), 8 + write_delay_offset + read_offset)
    }

    /// Increment by one: the carry flag is untouched, the half-carry records
    /// the nibble carry of the increment itself.
    #[verifier::opaque]
    pub open spec fn inc_post(self, t: ArithmeticTarget, post: Cpu, next_pc: u16, delay: Delay) -> bool {
        let v = self.read8(t);
        let res = wrap8(v + 1);
        let mid = Cpu {
            registers: Registers {
                f: FlagsRegister {
                    zero: res == 0,
                    subtract: false,
                    half_carry: v % 16 == 15,
                    ..self.registers.f
                },
                ..self.regs_after_read8(t)
            },
            ..self
        };
        &&& mid.write8_post(t, res, post)
        &&& next_pc == wrap16(self.pc + 1 + Cpu::read8_bytes(t) + Cpu::write8_bytes(t))
        &&& delay == 4 + Cpu::read8_delay(t) + Cpu::write8_delay(t)
    }

    /// Increment the value of the specified operand by one.
    #[verifier::rlimit(100)]
    #[verifier::spinoff_prover]
    pub fn inc(&mut self, target: &ArithmeticTarget) -> (r: (ProgramCounter, Delay))
        requires
            old(self).wf(),
            old(self).rmw_ok(*target),
        ensures
            old(self).inc_post(*target, *final(self), r.0, r.1),
            final(self).pc == old(self).pc,
    {
        proof { reveal(Cpu::inc_post); }
        let (value, pc_offset, read_offset) = self.read_value(target);
        let new_value = value.wrapping_add(1);
        self.registers.f = FlagsRegister {
            zero: new_value == 0,
            subtract: false,
            half_carry: value % 16 == 15,
            ..self.registers.f
        };
        proof {
            assert(new_value == wrap8(old(self).read8(*target) + 1));
            assert(*self == (Cpu {
                registers: Registers {
                    f: (FlagsRegister { zero: new_value == 0, subtract: false, half_carry: old(self).read8(*target) % 16 == 15, ..old(self).registers.f }),
                    ..old(self).regs_after_read8(*target)
                },
                ..*old(self)
            }));
        }
        let (write_pc_offset, write_delay_offset) = self.write_value(target, new_value);
        (
            self.pc.wrapping_add(1 + pc_offset + write_pc_offset),
            4 + read_offset + write_delay_offset,
        )
    }

    /// Decrement by one: the carry flag is untouched, the half-carry records
    /// the nibble borrow of the decrement itself.
    #[verifier::opaque]
    pub open spec fn dec_post(self, t: ArithmeticTarget, post: Cpu, next_pc: u16, delay: Delay) -> bool {
        let v = self.read8(t);
        let res = wrap8(v - 1);
        let mid = Cpu {
            registers: Registers {
                f: FlagsRegister {
                    zero: res == 0,
                    subtract: true,
                    half_carry: v % 16 == 0,
                    ..self.registers.f
                },
                ..self.regs_after_read8(t)
            },
            ..self
        };
        &&& mid.write8_post(t, res, post)
        &&& next_pc == wrap16(self.pc + 1 + Cpu::read8_bytes(t) + Cpu::write8_bytes(t))
        &&& delay == 4 + Cpu::read8_delay(t) + Cpu::write8_delay(t)
    }

    /// Decrement the value of the specified operand by one.
    #[verifier::rlimit(100)]
    #[verifier::spinoff_prover]
    pub fn dec(&mut self, target: &ArithmeticTarget) -> (r: (ProgramCounter, Delay))
        requires
            old(self).wf(),
            old(self).rmw_ok(*target),
        ensures
            old(self).dec_post(*target, *final(self), r.0, r.1),
            final(self).pc == old(self).pc,
    {
        proof { reveal(Cpu::dec_post); }
        let (value, pc_offset, read_offset) = self.read_value(target);
        let new_value = value.wrapping_sub(1);
        self.registers.f = FlagsRegister {
            zero: new_value == 0,
            subtract: true,
            half_carry: value % 16 == 0,
            ..self.registers.f
        };
        proof {
            assert(new_value == wrap8(old(self).read8(*target) - 1));
            assert(*self == (Cpu {
                registers: Registers {
                    f: (FlagsRegister { zero: new_value == 0, subtract: true, half_carry: old(self).read8(*target) % 16 == 0, ..old(self).registers.f }),
                    ..old(self).regs_after_read8(*target)
                },
                ..*old(self)
            }));
        }
        let (write_pc_offset, write_delay_offset) = self.write_value(target, new_value);
        (
            self.pc.wrapping_add(1 + pc_offset + write_pc_offset),
            4 + read_offset + write_delay_offset,
        )
    }

    /// Test one bit: zero reflects the bit being clear, half-carry sets,
    /// subtract clears, carry stays, and nothing is written back.
    #[verifier::opaque]
    pub open spec fn bit_post(self, t: ArithmeticTarget, n: u8, post: Cpu, next_pc: u16, delay: Delay) -> bool {
        let v = self.read8(t);
        &&& post == Cpu {
            registers: Registers {
                f: FlagsRegister {
                    zero: (v / bit_weight(n)) % 2 == 0,
                    subtract: false,
                    half_carry: true,
                    ..self.registers.f
                },
                ..self.regs_after_read8(t)
            },
            ..self
        }
        &&& next_pc == wrap16(self.pc + 2)
        &&& delay == 8 + Cpu::read8_delay(t)
    }

    /// Test the operand bit at the given position.
    #[verifier::rlimit(100)]
    #[verifier::spinoff_prover]
    pub fn bit(&mut self, target: &ArithmeticTarget, bit_pos: u8) -> (r: (ProgramCounter, Delay))
        requires
            old(self).wf(),
            old(self).read8_ok(*target),
        ensures
            old(self).bit_post(*target, bit_pos, *final(self), r.0, r.1),
            final(self).pc == old(self).pc,
    {
        proof { reveal(Cpu::bit_post); }
        let (value, _pc_offset, read_offset) = self.read_value(target);
        let weight = bit_weight_of(bit_pos);
        self.registers.f = FlagsRegister {
            zero: (value / weight) % 2 == 0,
            subtract: false,
            half_carry: true,
            ..self.registers.f
        };
        (self.pc.wrapping_add(2), 8 + read_offset)
    }

    /// Set one bit of the operand and write it back; no flag moves.
    #[verifier::opaque]
    pub open spec fn set_post(self, t: ArithmeticTarget, n: u8, post: Cpu, next_pc: u16, delay: Delay) -> bool {
        let v = self.read8(t);
        let res: u8 = if (v / bit_weight(n)) % 2 == 1 {
            v
        } else {
            (v + bit_weight(n)) as u8
        };
        &&& self.after_read8(t).write8_post(t, res, post)
        &&& next_pc == wrap16(self.pc + 2)
        &&& delay == 8 + Cpu::read8_delay(t) + Cpu::write8_delay(t)
    }

    /// Set the operand bit at the given position to 1.
    #[verifier::rlimit(100)]
    #[verifier::spinoff_prover]
    pub fn set(&mut self, target: &ArithmeticTarget, bit_pos: u8) -> (r: (ProgramCounter, Delay))
        requires
            old(self).wf(),
            old(self).rmw_ok(*target),
        ensures
            old(self).set_post(*target, bit_pos, *final(self), r.0, r.1),
            final(self).pc == old(self).pc,
    {
        proof { reveal(Cpu::set_post); }
        let (value, _pc_offset, read_offset) = self.read_value(target);
        let weight = bit_weight_of(bit_pos);
        proof {
            lemma_bit_weight_bounds(value, weight);
        }
        let new_value = if (value / weight) % 2 == 1 {
            value
        } else {
            value + weight
        };
        let (_write_pc_offset, write_delay_offset) = self.write_value(target, new_value);
        (self.pc.wrapping_add(2), 8 + read_offset + write_delay_offset)
    }

    /// Clear one bit of the operand and write it back; no flag moves.
    #[verifier::opaque]
    pub open spec fn reset_post(self, t: ArithmeticTarget, n: u8, post: Cpu, next_pc: u16, delay: Delay) -> bool {
        let v = self.read8(t);
        let res: u8 = if (v / bit_weight(n)) % 2 == 1 {
            (v - bit_weight(n)) as u8
        } else {
            v
        };
        &&& self.after_read8(t).write8_post(t, res, post)
        &&& next_pc == wrap16(self.pc + 2)
        &&& delay == 8 + Cpu::read8_delay(t) + Cpu::write8_delay(t)
    }

    /// Reset the operand bit at the given position to 0.
    #[verifier::rlimit(100)]
    #[verifier::spinoff_prover]
    pub fn reset(&mut self, target: &ArithmeticTarget, bit_pos: u8) -> (r: (ProgramCounter, Delay))
        requires
            old(self).wf(),
            old(self).rmw_ok(*target),
        ensures
            old(self).reset_post(*target, bit_pos, *final(self), r.0, r.1),
            final(self).pc == old(self).pc,
    {
        proof { reveal(Cpu::reset_post); }
        let (value, _pc_offset, read_offset) = self.read_value(target);
        let weight = bit_weight_of(bit_pos);
        proof {
            lemma_bit_weight_bounds(value, weight);
        }
        let new_value = if (value / weight) % 2 == 1 {
            value - weight
        } else {
            value
        };
        let (_write_pc_offset, write_delay_offset) = self.write_value(target, new_value);
        (self.pc.wrapping_add(2), 8 + write_delay_offset + read_offset)
    }

    /// Increment a 16-bit operand; the carry flag is untouched.
    #[verifier::opaque]
    pub open spec fn inc_16_post(self, t: WideArithmeticTarget, post: Cpu, next_pc: u16, delay: Delay) -> bool {
        let v = self.read16(t);
        let res = wrap16(v + 1);
        let mid = Cpu {
            registers: Registers {
                f: FlagsRegister {
                    zero: res == 0,
                    subtract: false,
                    half_carry: v % 16 == 15,
                    ..self.registers.f
                },
                ..self.registers
            },
            ..self
        };
        &&& mid.write16_post(t, res, post)
        &&& next_pc == wrap16(self.pc + 1 + Cpu::read16_bytes(t))
        &&& delay == 4 + Cpu::read16_delay(t) + Cpu::write16_delay(t)
    }

    /// Increment the value of the specified 16-bit operand by one.
    #[verifier::rlimit(100)]
    #[verifier::spinoff_prover]
    pub fn inc_16(&mut self, target: &WideArithmeticTarget) -> (r: (ProgramCounter, Delay))
        requires
            old(self).wf(),
            old(self).read16_ok(*target),
            old(self).write16_ok(*target),
        ensures
            old(self).inc_16_post(*target, *final(self), r.0, r.1),
            final(self).pc == old(self).pc,
    {
        proof { reveal(Cpu::inc_16_post); }
        let (value, pc_offset, read_offset) = self.read_value_16(target);
        let new_value = value.wrapping_add(1);
        self.registers.f = FlagsRegister {
            zero: new_value == 0,
            subtract: false,
            half_carry: value % 16 == 15,
            ..self.registers.f
        };
        let write_delay_offset = self.write_value_16(target, new_value);
        (self.pc.wrapping_add(1 + pc_offset), 4 + read_offset + write_delay_offset)
    }

    /// Decrement a 16-bit operand; carry and half-carry are untouched.
    #[verifier::opaque]
    pub open spec fn dec_16_post(self, t: WideArithmeticTarget, post: Cpu, next_pc: u16, delay: Delay) -> bool {
        let v = self.read16(t);
        let res = wrap16(v - 1);
        let mid = Cpu {
            registers: Registers {
                f: FlagsRegister { zero: res == 0, subtract: true, ..self.registers.f },
                ..self.registers
            },
            ..self
        };
        &&& mid.write16_post(t, res, post)
        &&& next_pc == wrap16(self.pc + 1 + Cpu::read16_bytes(t))
        &&& delay == 4 + Cpu::read16_delay(t) + Cpu::write16_delay(t)
    }

    /// Decrement the value of the specified 16-bit operand by one.
    #[verifier::rlimit(100)]
    #[verifier::spinoff_prover]
    pub fn dec_16(&mut self, target: &WideArithmeticTarget) -> (r: (ProgramCounter, Delay))
        requires
            old(self).wf(),
            old(self).read16_ok(*target),
            old(self).write16_ok(*target),
        ensures
            old(self).dec_16_post(*target, *final(self), r.0, r.1),
            final(self).pc == old(self).pc,
    {
        proof { reveal(Cpu::dec_16_post); }
        let (value, pc_offset, read_offset) = self.read_value_16(target);
        let new_value = value.wrapping_sub(1);
        self.registers.f = FlagsRegister {
            zero: new_value == 0,
            subtract: true,
            ..self.registers.f
        };
        proof {
            assert(new_value == wrap16(old(self).read16(*target) - 1));
            assert(*self == (Cpu {
                registers: Registers {
                    f: FlagsRegister {
                        zero: new_value == 0,
                        subtract: true,
                        ..old(self).registers.f
                    },
                    ..old(self).registers
                },
                ..*old(self)
            }));
        }
        let write_delay_offset = self.write_value_16(target, new_value);
        (self.pc.wrapping_add(1 + pc_offset), 4 + read_offset + write_delay_offset)
    }

    /// Copy an 8-bit operand into an 8-bit target; no flag moves.
    #[verifier::opaque]
    pub open spec fn load_post(self, to: ArithmeticTarget, from: ArithmeticTarget, post: Cpu, next_pc: u16, delay: Delay) -> bool {
        let v = self.read8(from);
        &&& self.after_read8(from).write8_post(to, v, post)
        &&& next_pc == wrap16(self.pc + 1 + Cpu::read8_bytes(from) + Cpu::write8_bytes(to))
        &&& delay == Cpu::read8_delay(from) + Cpu::write8_delay(to)
    }

    /// Copy the source operand to the target operand.
    #[verifier::rlimit(100)]
    #[verifier::spinoff_prover]
    pub fn load(&mut self, target: &ArithmeticTarget, source: &ArithmeticTarget) -> (r: (
        ProgramCounter,
        Delay,
    ))
        requires
            old(self).wf(),
            old(self).read8_ok(*source),
            old(self).after_read8(*source).write8_ok(*target),
        ensures
            old(self).load_post(*target, *source, *final(self), r.0, r.1),
            final(self).pc == old(self).pc,
    {
        proof { reveal(Cpu::load_post); }
        let (value, pc_offset, source_offset) = self.read_value(source);
        let (write_pc_offset, write_offset) = self.write_value(target, value);
        (
            self.pc.wrapping_add(1 + pc_offset + write_pc_offset),
            source_offset + write_offset,
        )
    }

    /// Copy a 16-bit operand into a 16-bit target; no flag moves.
    #[verifier::opaque]
    pub open spec fn load_16_post(self, to: WideArithmeticTarget, from: WideArithmeticTarget, post: Cpu, next_pc: u16, delay: Delay) -> bool {
        let v = self.read16(from);
        &&& self.write16_post(to, v, post)
        &&& next_pc == wrap16(self.pc + 1 + Cpu::read16_bytes(from) + Cpu::write16_bytes(to))
        &&& delay == 4 + Cpu::read16_delay(from) + Cpu::write16_delay(to)
    }

    /// Copy the wide source operand to the wide target operand.
    #[verifier::rlimit(100)]
    #[verifier::spinoff_prover]
    pub fn load_16(&mut self, target: &WideArithmeticTarget, source: &WideArithmeticTarget) -> (r: (
        ProgramCounter,
        Delay,
    ))
        requires
            old(self).wf(),
            old(self).read16_ok(*source),
            old(self).write16_ok(*target),
        ensures
            old(self).load_16_post(*target, *source, *final(self), r.0, r.1),
            final(self).pc == old(self).pc,
    {
        proof { reveal(Cpu::load_16_post); }
        let (value, pc_offset, read_offset) = self.read_value_16(source);
        let write_bytes: u16 = match target {
            WideArithmeticTarget::ReadAddress => 2,
            _ => 0,
        };
        let write_offset = self.write_value_16(target, value);
        (
            self.pc.wrapping_add(1 + pc_offset + write_bytes),
            4 + read_offset + write_offset,
        )
    }

    /// The condition holds of the current flags.
    pub open spec fn jump_taken(self, test: JumpTest) -> bool {
        test.spec_evaluate(self.registers.f)
    }

    /// The destination of a taken relative jump: the signed displacement in
    /// the byte following the opcode, applied past the 2-byte instruction.
    pub open spec fn jump_dest_relative(self) -> u16 {
        let offset = self.byte_after_pc(1);
        if offset < 128 {
            wrap16(self.pc + 2 + offset)
        } else {
            wrap16(self.pc + 2 + offset - 256)
        }
    }

    /// Where a jump sends the program counter and what it costs.  A failed
    /// test advances past the instruction's trailing operand bytes at the
    /// cheaper, not-taken cost: 8 cycles for a relative jump, 12 for an
    /// absolute one.
    #[verifier::opaque]
    pub open spec fn jump_post(self, test: JumpTest, nature: JumpType, next_pc: u16, delay: Delay) -> bool {
        if self.jump_taken(test) {
            match nature {
                JumpType::Relative8 => next_pc == self.jump_dest_relative() && delay == 12,
                JumpType::Pointer16 => next_pc == self.word_after_pc() && delay == 16,
                JumpType::HL => next_pc == self.registers.spec_hl() && delay == 4,
            }
        } else {
            match nature {
                JumpType::Relative8 => next_pc == wrap16(self.pc + 2) && delay == 8,
                JumpType::Pointer16 => next_pc == wrap16(self.pc + 3) && delay == 12,
                JumpType::HL => false,
            }
        }
    }

    /// A jump through HL is only decoded unconditional, and a taken jump
    /// must fetch its displacement or pointer from mapped addresses.
    pub open spec fn jump_ok(self, test: JumpTest, nature: JumpType) -> bool {
        &&& (nature matches JumpType::HL ==> test matches JumpTest::Always)
        &&& (self.jump_taken(test) ==> match nature {
            JumpType::Relative8 => mapped(wrap16(self.pc + 1)),
            JumpType::Pointer16 => mapped(wrap16(self.pc + 1)) && mapped(wrap16(self.pc + 2)),
            JumpType::HL => true,
        })
    }

    /// Evaluate the condition and jump to the displacement, pointer or HL.
    #[verifier::rlimit(100)]
    #[verifier::spinoff_prover]
    pub fn jump(&self, test: &JumpTest, nature: &JumpType) -> (r: (ProgramCounter, Delay))
        requires
            self.wf(),
            self.jump_ok(*test, *nature),
        ensures
            self.jump_post(*test, *nature, r.0, r.1),
    {
        proof { reveal(Cpu::jump_post); }
        if test.evaluate(self.registers.f()) {
            // should jump
            match nature {
                JumpType::Relative8 => {
                    let offset = self.memory.read_byte(self.pc.wrapping_add(1));
                    let base = self.pc.wrapping_add(2);
                    let address = if offset < 128 {
                        base.wrapping_add(offset as u16)
                    } else {
                        base.wrapping_add(offset as u16).wrapping_sub(256)
                    };
                    proof {
                        lemma_wrap16_add(self.pc + 2, offset as int);
                        lemma_wrap16_add(self.pc + 2 + offset, -256);
                    }
                    (address, 12)
                },
                JumpType::Pointer16 => {
                    let low = self.memory.read_byte(self.pc.wrapping_add(1));
                    let high = self.memory.read_byte(self.pc.wrapping_add(2));
                    ((low as u16) + (high as u16) * 256, 16)
                },
                JumpType::HL => (self.registers.hl(), 4),
            }
        } else {
            // just continue and skip the trailing data
            match nature {
                JumpType::Relative8 => (self.pc.wrapping_add(2), 8),
                JumpType::Pointer16 => (self.pc.wrapping_add(3), 12),
                // an HL jump is only decoded with the always-true test
                JumpType::HL => unreached(),
            }
        }
    }

    /// A taken call pushes the address past the 3-byte instruction, then
    /// fetches the destination; a failed test just steps over the operand.
    #[verifier::opaque]
    pub open spec fn call_post(self, test: JumpTest, post: Cpu, next_pc: u16, delay: Delay) -> bool {
        if self.jump_taken(test) {
            &&& self.push_post(wrap16(self.pc + 3), post)
            &&& next_pc == post.word_after_pc()
            &&& delay == 12
        } else {
            &&& post == self
            &&& next_pc == wrap16(self.pc + 3)
            &&& delay == 12
        }
    }

    /// A taken call pushes two stack bytes and fetches two operand bytes.
    pub open spec fn call_ok(self, test: JumpTest) -> bool {
        self.jump_taken(test) ==> self.push_ok() && mapped(wrap16(self.pc + 1)) && mapped(
            wrap16(self.pc + 2),
        )
    }

    /// Call: push the return address and jump to the fetched pointer.
    pub fn call(&mut self, test: &JumpTest) -> (r: (ProgramCounter, Delay))
        requires
            old(self).wf(),
            old(self).call_ok(*test),
        ensures
            old(self).call_post(*test, *final(self), r.0, r.1),
            final(self).pc == old(self).pc,
    {
        proof { reveal(Cpu::call_post); }
        let next_pc = self.pc.wrapping_add(3);
        if test.evaluate(self.registers.f()) {
            self.push_word(next_pc);
            // the new pc is in the following bytes
            let low = self.memory.read_byte(self.pc.wrapping_add(1));
            let high = self.memory.read_byte(self.pc.wrapping_add(2));
            ((low as u16) + (high as u16) * 256, 12)
        } else {
            (next_pc, 12)
        }
    }

    /// A reset pushes the address of the following instruction and jumps to
    /// its fixed vector.
    #[verifier::opaque]
    pub open spec fn rst_post(self, address: u16, post: Cpu, next_pc: u16, delay: Delay) -> bool {
        &&& self.push_post(wrap16(self.pc + 1), post)
        &&& next_pc == address
        &&& delay == 4
    }

    /// Call the provided fixed address.
    pub fn rst(&mut self, address: u16) -> (r: (ProgramCounter, Delay))
        requires
            old(self).wf(),
            old(self).push_ok(),
        ensures
            old(self).rst_post(address, *final(self), r.0, r.1),
            final(self).pc == old(self).pc,
    {
        proof { reveal(Cpu::rst_post); }
        let next_pc = self.pc.wrapping_add(1);
        self.push_word(next_pc);
        (address, 4)
    }

    /// A taken return pops the destination; a failed test steps past the
    /// opcode.
    #[verifier::opaque]
    pub open spec fn ret_post(self, test: JumpTest, post: Cpu, next_pc: u16, delay: Delay) -> bool {
        if self.jump_taken(test) {
            &&& self.pop_post(post, next_pc)
            &&& delay == 16
        } else {
            &&& post == self
            &&& next_pc == wrap16(self.pc + 1)
            &&& delay == 20
        }
    }

    /// Return from a call.
    pub fn ret(&mut self, test: &JumpTest) -> (r: (ProgramCounter, Delay))
        requires
            old(self).wf(),
            old(self).jump_taken(*test) ==> old(self).pop_ok(),
        ensures
            old(self).ret_post(*test, *final(self), r.0, r.1),
            final(self).pc == old(self).pc,
    {
        proof { reveal(Cpu::ret_post); }
        if test.evaluate(self.registers.f()) {
            let address = self.pop_word();
            return (address, 16);
        }
        (self.pc.wrapping_add(1), 20)
    }

    /// Push a 16-bit operand onto the stack.
    #[verifier::opaque]
    pub open spec fn push_op_post(self, source: WideArithmeticTarget, post: Cpu, next_pc: u16, delay: Delay) -> bool {
        &&& self.push_post(self.read16(source), post)
        &&& next_pc == wrap16(self.pc + 1)
        &&& delay == 16
    }

    /// Push 2 bytes to the stack.
    pub fn push(&mut self, source: &WideArithmeticTarget) -> (r: (ProgramCounter, Delay))
        requires
            old(self).wf(),
            old(self).read16_ok(*source),
            old(self).push_ok(),
        ensures
            old(self).push_op_post(*source, *final(self), r.0, r.1),
            final(self).pc == old(self).pc,
    {
        proof { reveal(Cpu::push_op_post); }
        // read value from register
        let (value, _pc_offset, _read_offset) = self.read_value_16(source);
        self.push_word(value);
        (self.pc.wrapping_add(1), 16)
    }

    /// Pop two stack bytes into a 16-bit target.
    #[verifier::opaque]
    pub open spec fn pop_op_post(self, target: WideArithmeticTarget, post: Cpu, next_pc: u16, delay: Delay) -> bool {
        let v = (self.memory@[self.sp as int] + self.memory@[wrap16(self.sp + 1) as int]
            * 256) as u16;
        let mid = Cpu { sp: wrap16(self.sp + 2), ..self };
        &&& mid.write16_post(target, v, post)
        &&& next_pc == wrap16(self.pc + 1)
        &&& delay == 12
    }

    /// Pop 2 bytes from the stack.
    pub fn pop(&mut self, target: &WideArithmeticTarget) -> (r: (ProgramCounter, Delay))
        requires
            old(self).wf(),
            old(self).pop_ok(),
            old(self).write16_ok(*target),
        ensures
            old(self).pop_op_post(*target, *final(self), r.0, r.1),
            final(self).pc == old(self).pc,
    {
        proof { reveal(Cpu::pop_op_post); }
        let value = self.pop_word();
        self.write_value_16(target, value);
        (self.pc.wrapping_add(1), 12)
    }

    /// Add the byte following the opcode to the word on top of the stack, in
    /// place: the stack pointer ends where it began.
    #[verifier::opaque]
    pub open spec fn add_sp_post(self, post: Cpu, next_pc: u16, delay: Delay) -> bool {
        let v = self.byte_after_pc(1);
        let w = self.memory@[self.sp as int] + self.memory@[wrap16(self.sp + 1) as int] * 256;
        let res = wrap16(w + v);
        &&& post.registers == self.registers
        &&& post.pc == self.pc
        &&& post.is_halted == self.is_halted
        &&& post.sp == self.sp
        &&& post.memory.wf()
        &&& post.memory@ == self.memory@.update(wrap16(self.sp + 1) as int, (res / 256) as u8)
            .update(self.sp as int, (res % 256) as u8)
        &&& next_pc == wrap16(self.pc + 2)
        &&& delay == 16
    }

    /// Read the next byte and add it to the word on top of the stack.
    pub fn add_sp(&mut self) -> (r: (ProgramCounter, Delay))
        requires
            old(self).wf(),
            mapped(wrap16(old(self).pc + 1)),
            old(self).pop_ok(),
        ensures
            old(self).add_sp_post(*final(self), r.0, r.1),
            final(self).pc == old(self).pc,
    {
        proof { reveal(Cpu::add_sp_post); }
        let (value, _pc_offset, _offset) = self.read_value(&ArithmeticTarget::ReadByte);
        let sp_value = self.pop_word();
        proof {
            lemma_wrap16_add(old(self).sp + 2, -1);
            lemma_wrap16_add(old(self).sp + 2, -2);
        }
        self.push_word(sp_value.wrapping_add(value as u16));
        (self.pc.wrapping_add(2), 16)
    }
}


impl Cpu {
    /// Every address the instruction will touch is mapped, and its operand
    /// descriptors are legal for its family.
    pub open spec fn instruction_ok(self, i: Instruction) -> bool {
        match i {
            Instruction::Adc(t) => self.read8_ok(t),
            Instruction::Add(t) => self.read8_ok(t),
            Instruction::AddSp => mapped(wrap16(self.pc + 1)) && self.pop_ok(),
            Instruction::And(t) => self.read8_ok(t),
            Instruction::Bit(t, n) => self.read8_ok(t),
            Instruction::Ccf => true,
            Instruction::Cp(t) => self.read8_ok(t),
            Instruction::Cpl => true,
            Instruction::Dec(t) => self.rmw_ok(t),
            Instruction::Dec16(t) => self.read16_ok(t) && self.write16_ok(t),
            Instruction::Inc(t) => self.rmw_ok(t),
            Instruction::Inc16(t) => self.read16_ok(t) && self.write16_ok(t),
            Instruction::Or(t) => self.read8_ok(t),
            Instruction::Res(t, n) => self.rmw_ok(t),
            Instruction::Rla => true,
            Instruction::Rlc(t) => self.rmw_ok(t),
            Instruction::Rr(t) => self.rmw_ok(t),
            Instruction::Rl(t) => self.rmw_ok(t),
            Instruction::Rra => true,
            Instruction::Rrc(t) => self.rmw_ok(t),
            Instruction::Rrca => true,
            Instruction::Rlca => true,
            Instruction::Sbc(t) => self.read8_ok(t),
            Instruction::SetBit(t, n) => self.rmw_ok(t),
            Instruction::Sla(t) => self.rmw_ok(t),
            Instruction::Sra(t) => self.rmw_ok(t),
            Instruction::Srl(t) => self.rmw_ok(t),
            Instruction::Sub(t) => self.read8_ok(t),
            Instruction::Swap(t) => self.rmw_ok(t),
            Instruction::Xor(t) => self.read8_ok(t),
            Instruction::Jump(test, nature) => self.jump_ok(test, nature),
            Instruction::Load { to, from } => self.read8_ok(from) && self.after_read8(
                from,
            ).write8_ok(to),
            Instruction::Load16 { to, from } => self.read16_ok(from) && self.write16_ok(to),
            Instruction::Push(source) => self.read16_ok(source) && self.push_ok(),
            Instruction::Pop(t) => self.pop_ok() && self.write16_ok(t),
            Instruction::Call(test) => self.call_ok(test),
            Instruction::Ret(test) => self.jump_taken(test) ==> self.pop_ok(),
            Instruction::DisableInterrupt => true,
            Instruction::EnableInterrupt => true,
            Instruction::Nop => true,
            Instruction::Halt => true,
            Instruction::Stop => true,
            Instruction::Rst(address) => self.push_ok(),
            Instruction::Daa => true,
            Instruction::Scf => true,
        }
    }

    /// What executing one instruction does: the machine's new state, the
    /// next program counter it reports, and the cycles it costs.  No
    /// instruction moves the program counter itself; the fetch loop sets it
    /// to the reported value.
    pub open spec fn execute_post(self, i: Instruction, post: Cpu, next_pc: u16, delay: Delay) -> bool {
        &&& post.pc == self.pc
        &&& match i {
            Instruction::Adc(t) => self.adc_post(t, post, next_pc, delay),
            Instruction::Add(t) => self.add_post(t, post, next_pc, delay),
            Instruction::AddSp => self.add_sp_post(post, next_pc, delay),
            Instruction::And(t) => self.and_post(t, post, next_pc, delay),
            Instruction::Bit(t, n) => self.bit_post(t, n, post, next_pc, delay),
            Instruction::Ccf => self.ccf_post(post, next_pc, delay),
            Instruction::Cp(t) => self.cp_post(t, post, next_pc, delay),
            Instruction::Cpl => self.cpl_post(post, next_pc, delay),
            Instruction::Dec(t) => self.dec_post(t, post, next_pc, delay),
            Instruction::Dec16(t) => self.dec_16_post(t, post, next_pc, delay),
            Instruction::Inc(t) => self.inc_post(t, post, next_pc, delay),
            Instruction::Inc16(t) => self.inc_16_post(t, post, next_pc, delay),
            Instruction::Or(t) => self.or_post(t, post, next_pc, delay),
            Instruction::Res(t, n) => self.reset_post(t, n, post, next_pc, delay),
            Instruction::Rla => self.rla_post(post, next_pc, delay),
            Instruction::Rlc(t) => self.rlc_post(t, post, next_pc, delay),
            Instruction::Rr(t) => self.rr_post(t, post, next_pc, delay),
            Instruction::Rl(t) => self.rl_post(t, post, next_pc, delay),
            Instruction::Rra => self.rra_post(post, next_pc, delay),
            Instruction::Rrc(t) => self.rrc_post(t, post, next_pc, delay),
            Instruction::Rrca => self.rrca_post(post, next_pc, delay),
            Instruction::Rlca => self.rlca_post(post, next_pc, delay),
            Instruction::Sbc(t) => self.sbc_post(t, post, next_pc, delay),
            Instruction::SetBit(t, n) => self.set_post(t, n, post, next_pc, delay),
            Instruction::Sla(t) => self.sla_post(t, post, next_pc, delay),
            Instruction::Sra(t) => self.sra_post(t, post, next_pc, delay),
            Instruction::Srl(t) => self.srl_post(t, post, next_pc, delay),
            Instruction::Sub(t) => self.sub_post(t, post, next_pc, delay),
            Instruction::Swap(t) => self.swap_post(t, post, next_pc, delay),
            Instruction::Xor(t) => self.xor_post(t, post, next_pc, delay),
            Instruction::Jump(test, nature) => post == self && self.jump_post(
                test,
                nature,
                next_pc,
                delay,
            ),
            Instruction::Load { to, from } => self.load_post(to, from, post, next_pc, delay),
            Instruction::Load16 { to, from } => self.load_16_post(to, from, post, next_pc, delay),
            Instruction::Push(source) => self.push_op_post(source, post, next_pc, delay),
            Instruction::Pop(t) => self.pop_op_post(t, post, next_pc, delay),
            Instruction::Call(test) => self.call_post(test, post, next_pc, delay),
            Instruction::Ret(test) => self.ret_post(test, post, next_pc, delay),
            Instruction::DisableInterrupt => self.disable_interrupt_post(post, next_pc, delay),
            Instruction::EnableInterrupt => self.enable_interrupt_post(post, next_pc, delay),
            Instruction::Nop => self.nop_post(post, next_pc, delay),
            Instruction::Halt => self.halt_post(post, next_pc, delay),
            Instruction::Stop => self.stop_post(post, next_pc, delay),
            Instruction::Rst(address) => self.rst_post(address, post, next_pc, delay),
            Instruction::Daa => self.daa_post(post, next_pc, delay),
            Instruction::Scf => self.scf_post(post, next_pc, delay),
        }
    }

    /// Execute one arithmetic, accumulator or CPU-control instruction.
    #[verifier::rlimit(100)]
    #[verifier::spinoff_prover]
    fn execute_arith(&mut self, instruction: Instruction) -> (r: (ProgramCounter, Delay))
        requires
            old(self).wf(),
            old(self).instruction_ok(instruction),
            instruction matches Instruction::Adc(_) || instruction matches Instruction::Add(_)
                || instruction matches Instruction::AddSp || instruction matches Instruction::And(
                _,
            ) || instruction matches Instruction::Ccf || instruction matches Instruction::Cp(_)
                || instruction matches Instruction::Cpl || instruction matches Instruction::Or(_)
                || instruction matches Instruction::Rla || instruction matches Instruction::Rra
                || instruction matches Instruction::Rrca || instruction matches Instruction::Rlca
                || instruction matches Instruction::Sbc(_) || instruction matches Instruction::Sub(
                _,
            ) || instruction matches Instruction::Xor(_) || instruction matches Instruction::Daa
                || instruction matches Instruction::Scf,
        ensures
            old(self).execute_post(instruction, *final(self), r.0, r.1),
    {
        match instruction {
            Instruction::Adc(target) => self.adc(&target),
            Instruction::Add(target) => self.add(&target),
            Instruction::AddSp => self.add_sp(),
            Instruction::And(target) => self.and(&target),
            Instruction::Ccf => self.ccf(),
            Instruction::Cp(target) => self.cp(&target),
            Instruction::Cpl => self.cpl(),
            Instruction::Or(target) => self.or(&target),
            Instruction::Rla => self.rla(),
            Instruction::Rra => self.rra(),
            Instruction::Rrca => self.rrca(),
            Instruction::Rlca => self.rlca(),
            Instruction::Sbc(target) => self.sbc(&target),
            Instruction::Sub(target) => self.sub(&target),
            Instruction::Xor(target) => self.xor(&target),
            Instruction::Daa => self.daa(),
            Instruction::Scf => self.scf(),
            _ => unreached(),
        }
    }

    /// Execute one rotate, shift, bit or increment family instruction.
    #[verifier::rlimit(100)]
    #[verifier::spinoff_prover]
    fn execute_bits(&mut self, instruction: Instruction) -> (r: (ProgramCounter, Delay))
        requires
            old(self).wf(),
            old(self).instruction_ok(instruction),
            instruction matches Instruction::Bit(_, _) || instruction matches Instruction::Dec(_)
                || instruction matches Instruction::Dec16(_)
                || instruction matches Instruction::Inc(_) || instruction
                matches Instruction::Inc16(_) || instruction matches Instruction::Res(_, _)
                || instruction matches Instruction::Rlc(_) || instruction matches Instruction::Rr(
                _,
            ) || instruction matches Instruction::Rl(_) || instruction matches Instruction::Rrc(_)
                || instruction matches Instruction::SetBit(_, _) || instruction
                matches Instruction::Sla(_) || instruction matches Instruction::Sra(_)
                || instruction matches Instruction::Srl(_) || instruction
                matches Instruction::Swap(_),
        ensures
            old(self).execute_post(instruction, *final(self), r.0, r.1),
    {
        match instruction {
            Instruction::Bit(target, byte) => self.bit(&target, byte),
            Instruction::Dec(target) => self.dec(&target),
            Instruction::Dec16(target) => self.dec_16(&target),
            Instruction::Inc(target) => self.inc(&target),
            Instruction::Inc16(target) => self.inc_16(&target),
            Instruction::Res(target, byte) => self.reset(&target, byte),
            Instruction::Rlc(target) => self.rlc(&target),
            Instruction::Rr(target) => self.rr(&target),
            Instruction::Rl(target) => self.rl(&target),
            Instruction::Rrc(target) => self.rrc(&target),
            Instruction::SetBit(target, byte) => self.set(&target, byte),
            Instruction::Sla(target) => self.sla(&target),
            Instruction::Sra(target) => self.sra(&target),
            Instruction::Srl(target) => self.srl(&target),
            Instruction::Swap(target) => self.swap(&target),
            _ => unreached(),
        }
    }

    /// Execute one load, stack, jump, call or interrupt-control instruction.
    #[verifier::rlimit(100)]
    #[verifier::spinoff_prover]
    fn execute_flow(&mut self, instruction: Instruction) -> (r: (ProgramCounter, Delay))
        requires
            old(self).wf(),
            old(self).instruction_ok(instruction),
            instruction matches Instruction::Jump(_, _) || instruction
                matches Instruction::Load { .. } || instruction matches Instruction::Load16 { .. }
                || instruction matches Instruction::Push(_) || instruction
                matches Instruction::Pop(_) || instruction matches Instruction::Call(_)
                || instruction matches Instruction::Ret(_) || instruction
                matches Instruction::DisableInterrupt || instruction
                matches Instruction::EnableInterrupt || instruction matches Instruction::Nop
                || instruction matches Instruction::Halt || instruction matches Instruction::Stop
                || instruction matches Instruction::Rst(_),
        ensures
            old(self).execute_post(instruction, *final(self), r.0, r.1),
    {
        match instruction {
            Instruction::Jump(test, nature) => self.jump(&test, &nature),
            Instruction::Load { to: target, from: source } => self.load(&target, &source),
            Instruction::Load16 { to, from } => self.load_16(&to, &from),
            Instruction::Push(source) => self.push(&source),
            Instruction::Pop(target) => self.pop(&target),
            Instruction::Call(test) => self.call(&test),
            Instruction::Ret(test) => self.ret(&test),
            Instruction::DisableInterrupt => self.disable_interrupt(),
            Instruction::EnableInterrupt => self.enable_interrupt(),
            Instruction::Nop => self.nop(),
            Instruction::Halt => self.halt(),
            Instruction::Stop => self.stop(),
            Instruction::Rst(address) => self.rst(address),
            _ => unreached(),
        }
    }

    /// Execute one decoded instruction, returning the next program counter
    /// and the elapsed cycles.
    #[verifier::rlimit(100)]
    #[verifier::spinoff_prover]
    pub fn execute(&mut self, instruction: Instruction) -> (r: (ProgramCounter, Delay))
        requires
            old(self).wf(),
            old(self).instruction_ok(instruction),
        ensures
            old(self).execute_post(instruction, *final(self), r.0, r.1),
    {
        match instruction {
            Instruction::Adc(_) | Instruction::Add(_) | Instruction::AddSp | Instruction::And(_)
                | Instruction::Ccf | Instruction::Cp(_) | Instruction::Cpl | Instruction::Or(_)
                | Instruction::Rla | Instruction::Rra | Instruction::Rrca | Instruction::Rlca
                | Instruction::Sbc(_) | Instruction::Sub(_) | Instruction::Xor(_)
                | Instruction::Daa | Instruction::Scf => self.execute_arith(instruction),
            Instruction::Bit(_, _) | Instruction::Dec(_) | Instruction::Dec16(_)
                | Instruction::Inc(_) | Instruction::Inc16(_) | Instruction::Res(_, _)
                | Instruction::Rlc(_) | Instruction::Rr(_) | Instruction::Rl(_)
                | Instruction::Rrc(_) | Instruction::SetBit(_, _) | Instruction::Sla(_)
                | Instruction::Sra(_) | Instruction::Srl(_) | Instruction::Swap(_) => self
                .execute_bits(instruction),
            Instruction::Jump(_, _) | Instruction::Load { .. } | Instruction::Load16 { .. }
                | Instruction::Push(_) | Instruction::Pop(_) | Instruction::Call(_)
                | Instruction::Ret(_) | Instruction::DisableInterrupt
                | Instruction::EnableInterrupt | Instruction::Nop | Instruction::Halt
                | Instruction::Stop | Instruction::Rst(_) => self.execute_flow(instruction),
        }
    }

    /// The opcode byte at the program counter, decoded: a 0xCB byte resolves
    /// the byte after it against the secondary table instead.
    pub open spec fn fetched_instruction(self) -> Option<Instruction> {
        if self.memory@[self.pc as int] == 0xCB {
            Instruction::spec_from_prefixed_byte(self.byte_after_pc(1))
        } else {
            Instruction::spec_from_byte(self.memory@[self.pc as int])
        }
    }

    /// The instruction the next step will run.  A byte with no table entry
    /// runs as a no-op: the lenient policy, chosen so a trace of a
    /// misbehaving program can run far enough to be diagnosed.
    pub open spec fn step_instruction(self) -> Instruction {
        match self.fetched_instruction() {
            Option::Some(i) => i,
            Option::None => Instruction::Nop,
        }
    }

    /// The fetch itself and everything the fetched instruction touches are
    /// mapped.
    pub open spec fn step_ok(self) -> bool {
        &&& mapped(self.pc)
        &&& (self.memory@[self.pc as int] == 0xCB ==> mapped(wrap16(self.pc + 1)))
        &&& self.instruction_ok(self.step_instruction())
    }

    /// One full fetch-decode-execute cycle: the machine afterwards is the
    /// executed instruction's state with the program counter set to the
    /// next-pc the instruction reported.
    pub open spec fn step_post(self, post: Cpu, delay: Delay) -> bool {
        self.execute_post(self.step_instruction(), Cpu { pc: self.pc, ..post }, post.pc, delay)
    }

    /// Fetch, decode and execute one instruction; returns the elapsed cycle
    /// count for external pacing.
    #[verifier::rlimit(100)]
    #[verifier::spinoff_prover]
    pub fn step(&mut self) -> (delay: Delay)
        requires
            old(self).wf(),
            old(self).step_ok(),
        ensures
            old(self).step_post(*final(self), delay),
    {
        // Check for the prefixed-instruction marker
        let instruction_byte = self.memory.read_byte(self.pc);
        let decoded = if instruction_byte == 0xCB {
            let prefixed_byte = self.memory.read_byte(self.pc.wrapping_add(1));
            Instruction::from_prefixed_byte(prefixed_byte)
        } else {
            Instruction::from_byte(instruction_byte)
        };
        // An unknown opcode runs as a no-op
        let instruction = match decoded {
            Option::Some(i) => i,
            Option::None => Instruction::Nop,
        };
        let (new_pc, delay) = self.execute(instruction);
        let ghost mid = *self;
        self.pc = new_pc;
        proof {
            assert(Cpu { pc: old(self).pc, ..*self } == mid);
        }
        delay
    }
}

/// A machine over a fresh, zeroed bus: every register, the program counter
/// and the stack pointer at zero, not halted.
pub fn create_cpu() -> (r: Cpu)
    ensures
        r.wf(),
        r.registers == Registers::spec_new(),
        r.pc == 0,
        r.sp == 0,
        !r.is_halted,
        r.memory@ == Seq::new(0x10000, |i: int| 0u8),
{
    Cpu::new(MemoryBus::default())
}

/// Law: testing a bit twice in a row, with no other mutation in between,
/// leaves the machine exactly where the first test left it - same flags,
/// same memory - and never mutates the operand it reads.
pub proof fn lemma_bit_idempotent(
    pre: Cpu,
    mid: Cpu,
    post: Cpu,
    t: ArithmeticTarget,
    n: u8,
    pc1: u16,
    pc2: u16,
    d1: Delay,
    d2: Delay,
)
    requires
        !(t matches ArithmeticTarget::HLInc),
        !(t matches ArithmeticTarget::HLDec),
        pre.bit_post(t, n, mid, pc1, d1),
        mid.bit_post(t, n, post, pc2, d2),
    ensures
        post == mid,
        mid.read8(t) == pre.read8(t),
        mid.memory == pre.memory,
{
    reveal(Cpu::bit_post);
}

/// Law: pushing any 16-bit word and popping it straight back returns the
/// word unchanged and restores the stack pointer to its pre-push value.
pub proof fn lemma_push_pop_round_trip(pre: Cpu, mid: Cpu, post: Cpu, v: u16, r: u16)
    requires
        pre.push_post(v, mid),
        mid.pop_post(post, r),
    ensures
        r == v,
        post.sp == pre.sp,
        post.registers == pre.registers,
        post.pc == pre.pc,
{
    lemma_fundamental_div_mod(v as int, 256);
    if pre.sp >= 2 {
        assert(wrap16(mid.sp + 1) == wrap16(pre.sp - 1));
        assert(wrap16(mid.sp + 2) == wrap16(pre.sp as int));
    } else if pre.sp == 1 {
        assert(mid.sp == 0xFFFF);
        assert(wrap16(mid.sp + 1) == 0);
        assert(wrap16(mid.sp + 2) == 1);
    } else {
        assert(mid.sp == 0xFFFE);
        assert(wrap16(mid.sp + 1) == 0xFFFF);
        assert(wrap16(mid.sp + 2) == 0);
    }
}

} // verus!
