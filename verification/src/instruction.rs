//! The decoded instruction set: a tagged form of every opcode, produced by
//! the decoder and consumed by the CPU's executor.

use crate::registers::Reg8;
use crate::registers::Reg16;
use crate::registers::flag_z;
use crate::registers::flag_c;
use crate::registers::spec_reg8_from;
use vstd::prelude::*;

verus! {

/// An 8-bit operand: a register, the byte at (HL), or the immediate byte.
#[derive(Clone, Copy, PartialEq, Eq, Structural, Debug)]
pub enum Operand8 {
    Register(Reg8),
    IndirectHL,
    Imm8,
}

/// The r8 operand table of the opcode encodings: 6 selects (HL), the rest a
/// register.
pub open spec fn spec_operand8_from(code: u8) -> Operand8 {
    if code == 6 {
        Operand8::IndirectHL
    } else {
        Operand8::Register(spec_reg8_from(code))
    }
}

impl Operand8 {
    pub fn from(code: u8) -> (r: Operand8)
        requires
            code <= 7,
        ensures
            r == spec_operand8_from(code),
    {
        if code == 6 {
            Operand8::IndirectHL
        } else {
            Operand8::Register(Reg8::from(code))
        }
    }
}

/// A 16-bit operand of the load and arithmetic groups.
#[derive(Clone, Copy, PartialEq, Eq, Structural, Debug)]
pub enum Operand16 {
    BC,
    DE,
    HL,
    Imm16,
}

/// The r16 operand table of the arithmetic and load groups.
pub open spec fn spec_operand16_from(code: u8) -> Operand16 {
    if code == 0 {
        Operand16::BC
    } else if code == 1 {
        Operand16::DE
    } else {
        Operand16::HL
    }
}

impl Operand16 {
    pub fn from(code: u8) -> (r: Operand16)
        requires
            code <= 2,
        ensures
            r == spec_operand16_from(code),
    {
        if code == 0 {
            Operand16::BC
        } else if code == 1 {
            Operand16::DE
        } else {
            Operand16::HL
        }
    }
}

/// An 8-bit arithmetic or logic operation. INC and DEC write back to their
/// operand; the others combine it into A.
#[allow(non_camel_case_types)]
#[derive(Clone, Copy, PartialEq, Eq, Structural, Debug)]
pub enum AluOperation {
    ADD,
    ADC,
    SUB,
    SBC,
    AND,
    XOR,
    OR,
    CP,
    INC,
    DEC,
}

/// The ALU operation selected by opcode bits 5..3 in the 0x80..=0xBF block.
pub open spec fn spec_alu_op_from(bits: u8) -> AluOperation {
    if bits == 0 {
        AluOperation::ADD
    } else if bits == 1 {
        AluOperation::ADC
    } else if bits == 2 {
        AluOperation::SUB
    } else if bits == 3 {
        AluOperation::SBC
    } else if bits == 4 {
        AluOperation::AND
    } else if bits == 5 {
        AluOperation::XOR
    } else if bits == 6 {
        AluOperation::OR
    } else {
        AluOperation::CP
    }
}

/// A 16-bit increment or decrement.
#[allow(non_camel_case_types)]
#[derive(Clone, Copy, PartialEq, Eq, Structural, Debug)]
pub enum Alu16Operation {
    INC,
    DEC,
}

/// The source of ADD HL: a register pair or SP.
#[derive(Clone, Copy, PartialEq, Eq, Structural, Debug)]
pub enum Reg16Source {
    Reg(Reg16),
    SP,
}

/// A branch condition: always, or one of the four flag tests.
#[derive(Clone, Copy, PartialEq, Eq, Structural, Debug)]
pub enum Condition {
    Always,
    NZ,
    Z,
    NC,
    C,
}

/// Whether a condition holds of an F-register byte.
pub open spec fn spec_cond_holds(c: Condition, flags: u8) -> bool {
    match c {
        Condition::Always => true,
        Condition::NZ => !flag_z(flags),
        Condition::Z => flag_z(flags),
        Condition::NC => !flag_c(flags),
        Condition::C => flag_c(flags),
    }
}

/// A jump target: PC-relative or absolute.
#[derive(Clone, Copy, PartialEq, Eq, Structural, Debug)]
pub enum JumpKind {
    Relative(i8),
    Absolute(u16),
}

/// The unprefixed accumulator rotates, which force Z to zero.
#[allow(non_camel_case_types)]
#[derive(Clone, Copy, PartialEq, Eq, Structural, Debug)]
pub enum RotateAOperation {
    RLCA,
    RRCA,
    RLA,
    RRA,
}

/// A prefixed rotate or shift, which sets Z normally.
#[allow(non_camel_case_types)]
#[derive(Clone, Copy, PartialEq, Eq, Structural, Debug)]
pub enum RotateOperation {
    RLC,
    RRC,
    RL,
    RR,
    SLA,
    SRA,
    SWAP,
    SRL,
}

/// The prefixed rotate operation selected by opcode bits 5..3.
pub open spec fn spec_rotate_op_from(bits: u8) -> RotateOperation {
    if bits == 0 {
        RotateOperation::RLC
    } else if bits == 1 {
        RotateOperation::RRC
    } else if bits == 2 {
        RotateOperation::RL
    } else if bits == 3 {
        RotateOperation::RR
    } else if bits == 4 {
        RotateOperation::SLA
    } else if bits == 5 {
        RotateOperation::SRA
    } else if bits == 6 {
        RotateOperation::SWAP
    } else {
        RotateOperation::SRL
    }
}

/// A prefixed single-bit operation: test, clear or set.
#[derive(Clone, Copy, PartialEq, Eq, Structural, Debug)]
pub enum BitOperation {
    Test,
    Reset,
    SetBit,
}

/// The one-byte instructions without operands.
#[derive(Clone, Copy, PartialEq, Eq, Structural, Debug)]
pub enum MiscOperation {
    Nop,
    Halt,
    Stop,
    Daa,
    Cpl,
    Scf,
    Ccf,
    Di,
    Ei,
    Illegal,
}

/// The direction of a load between A and memory.
#[derive(Clone, Copy, PartialEq, Eq, Structural, Debug)]
pub enum LoadDir {
    ToMem,
    FromMem,
}

/// The address form of the high-page loads: 0xFF00 plus an immediate byte or
/// plus C.
#[derive(Clone, Copy, PartialEq, Eq, Structural, Debug)]
pub enum HighAddr {
    Imm8(u8),
    RegC,
}

/// One side of a high-page load: the A register or a high-page address.
#[derive(Clone, Copy, PartialEq, Eq, Structural, Debug)]
pub enum LoadHighOperand {
    RegA,
    Addr(HighAddr),
}

/// PUSH or POP.
#[derive(Clone, Copy, PartialEq, Eq, Structural, Debug)]
pub enum StackOperation {
    Pop,
    Push,
}

/// The SP-register instructions: load an immediate word, or add a signed
/// immediate byte.
#[derive(Clone, Copy, PartialEq, Eq, Structural, Debug)]
pub enum StackPointerOperation {
    LoadImm,
    AddImm,
}

/// A decoded instruction. Immediate operands that select the instruction's
/// address are carried here; byte-sized data immediates are fetched by the
/// executor.
#[derive(Clone, Copy, PartialEq, Eq, Structural, Debug)]
pub enum Instruction {
    Misc { operation: MiscOperation },
    Alu8 { operation: AluOperation, operand: Operand8 },
    Alu16 { operation: Alu16Operation, operand: Operand16 },
    AddHlR16 { src: Reg16Source },
    RotateA { operation: RotateAOperation },
    Rotate { operation: RotateOperation, operand: Operand8 },
    Bit { operation: BitOperation, bit: u8, operand: Operand8 },
    Jump { condition: Condition, kind: JumpKind },
    JumpHl,
    Call { condition: Condition },
    Rst { vector: u16 },
    Ret { condition: Condition, enable_ime: bool },
    Load8 { dst: Operand8, src: Operand8 },
    Load16 { dst: Operand16, src: Operand16 },
    LoadIndirect { reg: Reg16, direction: LoadDir },
    LoadHlIncDec { direction: LoadDir, inc: bool },
    LoadHLFromSP { offset: i8 },
    LoadHigh { src: LoadHighOperand, dst: LoadHighOperand },
    LoadA16 { addr: u16, direction: LoadDir },
    LoadA16Sp { addr: u16 },
    LoadSpFromHl,
    Stack { operation: StackOperation, reg: Reg16 },
    StackPointer { operation: StackPointerOperation },
    IncDecSp { inc: bool },
}

} // verus!
