//! Table-driven decoder: one function per opcode group, producing the tagged
//! `Instruction` form. Address-sized immediates are fetched here; byte-sized
//! data immediates are left for the executor.

use crate::cpu::Cpu;
use crate::instruction::Alu16Operation;
use crate::instruction::AluOperation;
use crate::instruction::BitOperation;
use crate::instruction::Condition;
use crate::instruction::HighAddr;
use crate::instruction::Instruction;
use crate::instruction::JumpKind;
use crate::instruction::LoadDir;
use crate::instruction::LoadHighOperand;
use crate::instruction::MiscOperation;
use crate::instruction::Operand8;
use crate::instruction::Operand16;
use crate::instruction::Reg16Source;
use crate::instruction::StackOperation;
use crate::instruction::StackPointerOperation;
use crate::instruction::spec_alu_op_from;
use crate::instruction::spec_operand8_from;
use crate::instruction::spec_operand16_from;
use crate::instruction::spec_rotate_op_from;
use crate::mmu::Mmu;
use crate::registers::Reg16;
use crate::registers::make16;
use crate::registers::spec_reg16_from;
use vstd::prelude::*;

verus! {

/// The branch condition of the relative-jump opcodes.
pub open spec fn spec_jr_cond(opcode: u8) -> Condition {
    if opcode == 0x18 {
        Condition::Always
    } else if opcode == 0x20 {
        Condition::NZ
    } else if opcode == 0x28 {
        Condition::Z
    } else if opcode == 0x30 {
        Condition::NC
    } else {
        Condition::C
    }
}

/// The branch condition of the absolute-jump opcodes.
pub open spec fn spec_jp_cond(opcode: u8) -> Condition {
    if opcode == 0xC3 {
        Condition::Always
    } else if opcode == 0xC2 {
        Condition::NZ
    } else if opcode == 0xCA {
        Condition::Z
    } else if opcode == 0xD2 {
        Condition::NC
    } else {
        Condition::C
    }
}

/// The branch condition of the call opcodes.
pub open spec fn spec_call_cond(opcode: u8) -> Condition {
    if opcode == 0xCD {
        Condition::Always
    } else if opcode == 0xC4 {
        Condition::NZ
    } else if opcode == 0xCC {
        Condition::Z
    } else if opcode == 0xD4 {
        Condition::NC
    } else {
        Condition::C
    }
}

/// The branch condition of the return opcodes.
pub open spec fn spec_ret_cond(opcode: u8) -> Condition {
    if opcode == 0xC9 || opcode == 0xD9 {
        Condition::Always
    } else if opcode == 0xC0 {
        Condition::NZ
    } else if opcode == 0xC8 {
        Condition::Z
    } else if opcode == 0xD0 {
        Condition::NC
    } else {
        Condition::C
    }
}

/// The instruction of a prefixed (0xCB) opcode: rotates and shifts in the low
/// quarter, then BIT, RES and SET.
pub open spec fn spec_decode_prefixed(opcode: u8) -> Instruction {
    let operand = spec_operand8_from(opcode & 0x07);
    let bits = (opcode >> 3) & 0x07;
    if opcode >> 6 == 0 {
        Instruction::Rotate { operation: spec_rotate_op_from(bits), operand }
    } else if opcode >> 6 == 1 {
        Instruction::Bit { operation: BitOperation::Test, bit: bits, operand }
    } else if opcode >> 6 == 2 {
        Instruction::Bit { operation: BitOperation::Reset, bit: bits, operand }
    } else {
        Instruction::Bit { operation: BitOperation::SetBit, bit: bits, operand }
    }
}

/// An 8-bit ALU instruction from the 0x80..=0xBF block.
pub fn decode_alu8_r8(opcode: u8) -> (r: Instruction)
    ensures
        r == (Instruction::Alu8 {
            operation: spec_alu_op_from((opcode >> 3) & 0x07),
            operand: spec_operand8_from(opcode & 0x07),
        }),
{
    proof {
        crate::registers::lemma_u8_bits(opcode);
    }
    let bits = (opcode >> 3) & 0x07;
    let operation = if bits == 0 {
        AluOperation::ADD
    } else if bits == 1 {
        AluOperation::ADC
    } else if bits == 2 {
        AluOperation::SUB
    } else if bits == 3 {
        AluOperation::SBC
    } else if bits == 4 {
        AluOperation::AND
    } else if bits == 5 {
        AluOperation::XOR
    } else if bits == 6 {
        AluOperation::OR
    } else {
        AluOperation::CP
    };
    let operand = Operand8::from(opcode & 0x07);
    Instruction::Alu8 { operation, operand }
}

/// An 8-bit ALU instruction with an immediate operand (0xC6, 0xCE, ...).
pub fn decode_alu8_n8(opcode: u8) -> (r: Instruction)
    ensures
        r == (Instruction::Alu8 {
            operation: spec_alu_op_from((opcode >> 3) & 0x07),
            operand: Operand8::Imm8,
        }),
{
    proof {
        crate::registers::lemma_u8_bits(opcode);
    }
    let bits = (opcode >> 3) & 0x07;
    let operation = if bits == 0 {
        AluOperation::ADD
    } else if bits == 1 {
        AluOperation::ADC
    } else if bits == 2 {
        AluOperation::SUB
    } else if bits == 3 {
        AluOperation::SBC
    } else if bits == 4 {
        AluOperation::AND
    } else if bits == 5 {
        AluOperation::XOR
    } else if bits == 6 {
        AluOperation::OR
    } else {
        AluOperation::CP
    };
    Instruction::Alu8 { operation, operand: Operand8::Imm8 }
}

/// An 8-bit increment or decrement: bit 0 of the opcode selects, bits 5..3
/// name the destination.
pub fn decode_inc8_dec8(opcode: u8) -> (r: Instruction)
    ensures
        r == (Instruction::Alu8 {
            operation: if opcode & 0x01 == 0 {
                AluOperation::INC
            } else {
                AluOperation::DEC
            },
            operand: spec_operand8_from((opcode >> 3) & 0x07),
        }),
{
    proof {
        crate::registers::lemma_u8_bits(opcode);
    }
    let operation = if opcode & 0x01 == 0 {
        AluOperation::INC
    } else {
        AluOperation::DEC
    };
    let operand = Operand8::from((opcode >> 3) & 0x07);
    Instruction::Alu8 { operation, operand }
}

/// A 16-bit increment or decrement of BC, DE or HL.
pub fn decode_inc16_dec16(opcode: u8) -> (r: Instruction)
    requires
        (opcode >> 4) & 0x07 <= 2,
    ensures
        r == (Instruction::Alu16 {
            operation: if (opcode >> 3) & 0x01 == 0 {
                Alu16Operation::INC
            } else {
                Alu16Operation::DEC
            },
            operand: spec_operand16_from((opcode >> 4) & 0x07),
        }),
{
    let operation = if (opcode >> 3) & 0x01 == 0 {
        Alu16Operation::INC
    } else {
        Alu16Operation::DEC
    };
    let operand = Operand16::from((opcode >> 4) & 0x07);
    Instruction::Alu16 { operation, operand }
}

/// ADD HL with a register pair or SP as source.
pub fn decode_add_hl_r16(opcode: u8) -> (r: Instruction)
    requires
        opcode == 0x09 || opcode == 0x19 || opcode == 0x29 || opcode == 0x39,
    ensures
        r == (Instruction::AddHlR16 {
            src: if opcode == 0x09 {
                Reg16Source::Reg(Reg16::BC)
            } else if opcode == 0x19 {
                Reg16Source::Reg(Reg16::DE)
            } else if opcode == 0x29 {
                Reg16Source::Reg(Reg16::HL)
            } else {
                Reg16Source::SP
            },
        }),
{
    let src = if opcode == 0x09 {
        Reg16Source::Reg(Reg16::BC)
    } else if opcode == 0x19 {
        Reg16Source::Reg(Reg16::DE)
    } else if opcode == 0x29 {
        Reg16Source::Reg(Reg16::HL)
    } else {
        Reg16Source::SP
    };
    Instruction::AddHlR16 { src }
}

/// A call, conditional or not; the target address is fetched by the executor.
pub fn decode_call(opcode: u8) -> (r: Instruction)
    ensures
        r == (Instruction::Call { condition: spec_call_cond(opcode) }),
{
    let condition = if opcode == 0xCD {
        Condition::Always
    } else if opcode == 0xC4 {
        Condition::NZ
    } else if opcode == 0xCC {
        Condition::Z
    } else if opcode == 0xD4 {
        Condition::NC
    } else {
        Condition::C
    };
    Instruction::Call { condition }
}

/// A restart: the vector is opcode bits 5..3 times eight.
pub fn decode_rst(opcode: u8) -> (r: Instruction)
    ensures
        r == (Instruction::Rst { vector: (opcode & 0x38) as u16 }),
{
    Instruction::Rst { vector: (opcode & 0x38) as u16 }
}

/// A relative jump; the signed offset byte is fetched here.
pub fn decode_jr(opcode: u8, cpu: &mut Cpu, mmu: &Mmu) -> (r: Instruction)
    requires
        old(cpu).wf(),
        !old(cpu).halt_bug,
        mmu.wf(),
    ensures
        r == (Instruction::Jump {
            condition: spec_jr_cond(opcode),
            kind: JumpKind::Relative(mmu.spec_read(old(cpu).program_counter) as i8),
        }),
        *final(cpu) == (Cpu {
            program_counter: old(cpu).program_counter.wrapping_add(1),
            ..*old(cpu)
        }),
        final(cpu).wf(),
{
    let offset = cpu.fetch_byte(mmu) as i8;
    let condition = if opcode == 0x18 {
        Condition::Always
    } else if opcode == 0x20 {
        Condition::NZ
    } else if opcode == 0x28 {
        Condition::Z
    } else if opcode == 0x30 {
        Condition::NC
    } else {
        Condition::C
    };
    Instruction::Jump { condition, kind: JumpKind::Relative(offset) }
}

/// An absolute jump; the target address is fetched here.
pub fn decode_jp(opcode: u8, cpu: &mut Cpu, mmu: &Mmu) -> (r: Instruction)
    requires
        old(cpu).wf(),
        !old(cpu).halt_bug,
        mmu.wf(),
    ensures
        r == (Instruction::Jump {
            condition: spec_jp_cond(opcode),
            kind: JumpKind::Absolute(
                make16(
                    mmu.spec_read(old(cpu).program_counter.wrapping_add(1)),
                    mmu.spec_read(old(cpu).program_counter),
                ),
            ),
        }),
        *final(cpu) == (Cpu {
            program_counter: old(cpu).program_counter.wrapping_add(2),
            ..*old(cpu)
        }),
        final(cpu).wf(),
{
    let addr = cpu.fetch_word(mmu);
    let condition = if opcode == 0xC3 {
        Condition::Always
    } else if opcode == 0xC2 {
        Condition::NZ
    } else if opcode == 0xCA {
        Condition::Z
    } else if opcode == 0xD2 {
        Condition::NC
    } else {
        Condition::C
    };
    Instruction::Jump { condition, kind: JumpKind::Absolute(addr) }
}

/// The jump through HL.
pub fn decode_jp_hl() -> (r: Instruction)
    ensures
        r == Instruction::JumpHl,
{
    Instruction::JumpHl
}

/// A load of an immediate byte into a register or (HL); the byte is fetched
/// by the executor.
pub fn decode_ld_r8_n8(opcode: u8) -> (r: Instruction)
    ensures
        r == (Instruction::Load8 {
            dst: spec_operand8_from((opcode >> 3) & 0x07),
            src: Operand8::Imm8,
        }),
{
    proof {
        crate::registers::lemma_u8_bits(opcode);
    }
    let dst = Operand8::from((opcode >> 3) & 0x07);
    Instruction::Load8 { dst, src: Operand8::Imm8 }
}

/// A register-to-register (or (HL)) load from the 0x40..=0x7F block.
pub fn decode_ld_r8_r8(opcode: u8) -> (r: Instruction)
    ensures
        r == (Instruction::Load8 {
            dst: spec_operand8_from((opcode >> 3) & 0x07),
            src: spec_operand8_from(opcode & 0x07),
        }),
{
    proof {
        crate::registers::lemma_u8_bits(opcode);
    }
    let dst = Operand8::from((opcode >> 3) & 0x07);
    let src = Operand8::from(opcode & 0x07);
    Instruction::Load8 { dst, src }
}

/// A load of an immediate word into BC, DE or HL; the word is fetched by the
/// executor.
pub fn decode_ld_r16_n16(opcode: u8) -> (r: Instruction)
    requires
        (opcode >> 4) & 0x03 <= 2,
    ensures
        r == (Instruction::Load16 {
            dst: spec_operand16_from((opcode >> 4) & 0x03),
            src: Operand16::Imm16,
        }),
{
    let dst = Operand16::from((opcode >> 4) & 0x03);
    Instruction::Load16 { dst, src: Operand16::Imm16 }
}

/// LD HL, SP plus a signed offset; the offset byte is fetched here.
pub fn decode_ld_hl_sp_e8(cpu: &mut Cpu, mmu: &Mmu) -> (r: Instruction)
    requires
        old(cpu).wf(),
        !old(cpu).halt_bug,
        mmu.wf(),
    ensures
        r == (Instruction::LoadHLFromSP {
            offset: mmu.spec_read(old(cpu).program_counter) as i8,
        }),
        *final(cpu) == (Cpu {
            program_counter: old(cpu).program_counter.wrapping_add(1),
            ..*old(cpu)
        }),
        final(cpu).wf(),
{
    let offset = cpu.fetch_byte(mmu) as i8;
    Instruction::LoadHLFromSP { offset }
}

/// A high-page load between A and 0xFF00 plus an immediate byte or C; the
/// immediate byte is fetched here.
pub fn decode_ldh(opcode: u8, cpu: &mut Cpu, mmu: &Mmu) -> (r: Instruction)
    requires
        opcode == 0xE0 || opcode == 0xF0 || opcode == 0xE2 || opcode == 0xF2,
        old(cpu).wf(),
        !old(cpu).halt_bug,
        mmu.wf(),
    ensures
        ({
            let b1 = mmu.spec_read(old(cpu).program_counter);
            if opcode == 0xE0 {
                r == (Instruction::LoadHigh {
                    src: LoadHighOperand::RegA,
                    dst: LoadHighOperand::Addr(HighAddr::Imm8(b1)),
                })
            } else if opcode == 0xF0 {
                r == (Instruction::LoadHigh {
                    src: LoadHighOperand::Addr(HighAddr::Imm8(b1)),
                    dst: LoadHighOperand::RegA,
                })
            } else if opcode == 0xE2 {
                r == (Instruction::LoadHigh {
                    src: LoadHighOperand::RegA,
                    dst: LoadHighOperand::Addr(HighAddr::RegC),
                })
            } else {
                r == (Instruction::LoadHigh {
                    src: LoadHighOperand::Addr(HighAddr::RegC),
                    dst: LoadHighOperand::RegA,
                })
            }
        }),
        *final(cpu) == (Cpu {
            program_counter: if opcode == 0xE0 || opcode == 0xF0 {
                old(cpu).program_counter.wrapping_add(1)
            } else {
                old(cpu).program_counter
            },
            ..*old(cpu)
        }),
        final(cpu).wf(),
{
    if opcode == 0xE0 {
        let offset = cpu.fetch_byte(mmu);
        Instruction::LoadHigh {
            src: LoadHighOperand::RegA,
            dst: LoadHighOperand::Addr(HighAddr::Imm8(offset)),
        }
    } else if opcode == 0xF0 {
        let offset = cpu.fetch_byte(mmu);
        Instruction::LoadHigh {
            src: LoadHighOperand::Addr(HighAddr::Imm8(offset)),
            dst: LoadHighOperand::RegA,
        }
    } else if opcode == 0xE2 {
        Instruction::LoadHigh {
            src: LoadHighOperand::RegA,
            dst: LoadHighOperand::Addr(HighAddr::RegC),
        }
    } else {
        Instruction::LoadHigh {
            src: LoadHighOperand::Addr(HighAddr::RegC),
            dst: LoadHighOperand::RegA,
        }
    }
}

/// A load between A and an absolute address; the address is fetched here.
pub fn decode_ld_a16(opcode: u8, cpu: &mut Cpu, mmu: &Mmu) -> (r: Instruction)
    requires
        opcode == 0xEA || opcode == 0xFA,
        old(cpu).wf(),
        !old(cpu).halt_bug,
        mmu.wf(),
    ensures
        r == (Instruction::LoadA16 {
            addr: make16(
                mmu.spec_read(old(cpu).program_counter.wrapping_add(1)),
                mmu.spec_read(old(cpu).program_counter),
            ),
            direction: if opcode == 0xEA {
                LoadDir::ToMem
            } else {
                LoadDir::FromMem
            },
        }),
        *final(cpu) == (Cpu {
            program_counter: old(cpu).program_counter.wrapping_add(2),
            ..*old(cpu)
        }),
        final(cpu).wf(),
{
    let lo = cpu.fetch_byte(mmu) as u16;
    let hi = cpu.fetch_byte(mmu) as u16;
    proof {
        crate::registers::lemma_word_or(hi, lo);
    }
    let addr = (hi << 8) | lo;
    if opcode == 0xEA {
        Instruction::LoadA16 { addr, direction: LoadDir::ToMem }
    } else {
        Instruction::LoadA16 { addr, direction: LoadDir::FromMem }
    }
}

/// A load between A and (HL) with a post-increment or post-decrement of HL.
pub fn decode_ld_hl_inc_dec(opcode: u8) -> (r: Instruction)
    requires
        opcode == 0x22 || opcode == 0x2A || opcode == 0x32 || opcode == 0x3A,
    ensures
        r == (Instruction::LoadHlIncDec {
            direction: if opcode == 0x22 || opcode == 0x32 {
                LoadDir::ToMem
            } else {
                LoadDir::FromMem
            },
            inc: opcode == 0x22 || opcode == 0x2A,
        }),
{
    if opcode == 0x22 {
        Instruction::LoadHlIncDec { direction: LoadDir::ToMem, inc: true }
    } else if opcode == 0x2A {
        Instruction::LoadHlIncDec { direction: LoadDir::FromMem, inc: true }
    } else if opcode == 0x32 {
        Instruction::LoadHlIncDec { direction: LoadDir::ToMem, inc: false }
    } else {
        Instruction::LoadHlIncDec { direction: LoadDir::FromMem, inc: false }
    }
}

/// An accumulator rotate (RLCA, RRCA, RLA, RRA).
pub fn decode_rotate_a(opcode: u8) -> (r: Instruction)
    ensures
        r == (Instruction::RotateA {
            operation: if (opcode >> 3) & 0x03 == 0 {
                crate::instruction::RotateAOperation::RLCA
            } else if (opcode >> 3) & 0x03 == 1 {
                crate::instruction::RotateAOperation::RRCA
            } else if (opcode >> 3) & 0x03 == 2 {
                crate::instruction::RotateAOperation::RLA
            } else {
                crate::instruction::RotateAOperation::RRA
            },
        }),
{
    let bits = (opcode >> 3) & 0x03;
    let operation = if bits == 0 {
        crate::instruction::RotateAOperation::RLCA
    } else if bits == 1 {
        crate::instruction::RotateAOperation::RRCA
    } else if bits == 2 {
        crate::instruction::RotateAOperation::RLA
    } else {
        crate::instruction::RotateAOperation::RRA
    };
    Instruction::RotateA { operation }
}

/// DAA, CPL, SCF or CCF.
pub fn decode_misc(opcode: u8) -> (r: Instruction)
    requires
        opcode == 0x27 || opcode == 0x2F || opcode == 0x37 || opcode == 0x3F,
    ensures
        r == (Instruction::Misc {
            operation: if opcode == 0x27 {
                MiscOperation::Daa
            } else if opcode == 0x2F {
                MiscOperation::Cpl
            } else if opcode == 0x37 {
                MiscOperation::Scf
            } else {
                MiscOperation::Ccf
            },
        }),
{
    let operation = if opcode == 0x27 {
        MiscOperation::Daa
    } else if opcode == 0x2F {
        MiscOperation::Cpl
    } else if opcode == 0x37 {
        MiscOperation::Scf
    } else {
        MiscOperation::Ccf
    };
    Instruction::Misc { operation }
}

/// A prefixed (0xCB) instruction from its second opcode byte.
pub fn decode_prefixed(opcode: u8) -> (r: Instruction)
    ensures
        r == spec_decode_prefixed(opcode),
{
    proof {
        crate::registers::lemma_u8_bits(opcode);
    }
    let group = opcode >> 6;
    let bit = (opcode >> 3) & 0x07;
    let operand = Operand8::from(opcode & 0x07);
    if group == 0 {
        let operation = if bit == 0 {
            crate::instruction::RotateOperation::RLC
        } else if bit == 1 {
            crate::instruction::RotateOperation::RRC
        } else if bit == 2 {
            crate::instruction::RotateOperation::RL
        } else if bit == 3 {
            crate::instruction::RotateOperation::RR
        } else if bit == 4 {
            crate::instruction::RotateOperation::SLA
        } else if bit == 5 {
            crate::instruction::RotateOperation::SRA
        } else if bit == 6 {
            crate::instruction::RotateOperation::SWAP
        } else {
            crate::instruction::RotateOperation::SRL
        };
        Instruction::Rotate { operation, operand }
    } else if group == 1 {
        Instruction::Bit { operation: BitOperation::Test, bit, operand }
    } else if group == 2 {
        Instruction::Bit { operation: BitOperation::Reset, bit, operand }
    } else {
        Instruction::Bit { operation: BitOperation::SetBit, bit, operand }
    }
}

/// A return, conditional or not; 0xD9 additionally re-enables interrupts.
pub fn decode_ret(opcode: u8) -> (r: Instruction)
    ensures
        r == (Instruction::Ret { condition: spec_ret_cond(opcode), enable_ime: opcode == 0xD9 }),
{
    let condition = if opcode == 0xC9 || opcode == 0xD9 {
        Condition::Always
    } else if opcode == 0xC0 {
        Condition::NZ
    } else if opcode == 0xC8 {
        Condition::Z
    } else if opcode == 0xD0 {
        Condition::NC
    } else {
        Condition::C
    };
    Instruction::Ret { condition, enable_ime: opcode == 0xD9 }
}

/// A PUSH or POP of a register pair.
pub fn decode_stack(opcode: u8) -> (r: Instruction)
    ensures
        r == (Instruction::Stack {
            operation: if (opcode >> 2) & 0x01 == 0 {
                StackOperation::Pop
            } else {
                StackOperation::Push
            },
            reg: spec_reg16_from((opcode >> 4) & 0x03),
        }),
{
    proof {
        crate::registers::lemma_u8_bits(opcode);
    }
    let operation = if (opcode >> 2) & 0x01 == 0 {
        StackOperation::Pop
    } else {
        StackOperation::Push
    };
    let reg = Reg16::from((opcode >> 4) & 0x03);
    Instruction::Stack { operation, reg }
}

/// LD SP with an immediate word (0x31) or ADD SP with a signed byte (0xE8);
/// both operands are fetched by the executor.
pub fn decode_stackpointer(opcode: u8) -> (r: Instruction)
    ensures
        r == (Instruction::StackPointer {
            operation: if opcode == 0x31 {
                StackPointerOperation::LoadImm
            } else {
                StackPointerOperation::AddImm
            },
        }),
{
    let operation = if opcode == 0x31 {
        StackPointerOperation::LoadImm
    } else {
        StackPointerOperation::AddImm
    };
    Instruction::StackPointer { operation }
}

/// LD SP, HL.
pub fn decode_ld_sp_hl() -> (r: Instruction)
    ensures
        r == Instruction::LoadSpFromHl,
{
    Instruction::LoadSpFromHl
}

/// INC SP or DEC SP.
pub fn decode_inc_dec_sp(opcode: u8) -> (r: Instruction)
    ensures
        r == (Instruction::IncDecSp { inc: opcode == 0x33 }),
{
    Instruction::IncDecSp { inc: opcode == 0x33 }
}

/// LD (a16), SP; the address is fetched here.
pub fn decode_ld_a16_sp(cpu: &mut Cpu, mmu: &Mmu) -> (r: Instruction)
    requires
        old(cpu).wf(),
        !old(cpu).halt_bug,
        mmu.wf(),
    ensures
        r == (Instruction::LoadA16Sp {
            addr: make16(
                mmu.spec_read(old(cpu).program_counter.wrapping_add(1)),
                mmu.spec_read(old(cpu).program_counter),
            ),
        }),
        *final(cpu) == (Cpu {
            program_counter: old(cpu).program_counter.wrapping_add(2),
            ..*old(cpu)
        }),
        final(cpu).wf(),
{
    let addr = cpu.fetch_word(mmu);
    Instruction::LoadA16Sp { addr }
}


/// The bytes of operand data the decoder itself consumes for an opcode: the
/// relative-jump offset, the high-page address byte, the signed SP offset and
/// the prefixed opcode take one; absolute addresses take two.
pub open spec fn spec_decode_len(opcode: u8) -> u16 {
    if opcode == 0x18 || opcode == 0x20 || opcode == 0x28 || opcode == 0x30 || opcode == 0x38
        || opcode == 0xE0 || opcode == 0xF0 || opcode == 0xF8 || opcode == 0xCB {
        1
    } else if opcode == 0xC3 || opcode == 0xC2 || opcode == 0xCA || opcode == 0xD2 || opcode
        == 0xDA || opcode == 0xEA || opcode == 0xFA || opcode == 0x08 {
        2
    } else {
        0
    }
}

/// Whether an opcode is one of the eleven holes in the map, accepted as a
/// 4-cycle no-op.
pub open spec fn spec_is_illegal(opcode: u8) -> bool {
    opcode == 0xD3 || opcode == 0xDB || opcode == 0xDD || opcode == 0xE3 || opcode == 0xE4
        || opcode == 0xEB || opcode == 0xEC || opcode == 0xED || opcode == 0xF4 || opcode == 0xFC
        || opcode == 0xFD
}


/// The full decode table as a function: the instruction selected by an
/// opcode, given the two bytes that follow it (used only by the groups whose
/// operands the decoder itself fetches).
pub open spec fn spec_decode(opcode: u8, b1: u8, b2: u8) -> Instruction {
    if opcode == 0x00 {
        Instruction::Misc { operation: MiscOperation::Nop }
    } else if opcode == 0x76 {
        Instruction::Misc { operation: MiscOperation::Halt }
    } else if opcode == 0x10 {
        Instruction::Misc { operation: MiscOperation::Stop }
    } else if opcode == 0xF3 {
        Instruction::Misc { operation: MiscOperation::Di }
    } else if opcode == 0xFB {
        Instruction::Misc { operation: MiscOperation::Ei }
    } else if spec_is_illegal(opcode) {
        Instruction::Misc { operation: MiscOperation::Illegal }
    } else if opcode == 0x08 {
        Instruction::LoadA16Sp { addr: make16(b2, b1) }
    } else if opcode == 0x09 || opcode == 0x19 || opcode == 0x29 || opcode == 0x39 {
        Instruction::AddHlR16 {
            src: if opcode == 0x09 {
                Reg16Source::Reg(Reg16::BC)
            } else if opcode == 0x19 {
                Reg16Source::Reg(Reg16::DE)
            } else if opcode == 0x29 {
                Reg16Source::Reg(Reg16::HL)
            } else {
                Reg16Source::SP
            },
        }
    } else if opcode == 0x07 || opcode == 0x0F || opcode == 0x17 || opcode == 0x1F {
        Instruction::RotateA {
            operation: if opcode == 0x07 {
                crate::instruction::RotateAOperation::RLCA
            } else if opcode == 0x0F {
                crate::instruction::RotateAOperation::RRCA
            } else if opcode == 0x17 {
                crate::instruction::RotateAOperation::RLA
            } else {
                crate::instruction::RotateAOperation::RRA
            },
        }
    } else if opcode & 0xC7 == 0x06 {
        Instruction::Load8 { dst: spec_operand8_from((opcode >> 3) & 0x07), src: Operand8::Imm8 }
    } else if opcode == 0x27 {
        Instruction::Misc { operation: MiscOperation::Daa }
    } else if opcode == 0x2F {
        Instruction::Misc { operation: MiscOperation::Cpl }
    } else if opcode == 0x37 {
        Instruction::Misc { operation: MiscOperation::Scf }
    } else if opcode == 0x3F {
        Instruction::Misc { operation: MiscOperation::Ccf }
    } else if 0x40 <= opcode && opcode <= 0x7F {
        Instruction::Load8 {
            dst: spec_operand8_from((opcode >> 3) & 0x07),
            src: spec_operand8_from(opcode & 0x07),
        }
    } else if opcode & 0xC7 == 0x04 || opcode & 0xC7 == 0x05 {
        Instruction::Alu8 {
            operation: if opcode & 0x01 == 0 {
                AluOperation::INC
            } else {
                AluOperation::DEC
            },
            operand: spec_operand8_from((opcode >> 3) & 0x07),
        }
    } else if opcode == 0x03 || opcode == 0x13 || opcode == 0x23 || opcode == 0x0B || opcode
        == 0x1B || opcode == 0x2B {
        Instruction::Alu16 {
            operation: if (opcode >> 3) & 0x01 == 0 {
                Alu16Operation::INC
            } else {
                Alu16Operation::DEC
            },
            operand: spec_operand16_from((opcode >> 4) & 0x07),
        }
    } else if opcode == 0x01 || opcode == 0x11 || opcode == 0x21 {
        Instruction::Load16 {
            dst: spec_operand16_from((opcode >> 4) & 0x03),
            src: Operand16::Imm16,
        }
    } else if opcode == 0x02 || opcode == 0x12 || opcode == 0x0A || opcode == 0x1A {
        Instruction::LoadIndirect {
            reg: if opcode & 0x10 == 0 {
                Reg16::BC
            } else {
                Reg16::DE
            },
            direction: if opcode & 0x08 == 0 {
                LoadDir::ToMem
            } else {
                LoadDir::FromMem
            },
        }
    } else if opcode == 0x22 || opcode == 0x2A || opcode == 0x32 || opcode == 0x3A {
        Instruction::LoadHlIncDec {
            direction: if opcode == 0x22 || opcode == 0x32 {
                LoadDir::ToMem
            } else {
                LoadDir::FromMem
            },
            inc: opcode == 0x22 || opcode == 0x2A,
        }
    } else if opcode == 0x31 || opcode == 0xE8 {
        Instruction::StackPointer {
            operation: if opcode == 0x31 {
                StackPointerOperation::LoadImm
            } else {
                StackPointerOperation::AddImm
            },
        }
    } else if opcode == 0x33 || opcode == 0x3B {
        Instruction::IncDecSp { inc: opcode == 0x33 }
    } else if 0x80 <= opcode && opcode <= 0xBF {
        Instruction::Alu8 {
            operation: spec_alu_op_from((opcode >> 3) & 0x07),
            operand: spec_operand8_from(opcode & 0x07),
        }
    } else if opcode == 0xC6 || opcode == 0xCE || opcode == 0xD6 || opcode == 0xDE || opcode
        == 0xE6 || opcode == 0xEE || opcode == 0xF6 || opcode == 0xFE {
        Instruction::Alu8 {
            operation: spec_alu_op_from((opcode >> 3) & 0x07),
            operand: Operand8::Imm8,
        }
    } else if opcode == 0x18 || opcode == 0x20 || opcode == 0x28 || opcode == 0x30 || opcode
        == 0x38 {
        Instruction::Jump { condition: spec_jr_cond(opcode), kind: JumpKind::Relative(b1 as i8) }
    } else if opcode == 0xC3 || opcode == 0xC2 || opcode == 0xCA || opcode == 0xD2 || opcode
        == 0xDA {
        Instruction::Jump {
            condition: spec_jp_cond(opcode),
            kind: JumpKind::Absolute(make16(b2, b1)),
        }
    } else if opcode == 0xC1 || opcode == 0xD1 || opcode == 0xE1 || opcode == 0xF1 || opcode
        == 0xC5 || opcode == 0xD5 || opcode == 0xE5 || opcode == 0xF5 {
        Instruction::Stack {
            operation: if (opcode >> 2) & 0x01 == 0 {
                StackOperation::Pop
            } else {
                StackOperation::Push
            },
            reg: spec_reg16_from((opcode >> 4) & 0x03),
        }
    } else if opcode == 0xCB {
        spec_decode_prefixed(b1)
    } else if opcode == 0xCD || opcode == 0xC4 || opcode == 0xCC || opcode == 0xD4 || opcode
        == 0xDC {
        Instruction::Call { condition: spec_call_cond(opcode) }
    } else if opcode == 0xC0 || opcode == 0xC8 || opcode == 0xC9 || opcode == 0xD0 || opcode
        == 0xD8 || opcode == 0xD9 {
        Instruction::Ret { condition: spec_ret_cond(opcode), enable_ime: opcode == 0xD9 }
    } else if opcode == 0xC7 || opcode == 0xD7 || opcode == 0xE7 || opcode == 0xF7 || opcode
        == 0xCF || opcode == 0xDF || opcode == 0xEF || opcode == 0xFF {
        Instruction::Rst { vector: (opcode & 0x38) as u16 }
    } else if opcode == 0xE0 {
        Instruction::LoadHigh {
            src: LoadHighOperand::RegA,
            dst: LoadHighOperand::Addr(HighAddr::Imm8(b1)),
        }
    } else if opcode == 0xF0 {
        Instruction::LoadHigh {
            src: LoadHighOperand::Addr(HighAddr::Imm8(b1)),
            dst: LoadHighOperand::RegA,
        }
    } else if opcode == 0xE2 {
        Instruction::LoadHigh {
            src: LoadHighOperand::RegA,
            dst: LoadHighOperand::Addr(HighAddr::RegC),
        }
    } else if opcode == 0xF2 {
        Instruction::LoadHigh {
            src: LoadHighOperand::Addr(HighAddr::RegC),
            dst: LoadHighOperand::RegA,
        }
    } else if opcode == 0xEA || opcode == 0xFA {
        Instruction::LoadA16 {
            addr: make16(b2, b1),
            direction: if opcode == 0xEA {
                LoadDir::ToMem
            } else {
                LoadDir::FromMem
            },
        }
    } else if opcode == 0xE9 {
        Instruction::JumpHl
    } else if opcode == 0xF8 {
        Instruction::LoadHLFromSP { offset: b1 as i8 }
    } else {
        Instruction::LoadSpFromHl
    }
}

/// Decodes one opcode into its tagged instruction, fetching the operand bytes
/// that select an address. The contract pins the instruction for every group
/// and says that the decoder touches nothing of the CPU but PC.
#[verifier::rlimit(100)]
#[verifier::spinoff_prover]
pub fn decode(opcode: u8, cpu: &mut Cpu, mmu: &Mmu) -> (r: Instruction)
    requires
        old(cpu).wf(),
        !old(cpu).halt_bug,
        mmu.wf(),
    ensures
        *final(cpu) == (Cpu {
            program_counter: old(cpu).program_counter.wrapping_add(spec_decode_len(opcode)),
            ..*old(cpu)
        }),
        final(cpu).wf(),
        r == spec_decode(
            opcode,
            mmu.spec_read(old(cpu).program_counter),
            mmu.spec_read(old(cpu).program_counter.wrapping_add(1)),
        ),
        (r == (Instruction::Misc { operation: MiscOperation::Di })) <==> opcode == 0xF3,
        (r == (Instruction::Misc { operation: MiscOperation::Ei })) <==> opcode == 0xFB,
        (r == (Instruction::Misc { operation: MiscOperation::Halt })) <==> opcode == 0x76,
        (r == (Instruction::Misc { operation: MiscOperation::Stop })) <==> opcode == 0x10,
        opcode == 0x00 ==> r == (Instruction::Misc { operation: MiscOperation::Nop }),
        spec_is_illegal(opcode) ==> r == (Instruction::Misc { operation: MiscOperation::Illegal }),
        opcode == 0x27 ==> r == (Instruction::Misc { operation: MiscOperation::Daa }),
        opcode == 0x2F ==> r == (Instruction::Misc { operation: MiscOperation::Cpl }),
        opcode == 0x37 ==> r == (Instruction::Misc { operation: MiscOperation::Scf }),
        opcode == 0x3F ==> r == (Instruction::Misc { operation: MiscOperation::Ccf }),
        opcode == 0x08 ==> r == (Instruction::LoadA16Sp {
            addr: make16(
                mmu.spec_read(old(cpu).program_counter.wrapping_add(1)),
                mmu.spec_read(old(cpu).program_counter),
            ),
        }),
        (opcode == 0x09 || opcode == 0x19 || opcode == 0x29 || opcode == 0x39) ==> r == (
        Instruction::AddHlR16 {
            src: if opcode == 0x09 {
                Reg16Source::Reg(Reg16::BC)
            } else if opcode == 0x19 {
                Reg16Source::Reg(Reg16::DE)
            } else if opcode == 0x29 {
                Reg16Source::Reg(Reg16::HL)
            } else {
                Reg16Source::SP
            },
        }),
        (opcode == 0x07 || opcode == 0x0F || opcode == 0x17 || opcode == 0x1F) ==> r == (
        Instruction::RotateA {
            operation: if opcode == 0x07 {
                crate::instruction::RotateAOperation::RLCA
            } else if opcode == 0x0F {
                crate::instruction::RotateAOperation::RRCA
            } else if opcode == 0x17 {
                crate::instruction::RotateAOperation::RLA
            } else {
                crate::instruction::RotateAOperation::RRA
            },
        }),
        (opcode & 0xC7 == 0x06) ==> r == (Instruction::Load8 {
            dst: spec_operand8_from((opcode >> 3) & 0x07),
            src: Operand8::Imm8,
        }),
        (0x40 <= opcode <= 0x7F && opcode != 0x76) ==> r == (Instruction::Load8 {
            dst: spec_operand8_from((opcode >> 3) & 0x07),
            src: spec_operand8_from(opcode & 0x07),
        }),
        (opcode & 0xC7 == 0x04 || opcode & 0xC7 == 0x05) && opcode != 0x76 ==> r == (
        Instruction::Alu8 {
            operation: if opcode & 0x01 == 0 {
                AluOperation::INC
            } else {
                AluOperation::DEC
            },
            operand: spec_operand8_from((opcode >> 3) & 0x07),
        }),
        (opcode == 0x03 || opcode == 0x13 || opcode == 0x23 || opcode == 0x0B || opcode == 0x1B
            || opcode == 0x2B) ==> r == (Instruction::Alu16 {
            operation: if (opcode >> 3) & 0x01 == 0 {
                Alu16Operation::INC
            } else {
                Alu16Operation::DEC
            },
            operand: spec_operand16_from((opcode >> 4) & 0x07),
        }),
        (opcode == 0x01 || opcode == 0x11 || opcode == 0x21) ==> r == (Instruction::Load16 {
            dst: spec_operand16_from((opcode >> 4) & 0x03),
            src: Operand16::Imm16,
        }),
        (opcode == 0x02 || opcode == 0x12 || opcode == 0x0A || opcode == 0x1A) ==> r == (
        Instruction::LoadIndirect {
            reg: if opcode & 0x10 == 0 {
                Reg16::BC
            } else {
                Reg16::DE
            },
            direction: if opcode & 0x08 == 0 {
                LoadDir::ToMem
            } else {
                LoadDir::FromMem
            },
        }),
        (opcode == 0x22 || opcode == 0x2A || opcode == 0x32 || opcode == 0x3A) ==> r == (
        Instruction::LoadHlIncDec {
            direction: if opcode == 0x22 || opcode == 0x32 {
                LoadDir::ToMem
            } else {
                LoadDir::FromMem
            },
            inc: opcode == 0x22 || opcode == 0x2A,
        }),
        opcode == 0x31 ==> r == (Instruction::StackPointer {
            operation: StackPointerOperation::LoadImm,
        }),
        opcode == 0xE8 ==> r == (Instruction::StackPointer {
            operation: StackPointerOperation::AddImm,
        }),
        (opcode == 0x33 || opcode == 0x3B) ==> r == (Instruction::IncDecSp {
            inc: opcode == 0x33,
        }),
        (0x80 <= opcode <= 0xBF) ==> r == (Instruction::Alu8 {
            operation: spec_alu_op_from((opcode >> 3) & 0x07),
            operand: spec_operand8_from(opcode & 0x07),
        }),
        (opcode == 0xC6 || opcode == 0xCE || opcode == 0xD6 || opcode == 0xDE || opcode == 0xE6
            || opcode == 0xEE || opcode == 0xF6 || opcode == 0xFE) ==> r == (Instruction::Alu8 {
            operation: spec_alu_op_from((opcode >> 3) & 0x07),
            operand: Operand8::Imm8,
        }),
        (opcode == 0x18 || opcode == 0x20 || opcode == 0x28 || opcode == 0x30 || opcode == 0x38)
            ==> r == (Instruction::Jump {
            condition: spec_jr_cond(opcode),
            kind: JumpKind::Relative(mmu.spec_read(old(cpu).program_counter) as i8),
        }),
        (opcode == 0xC3 || opcode == 0xC2 || opcode == 0xCA || opcode == 0xD2 || opcode == 0xDA)
            ==> r == (Instruction::Jump {
            condition: spec_jp_cond(opcode),
            kind: JumpKind::Absolute(
                make16(
                    mmu.spec_read(old(cpu).program_counter.wrapping_add(1)),
                    mmu.spec_read(old(cpu).program_counter),
                ),
            ),
        }),
        (opcode == 0xC1 || opcode == 0xD1 || opcode == 0xE1 || opcode == 0xF1 || opcode == 0xC5
            || opcode == 0xD5 || opcode == 0xE5 || opcode == 0xF5) ==> r == (Instruction::Stack {
            operation: if (opcode >> 2) & 0x01 == 0 {
                StackOperation::Pop
            } else {
                StackOperation::Push
            },
            reg: spec_reg16_from((opcode >> 4) & 0x03),
        }),
        opcode == 0xCB ==> r == spec_decode_prefixed(mmu.spec_read(old(cpu).program_counter)),
        (opcode == 0xCD || opcode == 0xC4 || opcode == 0xCC || opcode == 0xD4 || opcode == 0xDC)
            ==> r == (Instruction::Call { condition: spec_call_cond(opcode) }),
        (opcode == 0xC0 || opcode == 0xC8 || opcode == 0xC9 || opcode == 0xD0 || opcode == 0xD8
            || opcode == 0xD9) ==> r == (Instruction::Ret {
            condition: spec_ret_cond(opcode),
            enable_ime: opcode == 0xD9,
        }),
        (opcode == 0xC7 || opcode == 0xD7 || opcode == 0xE7 || opcode == 0xF7 || opcode == 0xCF
            || opcode == 0xDF || opcode == 0xEF || opcode == 0xFF) ==> r == (Instruction::Rst {
            vector: (opcode & 0x38) as u16,
        }),
        (opcode == 0xE0 || opcode == 0xF0 || opcode == 0xE2 || opcode == 0xF2) ==> ({
            let b1 = mmu.spec_read(old(cpu).program_counter);
            if opcode == 0xE0 {
                r == (Instruction::LoadHigh {
                    src: LoadHighOperand::RegA,
                    dst: LoadHighOperand::Addr(HighAddr::Imm8(b1)),
                })
            } else if opcode == 0xF0 {
                r == (Instruction::LoadHigh {
                    src: LoadHighOperand::Addr(HighAddr::Imm8(b1)),
                    dst: LoadHighOperand::RegA,
                })
            } else if opcode == 0xE2 {
                r == (Instruction::LoadHigh {
                    src: LoadHighOperand::RegA,
                    dst: LoadHighOperand::Addr(HighAddr::RegC),
                })
            } else {
                r == (Instruction::LoadHigh {
                    src: LoadHighOperand::Addr(HighAddr::RegC),
                    dst: LoadHighOperand::RegA,
                })
            }
        }),
        (opcode == 0xEA || opcode == 0xFA) ==> r == (Instruction::LoadA16 {
            addr: make16(
                mmu.spec_read(old(cpu).program_counter.wrapping_add(1)),
                mmu.spec_read(old(cpu).program_counter),
            ),
            direction: if opcode == 0xEA {
                LoadDir::ToMem
            } else {
                LoadDir::FromMem
            },
        }),
        opcode == 0xE9 ==> r == Instruction::JumpHl,
        opcode == 0xF8 ==> r == (Instruction::LoadHLFromSP {
            offset: mmu.spec_read(old(cpu).program_counter) as i8,
        }),
        opcode == 0xF9 ==> r == Instruction::LoadSpFromHl,
{
    proof {
        let op = opcode;
        assert((op >> 4) & 0x07 <= 2 || !(op == 0x03 || op == 0x13 || op == 0x23 || op == 0x0B
            || op == 0x1B || op == 0x2B)) by (bit_vector);
        assert((op >> 4) & 0x03 <= 2 || !(op == 0x01 || op == 0x11 || op == 0x21))
            by (bit_vector);
        assert((op & 0xC7 == 0x06) == (op == 0x06 || op == 0x0E || op == 0x16 || op == 0x1E || op
            == 0x26 || op == 0x2E || op == 0x36 || op == 0x3E)) by (bit_vector);
        assert((op & 0xC7 == 0x04) == (op == 0x04 || op == 0x0C || op == 0x14 || op == 0x1C || op
            == 0x24 || op == 0x2C || op == 0x34 || op == 0x3C)) by (bit_vector);
        assert((op & 0xC7 == 0x05) == (op == 0x05 || op == 0x0D || op == 0x15 || op == 0x1D || op
            == 0x25 || op == 0x2D || op == 0x35 || op == 0x3D)) by (bit_vector);
        assert((op & 0x38) <= 0x38) by (bit_vector);
        assert((0x07u8 >> 3) & 0x03 == 0 && (0x0Fu8 >> 3) & 0x03 == 1 && (0x17u8 >> 3) & 0x03 == 2
            && (0x1Fu8 >> 3) & 0x03 == 3) by (bit_vector);
    }
    if opcode == 0x00 {
        Instruction::Misc { operation: MiscOperation::Nop }
    } else if opcode == 0x76 {
        Instruction::Misc { operation: MiscOperation::Halt }
    } else if opcode == 0x10 {
        Instruction::Misc { operation: MiscOperation::Stop }
    } else if opcode == 0xF3 {
        Instruction::Misc { operation: MiscOperation::Di }
    } else if opcode == 0xFB {
        Instruction::Misc { operation: MiscOperation::Ei }
    } else if opcode == 0xD3 || opcode == 0xDB || opcode == 0xDD || opcode == 0xE3 || opcode
        == 0xE4 || opcode == 0xEB || opcode == 0xEC || opcode == 0xED || opcode == 0xF4 || opcode
        == 0xFC || opcode == 0xFD {
        Instruction::Misc { operation: MiscOperation::Illegal }
    } else if opcode == 0x08 {
        decode_ld_a16_sp(cpu, mmu)
    } else if opcode == 0x09 || opcode == 0x19 || opcode == 0x29 || opcode == 0x39 {
        decode_add_hl_r16(opcode)
    } else if opcode == 0x07 || opcode == 0x0F || opcode == 0x17 || opcode == 0x1F {
        decode_rotate_a(opcode)
    } else if opcode & 0xC7 == 0x06 {
        decode_ld_r8_n8(opcode)
    } else if opcode == 0x27 || opcode == 0x2F || opcode == 0x37 || opcode == 0x3F {
        decode_misc(opcode)
    } else if 0x40 <= opcode && opcode <= 0x7F {
        decode_ld_r8_r8(opcode)
    } else if opcode & 0xC7 == 0x04 || opcode & 0xC7 == 0x05 {
        decode_inc8_dec8(opcode)
    } else if opcode == 0x03 || opcode == 0x13 || opcode == 0x23 || opcode == 0x0B || opcode
        == 0x1B || opcode == 0x2B {
        decode_inc16_dec16(opcode)
    } else if opcode == 0x01 || opcode == 0x11 || opcode == 0x21 {
        decode_ld_r16_n16(opcode)
    } else if opcode == 0x02 || opcode == 0x12 || opcode == 0x0A || opcode == 0x1A {
        Instruction::LoadIndirect {
            reg: if opcode & 0x10 == 0 {
                Reg16::BC
            } else {
                Reg16::DE
            },
            direction: if opcode & 0x08 == 0 {
                LoadDir::ToMem
            } else {
                LoadDir::FromMem
            },
        }
    } else if opcode == 0x22 || opcode == 0x2A || opcode == 0x32 || opcode == 0x3A {
        decode_ld_hl_inc_dec(opcode)
    } else if opcode == 0x31 || opcode == 0xE8 {
        decode_stackpointer(opcode)
    } else if opcode == 0x33 || opcode == 0x3B {
        decode_inc_dec_sp(opcode)
    } else if 0x80 <= opcode && opcode <= 0xBF {
        decode_alu8_r8(opcode)
    } else if opcode == 0xC6 || opcode == 0xCE || opcode == 0xD6 || opcode == 0xDE || opcode
        == 0xE6 || opcode == 0xEE || opcode == 0xF6 || opcode == 0xFE {
        decode_alu8_n8(opcode)
    } else if opcode == 0x18 || opcode == 0x20 || opcode == 0x28 || opcode == 0x30 || opcode
        == 0x38 {
        decode_jr(opcode, cpu, mmu)
    } else if opcode == 0xC3 || opcode == 0xC2 || opcode == 0xCA || opcode == 0xD2 || opcode
        == 0xDA {
        decode_jp(opcode, cpu, mmu)
    } else if opcode == 0xC1 || opcode == 0xD1 || opcode == 0xE1 || opcode == 0xF1 || opcode
        == 0xC5 || opcode == 0xD5 || opcode == 0xE5 || opcode == 0xF5 {
        decode_stack(opcode)
    } else if opcode == 0xCB {
        let prefixed_opcode = cpu.fetch_byte(mmu);
        decode_prefixed(prefixed_opcode)
    } else if opcode == 0xCD || opcode == 0xC4 || opcode == 0xCC || opcode == 0xD4 || opcode
        == 0xDC {
        decode_call(opcode)
    } else if opcode == 0xC0 || opcode == 0xC8 || opcode == 0xC9 || opcode == 0xD0 || opcode
        == 0xD8 || opcode == 0xD9 {
        decode_ret(opcode)
    } else if opcode == 0xC7 || opcode == 0xD7 || opcode == 0xE7 || opcode == 0xF7 || opcode
        == 0xCF || opcode == 0xDF || opcode == 0xEF || opcode == 0xFF {
        decode_rst(opcode)
    } else if opcode == 0xE0 || opcode == 0xF0 || opcode == 0xE2 || opcode == 0xF2 {
        decode_ldh(opcode, cpu, mmu)
    } else if opcode == 0xEA || opcode == 0xFA {
        decode_ld_a16(opcode, cpu, mmu)
    } else if opcode == 0xE9 {
        decode_jp_hl()
    } else if opcode == 0xF8 {
        decode_ld_hl_sp_e8(cpu, mmu)
    } else {
        decode_ld_sp_hl()
    }
}

} // verus!
