//! CPU: the LR35902-class instruction interpreter, interrupt dispatch and the
//! HALT/STOP states. One `step` runs one logical unit — an interrupt dispatch,
//! a 4-cycle idle while HALT or STOP waits, or one instruction — and returns
//! the elapsed T-cycles.

use crate::instruction::AluOperation;
use crate::instruction::Instruction;
use crate::instruction::MiscOperation;
use crate::instruction::Operand8;
use crate::instruction::RotateAOperation;
use crate::instruction::RotateOperation;
use crate::mmu::Mmu;
use crate::mmu::spec_write8;
use crate::registers::FlagsRegister;
use crate::registers::Reg8;
use crate::registers::Reg16;
use crate::registers::Registers;
use crate::registers::flag_c;
use crate::registers::flag_n;
use crate::registers::flag_h;
use crate::registers::flag_z;
use crate::registers::spec_flags_byte;
use crate::registers::make16;
use crate::registers::hi8;
use crate::registers::lo8;
use vstd::prelude::*;

verus! {

/// An interrupt source, in priority order: bit 0 is VBlank, bit 4 is Joypad.
#[derive(Clone, Copy, PartialEq, Eq, Structural, Debug)]
pub enum Interrupt {
    VBlank,
    LCDStat,
    Timer,
    Serial,
    Joypad,
}

impl Interrupt {
    /// The bit of this source within IF and IE.
    pub open spec fn spec_bit(self) -> u8 {
        match self {
            Interrupt::VBlank => 0,
            Interrupt::LCDStat => 1,
            Interrupt::Timer => 2,
            Interrupt::Serial => 3,
            Interrupt::Joypad => 4,
        }
    }

    pub fn bit(self) -> (r: u8)
        ensures
            r == self.spec_bit(),
    {
        match self {
            Interrupt::VBlank => 0,
            Interrupt::LCDStat => 1,
            Interrupt::Timer => 2,
            Interrupt::Serial => 3,
            Interrupt::Joypad => 4,
        }
    }
}

/// The handler address of interrupt bit `i`: 0x40, 0x48, 0x50, 0x58, 0x60.
pub open spec fn spec_vector(i: u8) -> u16 {
    if i == 0 {
        0x40
    } else if i == 1 {
        0x48
    } else if i == 2 {
        0x50
    } else if i == 3 {
        0x58
    } else {
        0x60
    }
}

/// The lowest set bit among the five interrupt bits of `pending`, which must
/// be nonzero.
pub open spec fn spec_lowest_bit(pending: u8) -> u8 {
    if pending & 1 != 0 {
        0
    } else if pending & 2 != 0 {
        1
    } else if pending & 4 != 0 {
        2
    } else if pending & 8 != 0 {
        3
    } else {
        4
    }
}

/// The CPU state.
pub struct Cpu {
    pub program_counter: u16,
    pub stack_pointer: u16,
    pub registers: Registers,
    pub pending_ime: bool,
    pub ime: bool,
    pub halted: bool,
    pub stopped: bool,
    pub halt_bug: bool,
}

impl Cpu {
    /// The F-register invariant, carried through every step.
    pub open spec fn wf(self) -> bool {
        self.registers.wf()
    }

    /// The flags byte.
    pub open spec fn spec_flags(self) -> u8 {
        self.registers.flag_register.flags
    }

    /// The five masked pending-interrupt bits: IE & IF & 0x1F.
    pub open spec fn spec_pending(m: Mmu) -> u8 {
        (m.spec_read(0xFFFF) & 0x1F) & (m.spec_read(0xFF0F) & 0x1F)
    }

    /// The post-boot CPU state.
    pub fn new() -> (r: Cpu)
        ensures
            r.program_counter == 0x0100,
            r.stack_pointer == 0xFFFE,
            r.registers == Registers::spec_boot(),
            !r.pending_ime,
            !r.ime,
            !r.halted,
            !r.stopped,
            !r.halt_bug,
            r.wf(),
    {
        Cpu {
            stack_pointer: 0xFFFE,
            program_counter: 0x0100,
            registers: Registers::new(),
            pending_ime: false,
            ime: false,
            halted: false,
            stopped: false,
            halt_bug: false,
        }
    }

    /// Fetches the byte at PC and advances PC — except that a pending
    /// halt-bug fetch reads without advancing, once.
    pub fn fetch_byte(&mut self, mmu: &Mmu) -> (val: u8)
        requires
            old(self).wf(),
            mmu.wf(),
        ensures
            val == mmu.spec_read(old(self).program_counter),
            *final(self) == (Cpu {
                program_counter: if old(self).halt_bug {
                    old(self).program_counter
                } else {
                    old(self).program_counter.wrapping_add(1)
                },
                halt_bug: false,
                ..*old(self)
            }),
            final(self).wf(),
    {
        let val = mmu.read8(self.program_counter);
        if self.halt_bug {
            self.halt_bug = false;
        } else {
            self.program_counter = self.program_counter.wrapping_add(1);
        }
        val
    }

    /// Fetches a little-endian word at PC. With a pending halt bug the first
    /// fetch does not advance, so both bytes read the same address.
    pub fn fetch_word(&mut self, mmu: &Mmu) -> (val: u16)
        requires
            old(self).wf(),
            mmu.wf(),
        ensures
            ({
                let pc = old(self).program_counter;
                if old(self).halt_bug {
                    val == make16(mmu.spec_read(pc), mmu.spec_read(pc)) && *final(self) == (Cpu {
                        program_counter: pc.wrapping_add(1),
                        halt_bug: false,
                        ..*old(self)
                    })
                } else {
                    val == make16(mmu.spec_read(pc.wrapping_add(1)), mmu.spec_read(pc))
                        && *final(self) == (Cpu {
                        program_counter: pc.wrapping_add(2),
                        halt_bug: false,
                        ..*old(self)
                    })
                }
            }),
            final(self).wf(),
    {
        let low_byte = self.fetch_byte(mmu) as u16;
        let high_byte = self.fetch_byte(mmu) as u16;
        proof {
            crate::registers::lemma_word_or(high_byte, low_byte);
        }
        (high_byte << 8) + low_byte
    }

    /// Pushes PC onto the stack, high byte first, decrementing SP by two.
    fn push_pc_to_stack(&mut self, mmu: &mut Mmu)
        requires
            old(self).wf(),
            old(mmu).wf(),
        ensures
            *final(self) == (Cpu {
                stack_pointer: old(self).stack_pointer.wrapping_sub(2),
                ..*old(self)
            }),
            ({
                let v = old(mmu).view();
                let n = old(mmu).apu.spec_nr52();
                let a1 = old(self).stack_pointer.wrapping_sub(1);
                let a2 = old(self).stack_pointer.wrapping_sub(2);
                final(mmu).view() == spec_write8(
                    spec_write8(v, n, a1, hi8(old(self).program_counter)),
                    n,
                    a2,
                    lo8(old(self).program_counter),
                )
            }),
            final(self).wf(),
            final(mmu).wf(),
    {
        let pc_high = (self.program_counter >> 8) as u8;
        let pc_low = (self.program_counter & 0xFF) as u8;
        let ghost a1 = self.stack_pointer.wrapping_sub(1);
        let ghost a2 = self.stack_pointer.wrapping_sub(2);
        self.stack_pointer = self.stack_pointer.wrapping_sub(1);
        mmu.write8(self.stack_pointer, pc_high);
        let ghost mid = *mmu;
        self.stack_pointer = self.stack_pointer.wrapping_sub(1);
        mmu.write8(self.stack_pointer, pc_low);
        proof {
            let n = old(mmu).apu.spec_nr52();
            let n_mid = mid.apu.spec_nr52();
            if a2 == 0xFF46 {
                assert(a1 == 0xFF47);
                assert(mid.apu == old(mmu).apu);
                assert(n_mid == n);
            } else {
                lemma_write8_nr52_insensitive(
                    mid.view(),
                    n_mid,
                    n,
                    a2,
                    lo8(old(self).program_counter),
                );
            }
        }
    }

    /// Pops a little-endian word from the stack, incrementing SP by two.
    fn pop_pc_from_stack(&mut self, mmu: &Mmu) -> (val: u16)
        requires
            old(self).wf(),
            mmu.wf(),
        ensures
            val == make16(
                mmu.spec_read(old(self).stack_pointer.wrapping_add(1)),
                mmu.spec_read(old(self).stack_pointer),
            ),
            *final(self) == (Cpu {
                stack_pointer: old(self).stack_pointer.wrapping_add(2),
                ..*old(self)
            }),
            final(self).wf(),
    {
        let byte_low = mmu.read8(self.stack_pointer) as u16;
        self.stack_pointer = self.stack_pointer.wrapping_add(1);
        let byte_high = mmu.read8(self.stack_pointer) as u16;
        self.stack_pointer = self.stack_pointer.wrapping_add(1);
        proof {
            crate::registers::lemma_make16_split(0, (byte_high as u8), (byte_low as u8));
        }
        (byte_high << 8) | byte_low
    }

    /// Interrupt dispatch: with IME set and a masked pending bit, the lowest
    /// pending bit is acknowledged — its IF bit cleared, IME and HALT
    /// cleared, PC pushed and set to the handler vector — for 20 cycles.
    /// Otherwise nothing happens and 0 is returned.
    pub fn handle_interrupts(&mut self, mmu: &mut Mmu) -> (cycles: u8)
        requires
            old(self).wf(),
            old(mmu).wf(),
        ensures
            ({
                let pending = Cpu::spec_pending(*old(mmu));
                if pending == 0 || !old(self).ime {
                    cycles == 0 && *final(self) == *old(self) && *final(mmu) == *old(mmu)
                } else {
                    let i = spec_lowest_bit(pending);
                    let v = old(mmu).view();
                    let n = old(mmu).apu.spec_nr52();
                    let a1 = old(self).stack_pointer.wrapping_sub(1);
                    let a2 = old(self).stack_pointer.wrapping_sub(2);
                    let v2 = spec_write8(
                        spec_write8(v, n, a1, hi8(old(self).program_counter)),
                        n,
                        a2,
                        lo8(old(self).program_counter),
                    );
                    cycles == 20 && *final(self) == (Cpu {
                        ime: false,
                        halted: false,
                        stack_pointer: a2,
                        program_counter: spec_vector(i),
                        ..*old(self)
                    }) && final(mmu).view() == spec_write8(
                        v2,
                        n,
                        0xFF0F,
                        ((old(mmu).spec_read(0xFF0F) & 0x1F) & !(1u8 << i)) & 0x1F,
                    )
                }
            }),
            final(self).wf(),
            final(mmu).wf(),
    {
        let ie = mmu.read8(0xFFFF) & 0x1F;
        let iflag = mmu.read8(0xFF0F) & 0x1F;
        let pending = ie & iflag;
        if pending == 0 || !self.ime {
            return 0;
        }
        let i: u8 = if pending & 1 != 0 {
            0
        } else if pending & 2 != 0 {
            1
        } else if pending & 4 != 0 {
            2
        } else if pending & 8 != 0 {
            3
        } else {
            4
        };

        self.ime = false;
        self.halted = false;

        let ghost mid_n = old(mmu).apu.spec_nr52();
        self.push_pc_to_stack(mmu);
        let ghost v2 = mmu.view();
        let ghost mid = *mmu;

        self.program_counter = if i == 0 {
            0x40
        } else if i == 1 {
            0x48
        } else if i == 2 {
            0x50
        } else if i == 3 {
            0x58
        } else {
            0x60
        };

        let new_if = (iflag & !(1u8 << i)) & 0x1F;
        mmu.write8(0xFF0F, new_if);
        proof {
            lemma_write8_nr52_insensitive(v2, mid.apu.spec_nr52(), mid_n, 0xFF0F, new_if);
        }
        20
    }
}


/// The register pair named by a non-immediate 16-bit operand.
pub open spec fn spec_operand16_reg(o: crate::instruction::Operand16) -> Reg16 {
    match o {
        crate::instruction::Operand16::BC => Reg16::BC,
        crate::instruction::Operand16::DE => Reg16::DE,
        _ => Reg16::HL,
    }
}

/// The value of an 8-bit operand in a given CPU and bus state; an immediate
/// reads the byte at PC.
pub open spec fn spec_operand8_value(c: Cpu, m: Mmu, operand: Operand8) -> u8 {
    match operand {
        Operand8::Register(r) => c.registers.spec_read8(r),
        Operand8::IndirectHL => m.spec_read(c.registers.spec_read16(Reg16::HL)),
        Operand8::Imm8 => m.spec_read(c.program_counter),
    }
}

/// The 8-bit sum of a, b and a carry-in, reduced modulo 256.
pub open spec fn spec_add_result(a: u8, b: u8, cin: u8) -> u8 {
    ((a + b + cin) % 256) as u8
}

/// The flag byte of ADD and ADC: Z of the result, N clear, H from the low
/// nibbles, C from the full byte.
pub open spec fn spec_add_flags(a: u8, b: u8, cin: u8) -> u8 {
    spec_flags_byte(
        spec_add_result(a, b, cin) == 0,
        false,
        (a & 0x0F) + (b & 0x0F) + cin > 0x0F,
        a + b + cin > 0xFF,
    )
}

/// The 8-bit difference a - b - carry-in, reduced modulo 256.
pub open spec fn spec_sub_result(a: u8, b: u8, cin: u8) -> u8 {
    if a - b - cin < 0 {
        (a - b - cin + 256) as u8
    } else {
        (a - b - cin) as u8
    }
}

/// The flag byte of SUB, SBC and CP: Z of the result, N set, H and C as
/// borrows from the low nibble and the full byte.
pub open spec fn spec_sub_flags(a: u8, b: u8, cin: u8) -> u8 {
    spec_flags_byte(
        spec_sub_result(a, b, cin) == 0,
        true,
        (a & 0x0F) < (b & 0x0F) + cin,
        (a as int) < b + cin,
    )
}

/// The flag byte of AND: Z of the result, H set, N and C clear.
pub open spec fn spec_and_flags(r: u8) -> u8 {
    spec_flags_byte(r == 0, false, true, false)
}

/// The flag byte of OR, XOR and SWAP: Z of the result, the rest clear.
pub open spec fn spec_logic_flags(r: u8) -> u8 {
    spec_flags_byte(r == 0, false, false, false)
}

/// The flag byte of INC r8: Z of the result, N clear, H from the low nibble,
/// C untouched.
pub open spec fn spec_inc_flags(v: u8, old_flags: u8) -> u8 {
    spec_flags_byte(spec_add_result(v, 1, 0) == 0, false, (v & 0x0F) + 1 > 0x0F, flag_c(old_flags))
}

/// The flag byte of DEC r8: Z of the result, N set, H when the low nibble
/// borrows, C untouched.
pub open spec fn spec_dec_flags(v: u8, old_flags: u8) -> u8 {
    spec_flags_byte(spec_sub_result(v, 1, 0) == 0, true, (v & 0x0F) == 0, flag_c(old_flags))
}

/// DAA: the BCD correction of A after an addition or subtraction, driven by
/// the N, H and C flags; returns the adjusted A and the new flag byte
/// (Z of the result, N kept, H cleared, C set when a high correction
/// happened).
pub open spec fn spec_daa(a: u8, f: u8) -> (u8, u8) {
    let low = if flag_h(f) || (!flag_n(f) && (a & 0x0F) > 0x09) {
        0x06u8
    } else {
        0u8
    };
    let high_carry = flag_c(f) || (!flag_n(f) && a > 0x99);
    let adjust = if high_carry {
        (low | 0x60) as u8
    } else {
        low
    };
    let a2 = if flag_n(f) {
        a.wrapping_sub(adjust)
    } else {
        a.wrapping_add(adjust)
    };
    (a2, spec_flags_byte(a2 == 0, flag_n(f), false, high_carry))
}

/// A rotate or shift: the result byte and the bit pushed out (the new carry).
pub open spec fn spec_rotate(op: RotateOperation, v: u8, cin: u8) -> (u8, u8) {
    match op {
        RotateOperation::RLC => (((v << 1) | (v >> 7)) as u8, (v & 0x80) >> 7),
        RotateOperation::RRC => (((v >> 1) | (v << 7)) as u8, v & 1),
        RotateOperation::RL => (((v << 1) | cin) as u8, (v & 0x80) >> 7),
        RotateOperation::RR => (((v >> 1) | (cin << 7)) as u8, v & 1),
        RotateOperation::SLA => ((v << 1) as u8, (v & 0x80) >> 7),
        RotateOperation::SRA => (((v >> 1) | (v & 0x80)) as u8, v & 1),
        RotateOperation::SWAP => ((((v & 0x0F) << 4) | ((v & 0xF0) >> 4)) as u8, 0),
        RotateOperation::SRL => ((v >> 1) as u8, v & 1),
    }
}

/// The accumulator rotate behind each unprefixed rotate opcode.
pub open spec fn spec_rotate_a_op(op: RotateAOperation) -> RotateOperation {
    match op {
        RotateAOperation::RLCA => RotateOperation::RLC,
        RotateAOperation::RRCA => RotateOperation::RRC,
        RotateAOperation::RLA => RotateOperation::RL,
        RotateAOperation::RRA => RotateOperation::RR,
    }
}

impl Cpu {
    /// Reads one 8-bit operand; an immediate is fetched, advancing PC.
    fn read_operand8(&mut self, operand: Operand8, mmu: &Mmu) -> (v: u8)
        requires
            old(self).wf(),
            !old(self).halt_bug,
            mmu.wf(),
        ensures
            v == spec_operand8_value(*old(self), *mmu, operand),
            *final(self) == (Cpu {
                program_counter: if operand == Operand8::Imm8 {
                    old(self).program_counter.wrapping_add(1)
                } else {
                    old(self).program_counter
                },
                ..*old(self)
            }),
            final(self).wf(),
    {
        match operand {
            Operand8::Register(reg) => self.registers.read8(&reg),
            Operand8::IndirectHL => mmu.read8(self.registers.read16(&Reg16::HL)),
            Operand8::Imm8 => self.fetch_byte(mmu),
        }
    }

    /// Writes one 8-bit operand: a register, or the byte at (HL).
    fn write_operand8(&mut self, operand: Operand8, value: u8, mmu: &mut Mmu)
        requires
            old(self).wf(),
            old(mmu).wf(),
            operand != Operand8::Imm8,
        ensures
            (operand matches Operand8::Register(r) ==> *final(self) == (Cpu {
                registers: old(self).registers.spec_write8(r, value),
                ..*old(self)
            }) && *final(mmu) == *old(mmu)),
            operand == Operand8::IndirectHL ==> *final(self) == *old(self)
                && crate::mmu::spec_store_effect(
                *old(mmu),
                *final(mmu),
                old(self).registers.spec_read16(Reg16::HL),
                value,
            ),
            final(self).wf(),
            final(mmu).wf(),
    {
        match operand {
            Operand8::Register(reg) => self.registers.write8(&reg, value),
            Operand8::IndirectHL => mmu.write8(self.registers.read16(&Reg16::HL), value),
            Operand8::Imm8 => {},
        }
    }

    /// Replaces the four flag bits, leaving the low nibble zero.
    fn set_flags(&mut self, z: bool, n: bool, h: bool, c: bool)
        ensures
            *final(self) == (Cpu {
                registers: (Registers {
                    flag_register: (FlagsRegister { flags: spec_flags_byte(z, n, h, c) }),
                    ..old(self).registers
                }),
                ..*old(self)
            }),
            final(self).wf(),
    {
        proof {
            crate::registers::lemma_flags_byte(z, n, h, c);
        }
        let flags: u8 = (if z {
            0x80u8
        } else {
            0u8
        }) | (if n {
            0x40u8
        } else {
            0u8
        }) | (if h {
            0x20u8
        } else {
            0u8
        }) | (if c {
            0x10u8
        } else {
            0u8
        });
        self.registers.flag_register = FlagsRegister { flags };
    }

    /// Whether a branch condition holds of the current flags.
    fn cond_holds(&self, c: crate::instruction::Condition) -> (r: bool)
        ensures
            r == crate::instruction::spec_cond_holds(c, self.spec_flags()),
    {
        match c {
            crate::instruction::Condition::Always => true,
            crate::instruction::Condition::NZ => self.registers.flag_register.get_flag(
                crate::registers::Flags::ZERO,
            ) == 0,
            crate::instruction::Condition::Z => self.registers.flag_register.get_flag(
                crate::registers::Flags::ZERO,
            ) == 1,
            crate::instruction::Condition::NC => self.registers.flag_register.get_flag(
                crate::registers::Flags::CARRY,
            ) == 0,
            crate::instruction::Condition::C => self.registers.flag_register.get_flag(
                crate::registers::Flags::CARRY,
            ) == 1,
        }
    }

    /// ADD A or ADC A with any 8-bit operand: A takes the modular sum and the
    /// flags follow the addition table.
    pub fn exec_add(&mut self, operand: Operand8, with_carry: bool, mmu: &Mmu) -> (cycles: u8)
        requires
            old(self).wf(),
            !old(self).halt_bug,
            mmu.wf(),
        ensures
            ({
                let a = old(self).registers.a;
                let v = spec_operand8_value(*old(self), *mmu, operand);
                let cin: u8 = if with_carry && flag_c(old(self).spec_flags()) {
                    1u8
                } else {
                    0u8
                };
                *final(self) == (Cpu {
                    registers: (Registers {
                        a: spec_add_result(a, v, cin),
                        flag_register: (FlagsRegister { flags: spec_add_flags(a, v, cin) }),
                        ..old(self).registers
                    }),
                    program_counter: if operand == Operand8::Imm8 {
                        old(self).program_counter.wrapping_add(1)
                    } else {
                        old(self).program_counter
                    },
                    ..*old(self)
                })
            }),
            cycles == (if operand matches Operand8::Register(_) {
                4u8
            } else {
                8u8
            }),
            final(self).wf(),
    {
        let v = self.read_operand8(operand, mmu);
        let a = self.registers.read8(&Reg8::A);
        let cin: u8 = if with_carry && self.registers.flag_register.get_flag(
            crate::registers::Flags::CARRY,
        ) == 1 {
            1
        } else {
            0
        };
        let result = a.wrapping_add(v).wrapping_add(cin);
        self.registers.write8(&Reg8::A, result);
        proof {
            lemma_nibble(a);
            lemma_nibble(v);
        }
        self.set_flags(
            result == 0,
            false,
            (a & 0x0F) + (v & 0x0F) + cin > 0x0F,
            (a as u16) + (v as u16) + (cin as u16) > 0xFF,
        );
        match operand {
            Operand8::Register(_) => 4,
            _ => 8,
        }
    }

    /// SUB, SBC or CP with any 8-bit operand: the modular difference lands in
    /// A unless this is a compare, and the flags follow the subtraction
    /// table.
    pub fn exec_sub(&mut self, operand: Operand8, with_carry: bool, store: bool, mmu: &Mmu) -> (cycles:
        u8)
        requires
            old(self).wf(),
            !old(self).halt_bug,
            mmu.wf(),
        ensures
            ({
                let a = old(self).registers.a;
                let v = spec_operand8_value(*old(self), *mmu, operand);
                let cin: u8 = if with_carry && flag_c(old(self).spec_flags()) {
                    1u8
                } else {
                    0u8
                };
                *final(self) == (Cpu {
                    registers: (Registers {
                        a: if store {
                            spec_sub_result(a, v, cin)
                        } else {
                            a
                        },
                        flag_register: (FlagsRegister { flags: spec_sub_flags(a, v, cin) }),
                        ..old(self).registers
                    }),
                    program_counter: if operand == Operand8::Imm8 {
                        old(self).program_counter.wrapping_add(1)
                    } else {
                        old(self).program_counter
                    },
                    ..*old(self)
                })
            }),
            cycles == (if operand matches Operand8::Register(_) {
                4u8
            } else {
                8u8
            }),
            final(self).wf(),
    {
        let v = self.read_operand8(operand, mmu);
        let a = self.registers.read8(&Reg8::A);
        let cin: u8 = if with_carry && self.registers.flag_register.get_flag(
            crate::registers::Flags::CARRY,
        ) == 1 {
            1
        } else {
            0
        };
        let result = a.wrapping_sub(v).wrapping_sub(cin);
        if store {
            self.registers.write8(&Reg8::A, result);
        }
        proof {
            lemma_nibble(a);
            lemma_nibble(v);
        }
        self.set_flags(
            result == 0,
            true,
            (a & 0x0F) < (v & 0x0F) + cin,
            (a as u16) < (v as u16) + (cin as u16),
        );
        match operand {
            Operand8::Register(_) => 4,
            _ => 8,
        }
    }

    /// AND, XOR or OR with any 8-bit operand.
    pub fn exec_logic(&mut self, operation: AluOperation, operand: Operand8, mmu: &Mmu) -> (cycles:
        u8)
        requires
            old(self).wf(),
            !old(self).halt_bug,
            mmu.wf(),
            operation == AluOperation::AND || operation == AluOperation::XOR || operation
                == AluOperation::OR,
        ensures
            ({
                let a = old(self).registers.a;
                let v = spec_operand8_value(*old(self), *mmu, operand);
                let r: u8 = if operation == AluOperation::AND {
                    a & v
                } else if operation == AluOperation::XOR {
                    a ^ v
                } else {
                    a | v
                };
                *final(self) == (Cpu {
                    registers: (Registers {
                        a: r,
                        flag_register: (FlagsRegister {
                            flags: if operation == AluOperation::AND {
                                spec_and_flags(r)
                            } else {
                                spec_logic_flags(r)
                            },
                        }),
                        ..old(self).registers
                    }),
                    program_counter: if operand == Operand8::Imm8 {
                        old(self).program_counter.wrapping_add(1)
                    } else {
                        old(self).program_counter
                    },
                    ..*old(self)
                })
            }),
            cycles == (if operand matches Operand8::Register(_) {
                4u8
            } else {
                8u8
            }),
            final(self).wf(),
    {
        let v = self.read_operand8(operand, mmu);
        let a = self.registers.read8(&Reg8::A);
        let is_and = matches!(operation, AluOperation::AND);
        let result: u8 = match operation {
            AluOperation::AND => a & v,
            AluOperation::XOR => a ^ v,
            _ => a | v,
        };
        self.registers.write8(&Reg8::A, result);
        self.set_flags(result == 0, false, is_and, false);
        match operand {
            Operand8::Register(_) => 4,
            _ => 8,
        }
    }

    /// INC or DEC of a register or (HL): the operand is rewritten in place,
    /// the flags follow the table, and C is untouched.
    pub fn exec_inc_dec8(&mut self, operand: Operand8, inc: bool, mmu: &mut Mmu) -> (cycles: u8)
        requires
            old(self).wf(),
            !old(self).halt_bug,
            old(mmu).wf(),
            operand != Operand8::Imm8,
        ensures
            ({
                let v = spec_operand8_value(*old(self), *old(mmu), operand);
                let r: u8 = if inc {
                    spec_add_result(v, 1, 0)
                } else {
                    spec_sub_result(v, 1, 0)
                };
                let f: u8 = if inc {
                    spec_inc_flags(v, old(self).spec_flags())
                } else {
                    spec_dec_flags(v, old(self).spec_flags())
                };
                (operand matches Operand8::Register(reg) ==> *final(self) == (Cpu {
                    registers: (Registers {
                        flag_register: (FlagsRegister { flags: f }),
                        ..old(self).registers.spec_write8(reg, r)
                    }),
                    ..*old(self)
                }) && *final(mmu) == *old(mmu)) && (operand == Operand8::IndirectHL ==> *final(self) == (Cpu {
                    registers: (Registers {
                        flag_register: (FlagsRegister { flags: f }),
                        ..old(self).registers
                    }),
                    ..*old(self)
                }) && crate::mmu::spec_store_effect(
                    *old(mmu),
                    *final(mmu),
                    old(self).registers.spec_read16(Reg16::HL),
                    r,
                ))
            }),
            cycles == (if operand == Operand8::IndirectHL {
                12u8
            } else {
                4u8
            }),
            final(self).wf(),
            final(mmu).wf(),
    {
        let v = self.read_operand8(operand, mmu);
        let result = if inc {
            v.wrapping_add(1)
        } else {
            v.wrapping_sub(1)
        };
        self.write_operand8(operand, result, mmu);
        let c = self.registers.flag_register.get_flag(crate::registers::Flags::CARRY) == 1;
        proof {
            lemma_nibble(v);
        }
        if inc {
            self.set_flags(result == 0, false, (v & 0x0F) + 1 > 0x0F, c);
        } else {
            self.set_flags(result == 0, true, (v & 0x0F) == 0, c);
        }
        if matches!(operand, Operand8::IndirectHL) {
            12
        } else {
            4
        }
    }

    /// An accumulator rotate: RLCA, RRCA, RLA or RRA. Z is forced to zero; C
    /// takes the bit pushed out.
    pub fn exec_rotate_a(&mut self, operation: RotateAOperation) -> (cycles: u8)
        requires
            old(self).wf(),
        ensures
            ({
                let cin: u8 = if flag_c(old(self).spec_flags()) {
                    1u8
                } else {
                    0u8
                };
                let rc = spec_rotate(spec_rotate_a_op(operation), old(self).registers.a, cin);
                *final(self) == (Cpu {
                    registers: (Registers {
                        a: rc.0,
                        flag_register: (FlagsRegister {
                            flags: spec_flags_byte(false, false, false, rc.1 == 1),
                        }),
                        ..old(self).registers
                    }),
                    ..*old(self)
                })
            }),
            cycles == 4,
            final(self).wf(),
    {
        let v = self.registers.read8(&Reg8::A);
        let cin: u8 = self.registers.flag_register.get_flag(crate::registers::Flags::CARRY);
        let (result, pushed_out) = Self::rotate_value(
            match operation {
                RotateAOperation::RLCA => RotateOperation::RLC,
                RotateAOperation::RRCA => RotateOperation::RRC,
                RotateAOperation::RLA => RotateOperation::RL,
                RotateAOperation::RRA => RotateOperation::RR,
            },
            v,
            cin,
        );
        self.registers.write8(&Reg8::A, result);
        self.set_flags(false, false, false, pushed_out == 1);
        4
    }

    /// One rotate or shift on a byte, with the carry-in bit; returns the
    /// result and the bit pushed out.
    fn rotate_value(operation: RotateOperation, v: u8, cin: u8) -> (r: (u8, u8))
        requires
            cin <= 1,
        ensures
            r == spec_rotate(operation, v, cin),
    {
        match operation {
            RotateOperation::RLC => ((v << 1) | (v >> 7), (v & 0x80) >> 7),
            RotateOperation::RRC => ((v >> 1) | (v << 7), v & 1),
            RotateOperation::RL => ((v << 1) | cin, (v & 0x80) >> 7),
            RotateOperation::RR => ((v >> 1) | (cin << 7), v & 1),
            RotateOperation::SLA => (v << 1, (v & 0x80) >> 7),
            RotateOperation::SRA => ((v >> 1) | (v & 0x80), v & 1),
            RotateOperation::SWAP => (((v & 0x0F) << 4) | ((v & 0xF0) >> 4), 0),
            RotateOperation::SRL => (v >> 1, v & 1),
        }
    }

    /// A prefixed rotate or shift on a register or (HL): the operand is
    /// rewritten, Z is set from the result, C takes the bit pushed out.
    pub fn exec_rotate(&mut self, operation: RotateOperation, operand: Operand8, mmu: &mut Mmu) -> (cycles:
        u8)
        requires
            old(self).wf(),
            !old(self).halt_bug,
            old(mmu).wf(),
            operand != Operand8::Imm8,
        ensures
            ({
                let cin: u8 = if flag_c(old(self).spec_flags()) {
                    1u8
                } else {
                    0u8
                };
                let v = spec_operand8_value(*old(self), *old(mmu), operand);
                let rc = spec_rotate(operation, v, cin);
                let f = spec_flags_byte(rc.0 == 0, false, false, rc.1 == 1);
                (operand matches Operand8::Register(reg) ==> *final(self) == (Cpu {
                    registers: (Registers {
                        flag_register: (FlagsRegister { flags: f }),
                        ..old(self).registers.spec_write8(reg, rc.0)
                    }),
                    ..*old(self)
                }) && *final(mmu) == *old(mmu)) && (operand == Operand8::IndirectHL ==> *final(self) == (Cpu {
                    registers: (Registers {
                        flag_register: (FlagsRegister { flags: f }),
                        ..old(self).registers
                    }),
                    ..*old(self)
                }) && crate::mmu::spec_store_effect(
                    *old(mmu),
                    *final(mmu),
                    old(self).registers.spec_read16(Reg16::HL),
                    rc.0,
                ))
            }),
            cycles == (if operand == Operand8::IndirectHL {
                16u8
            } else {
                8u8
            }),
            final(self).wf(),
            final(mmu).wf(),
    {
        let v = self.read_operand8(operand, mmu);
        let cin: u8 = self.registers.flag_register.get_flag(crate::registers::Flags::CARRY);
        let (result, pushed_out) = Self::rotate_value(operation, v, cin);
        self.write_operand8(operand, result, mmu);
        self.set_flags(result == 0, false, false, pushed_out == 1);
        if matches!(operand, Operand8::IndirectHL) {
            16
        } else {
            8
        }
    }
}

impl Cpu {
    /// DAA: adjusts A back to packed BCD after an addition or subtraction.
    pub fn exec_daa(&mut self) -> (cycles: u8)
        requires
            old(self).wf(),
        ensures
            ({
                let af = spec_daa(old(self).registers.a, old(self).spec_flags());
                *final(self) == (Cpu {
                    registers: (Registers {
                        a: af.0,
                        flag_register: (FlagsRegister { flags: af.1 }),
                        ..old(self).registers
                    }),
                    ..*old(self)
                })
            }),
            cycles == 4,
            final(self).wf(),
    {
        let a = self.registers.read8(&Reg8::A);
        let carry = self.registers.flag_register.get_flag(crate::registers::Flags::CARRY) == 1;
        let half_carry = self.registers.flag_register.get_flag(crate::registers::Flags::HALF_CARRY)
            == 1;
        let subtract = self.registers.flag_register.get_flag(crate::registers::Flags::SUB) == 1;
        let low: u8 = if half_carry || (!subtract && (a & 0x0F) > 0x09) {
            0x06
        } else {
            0
        };
        let high_carry = carry || (!subtract && a > 0x99);
        let adjust: u8 = if high_carry {
            low | 0x60
        } else {
            low
        };
        let a2 = if subtract {
            a.wrapping_sub(adjust)
        } else {
            a.wrapping_add(adjust)
        };
        self.registers.write8(&Reg8::A, a2);
        self.set_flags(a2 == 0, subtract, false, high_carry);
        4
    }

    /// CPL: complements A; N and H are set, Z and C are untouched.
    pub fn exec_cpl(&mut self) -> (cycles: u8)
        requires
            old(self).wf(),
        ensures
            *final(self) == (Cpu {
                registers: (Registers {
                    a: old(self).registers.a ^ 0xFF,
                    flag_register: (FlagsRegister {
                        flags: spec_flags_byte(
                            flag_z(old(self).spec_flags()),
                            true,
                            true,
                            flag_c(old(self).spec_flags()),
                        ),
                    }),
                    ..old(self).registers
                }),
                ..*old(self)
            }),
            cycles == 4,
            final(self).wf(),
    {
        let a = self.registers.read8(&Reg8::A);
        self.registers.write8(&Reg8::A, a ^ 0xFF);
        let z = self.registers.flag_register.get_flag(crate::registers::Flags::ZERO) == 1;
        let c = self.registers.flag_register.get_flag(crate::registers::Flags::CARRY) == 1;
        self.set_flags(z, true, true, c);
        4
    }

    /// SCF: sets C; N and H clear, Z untouched.
    pub fn exec_scf(&mut self) -> (cycles: u8)
        requires
            old(self).wf(),
        ensures
            *final(self) == (Cpu {
                registers: (Registers {
                    flag_register: (FlagsRegister {
                        flags: spec_flags_byte(flag_z(old(self).spec_flags()), false, false, true),
                    }),
                    ..old(self).registers
                }),
                ..*old(self)
            }),
            cycles == 4,
            final(self).wf(),
    {
        let z = self.registers.flag_register.get_flag(crate::registers::Flags::ZERO) == 1;
        self.set_flags(z, false, false, true);
        4
    }

    /// CCF: complements C; N and H clear, Z untouched.
    pub fn exec_ccf(&mut self) -> (cycles: u8)
        requires
            old(self).wf(),
        ensures
            *final(self) == (Cpu {
                registers: (Registers {
                    flag_register: (FlagsRegister {
                        flags: spec_flags_byte(
                            flag_z(old(self).spec_flags()),
                            false,
                            false,
                            !flag_c(old(self).spec_flags()),
                        ),
                    }),
                    ..old(self).registers
                }),
                ..*old(self)
            }),
            cycles == 4,
            final(self).wf(),
    {
        let z = self.registers.flag_register.get_flag(crate::registers::Flags::ZERO) == 1;
        let c = self.registers.flag_register.get_flag(crate::registers::Flags::CARRY) == 1;
        self.set_flags(z, false, false, !c);
        4
    }

    /// BIT, RES or SET on a register or (HL). BIT only writes the flags (C
    /// untouched); RES and SET rewrite the operand and leave the flags alone.
    pub fn exec_bit(
        &mut self,
        operation: crate::instruction::BitOperation,
        bit: u8,
        operand: Operand8,
        mmu: &mut Mmu,
    ) -> (cycles: u8)
        requires
            old(self).wf(),
            !old(self).halt_bug,
            old(mmu).wf(),
            operand != Operand8::Imm8,
            bit <= 7,
        ensures
            ({
                let v = spec_operand8_value(*old(self), *old(mmu), operand);
                match operation {
                    crate::instruction::BitOperation::Test => *final(self) == (Cpu {
                        registers: (Registers {
                            flag_register: (FlagsRegister {
                                flags: spec_flags_byte(
                                    (v >> bit) & 1 == 0,
                                    false,
                                    true,
                                    flag_c(old(self).spec_flags()),
                                ),
                            }),
                            ..old(self).registers
                        }),
                        ..*old(self)
                    }) && *final(mmu) == *old(mmu),
                    crate::instruction::BitOperation::Reset => ({
                        let r = v & !(1u8 << bit);
                        (operand matches Operand8::Register(reg) ==> *final(self) == (Cpu {
                            registers: old(self).registers.spec_write8(reg, r),
                            ..*old(self)
                        }) && *final(mmu) == *old(mmu)) && (operand == Operand8::IndirectHL
                            ==> *final(self) == *old(self) && crate::mmu::spec_store_effect(
                            *old(mmu),
                            *final(mmu),
                            old(self).registers.spec_read16(Reg16::HL),
                            r,
                        ))
                    }),
                    crate::instruction::BitOperation::SetBit => ({
                        let r = v | (1u8 << bit);
                        (operand matches Operand8::Register(reg) ==> *final(self) == (Cpu {
                            registers: old(self).registers.spec_write8(reg, r),
                            ..*old(self)
                        }) && *final(mmu) == *old(mmu)) && (operand == Operand8::IndirectHL
                            ==> *final(self) == *old(self) && crate::mmu::spec_store_effect(
                            *old(mmu),
                            *final(mmu),
                            old(self).registers.spec_read16(Reg16::HL),
                            r,
                        ))
                    }),
                }
            }),
            cycles == (if operand == Operand8::IndirectHL {
                if operation == crate::instruction::BitOperation::Test {
                    12u8
                } else {
                    16u8
                }
            } else {
                8u8
            }),
            final(self).wf(),
            final(mmu).wf(),
    {
        let v = self.read_operand8(operand, mmu);
        match operation {
            crate::instruction::BitOperation::Test => {
                let z = (v >> bit) & 0x01 == 0;
                let c = self.registers.flag_register.get_flag(crate::registers::Flags::CARRY) == 1;
                self.set_flags(z, false, true, c);
                if matches!(operand, Operand8::IndirectHL) {
                    12
                } else {
                    8
                }
            },
            crate::instruction::BitOperation::Reset => {
                self.write_operand8(operand, v & !(1u8 << bit), mmu);
                if matches!(operand, Operand8::IndirectHL) {
                    16
                } else {
                    8
                }
            },
            crate::instruction::BitOperation::SetBit => {
                self.write_operand8(operand, v | (1u8 << bit), mmu);
                if matches!(operand, Operand8::IndirectHL) {
                    16
                } else {
                    8
                }
            },
        }
    }

    /// INC or DEC of BC, DE or HL; no flags change.
    pub fn exec_inc_dec16(&mut self, operand: crate::instruction::Operand16, inc: bool) -> (cycles:
        u8)
        requires
            old(self).wf(),
            operand != crate::instruction::Operand16::Imm16,
        ensures
            ({
                let reg = spec_operand16_reg(operand);
                let v = old(self).registers.spec_read16(reg);
                let r: u16 = if inc {
                    v.wrapping_add(1)
                } else {
                    v.wrapping_sub(1)
                };
                *final(self) == (Cpu {
                    registers: old(self).registers.spec_write16(reg, r),
                    ..*old(self)
                })
            }),
            cycles == 8,
            final(self).wf(),
    {
        let reg = match operand {
            crate::instruction::Operand16::BC => Reg16::BC,
            crate::instruction::Operand16::DE => Reg16::DE,
            _ => Reg16::HL,
        };
        let v = self.registers.read16(&reg);
        let r = if inc {
            v.wrapping_add(1)
        } else {
            v.wrapping_sub(1)
        };
        self.registers.write16(&reg, r);
        8
    }

    /// INC SP or DEC SP.
    pub fn exec_inc_dec_sp(&mut self, inc: bool) -> (cycles: u8)
        requires
            old(self).wf(),
        ensures
            *final(self) == (Cpu {
                stack_pointer: if inc {
                    old(self).stack_pointer.wrapping_add(1)
                } else {
                    old(self).stack_pointer.wrapping_sub(1)
                },
                ..*old(self)
            }),
            cycles == 8,
            final(self).wf(),
    {
        if inc {
            self.stack_pointer = self.stack_pointer.wrapping_add(1);
        } else {
            self.stack_pointer = self.stack_pointer.wrapping_sub(1);
        }
        8
    }

    /// ADD HL with a register pair or SP: HL takes the modular sum; N clears,
    /// H and C follow the 16-bit table, Z is untouched.
    pub fn exec_add_hl(&mut self, src: crate::instruction::Reg16Source) -> (cycles: u8)
        requires
            old(self).wf(),
        ensures
            ({
                let hl = old(self).registers.spec_read16(Reg16::HL);
                let v: u16 = match src {
                    crate::instruction::Reg16Source::Reg(r) => old(self).registers.spec_read16(r),
                    crate::instruction::Reg16Source::SP => old(self).stack_pointer,
                };
                *final(self) == (Cpu {
                    registers: (Registers {
                        flag_register: (FlagsRegister {
                            flags: spec_flags_byte(
                                flag_z(old(self).spec_flags()),
                                false,
                                (hl & 0x0FFF) + (v & 0x0FFF) > 0x0FFF,
                                hl + v > 0xFFFF,
                            ),
                        }),
                        ..old(self).registers.spec_write16(Reg16::HL, hl.wrapping_add(v))
                    }),
                    ..*old(self)
                })
            }),
            cycles == 8,
            final(self).wf(),
    {
        let hl_val = self.registers.read16(&Reg16::HL);
        let to_add_val = match src {
            crate::instruction::Reg16Source::Reg(r) => self.registers.read16(&r),
            crate::instruction::Reg16Source::SP => self.stack_pointer,
        };
        let result = hl_val.wrapping_add(to_add_val);
        self.registers.write16(&Reg16::HL, result);
        let z = self.registers.flag_register.get_flag(crate::registers::Flags::ZERO) == 1;
        proof {
            crate::registers::lemma_u16_bits(hl_val);
            crate::registers::lemma_u16_bits(to_add_val);
        }
        self.set_flags(
            z,
            false,
            (hl_val & 0x0FFF) + (to_add_val & 0x0FFF) > 0x0FFF,
            (hl_val as u32) + (to_add_val as u32) > 0xFFFF,
        );
        8
    }

    /// The signed-offset SP additions (ADD SP, e8 and LD HL, SP + e8): the
    /// 16-bit result uses the sign-extended offset, while H and C come from
    /// the unsigned low-byte addition; Z and N clear.
    fn sp_offset_result(&mut self, e8: i8) -> (r: u16)
        requires
            old(self).wf(),
        ensures
            r == old(self).stack_pointer.wrapping_add((e8 as i16) as u16),
            *final(self) == (Cpu {
                registers: (Registers {
                    flag_register: (FlagsRegister {
                        flags: spec_flags_byte(
                            false,
                            false,
                            (old(self).stack_pointer & 0x0F) + ((e8 as u8) & 0x0F) as u16 > 0x0F,
                            (old(self).stack_pointer & 0xFF) + ((e8 as u8) as u16) > 0xFF,
                        ),
                    }),
                    ..old(self).registers
                }),
                ..*old(self)
            }),
            final(self).wf(),
    {
        let sp = self.stack_pointer;
        let e8_u = e8 as u8;
        let sp_low = sp & 0xFF;
        proof {
            crate::registers::lemma_u16_bits(sp);
            lemma_nibble(e8_u);
        }
        let h = (sp & 0x0F) + (((e8_u & 0x0F) as u16)) > 0x0F;
        let c = sp_low + (e8_u as u16) > 0xFF;
        self.set_flags(false, false, h, c);
        sp.wrapping_add((e8 as i16) as u16)
    }

    /// ADD SP, e8.
    pub fn exec_add_sp(&mut self, mmu: &Mmu) -> (cycles: u8)
        requires
            old(self).wf(),
            !old(self).halt_bug,
            mmu.wf(),
        ensures
            ({
                let e8 = mmu.spec_read(old(self).program_counter) as i8;
                *final(self) == (Cpu {
                    stack_pointer: old(self).stack_pointer.wrapping_add((e8 as i16) as u16),
                    program_counter: old(self).program_counter.wrapping_add(1),
                    registers: (Registers {
                        flag_register: (FlagsRegister {
                            flags: spec_flags_byte(
                                false,
                                false,
                                (old(self).stack_pointer & 0x0F) + ((e8 as u8) & 0x0F) as u16
                                    > 0x0F,
                                (old(self).stack_pointer & 0xFF) + ((e8 as u8) as u16) > 0xFF,
                            ),
                        }),
                        ..old(self).registers
                    }),
                    ..*old(self)
                })
            }),
            cycles == 16,
            final(self).wf(),
    {
        let e8 = self.fetch_byte(mmu) as i8;
        let r = self.sp_offset_result(e8);
        self.stack_pointer = r;
        16
    }

    /// LD HL, SP + e8.
    pub fn exec_ld_hl_sp(&mut self, offset: i8) -> (cycles: u8)
        requires
            old(self).wf(),
        ensures
            *final(self) == (Cpu {
                registers: (Registers {
                    flag_register: (FlagsRegister {
                        flags: spec_flags_byte(
                            false,
                            false,
                            (old(self).stack_pointer & 0x0F) + ((offset as u8) & 0x0F) as u16
                                > 0x0F,
                            (old(self).stack_pointer & 0xFF) + ((offset as u8) as u16) > 0xFF,
                        ),
                    }),
                    ..old(self).registers.spec_write16(
                        Reg16::HL,
                        old(self).stack_pointer.wrapping_add((offset as i16) as u16),
                    )
                }),
                ..*old(self)
            }),
            cycles == 12,
            final(self).wf(),
    {
        let r = self.sp_offset_result(offset);
        self.registers.write16(&Reg16::HL, r);
        12
    }
}

impl Cpu {
    /// An 8-bit load: the source operand's value moves into the destination
    /// register or (HL).
    pub fn exec_load8(&mut self, dst: Operand8, src: Operand8, mmu: &mut Mmu) -> (cycles: u8)
        requires
            old(self).wf(),
            !old(self).halt_bug,
            old(mmu).wf(),
            dst != Operand8::Imm8,
        ensures
            ({
                let v = spec_operand8_value(*old(self), *old(mmu), src);
                let pc2: u16 = if src == Operand8::Imm8 {
                    old(self).program_counter.wrapping_add(1)
                } else {
                    old(self).program_counter
                };
                (dst matches Operand8::Register(reg) ==> *final(self) == (Cpu {
                    registers: old(self).registers.spec_write8(reg, v),
                    program_counter: pc2,
                    ..*old(self)
                }) && *final(mmu) == *old(mmu)) && (dst == Operand8::IndirectHL ==> *final(self)
                    == (Cpu { program_counter: pc2, ..*old(self) })
                    && crate::mmu::spec_store_effect(
                    *old(mmu),
                    *final(mmu),
                    old(self).registers.spec_read16(Reg16::HL),
                    v,
                ))
            }),
            cycles == (if src == Operand8::Imm8 {
                if dst == Operand8::IndirectHL {
                    12u8
                } else {
                    8u8
                }
            } else if src == Operand8::IndirectHL || dst == Operand8::IndirectHL {
                8u8
            } else {
                4u8
            }),
            final(self).wf(),
            final(mmu).wf(),
    {
        let v = self.read_operand8(src, mmu);
        self.write_operand8(dst, v, mmu);
        if matches!(src, Operand8::Imm8) {
            if matches!(dst, Operand8::IndirectHL) {
                12
            } else {
                8
            }
        } else if matches!(src, Operand8::IndirectHL) || matches!(dst, Operand8::IndirectHL) {
            8
        } else {
            4
        }
    }

    /// LD r16, n16: the immediate word is fetched into BC, DE or HL.
    pub fn exec_load16(&mut self, dst: crate::instruction::Operand16, mmu: &Mmu) -> (cycles: u8)
        requires
            old(self).wf(),
            !old(self).halt_bug,
            mmu.wf(),
            dst != crate::instruction::Operand16::Imm16,
        ensures
            ({
                let pc = old(self).program_counter;
                let word = make16(mmu.spec_read(pc.wrapping_add(1)), mmu.spec_read(pc));
                *final(self) == (Cpu {
                    registers: old(self).registers.spec_write16(spec_operand16_reg(dst), word),
                    program_counter: pc.wrapping_add(2),
                    ..*old(self)
                })
            }),
            cycles == 12,
            final(self).wf(),
    {
        let word = self.fetch_word(mmu);
        let reg = match dst {
            crate::instruction::Operand16::BC => Reg16::BC,
            crate::instruction::Operand16::DE => Reg16::DE,
            _ => Reg16::HL,
        };
        self.registers.write16(&reg, word);
        12
    }

    /// LD (BC)/(DE), A or LD A, (BC)/(DE).
    pub fn exec_load_indirect(
        &mut self,
        reg: Reg16,
        direction: crate::instruction::LoadDir,
        mmu: &mut Mmu,
    ) -> (cycles: u8)
        requires
            old(self).wf(),
            old(mmu).wf(),
        ensures
            ({
                let addr = old(self).registers.spec_read16(reg);
                match direction {
                    crate::instruction::LoadDir::ToMem => *final(self) == *old(self)
                        && crate::mmu::spec_store_effect(
                        *old(mmu),
                        *final(mmu),
                        addr,
                        old(self).registers.a,
                    ),
                    crate::instruction::LoadDir::FromMem => *final(self) == (Cpu {
                        registers: old(self).registers.spec_write8(
                            Reg8::A,
                            old(mmu).spec_read(addr),
                        ),
                        ..*old(self)
                    }) && *final(mmu) == *old(mmu),
                }
            }),
            cycles == 8,
            final(self).wf(),
            final(mmu).wf(),
    {
        let addr = self.registers.read16(&reg);
        match direction {
            crate::instruction::LoadDir::ToMem => {
                let val = self.registers.read8(&Reg8::A);
                mmu.write8(addr, val);
            },
            crate::instruction::LoadDir::FromMem => {
                let val = mmu.read8(addr);
                self.registers.write8(&Reg8::A, val);
            },
        }
        8
    }

    /// LD (HL+)/(HL-), A or LD A, (HL+)/(HL-): the load through HL, then HL
    /// moves one up or down.
    pub fn exec_hl_inc_dec(
        &mut self,
        direction: crate::instruction::LoadDir,
        inc: bool,
        mmu: &mut Mmu,
    ) -> (cycles: u8)
        requires
            old(self).wf(),
            old(mmu).wf(),
        ensures
            ({
                let addr = old(self).registers.spec_read16(Reg16::HL);
                let hl2: u16 = if inc {
                    addr.wrapping_add(1)
                } else {
                    addr.wrapping_sub(1)
                };
                match direction {
                    crate::instruction::LoadDir::ToMem => *final(self) == (Cpu {
                        registers: old(self).registers.spec_write16(Reg16::HL, hl2),
                        ..*old(self)
                    }) && crate::mmu::spec_store_effect(
                        *old(mmu),
                        *final(mmu),
                        addr,
                        old(self).registers.a,
                    ),
                    crate::instruction::LoadDir::FromMem => *final(self) == (Cpu {
                        registers: old(self).registers.spec_write8(
                            Reg8::A,
                            old(mmu).spec_read(addr),
                        ).spec_write16(Reg16::HL, hl2),
                        ..*old(self)
                    }) && *final(mmu) == *old(mmu),
                }
            }),
            cycles == 8,
            final(self).wf(),
            final(mmu).wf(),
    {
        let addr = self.registers.read16(&Reg16::HL);
        match direction {
            crate::instruction::LoadDir::ToMem => {
                let val = self.registers.read8(&Reg8::A);
                mmu.write8(addr, val);
            },
            crate::instruction::LoadDir::FromMem => {
                let val = mmu.read8(addr);
                self.registers.write8(&Reg8::A, val);
            },
        }
        let write_back = if inc {
            addr.wrapping_add(1)
        } else {
            addr.wrapping_sub(1)
        };
        self.registers.write16(&Reg16::HL, write_back);
        8
    }

    /// A high-page load: between A and 0xFF00 plus an immediate byte or C.
    pub fn exec_load_high(
        &mut self,
        src: crate::instruction::LoadHighOperand,
        dst: crate::instruction::LoadHighOperand,
        mmu: &mut Mmu,
    ) -> (cycles: u8)
        requires
            old(self).wf(),
            old(mmu).wf(),
        ensures
            ({
                let c_addr = (0xFF00u16 | (old(self).registers.c as u16)) as u16;
                match dst {
                    crate::instruction::LoadHighOperand::Addr(ha) => ({
                        let addr: u16 = match ha {
                            crate::instruction::HighAddr::Imm8(b) => (0xFF00u16 | (b as u16)) as u16,
                            crate::instruction::HighAddr::RegC => c_addr,
                        };
                        *final(self) == *old(self) && crate::mmu::spec_store_effect(
                            *old(mmu),
                            *final(mmu),
                            addr,
                            old(self).registers.a,
                        )
                    }),
                    crate::instruction::LoadHighOperand::RegA => ({
                        let addr: u16 = match src {
                            crate::instruction::LoadHighOperand::Addr(
                                crate::instruction::HighAddr::Imm8(b),
                            ) => (0xFF00u16 | (b as u16)) as u16,
                            _ => c_addr,
                        };
                        *final(self) == (Cpu {
                            registers: old(self).registers.spec_write8(
                                Reg8::A,
                                old(mmu).spec_read(addr),
                            ),
                            ..*old(self)
                        }) && *final(mmu) == *old(mmu)
                    }),
                }
            }),
            cycles == (if (dst matches crate::instruction::LoadHighOperand::Addr(
                crate::instruction::HighAddr::Imm8(_),
            )) || (src matches crate::instruction::LoadHighOperand::Addr(
                crate::instruction::HighAddr::Imm8(_),
            )) {
                12u8
            } else {
                8u8
            }),
            final(self).wf(),
            final(mmu).wf(),
    {
        let imm_form = matches!(
            dst,
            crate::instruction::LoadHighOperand::Addr(crate::instruction::HighAddr::Imm8(_)),
        ) || matches!(
            src,
            crate::instruction::LoadHighOperand::Addr(crate::instruction::HighAddr::Imm8(_)),
        );
        match dst {
            crate::instruction::LoadHighOperand::Addr(ha) => {
                let addr: u16 = match ha {
                    crate::instruction::HighAddr::Imm8(b) => 0xFF00u16 | (b as u16),
                    crate::instruction::HighAddr::RegC => 0xFF00u16 | (self.registers.read8(
                        &Reg8::C,
                    ) as u16),
                };
                let val = self.registers.read8(&Reg8::A);
                mmu.write8(addr, val);
            },
            crate::instruction::LoadHighOperand::RegA => {
                let addr: u16 = match src {
                    crate::instruction::LoadHighOperand::Addr(
                        crate::instruction::HighAddr::Imm8(b),
                    ) => 0xFF00u16 | (b as u16),
                    _ => 0xFF00u16 | (self.registers.read8(&Reg8::C) as u16),
                };
                let val = mmu.read8(addr);
                self.registers.write8(&Reg8::A, val);
            },
        }
        if imm_form {
            12
        } else {
            8
        }
    }

    /// LD (a16), A or LD A, (a16).
    pub fn exec_load_a16(
        &mut self,
        addr: u16,
        direction: crate::instruction::LoadDir,
        mmu: &mut Mmu,
    ) -> (cycles: u8)
        requires
            old(self).wf(),
            old(mmu).wf(),
        ensures
            ({
                match direction {
                    crate::instruction::LoadDir::ToMem => *final(self) == *old(self)
                        && crate::mmu::spec_store_effect(
                        *old(mmu),
                        *final(mmu),
                        addr,
                        old(self).registers.a,
                    ),
                    crate::instruction::LoadDir::FromMem => *final(self) == (Cpu {
                        registers: old(self).registers.spec_write8(
                            Reg8::A,
                            old(mmu).spec_read(addr),
                        ),
                        ..*old(self)
                    }) && *final(mmu) == *old(mmu),
                }
            }),
            cycles == 16,
            final(self).wf(),
            final(mmu).wf(),
    {
        match direction {
            crate::instruction::LoadDir::ToMem => {
                let val = self.registers.read8(&Reg8::A);
                mmu.write8(addr, val);
            },
            crate::instruction::LoadDir::FromMem => {
                let val = mmu.read8(addr);
                self.registers.write8(&Reg8::A, val);
            },
        }
        16
    }

    /// LD (a16), SP: the stack pointer is stored little-endian.
    pub fn exec_ld_a16_sp(&mut self, addr: u16, mmu: &mut Mmu) -> (cycles: u8)
        requires
            old(self).wf(),
            old(mmu).wf(),
        ensures
            *final(self) == *old(self),
            final(mmu).view() == crate::mmu::spec_store16_view(
                old(mmu).view(),
                old(mmu).apu.spec_nr52(),
                addr,
                old(self).stack_pointer,
            ),
            cycles == 20,
            final(self).wf(),
            final(mmu).wf(),
    {
        mmu.write16(addr, self.stack_pointer);
        20
    }

    /// LD SP, HL.
    pub fn exec_ld_sp_hl(&mut self) -> (cycles: u8)
        requires
            old(self).wf(),
        ensures
            *final(self) == (Cpu {
                stack_pointer: old(self).registers.spec_read16(Reg16::HL),
                ..*old(self)
            }),
            cycles == 8,
            final(self).wf(),
    {
        self.stack_pointer = self.registers.read16(&Reg16::HL);
        8
    }

    /// JR or JP: the target was decoded; a taken relative jump adds the
    /// signed offset to the PC after the operand.
    pub fn exec_jump(
        &mut self,
        condition: crate::instruction::Condition,
        kind: crate::instruction::JumpKind,
    ) -> (cycles: u8)
        requires
            old(self).wf(),
        ensures
            ({
                let taken = crate::instruction::spec_cond_holds(
                    condition,
                    old(self).spec_flags(),
                );
                let target: u16 = match kind {
                    crate::instruction::JumpKind::Relative(off) => old(self).program_counter.wrapping_add_signed(off as i16),
                    crate::instruction::JumpKind::Absolute(a) => a,
                };
                *final(self) == (Cpu {
                    program_counter: if taken {
                        target
                    } else {
                        old(self).program_counter
                    },
                    ..*old(self)
                }) && cycles == (match kind {
                    crate::instruction::JumpKind::Relative(_) => if taken {
                        12u8
                    } else {
                        8u8
                    },
                    crate::instruction::JumpKind::Absolute(_) => if taken {
                        16u8
                    } else {
                        12u8
                    },
                })
            }),
            final(self).wf(),
    {
        let taken = self.cond_holds(condition);
        match kind {
            crate::instruction::JumpKind::Relative(off) => {
                if taken {
                    self.program_counter = self.program_counter.wrapping_add_signed(off as i16);
                    12
                } else {
                    8
                }
            },
            crate::instruction::JumpKind::Absolute(a) => {
                if taken {
                    self.program_counter = a;
                    16
                } else {
                    12
                }
            },
        }
    }

    /// JP HL.
    pub fn exec_jump_hl(&mut self) -> (cycles: u8)
        requires
            old(self).wf(),
        ensures
            *final(self) == (Cpu {
                program_counter: old(self).registers.spec_read16(Reg16::HL),
                ..*old(self)
            }),
            cycles == 4,
            final(self).wf(),
    {
        self.program_counter = self.registers.read16(&Reg16::HL);
        4
    }

    /// CALL: the target address is fetched; when the condition holds, the
    /// return address is pushed and PC jumps.
    pub fn exec_call(&mut self, condition: crate::instruction::Condition, mmu: &mut Mmu) -> (cycles:
        u8)
        requires
            old(self).wf(),
            !old(self).halt_bug,
            old(mmu).wf(),
        ensures
            ({
                let pc = old(self).program_counter;
                let addr = make16(old(mmu).spec_read(pc.wrapping_add(1)), old(mmu).spec_read(pc));
                let ret = pc.wrapping_add(2);
                let taken = crate::instruction::spec_cond_holds(
                    condition,
                    old(self).spec_flags(),
                );
                if taken {
                    let v = old(mmu).view();
                    let n = old(mmu).apu.spec_nr52();
                    let a1 = old(self).stack_pointer.wrapping_sub(1);
                    let a2 = old(self).stack_pointer.wrapping_sub(2);
                    *final(self) == (Cpu {
                        program_counter: addr,
                        stack_pointer: a2,
                        ..*old(self)
                    }) && final(mmu).view() == spec_write8(
                        spec_write8(v, n, a1, hi8(ret)),
                        n,
                        a2,
                        lo8(ret),
                    ) && cycles == 24
                } else {
                    *final(self) == (Cpu { program_counter: ret, ..*old(self) }) && *final(mmu)
                        == *old(mmu) && cycles == 12
                }
            }),
            final(self).wf(),
            final(mmu).wf(),
    {
        let addr = self.fetch_word(mmu);
        if self.cond_holds(condition) {
            self.push_pc_to_stack(mmu);
            self.program_counter = addr;
            24
        } else {
            12
        }
    }

    /// RET or RETI: when the condition holds, PC is popped; RETI re-enables
    /// the interrupt master immediately.
    pub fn exec_ret(
        &mut self,
        condition: crate::instruction::Condition,
        enable_ime: bool,
        mmu: &Mmu,
    ) -> (cycles: u8)
        requires
            old(self).wf(),
            mmu.wf(),
        ensures
            ({
                let taken = crate::instruction::spec_cond_holds(
                    condition,
                    old(self).spec_flags(),
                );
                if taken {
                    *final(self) == (Cpu {
                        program_counter: make16(
                            mmu.spec_read(old(self).stack_pointer.wrapping_add(1)),
                            mmu.spec_read(old(self).stack_pointer),
                        ),
                        stack_pointer: old(self).stack_pointer.wrapping_add(2),
                        ime: old(self).ime || enable_ime,
                        ..*old(self)
                    }) && cycles == (if condition == crate::instruction::Condition::Always {
                        16u8
                    } else {
                        20u8
                    })
                } else {
                    *final(self) == *old(self) && cycles == 8
                }
            }),
            final(self).wf(),
    {
        if self.cond_holds(condition) {
            let val = self.pop_pc_from_stack(mmu);
            self.program_counter = val;
            if enable_ime {
                self.ime = true;
            }
            if matches!(condition, crate::instruction::Condition::Always) {
                16
            } else {
                20
            }
        } else {
            8
        }
    }

    /// RST: pushes PC and jumps to the fixed vector.
    pub fn exec_rst(&mut self, vector: u16, mmu: &mut Mmu) -> (cycles: u8)
        requires
            old(self).wf(),
            old(mmu).wf(),
        ensures
            ({
                let v = old(mmu).view();
                let n = old(mmu).apu.spec_nr52();
                let a1 = old(self).stack_pointer.wrapping_sub(1);
                let a2 = old(self).stack_pointer.wrapping_sub(2);
                *final(self) == (Cpu {
                    program_counter: vector,
                    stack_pointer: a2,
                    ..*old(self)
                }) && final(mmu).view() == spec_write8(
                    spec_write8(v, n, a1, hi8(old(self).program_counter)),
                    n,
                    a2,
                    lo8(old(self).program_counter),
                )
            }),
            cycles == 16,
            final(self).wf(),
            final(mmu).wf(),
    {
        self.push_pc_to_stack(mmu);
        self.program_counter = vector;
        16
    }

    /// PUSH or POP of a register pair. POP into AF forces the low nibble of F
    /// to zero.
    pub fn exec_stack(
        &mut self,
        operation: crate::instruction::StackOperation,
        reg: Reg16,
        mmu: &mut Mmu,
    ) -> (cycles: u8)
        requires
            old(self).wf(),
            old(mmu).wf(),
        ensures
            ({
                match operation {
                    crate::instruction::StackOperation::Pop => ({
                        let w = make16(
                            old(mmu).spec_read(old(self).stack_pointer.wrapping_add(1)),
                            old(mmu).spec_read(old(self).stack_pointer),
                        );
                        *final(self) == (Cpu {
                            stack_pointer: old(self).stack_pointer.wrapping_add(2),
                            registers: old(self).registers.spec_write16(
                                reg,
                                if reg == Reg16::AF {
                                    (w & 0xFFF0) as u16
                                } else {
                                    w
                                },
                            ),
                            ..*old(self)
                        }) && *final(mmu) == *old(mmu) && cycles == 12
                    }),
                    crate::instruction::StackOperation::Push => ({
                        let sp2 = old(self).stack_pointer.wrapping_sub(2);
                        *final(self) == (Cpu { stack_pointer: sp2, ..*old(self) })
                            && final(mmu).view() == crate::mmu::spec_store16_view(
                            old(mmu).view(),
                            old(mmu).apu.spec_nr52(),
                            sp2,
                            old(self).registers.spec_read16(reg),
                        ) && cycles == 16
                    }),
                }
            }),
            final(self).wf(),
            final(mmu).wf(),
    {
        match operation {
            crate::instruction::StackOperation::Pop => {
                let val = mmu.read16(self.stack_pointer);
                self.stack_pointer = self.stack_pointer.wrapping_add(2);
                if matches!(reg, Reg16::AF) {
                    self.registers.write16(&reg, val & 0xFFF0);
                } else {
                    self.registers.write16(&reg, val);
                }
                12
            },
            crate::instruction::StackOperation::Push => {
                let val = self.registers.read16(&reg);
                self.stack_pointer = self.stack_pointer.wrapping_sub(2);
                mmu.write16(self.stack_pointer, val);
                16
            },
        }
    }

    /// HALT: with IME set or nothing pending, the CPU halts; with IME clear
    /// and a pending interrupt, the halt bug arms instead, making the next
    /// fetch repeat its byte.
    pub fn exec_halt(&mut self, mmu: &Mmu) -> (cycles: u8)
        requires
            old(self).wf(),
            mmu.wf(),
        ensures
            ({
                let pending = Cpu::spec_pending(*mmu);
                if !old(self).ime && pending != 0 {
                    *final(self) == (Cpu { halt_bug: true, ..*old(self) })
                } else {
                    *final(self) == (Cpu { halted: true, ..*old(self) })
                }
            }),
            cycles == 4,
            final(self).wf(),
    {
        let ie = mmu.read8(0xFFFF) & 0x1F;
        let iflag = mmu.read8(0xFF0F) & 0x1F;
        let pending = (ie & iflag) != 0;
        if !self.ime && pending {
            self.halt_bug = true;
        } else {
            self.halted = true;
        }
        4
    }

    /// STOP: consumes its padding byte and stops the CPU.
    pub fn exec_stop(&mut self, mmu: &Mmu) -> (cycles: u8)
        requires
            old(self).wf(),
            !old(self).halt_bug,
            mmu.wf(),
        ensures
            *final(self) == (Cpu {
                program_counter: old(self).program_counter.wrapping_add(1),
                stopped: true,
                ..*old(self)
            }),
            cycles == 4,
            final(self).wf(),
    {
        let _pad = self.fetch_byte(mmu);
        self.stopped = true;
        4
    }
}

impl Cpu {
    /// Runs one decoded instruction and returns its T-cycles: the machine
    /// takes exactly the state `spec_exec_out` gives and the bus changes as
    /// `spec_exec_mem` says, with the interrupt machinery (IME, its
    /// one-instruction delay, HALT, STOP and the halt bug) spelled out as its
    /// own clauses.
    pub fn execute(&mut self, instr: crate::instruction::Instruction, mmu: &mut Mmu) -> (cycles:
        u8)
        requires
            old(self).wf(),
            !old(self).halt_bug,
            old(mmu).wf(),
        ensures
            4 <= cycles <= 24,
            final(self).pending_ime == (if instr == (Instruction::Misc {
                operation: MiscOperation::Ei,
            }) {
                true
            } else if instr == (Instruction::Misc { operation: MiscOperation::Di }) {
                false
            } else {
                old(self).pending_ime
            }),
            instr == (Instruction::Misc { operation: MiscOperation::Di }) ==> !final(self).ime,
            (instr matches Instruction::Ret { condition, enable_ime } ==> final(self).ime == (old(self).ime || (enable_ime && crate::instruction::spec_cond_holds(
                condition,
                old(self).spec_flags(),
            )))),
            !(instr == (Instruction::Misc { operation: MiscOperation::Di })) && !(
            instr matches Instruction::Ret { .. }) ==> final(self).ime == old(self).ime,
            final(self).halted == (old(self).halted || (instr == (Instruction::Misc {
                operation: MiscOperation::Halt,
            }) && (old(self).ime || Cpu::spec_pending(*old(mmu)) == 0))),
            final(self).stopped == (old(self).stopped || instr == (Instruction::Misc {
                operation: MiscOperation::Stop,
            })),
            final(self).halt_bug == (instr == (Instruction::Misc {
                operation: MiscOperation::Halt,
            }) && !old(self).ime && Cpu::spec_pending(*old(mmu)) != 0),
            *final(self) == spec_exec_out(*old(self), *old(mmu), instr).0,
            cycles == spec_exec_out(*old(self), *old(mmu), instr).1,
            spec_exec_mem(*old(self), *old(mmu), *final(mmu), instr),
            final(self).wf(),
            final(mmu).wf(),
    {
        match instr {
            Instruction::Misc { operation } => self.execute_misc(operation, mmu),
            Instruction::Jump { .. } | Instruction::JumpHl | Instruction::Call { .. }
                | Instruction::Rst { .. } | Instruction::Ret { .. } | Instruction::Stack {
                ..
            } => self.execute_flow(instr, mmu),
            _ => self.execute_data(instr, mmu),
        }
    }

    /// The instructions without operands: NOP, HALT, STOP, DAA, CPL, SCF,
    /// CCF, DI, EI and the illegal no-ops.
    #[verifier::rlimit(100)]
    #[verifier::spinoff_prover]
    fn execute_misc(&mut self, operation: MiscOperation, mmu: &Mmu) -> (cycles: u8)
        requires
            old(self).wf(),
            !old(self).halt_bug,
            mmu.wf(),
        ensures
            cycles == 4,
            final(self).pending_ime == (if operation == MiscOperation::Ei {
                true
            } else if operation == MiscOperation::Di {
                false
            } else {
                old(self).pending_ime
            }),
            final(self).ime == (old(self).ime && operation != MiscOperation::Di),
            final(self).halted == (old(self).halted || (operation == MiscOperation::Halt && (old(self).ime || Cpu::spec_pending(*mmu) == 0))),
            final(self).stopped == (old(self).stopped || operation == MiscOperation::Stop),
            final(self).halt_bug == (operation == MiscOperation::Halt && !old(self).ime
                && Cpu::spec_pending(*mmu) != 0),
            *final(self) == spec_exec_out(
                *old(self),
                *mmu,
                Instruction::Misc { operation },
            ).0,
            cycles == spec_exec_out(*old(self), *mmu, Instruction::Misc { operation }).1,
            final(self).wf(),
    {
        match operation {
            MiscOperation::Nop => 4,
            MiscOperation::Halt => self.exec_halt(mmu),
            MiscOperation::Stop => self.exec_stop(mmu),
            MiscOperation::Daa => self.exec_daa(),
            MiscOperation::Cpl => self.exec_cpl(),
            MiscOperation::Scf => self.exec_scf(),
            MiscOperation::Ccf => self.exec_ccf(),
            MiscOperation::Di => {
                self.ime = false;
                self.pending_ime = false;
                4
            },
            MiscOperation::Ei => {
                self.pending_ime = true;
                4
            },
            MiscOperation::Illegal => 4,
        }
    }

    /// The control-flow and stack instructions.
    #[verifier::rlimit(100)]
    #[verifier::spinoff_prover]
    fn execute_flow(&mut self, instr: crate::instruction::Instruction, mmu: &mut Mmu) -> (cycles:
        u8)
        requires
            old(self).wf(),
            !old(self).halt_bug,
            old(mmu).wf(),
            instr matches Instruction::Jump { .. } || instr == Instruction::JumpHl
                || instr matches Instruction::Call { .. } || instr matches Instruction::Rst {
                ..
            } || instr matches Instruction::Ret { .. } || instr matches Instruction::Stack { .. },
        ensures
            4 <= cycles <= 24,
            final(self).pending_ime == old(self).pending_ime,
            (instr matches Instruction::Ret { condition, enable_ime } ==> final(self).ime == (old(self).ime || (enable_ime && crate::instruction::spec_cond_holds(
                condition,
                old(self).spec_flags(),
            )))),
            !(instr matches Instruction::Ret { .. }) ==> final(self).ime == old(self).ime,
            final(self).halted == old(self).halted,
            final(self).stopped == old(self).stopped,
            !final(self).halt_bug,
            *final(self) == spec_exec_out(*old(self), *old(mmu), instr).0,
            cycles == spec_exec_out(*old(self), *old(mmu), instr).1,
            spec_exec_mem(*old(self), *old(mmu), *final(mmu), instr),
            final(self).wf(),
            final(mmu).wf(),
    {
        match instr {
            Instruction::Jump { condition, kind } => self.exec_jump(condition, kind),
            Instruction::JumpHl => self.exec_jump_hl(),
            Instruction::Call { condition } => self.exec_call(condition, mmu),
            Instruction::Rst { vector } => self.exec_rst(vector, mmu),
            Instruction::Ret { condition, enable_ime } => self.exec_ret(
                condition,
                enable_ime,
                mmu,
            ),
            Instruction::Stack { operation, reg } => self.exec_stack(operation, reg, mmu),
            _ => 4,
        }
    }

    /// The data-movement instructions.
    #[verifier::rlimit(100)]
    #[verifier::spinoff_prover]
    fn execute_data(&mut self, instr: crate::instruction::Instruction, mmu: &mut Mmu) -> (cycles:
        u8)
        requires
            old(self).wf(),
            !old(self).halt_bug,
            old(mmu).wf(),
            !(instr matches Instruction::Misc { .. }),
            !(instr matches Instruction::Jump { .. }),
            instr != Instruction::JumpHl,
            !(instr matches Instruction::Call { .. }),
            !(instr matches Instruction::Rst { .. }),
            !(instr matches Instruction::Ret { .. }),
            !(instr matches Instruction::Stack { .. }),
        ensures
            4 <= cycles <= 20,
            final(self).pending_ime == old(self).pending_ime,
            final(self).ime == old(self).ime,
            final(self).halted == old(self).halted,
            final(self).stopped == old(self).stopped,
            !final(self).halt_bug,
            *final(self) == spec_exec_out(*old(self), *old(mmu), instr).0,
            cycles == spec_exec_out(*old(self), *old(mmu), instr).1,
            spec_exec_mem(*old(self), *old(mmu), *final(mmu), instr),
            final(self).wf(),
            final(mmu).wf(),
    {
        match instr {
            Instruction::Alu8 { .. } | Instruction::Alu16 { .. } | Instruction::AddHlR16 {
                ..
            } | Instruction::RotateA { .. } | Instruction::Rotate { .. } | Instruction::Bit {
                ..
            } | Instruction::StackPointer { .. } | Instruction::IncDecSp { .. } => self.execute_alu(
                instr,
                mmu,
            ),
            Instruction::Load8 { dst, src } => {
                if matches!(dst, Operand8::Imm8) {
                    4
                } else {
                    self.exec_load8(dst, src, mmu)
                }
            },
            Instruction::Load16 { dst, .. } => {
                if matches!(dst, crate::instruction::Operand16::Imm16) {
                    4
                } else {
                    self.exec_load16(dst, mmu)
                }
            },
            Instruction::LoadIndirect { reg, direction } => self.exec_load_indirect(
                reg,
                direction,
                mmu,
            ),
            Instruction::LoadHlIncDec { direction, inc } => self.exec_hl_inc_dec(
                direction,
                inc,
                mmu,
            ),
            Instruction::LoadHLFromSP { offset } => self.exec_ld_hl_sp(offset),
            Instruction::LoadHigh { src, dst } => self.exec_load_high(src, dst, mmu),
            Instruction::LoadA16 { addr, direction } => self.exec_load_a16(addr, direction, mmu),
            Instruction::LoadA16Sp { addr } => self.exec_ld_a16_sp(addr, mmu),
            Instruction::LoadSpFromHl => self.exec_ld_sp_hl(),
            _ => 4,
        }
    }

    /// The arithmetic, rotate and bit instructions.
    #[verifier::rlimit(100)]
    #[verifier::spinoff_prover]
    fn execute_alu(&mut self, instr: crate::instruction::Instruction, mmu: &mut Mmu) -> (cycles:
        u8)
        requires
            old(self).wf(),
            !old(self).halt_bug,
            old(mmu).wf(),
            instr matches Instruction::Alu8 { .. } || instr matches Instruction::Alu16 {
                ..
            } || instr matches Instruction::AddHlR16 { .. } || instr matches Instruction::RotateA {
                ..
            } || instr matches Instruction::Rotate { .. } || instr matches Instruction::Bit {
                ..
            } || instr matches Instruction::StackPointer { .. } || instr matches Instruction::IncDecSp {
                ..
            },
        ensures
            4 <= cycles <= 20,
            final(self).pending_ime == old(self).pending_ime,
            final(self).ime == old(self).ime,
            final(self).halted == old(self).halted,
            final(self).stopped == old(self).stopped,
            !final(self).halt_bug,
            *final(self) == spec_exec_out(*old(self), *old(mmu), instr).0,
            cycles == spec_exec_out(*old(self), *old(mmu), instr).1,
            spec_exec_mem(*old(self), *old(mmu), *final(mmu), instr),
            final(self).wf(),
            final(mmu).wf(),
    {
        match instr {
            Instruction::Alu8 { operation, operand } => {
                match operation {
                    AluOperation::ADD => self.exec_add(operand, false, mmu),
                    AluOperation::ADC => self.exec_add(operand, true, mmu),
                    AluOperation::SUB => self.exec_sub(operand, false, true, mmu),
                    AluOperation::SBC => self.exec_sub(operand, true, true, mmu),
                    AluOperation::CP => self.exec_sub(operand, false, false, mmu),
                    AluOperation::AND | AluOperation::XOR | AluOperation::OR => self.exec_logic(
                        operation,
                        operand,
                        mmu,
                    ),
                    AluOperation::INC => {
                        if matches!(operand, Operand8::Imm8) {
                            4
                        } else {
                            self.exec_inc_dec8(operand, true, mmu)
                        }
                    },
                    AluOperation::DEC => {
                        if matches!(operand, Operand8::Imm8) {
                            4
                        } else {
                            self.exec_inc_dec8(operand, false, mmu)
                        }
                    },
                }
            },
            Instruction::Alu16 { operation, operand } => {
                if matches!(operand, crate::instruction::Operand16::Imm16) {
                    4
                } else {
                    self.exec_inc_dec16(
                        operand,
                        matches!(operation, crate::instruction::Alu16Operation::INC),
                    )
                }
            },
            Instruction::AddHlR16 { src } => self.exec_add_hl(src),
            Instruction::RotateA { operation } => self.exec_rotate_a(operation),
            Instruction::Rotate { operation, operand } => {
                if matches!(operand, Operand8::Imm8) {
                    4
                } else {
                    self.exec_rotate(operation, operand, mmu)
                }
            },
            Instruction::Bit { operation, bit, operand } => {
                if matches!(operand, Operand8::Imm8) || bit > 7 {
                    4
                } else {
                    self.exec_bit(operation, bit, operand, mmu)
                }
            },
            Instruction::StackPointer { operation } => {
                match operation {
                    crate::instruction::StackPointerOperation::LoadImm => {
                        let word = self.fetch_word(mmu);
                        self.stack_pointer = word;
                        12
                    },
                    crate::instruction::StackPointerOperation::AddImm => self.exec_add_sp(mmu),
                }
            },
            Instruction::IncDecSp { inc } => self.exec_inc_dec_sp(inc),
            _ => 4,
        }
    }

    /// One step of the CPU: an interrupt dispatch when IME and a masked
    /// pending bit allow it; else a 4-cycle idle while STOP or HALT waits for
    /// a pending interrupt; else one fetched, decoded and executed
    /// instruction, after which a pending EI delay commits — so IME is true
    /// before the next instruction's fetch unless that very instruction
    /// disabled it.
    pub fn step(&mut self, mmu: &mut Mmu) -> (cycles: u8)
        requires
            old(self).wf(),
            old(mmu).wf(),
        ensures
            4 <= cycles <= 24,
            spec_step_rel(*old(self), *old(mmu), *final(self), *final(mmu), cycles),
            ({
                let pending = Cpu::spec_pending(*old(mmu));
                let dispatch = old(self).ime && pending != 0;
                (dispatch ==> cycles == 20 && !final(self).ime && !final(self).halted && final(self).program_counter == spec_vector(spec_lowest_bit(pending))) && (!dispatch && !old(self).stopped && !old(self).halted ==> ({
                    let op = old(mmu).spec_read(old(self).program_counter);
                    (op == 0xF3 ==> !final(self).ime && !final(self).pending_ime) && (op == 0xFB
                        ==> final(self).pending_ime) && (op != 0xFB ==> !final(self).pending_ime) && (op != 0xFB && op != 0xF3 && old(self).pending_ime ==> final(self).ime)
                }))
            }),
            final(self).wf(),
            final(mmu).wf(),
    {
        let interrupt_cycles = self.handle_interrupts(mmu);
        if interrupt_cycles > 0 {
            return interrupt_cycles;
        }
        if self.stopped {
            let ie = mmu.read8(0xFFFF) & 0x1F;
            let iflag = mmu.read8(0xFF0F) & 0x1F;
            if (ie & iflag) != 0 {
                self.stopped = false;
            }
            return 4;
        }
        if self.halted {
            let ie = mmu.read8(0xFFFF) & 0x1F;
            let iflag = mmu.read8(0xFF0F) & 0x1F;
            if (ie & iflag) != 0 {
                self.halted = false;
            }
            return 4;
        }

        let opcode = self.fetch_byte(mmu);
        let instr = crate::decoder::decode(opcode, self, mmu);
        let ghost c_mid = *self;
        let cycles = self.execute(instr, mmu);
        let ghost c_exec = *self;

        let executed_ei = opcode == 0xFB;
        if self.pending_ime && !executed_ei {
            self.pending_ime = false;
            self.ime = true;
        }
        proof {
            assert(*self == spec_ime_commit(c_exec, instr));
        }
        cycles
    }
}

/// The CPU state and cycle count after executing one decoded instruction
/// from CPU state `c` against bus state `m` (the bus as it stands when the
/// executor starts, which every operand read sees). The bus's own change is
/// `spec_exec_mem`.
pub open spec fn spec_exec_out(c: Cpu, m: Mmu, instr: Instruction) -> (Cpu, u8) {
    let pc = c.program_counter;
    let regs = c.registers;
    let flags = c.spec_flags();
    match instr {
        Instruction::Misc { operation } => (
            match operation {
                MiscOperation::Nop => c,
                MiscOperation::Halt => if !c.ime && Cpu::spec_pending(m) != 0 {
                    Cpu { halt_bug: true, ..c }
                } else {
                    Cpu { halted: true, ..c }
                },
                MiscOperation::Stop => Cpu {
                    program_counter: pc.wrapping_add(1),
                    stopped: true,
                    ..c
                },
                MiscOperation::Daa => ({
                    let af = spec_daa(regs.a, flags);
                    Cpu {
                        registers: (Registers {
                            a: af.0,
                            flag_register: (FlagsRegister { flags: af.1 }),
                            ..regs
                        }),
                        ..c
                    }
                }),
                MiscOperation::Cpl => Cpu {
                    registers: (Registers {
                        a: regs.a ^ 0xFF,
                        flag_register: (FlagsRegister {
                            flags: spec_flags_byte(flag_z(flags), true, true, flag_c(flags)),
                        }),
                        ..regs
                    }),
                    ..c
                },
                MiscOperation::Scf => Cpu {
                    registers: (Registers {
                        flag_register: (FlagsRegister {
                            flags: spec_flags_byte(flag_z(flags), false, false, true),
                        }),
                        ..regs
                    }),
                    ..c
                },
                MiscOperation::Ccf => Cpu {
                    registers: (Registers {
                        flag_register: (FlagsRegister {
                            flags: spec_flags_byte(flag_z(flags), false, false, !flag_c(flags)),
                        }),
                        ..regs
                    }),
                    ..c
                },
                MiscOperation::Di => Cpu { ime: false, pending_ime: false, ..c },
                MiscOperation::Ei => Cpu { pending_ime: true, ..c },
                MiscOperation::Illegal => c,
            },
            4,
        ),
        Instruction::Alu8 { operation, operand } => ({
            let v = spec_operand8_value(c, m, operand);
            let pc2: u16 = if operand == Operand8::Imm8 {
                pc.wrapping_add(1)
            } else {
                pc
            };
            let cin: u8 = if (operation == AluOperation::ADC || operation == AluOperation::SBC)
                && flag_c(flags) {
                1u8
            } else {
                0u8
            };
            match operation {
                AluOperation::ADD | AluOperation::ADC => (
                    Cpu {
                        registers: (Registers {
                            a: spec_add_result(regs.a, v, cin),
                            flag_register: (FlagsRegister {
                                flags: spec_add_flags(regs.a, v, cin),
                            }),
                            ..regs
                        }),
                        program_counter: pc2,
                        ..c
                    },
                    if operand matches Operand8::Register(_) {
                        4u8
                    } else {
                        8u8
                    },
                ),
                AluOperation::SUB | AluOperation::SBC | AluOperation::CP => (
                    Cpu {
                        registers: (Registers {
                            a: if operation == AluOperation::CP {
                                regs.a
                            } else {
                                spec_sub_result(regs.a, v, cin)
                            },
                            flag_register: (FlagsRegister {
                                flags: spec_sub_flags(regs.a, v, cin),
                            }),
                            ..regs
                        }),
                        program_counter: pc2,
                        ..c
                    },
                    if operand matches Operand8::Register(_) {
                        4u8
                    } else {
                        8u8
                    },
                ),
                AluOperation::AND | AluOperation::XOR | AluOperation::OR => ({
                    let r: u8 = if operation == AluOperation::AND {
                        regs.a & v
                    } else if operation == AluOperation::XOR {
                        regs.a ^ v
                    } else {
                        regs.a | v
                    };
                    (
                        Cpu {
                            registers: (Registers {
                                a: r,
                                flag_register: (FlagsRegister {
                                    flags: if operation == AluOperation::AND {
                                        spec_and_flags(r)
                                    } else {
                                        spec_logic_flags(r)
                                    },
                                }),
                                ..regs
                            }),
                            program_counter: pc2,
                            ..c
                        },
                        if operand matches Operand8::Register(_) {
                            4u8
                        } else {
                            8u8
                        },
                    )
                }),
                AluOperation::INC | AluOperation::DEC => ({
                    if operand == Operand8::Imm8 {
                        (c, 4u8)
                    } else {
                        let inc = operation == AluOperation::INC;
                        let r: u8 = if inc {
                            spec_add_result(v, 1, 0)
                        } else {
                            spec_sub_result(v, 1, 0)
                        };
                        let f: u8 = if inc {
                            spec_inc_flags(v, flags)
                        } else {
                            spec_dec_flags(v, flags)
                        };
                        (
                            match operand {
                                Operand8::Register(reg) => Cpu {
                                    registers: (Registers {
                                        flag_register: (FlagsRegister { flags: f }),
                                        ..regs.spec_write8(reg, r)
                                    }),
                                    ..c
                                },
                                _ => Cpu {
                                    registers: (Registers {
                                        flag_register: (FlagsRegister { flags: f }),
                                        ..regs
                                    }),
                                    ..c
                                },
                            },
                            if operand == Operand8::IndirectHL {
                                12u8
                            } else {
                                4u8
                            },
                        )
                    }
                }),
            }
        }),
        Instruction::Alu16 { operation, operand } => ({
            if operand == crate::instruction::Operand16::Imm16 {
                (c, 4u8)
            } else {
                let reg = spec_operand16_reg(operand);
                let v = regs.spec_read16(reg);
                let r: u16 = if operation == crate::instruction::Alu16Operation::INC {
                    v.wrapping_add(1)
                } else {
                    v.wrapping_sub(1)
                };
                (Cpu { registers: regs.spec_write16(reg, r), ..c }, 8u8)
            }
        }),
        Instruction::AddHlR16 { src } => ({
            let hl = regs.spec_read16(Reg16::HL);
            let v: u16 = match src {
                crate::instruction::Reg16Source::Reg(r) => regs.spec_read16(r),
                crate::instruction::Reg16Source::SP => c.stack_pointer,
            };
            (
                Cpu {
                    registers: (Registers {
                        flag_register: (FlagsRegister {
                            flags: spec_flags_byte(
                                flag_z(flags),
                                false,
                                (hl & 0x0FFF) + (v & 0x0FFF) > 0x0FFF,
                                hl + v > 0xFFFF,
                            ),
                        }),
                        ..regs.spec_write16(Reg16::HL, hl.wrapping_add(v))
                    }),
                    ..c
                },
                8u8,
            )
        }),
        Instruction::RotateA { operation } => ({
            let cin: u8 = if flag_c(flags) {
                1u8
            } else {
                0u8
            };
            let rc = spec_rotate(spec_rotate_a_op(operation), regs.a, cin);
            (
                Cpu {
                    registers: (Registers {
                        a: rc.0,
                        flag_register: (FlagsRegister {
                            flags: spec_flags_byte(false, false, false, rc.1 == 1),
                        }),
                        ..regs
                    }),
                    ..c
                },
                4u8,
            )
        }),
        Instruction::Rotate { operation, operand } => ({
            if operand == Operand8::Imm8 {
                (c, 4u8)
            } else {
                let cin: u8 = if flag_c(flags) {
                    1u8
                } else {
                    0u8
                };
                let v = spec_operand8_value(c, m, operand);
                let rc = spec_rotate(operation, v, cin);
                let f = spec_flags_byte(rc.0 == 0, false, false, rc.1 == 1);
                (
                    match operand {
                        Operand8::Register(reg) => Cpu {
                            registers: (Registers {
                                flag_register: (FlagsRegister { flags: f }),
                                ..regs.spec_write8(reg, rc.0)
                            }),
                            ..c
                        },
                        _ => Cpu {
                            registers: (Registers {
                                flag_register: (FlagsRegister { flags: f }),
                                ..regs
                            }),
                            ..c
                        },
                    },
                    if operand == Operand8::IndirectHL {
                        16u8
                    } else {
                        8u8
                    },
                )
            }
        }),
        Instruction::Bit { operation, bit, operand } => ({
            if operand == Operand8::Imm8 || bit > 7 {
                (c, 4u8)
            } else {
                let v = spec_operand8_value(c, m, operand);
                match operation {
                    crate::instruction::BitOperation::Test => (
                        Cpu {
                            registers: (Registers {
                                flag_register: (FlagsRegister {
                                    flags: spec_flags_byte(
                                        (v >> bit) & 1 == 0,
                                        false,
                                        true,
                                        flag_c(flags),
                                    ),
                                }),
                                ..regs
                            }),
                            ..c
                        },
                        if operand == Operand8::IndirectHL {
                            12u8
                        } else {
                            8u8
                        },
                    ),
                    _ => ({
                        let r: u8 = if operation == crate::instruction::BitOperation::Reset {
                            v & !(1u8 << bit)
                        } else {
                            v | (1u8 << bit)
                        };
                        (
                            match operand {
                                Operand8::Register(reg) => Cpu {
                                    registers: regs.spec_write8(reg, r),
                                    ..c
                                },
                                _ => c,
                            },
                            if operand == Operand8::IndirectHL {
                                16u8
                            } else {
                                8u8
                            },
                        )
                    }),
                }
            }
        }),
        Instruction::Jump { condition, kind } => ({
            let taken = crate::instruction::spec_cond_holds(condition, flags);
            let target: u16 = match kind {
                crate::instruction::JumpKind::Relative(off) => pc.wrapping_add_signed(off as i16),
                crate::instruction::JumpKind::Absolute(a) => a,
            };
            (
                Cpu {
                    program_counter: if taken {
                        target
                    } else {
                        pc
                    },
                    ..c
                },
                match kind {
                    crate::instruction::JumpKind::Relative(_) => if taken {
                        12u8
                    } else {
                        8u8
                    },
                    crate::instruction::JumpKind::Absolute(_) => if taken {
                        16u8
                    } else {
                        12u8
                    },
                },
            )
        }),
        Instruction::JumpHl => (Cpu { program_counter: regs.spec_read16(Reg16::HL), ..c }, 4u8),
        Instruction::Call { condition } => ({
            let addr = make16(m.spec_read(pc.wrapping_add(1)), m.spec_read(pc));
            let ret = pc.wrapping_add(2);
            if crate::instruction::spec_cond_holds(condition, flags) {
                (
                    Cpu {
                        program_counter: addr,
                        stack_pointer: c.stack_pointer.wrapping_sub(2),
                        ..c
                    },
                    24u8,
                )
            } else {
                (Cpu { program_counter: ret, ..c }, 12u8)
            }
        }),
        Instruction::Rst { vector } => (
            Cpu {
                program_counter: vector,
                stack_pointer: c.stack_pointer.wrapping_sub(2),
                ..c
            },
            16u8,
        ),
        Instruction::Ret { condition, enable_ime } => ({
            if crate::instruction::spec_cond_holds(condition, flags) {
                (
                    Cpu {
                        program_counter: make16(
                            m.spec_read(c.stack_pointer.wrapping_add(1)),
                            m.spec_read(c.stack_pointer),
                        ),
                        stack_pointer: c.stack_pointer.wrapping_add(2),
                        ime: c.ime || enable_ime,
                        ..c
                    },
                    if condition == crate::instruction::Condition::Always {
                        16u8
                    } else {
                        20u8
                    },
                )
            } else {
                (c, 8u8)
            }
        }),
        Instruction::Load8 { dst, src } => ({
            if dst == Operand8::Imm8 {
                (c, 4u8)
            } else {
                let v = spec_operand8_value(c, m, src);
                let pc2: u16 = if src == Operand8::Imm8 {
                    pc.wrapping_add(1)
                } else {
                    pc
                };
                (
                    match dst {
                        Operand8::Register(reg) => Cpu {
                            registers: regs.spec_write8(reg, v),
                            program_counter: pc2,
                            ..c
                        },
                        _ => Cpu { program_counter: pc2, ..c },
                    },
                    if src == Operand8::Imm8 {
                        if dst == Operand8::IndirectHL {
                            12u8
                        } else {
                            8u8
                        }
                    } else if src == Operand8::IndirectHL || dst == Operand8::IndirectHL {
                        8u8
                    } else {
                        4u8
                    },
                )
            }
        }),
        Instruction::Load16 { dst, .. } => ({
            if dst == crate::instruction::Operand16::Imm16 {
                (c, 4u8)
            } else {
                let word = make16(m.spec_read(pc.wrapping_add(1)), m.spec_read(pc));
                (
                    Cpu {
                        registers: regs.spec_write16(spec_operand16_reg(dst), word),
                        program_counter: pc.wrapping_add(2),
                        ..c
                    },
                    12u8,
                )
            }
        }),
        Instruction::LoadIndirect { reg, direction } => ({
            let addr = regs.spec_read16(reg);
            (
                match direction {
                    crate::instruction::LoadDir::ToMem => c,
                    crate::instruction::LoadDir::FromMem => Cpu {
                        registers: regs.spec_write8(Reg8::A, m.spec_read(addr)),
                        ..c
                    },
                },
                8u8,
            )
        }),
        Instruction::LoadHlIncDec { direction, inc } => ({
            let addr = regs.spec_read16(Reg16::HL);
            let hl2: u16 = if inc {
                addr.wrapping_add(1)
            } else {
                addr.wrapping_sub(1)
            };
            (
                match direction {
                    crate::instruction::LoadDir::ToMem => Cpu {
                        registers: regs.spec_write16(Reg16::HL, hl2),
                        ..c
                    },
                    crate::instruction::LoadDir::FromMem => Cpu {
                        registers: regs.spec_write8(Reg8::A, m.spec_read(addr)).spec_write16(
                            Reg16::HL,
                            hl2,
                        ),
                        ..c
                    },
                },
                8u8,
            )
        }),
        Instruction::LoadHLFromSP { offset } => (
            Cpu {
                registers: (Registers {
                    flag_register: (FlagsRegister {
                        flags: spec_flags_byte(
                            false,
                            false,
                            (c.stack_pointer & 0x0F) + ((offset as u8) & 0x0F) as u16 > 0x0F,
                            (c.stack_pointer & 0xFF) + ((offset as u8) as u16) > 0xFF,
                        ),
                    }),
                    ..regs.spec_write16(
                        Reg16::HL,
                        c.stack_pointer.wrapping_add((offset as i16) as u16),
                    )
                }),
                ..c
            },
            12u8,
        ),
        Instruction::LoadHigh { src, dst } => ({
            let c_addr = (0xFF00u16 | (regs.c as u16)) as u16;
            (
                match dst {
                    crate::instruction::LoadHighOperand::Addr(_) => c,
                    crate::instruction::LoadHighOperand::RegA => ({
                        let addr: u16 = match src {
                            crate::instruction::LoadHighOperand::Addr(
                                crate::instruction::HighAddr::Imm8(b),
                            ) => (0xFF00u16 | (b as u16)) as u16,
                            _ => c_addr,
                        };
                        Cpu { registers: regs.spec_write8(Reg8::A, m.spec_read(addr)), ..c }
                    }),
                },
                if (dst matches crate::instruction::LoadHighOperand::Addr(
                    crate::instruction::HighAddr::Imm8(_),
                )) || (src matches crate::instruction::LoadHighOperand::Addr(
                    crate::instruction::HighAddr::Imm8(_),
                )) {
                    12u8
                } else {
                    8u8
                },
            )
        }),
        Instruction::LoadA16 { addr, direction } => (
            match direction {
                crate::instruction::LoadDir::ToMem => c,
                crate::instruction::LoadDir::FromMem => Cpu {
                    registers: regs.spec_write8(Reg8::A, m.spec_read(addr)),
                    ..c
                },
            },
            16u8,
        ),
        Instruction::LoadA16Sp { .. } => (c, 20u8),
        Instruction::LoadSpFromHl => (
            Cpu { stack_pointer: regs.spec_read16(Reg16::HL), ..c },
            8u8,
        ),
        Instruction::Stack { operation, reg } => (
            match operation {
                crate::instruction::StackOperation::Pop => ({
                    let w = make16(
                        m.spec_read(c.stack_pointer.wrapping_add(1)),
                        m.spec_read(c.stack_pointer),
                    );
                    Cpu {
                        stack_pointer: c.stack_pointer.wrapping_add(2),
                        registers: regs.spec_write16(
                            reg,
                            if reg == Reg16::AF {
                                (w & 0xFFF0) as u16
                            } else {
                                w
                            },
                        ),
                        ..c
                    }
                }),
                crate::instruction::StackOperation::Push => Cpu {
                    stack_pointer: c.stack_pointer.wrapping_sub(2),
                    ..c
                },
            },
            match operation {
                crate::instruction::StackOperation::Pop => 12u8,
                crate::instruction::StackOperation::Push => 16u8,
            },
        ),
        Instruction::StackPointer { operation } => (
            match operation {
                crate::instruction::StackPointerOperation::LoadImm => Cpu {
                    stack_pointer: make16(m.spec_read(pc.wrapping_add(1)), m.spec_read(pc)),
                    program_counter: pc.wrapping_add(2),
                    ..c
                },
                crate::instruction::StackPointerOperation::AddImm => ({
                    let e8 = m.spec_read(pc) as i8;
                    Cpu {
                        stack_pointer: c.stack_pointer.wrapping_add((e8 as i16) as u16),
                        program_counter: pc.wrapping_add(1),
                        registers: (Registers {
                            flag_register: (FlagsRegister {
                                flags: spec_flags_byte(
                                    false,
                                    false,
                                    (c.stack_pointer & 0x0F) + ((e8 as u8) & 0x0F) as u16 > 0x0F,
                                    (c.stack_pointer & 0xFF) + ((e8 as u8) as u16) > 0xFF,
                                ),
                            }),
                            ..regs
                        }),
                        ..c
                    }
                }),
            },
            match operation {
                crate::instruction::StackPointerOperation::LoadImm => 12u8,
                crate::instruction::StackPointerOperation::AddImm => 16u8,
            },
        ),
        Instruction::IncDecSp { inc } => (
            Cpu {
                stack_pointer: if inc {
                    c.stack_pointer.wrapping_add(1)
                } else {
                    c.stack_pointer.wrapping_sub(1)
                },
                ..c
            },
            8u8,
        ),
    }
}

/// How the bus changes when one decoded instruction executes from CPU state
/// `c` against bus state `m0`, leaving bus state `m1`: the memory-writing
/// instructions perform exactly their stores and everything else leaves the
/// bus untouched.
pub open spec fn spec_exec_mem(c: Cpu, m0: Mmu, m1: Mmu, instr: Instruction) -> bool {
    let pc = c.program_counter;
    let regs = c.registers;
    let flags = c.spec_flags();
    let hl = regs.spec_read16(Reg16::HL);
    match instr {
        Instruction::Alu8 { operation, operand } => ({
            if (operation == AluOperation::INC || operation == AluOperation::DEC) && operand
                == Operand8::IndirectHL {
                let v = spec_operand8_value(c, m0, operand);
                let r: u8 = if operation == AluOperation::INC {
                    spec_add_result(v, 1, 0)
                } else {
                    spec_sub_result(v, 1, 0)
                };
                crate::mmu::spec_store_effect(m0, m1, hl, r)
            } else {
                m1 == m0
            }
        }),
        Instruction::Rotate { operation, operand } => ({
            if operand == Operand8::IndirectHL {
                let cin: u8 = if flag_c(flags) {
                    1u8
                } else {
                    0u8
                };
                let rc = spec_rotate(operation, spec_operand8_value(c, m0, operand), cin);
                crate::mmu::spec_store_effect(m0, m1, hl, rc.0)
            } else {
                m1 == m0
            }
        }),
        Instruction::Bit { operation, bit, operand } => ({
            if operand == Operand8::IndirectHL && bit <= 7 && operation
                != crate::instruction::BitOperation::Test {
                let v = spec_operand8_value(c, m0, operand);
                let r: u8 = if operation == crate::instruction::BitOperation::Reset {
                    v & !(1u8 << bit)
                } else {
                    v | (1u8 << bit)
                };
                crate::mmu::spec_store_effect(m0, m1, hl, r)
            } else {
                m1 == m0
            }
        }),
        Instruction::Call { condition } => ({
            if crate::instruction::spec_cond_holds(condition, flags) {
                let v = m0.view();
                let n = m0.apu.spec_nr52();
                let ret = pc.wrapping_add(2);
                m1.view() == spec_write8(
                    spec_write8(v, n, c.stack_pointer.wrapping_sub(1), hi8(ret)),
                    n,
                    c.stack_pointer.wrapping_sub(2),
                    lo8(ret),
                )
            } else {
                m1 == m0
            }
        }),
        Instruction::Rst { .. } => ({
            let v = m0.view();
            let n = m0.apu.spec_nr52();
            m1.view() == spec_write8(
                spec_write8(v, n, c.stack_pointer.wrapping_sub(1), hi8(pc)),
                n,
                c.stack_pointer.wrapping_sub(2),
                lo8(pc),
            )
        }),
        Instruction::Load8 { dst, src } => ({
            if dst == Operand8::IndirectHL {
                crate::mmu::spec_store_effect(m0, m1, hl, spec_operand8_value(c, m0, src))
            } else {
                m1 == m0
            }
        }),
        Instruction::LoadIndirect { reg, direction } => ({
            if direction == crate::instruction::LoadDir::ToMem {
                crate::mmu::spec_store_effect(m0, m1, regs.spec_read16(reg), regs.a)
            } else {
                m1 == m0
            }
        }),
        Instruction::LoadHlIncDec { direction, .. } => ({
            if direction == crate::instruction::LoadDir::ToMem {
                crate::mmu::spec_store_effect(m0, m1, hl, regs.a)
            } else {
                m1 == m0
            }
        }),
        Instruction::LoadHigh { src, dst } => ({
            match dst {
                crate::instruction::LoadHighOperand::Addr(ha) => ({
                    let addr: u16 = match ha {
                        crate::instruction::HighAddr::Imm8(b) => (0xFF00u16 | (b as u16)) as u16,
                        crate::instruction::HighAddr::RegC => (0xFF00u16 | (regs.c as u16)) as u16,
                    };
                    crate::mmu::spec_store_effect(m0, m1, addr, regs.a)
                }),
                crate::instruction::LoadHighOperand::RegA => m1 == m0,
            }
        }),
        Instruction::LoadA16 { addr, direction } => ({
            if direction == crate::instruction::LoadDir::ToMem {
                crate::mmu::spec_store_effect(m0, m1, addr, regs.a)
            } else {
                m1 == m0
            }
        }),
        Instruction::LoadA16Sp { addr } => m1.view() == crate::mmu::spec_store16_view(
            m0.view(),
            m0.apu.spec_nr52(),
            addr,
            c.stack_pointer,
        ),
        Instruction::Stack { operation, reg } => ({
            match operation {
                crate::instruction::StackOperation::Pop => m1 == m0,
                crate::instruction::StackOperation::Push => m1.view()
                    == crate::mmu::spec_store16_view(
                    m0.view(),
                    m0.apu.spec_nr52(),
                    c.stack_pointer.wrapping_sub(2),
                    regs.spec_read16(reg),
                ),
            }
        }),
        _ => m1 == m0,
    }
}

/// The one-instruction delay of EI: a pending enable becomes effective after
/// the instruction that followed the EI, unless that instruction was another
/// EI (which keeps the delay running).
pub open spec fn spec_ime_commit(c: Cpu, instr: Instruction) -> Cpu {
    if c.pending_ime && instr != (Instruction::Misc { operation: MiscOperation::Ei }) {
        Cpu { pending_ime: false, ime: true, ..c }
    } else {
        c
    }
}

/// The full effect of one CPU step, relating the machine before (`c0`, `m0`)
/// to the machine after (`c1`, `m1`) and the returned cycle count: an
/// interrupt dispatch when IME and a masked pending bit allow it; a 4-cycle
/// idle while STOP or HALT waits; otherwise the fetched opcode decodes by
/// `spec_decode`, executes by `spec_exec_out`/`spec_exec_mem`, and a pending
/// EI delay commits.
pub open spec fn spec_step_rel(c0: Cpu, m0: Mmu, c1: Cpu, m1: Mmu, cycles: u8) -> bool {
    let pending = Cpu::spec_pending(m0);
    if c0.ime && pending != 0 {
        let i = spec_lowest_bit(pending);
        let v = m0.view();
        let n = m0.apu.spec_nr52();
        let a1 = c0.stack_pointer.wrapping_sub(1);
        let a2 = c0.stack_pointer.wrapping_sub(2);
        let v2 = spec_write8(
            spec_write8(v, n, a1, hi8(c0.program_counter)),
            n,
            a2,
            lo8(c0.program_counter),
        );
        cycles == 20 && c1 == (Cpu {
            ime: false,
            halted: false,
            stack_pointer: a2,
            program_counter: spec_vector(i),
            ..c0
        }) && m1.view() == spec_write8(
            v2,
            n,
            0xFF0F,
            ((m0.spec_read(0xFF0F) & 0x1F) & !(1u8 << i)) & 0x1F,
        )
    } else if c0.stopped {
        cycles == 4 && c1 == (Cpu { stopped: pending == 0, ..c0 }) && m1 == m0
    } else if c0.halted {
        cycles == 4 && c1 == (Cpu { halted: pending == 0, ..c0 }) && m1 == m0
    } else {
        let pc0 = c0.program_counter;
        let op = m0.spec_read(pc0);
        let pca: u16 = if c0.halt_bug {
            pc0
        } else {
            pc0.wrapping_add(1)
        };
        let b1 = m0.spec_read(pca);
        let b2 = m0.spec_read(pca.wrapping_add(1));
        let instr = crate::decoder::spec_decode(op, b1, b2);
        let c_mid = Cpu {
            program_counter: pca.wrapping_add(crate::decoder::spec_decode_len(op)),
            halt_bug: false,
            ..c0
        };
        let out = spec_exec_out(c_mid, m0, instr);
        c1 == spec_ime_commit(out.0, instr) && cycles == out.1 && spec_exec_mem(
            c_mid,
            m0,
            m1,
            instr,
        )
    }
}

/// The low nibble of a byte is at most 15.
pub proof fn lemma_nibble(x: u8)
    ensures
        x & 0x0F <= 15,
{
    crate::registers::lemma_u8_bits(x);
}

/// The effect of a bus store does not depend on the NR52 parameter unless the
/// store is to the DMA register 0xFF46 (the one store whose effect reads the
/// bus).
pub proof fn lemma_write8_nr52_insensitive(
    v: crate::mmu::MmuView,
    n1: u8,
    n2: u8,
    addr: u16,
    value: u8,
)
    requires
        addr != 0xFF46,
    ensures
        spec_write8(v, n1, addr, value) == spec_write8(v, n2, addr, value),
{
}

} // verus!
