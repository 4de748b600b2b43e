use moboy::apu::Apu;
use moboy::cpu::Cpu;
use moboy::decoder;
use moboy::instruction::AluOperation;
use moboy::instruction::BitOperation;
use moboy::instruction::Condition;
use moboy::instruction::Instruction;
use moboy::instruction::JumpKind;
use moboy::instruction::MiscOperation;
use moboy::instruction::Operand8;
use moboy::instruction::RotateOperation;
use moboy::instruction::StackOperation;
use moboy::mmu::Mmu;
use moboy::registers::Reg8;
use moboy::registers::Reg16;
use moboy::registers::Registers;
use moboy::timer::Timer;

#[test]
fn decode_alu_block() {
    assert_eq!(
        decoder::decode_alu8_r8(0x80),
        Instruction::Alu8 { operation: AluOperation::ADD, operand: Operand8::Register(Reg8::B) }
    );
    assert_eq!(
        decoder::decode_alu8_r8(0x9E),
        Instruction::Alu8 { operation: AluOperation::SBC, operand: Operand8::IndirectHL }
    );
    assert_eq!(
        decoder::decode_alu8_n8(0xFE),
        Instruction::Alu8 { operation: AluOperation::CP, operand: Operand8::Imm8 }
    );
}

#[test]
fn decode_prefixed_groups() {
    assert_eq!(
        decoder::decode_prefixed(0x7E),
        Instruction::Bit { operation: BitOperation::Test, bit: 7, operand: Operand8::IndirectHL }
    );
    assert_eq!(
        decoder::decode_prefixed(0x11),
        Instruction::Rotate { operation: RotateOperation::RL, operand: Operand8::Register(Reg8::C) }
    );
    assert_eq!(
        decoder::decode_prefixed(0x87),
        Instruction::Bit {
            operation: BitOperation::Reset,
            bit: 0,
            operand: Operand8::Register(Reg8::A),
        }
    );
    assert_eq!(
        decoder::decode_prefixed(0xFF),
        Instruction::Bit {
            operation: BitOperation::SetBit,
            bit: 7,
            operand: Operand8::Register(Reg8::A),
        }
    );
}

#[test]
fn decode_stack_and_flow() {
    assert_eq!(
        decoder::decode_stack(0xF5),
        Instruction::Stack { operation: StackOperation::Push, reg: Reg16::AF }
    );
    assert_eq!(
        decoder::decode_ret(0xD9),
        Instruction::Ret { condition: Condition::Always, enable_ime: true }
    );
    assert_eq!(
        decoder::decode_ret(0xC0),
        Instruction::Ret { condition: Condition::NZ, enable_ime: false }
    );
    assert_eq!(decoder::decode_rst(0xEF), Instruction::Rst { vector: 0x28 });
    assert_eq!(
        decoder::decode_call(0xDC),
        Instruction::Call { condition: Condition::C }
    );
}

#[test]
fn decode_fetches_jump_operands() {
    let mut rom = vec![0u8; 0x8000];
    rom[0x100] = 0x18;
    rom[0x101] = 0xFE;
    rom[0x102] = 0xC3;
    rom[0x103] = 0x34;
    rom[0x104] = 0x12;
    let mmu = Mmu::new(rom, Apu::new(), Timer::new());
    let mut cpu = Cpu::new();
    cpu.program_counter = 0x101;
    let jr = decoder::decode_jr(0x18, &mut cpu, &mmu);
    assert_eq!(
        jr,
        Instruction::Jump { condition: Condition::Always, kind: JumpKind::Relative(-2) }
    );
    assert_eq!(cpu.program_counter, 0x102);
    cpu.program_counter = 0x103;
    let jp = decoder::decode_jp(0xC3, &mut cpu, &mmu);
    assert_eq!(
        jp,
        Instruction::Jump { condition: Condition::Always, kind: JumpKind::Absolute(0x1234) }
    );
    assert_eq!(cpu.program_counter, 0x105);
}

#[test]
fn decode_misc_and_illegal() {
    let mut rom = vec![0u8; 0x8000];
    rom[0x147] = 0x00;
    let mmu = Mmu::new(rom, Apu::new(), Timer::new());
    let mut cpu = Cpu::new();
    assert_eq!(
        decoder::decode(0xF3, &mut cpu, &mmu),
        Instruction::Misc { operation: MiscOperation::Di }
    );
    assert_eq!(
        decoder::decode(0xFB, &mut cpu, &mmu),
        Instruction::Misc { operation: MiscOperation::Ei }
    );
    assert_eq!(
        decoder::decode(0xED, &mut cpu, &mmu),
        Instruction::Misc { operation: MiscOperation::Illegal }
    );
    assert_eq!(
        decoder::decode_misc(0x27),
        Instruction::Misc { operation: MiscOperation::Daa }
    );
}

#[test]
fn register_pairs_roundtrip() {
    let mut regs = Registers::new();
    regs.write16(&Reg16::BC, 0x1234);
    assert_eq!(regs.read16(&Reg16::BC), 0x1234);
    assert_eq!(regs.read8(&Reg8::B), 0x12);
    assert_eq!(regs.read8(&Reg8::C), 0x34);
    regs.write16(&Reg16::DE, 0xABCD);
    assert_eq!(regs.read16(&Reg16::DE), 0xABCD);
}

#[test]
fn af_write_masks_flag_nibble() {
    let mut regs = Registers::new();
    regs.write16(&Reg16::AF, 0x12FF);
    assert_eq!(regs.read8(&Reg8::A), 0x12);
    assert_eq!(regs.flag_register.flags, 0xF0);
    assert_eq!(regs.read16(&Reg16::AF), 0x12F0);
}

#[test]
fn reg8_table_skips_indirect_slot() {
    assert_eq!(Reg8::from(0), Reg8::B);
    assert_eq!(Reg8::from(5), Reg8::L);
    assert_eq!(Reg8::from(7), Reg8::A);
    assert_eq!(Reg16::from(3), Reg16::AF);
}
