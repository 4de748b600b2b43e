use moboy::gameboy::GameBoy;

fn rom_with(code: &[u8]) -> Vec<u8> {
    let mut rom = vec![0u8; 0x8000];
    for (i, b) in code.iter().enumerate() {
        rom[0x100 + i] = *b;
    }
    rom
}

#[test]
fn boot_state() {
    let gb = GameBoy::new(rom_with(&[]));
    assert_eq!(gb.cpu.program_counter, 0x0100);
    assert_eq!(gb.cpu.stack_pointer, 0xFFFE);
    assert_eq!(gb.cpu.registers.a, 0x01);
    assert_eq!(gb.cpu.registers.flag_register.flags, 0xB0);
    assert_eq!(gb.cpu.registers.b, 0x00);
    assert_eq!(gb.cpu.registers.c, 0x13);
    assert_eq!(gb.cpu.registers.d, 0x00);
    assert_eq!(gb.cpu.registers.e, 0xD8);
    assert_eq!(gb.cpu.registers.h, 0x01);
    assert_eq!(gb.cpu.registers.l, 0x4D);
    assert!(!gb.cpu.ime);
}

#[test]
fn store_a_to_wram() {
    // LD A,0x42 ; LD (0xC000),A
    let mut gb = GameBoy::new(rom_with(&[0x3E, 0x42, 0xEA, 0x00, 0xC0]));
    let c1 = gb.cpu.step(&mut gb.mmu);
    let c2 = gb.cpu.step(&mut gb.mmu);
    assert_eq!(c1, 8);
    assert_eq!(c2, 16);
    assert_eq!(gb.cpu.registers.a, 0x42);
    assert_eq!(gb.mmu.read8(0xC000), 0x42);
    assert_eq!(gb.cpu.program_counter, 0x0105);
}

#[test]
fn add_half_carry_exact() {
    // A=0x0F, B=0x01, ADD A,B -> A=0x10, Z=0 N=0 H=1 C=0
    let mut gb = GameBoy::new(rom_with(&[0x80]));
    gb.cpu.registers.a = 0x0F;
    gb.cpu.registers.b = 0x01;
    gb.step();
    assert_eq!(gb.cpu.registers.a, 0x10);
    assert_eq!(gb.cpu.registers.flag_register.flags, 0x20);
}

#[test]
fn add_carry_exact() {
    // A=0xFF, B=0x01, ADD A,B -> A=0x00, Z=1 N=0 H=1 C=1
    let mut gb = GameBoy::new(rom_with(&[0x80]));
    gb.cpu.registers.a = 0xFF;
    gb.cpu.registers.b = 0x01;
    gb.step();
    assert_eq!(gb.cpu.registers.a, 0x00);
    assert_eq!(gb.cpu.registers.flag_register.flags, 0xB0);
}

#[test]
fn rla_through_carry() {
    // A=0x80, C=1, RLA -> A=0x01, F = C only
    let mut gb = GameBoy::new(rom_with(&[0x17]));
    gb.cpu.registers.a = 0x80;
    gb.cpu.registers.flag_register.flags = 0x10;
    gb.step();
    assert_eq!(gb.cpu.registers.a, 0x01);
    assert_eq!(gb.cpu.registers.flag_register.flags, 0x10);
}

#[test]
fn daa_after_addition() {
    // A=0x09, B=0x08, ADD A,B ; DAA -> A=0x17, all flags clear
    let mut gb = GameBoy::new(rom_with(&[0x80, 0x27]));
    gb.cpu.registers.a = 0x09;
    gb.cpu.registers.b = 0x08;
    gb.step();
    gb.step();
    assert_eq!(gb.cpu.registers.a, 0x17);
    assert_eq!(gb.cpu.registers.flag_register.flags, 0x00);
}

#[test]
fn sub_and_compare_flags() {
    // A=0x10, B=0x20, SUB A,B -> borrow sets C, N set
    let mut gb = GameBoy::new(rom_with(&[0x90]));
    gb.cpu.registers.a = 0x10;
    gb.cpu.registers.b = 0x20;
    gb.step();
    assert_eq!(gb.cpu.registers.a, 0xF0);
    assert_eq!(gb.cpu.registers.flag_register.flags, 0x50);
}

#[test]
fn inc_preserves_carry() {
    // C flag set, INC B with B=0x0F -> H set, C still set
    let mut gb = GameBoy::new(rom_with(&[0x04]));
    gb.cpu.registers.b = 0x0F;
    gb.cpu.registers.flag_register.flags = 0x10;
    gb.step();
    assert_eq!(gb.cpu.registers.b, 0x10);
    assert_eq!(gb.cpu.registers.flag_register.flags, 0x30);
}

#[test]
fn pop_af_masks_low_nibble() {
    let mut gb = GameBoy::new(rom_with(&[0xF1]));
    gb.cpu.stack_pointer = 0xC000;
    gb.mmu.write8(0xC000, 0xFF);
    gb.mmu.write8(0xC001, 0x12);
    gb.step();
    assert_eq!(gb.cpu.registers.a, 0x12);
    assert_eq!(gb.cpu.registers.flag_register.flags, 0xF0);
    assert_eq!(gb.cpu.stack_pointer, 0xC002);
}

#[test]
fn push_pop_roundtrip() {
    // LD SP,0xD000 ; PUSH BC ; POP DE
    let mut gb = GameBoy::new(rom_with(&[0x31, 0x00, 0xD0, 0xC5, 0xD1]));
    gb.cpu.registers.b = 0x12;
    gb.cpu.registers.c = 0x34;
    gb.step();
    gb.step();
    gb.step();
    assert_eq!(gb.cpu.registers.d, 0x12);
    assert_eq!(gb.cpu.registers.e, 0x34);
    assert_eq!(gb.cpu.stack_pointer, 0xD000);
}

#[test]
fn ei_delay_then_di() {
    // EI ; NOP: IME becomes true only after the following instruction.
    let mut gb = GameBoy::new(rom_with(&[0xFB, 0x00, 0xF3]));
    gb.step();
    assert!(!gb.cpu.ime);
    assert!(gb.cpu.pending_ime);
    gb.step();
    assert!(gb.cpu.ime);
    assert!(!gb.cpu.pending_ime);
    gb.step();
    assert!(!gb.cpu.ime);
    assert!(!gb.cpu.pending_ime);
}

#[test]
fn ei_then_di_keeps_interrupts_off() {
    let mut gb = GameBoy::new(rom_with(&[0xFB, 0xF3]));
    gb.step();
    gb.step();
    assert!(!gb.cpu.ime);
    assert!(!gb.cpu.pending_ime);
}

#[test]
fn interrupt_dispatch_to_vector() {
    let mut gb = GameBoy::new(rom_with(&[0x00]));
    gb.mmu.write8(0xFFFF, 0x01);
    gb.mmu.write8(0xFF0F, 0x01);
    gb.cpu.ime = true;
    gb.cpu.stack_pointer = 0xD000;
    gb.step();
    assert_eq!(gb.cpu.program_counter, 0x40);
    assert!(!gb.cpu.ime);
    assert_eq!(gb.mmu.read8(0xFF0F) & 0x01, 0);
    // The return address 0x0100 was pushed.
    assert_eq!(gb.mmu.read8(0xCFFF), 0x01);
    assert_eq!(gb.mmu.read8(0xCFFE), 0x00);
}

#[test]
fn di_blocks_dispatch() {
    let mut gb = GameBoy::new(rom_with(&[0x00]));
    gb.mmu.write8(0xFFFF, 0x01);
    gb.mmu.write8(0xFF0F, 0x01);
    gb.cpu.ime = false;
    gb.step();
    assert_eq!(gb.cpu.program_counter, 0x0101);
}

#[test]
fn halt_bug_repeats_fetch() {
    // IME=0 with a pending interrupt: HALT arms the halt bug and INC A runs
    // twice from the same address.
    let mut gb = GameBoy::new(rom_with(&[0x76, 0x3C]));
    gb.mmu.write8(0xFFFF, 0x01);
    gb.mmu.write8(0xFF0F, 0x01);
    gb.cpu.registers.a = 0;
    gb.step();
    assert!(gb.cpu.halt_bug);
    assert!(!gb.cpu.halted);
    gb.step();
    assert_eq!(gb.cpu.registers.a, 1);
    assert_eq!(gb.cpu.program_counter, 0x0101);
    gb.step();
    assert_eq!(gb.cpu.registers.a, 2);
    assert_eq!(gb.cpu.program_counter, 0x0102);
}

#[test]
fn halt_idles_until_interrupt() {
    let mut gb = GameBoy::new(rom_with(&[0x76, 0x00]));
    gb.mmu.write8(0xFF0F, 0x00);
    gb.step();
    assert!(gb.cpu.halted);
    gb.step();
    assert!(gb.cpu.halted);
    gb.mmu.write8(0xFFFF, 0x04);
    gb.mmu.write8(0xFF0F, 0x04);
    gb.step();
    assert!(!gb.cpu.halted);
}

#[test]
fn illegal_opcode_is_noop() {
    let mut gb = GameBoy::new(rom_with(&[0xD3, 0x00]));
    gb.step();
    assert_eq!(gb.cpu.program_counter, 0x0101);
}

#[test]
fn jr_taken_and_not_taken() {
    // JR NZ,+2 with Z clear jumps over one byte.
    let mut gb = GameBoy::new(rom_with(&[0x20, 0x02, 0x00, 0x00, 0x00]));
    gb.cpu.registers.flag_register.flags = 0x00;
    gb.step();
    assert_eq!(gb.cpu.program_counter, 0x0104);
    let mut gb2 = GameBoy::new(rom_with(&[0x20, 0x02, 0x00]));
    gb2.cpu.registers.flag_register.flags = 0x80;
    gb2.step();
    assert_eq!(gb2.cpu.program_counter, 0x0102);
}

#[test]
fn call_and_ret() {
    // CALL 0x0110 ; at 0x0110: RET
    let mut code = vec![0xCD, 0x10, 0x01];
    code.resize(0x10, 0x00);
    code.push(0xC9);
    let mut gb = GameBoy::new(rom_with(&code));
    gb.cpu.stack_pointer = 0xD000;
    gb.step();
    assert_eq!(gb.cpu.program_counter, 0x0110);
    assert_eq!(gb.cpu.stack_pointer, 0xCFFE);
    gb.step();
    assert_eq!(gb.cpu.program_counter, 0x0103);
    assert_eq!(gb.cpu.stack_pointer, 0xD000);
}

#[test]
fn prefixed_set_and_bit() {
    // CB C7 = SET 0,A ; CB 47 = BIT 0,A
    let mut gb = GameBoy::new(rom_with(&[0xCB, 0xC7, 0xCB, 0x47]));
    gb.cpu.registers.a = 0x00;
    gb.cpu.registers.flag_register.flags = 0x00;
    gb.step();
    assert_eq!(gb.cpu.registers.a, 0x01);
    gb.step();
    // BIT leaves Z clear when the bit is set, sets H.
    assert_eq!(gb.cpu.registers.flag_register.flags & 0x80, 0);
    assert_eq!(gb.cpu.registers.flag_register.flags & 0x20, 0x20);
}

#[test]
fn swap_sets_only_zero_flag() {
    // CB 37 = SWAP A
    let mut gb = GameBoy::new(rom_with(&[0xCB, 0x37]));
    gb.cpu.registers.a = 0xF0;
    gb.cpu.registers.flag_register.flags = 0xF0;
    gb.step();
    assert_eq!(gb.cpu.registers.a, 0x0F);
    assert_eq!(gb.cpu.registers.flag_register.flags, 0x00);
}

#[test]
fn add_hl_flags() {
    // HL=0x0FFF, BC=0x0001, ADD HL,BC: H set, C clear, Z preserved.
    let mut gb = GameBoy::new(rom_with(&[0x09]));
    gb.cpu.registers.h = 0x0F;
    gb.cpu.registers.l = 0xFF;
    gb.cpu.registers.b = 0x00;
    gb.cpu.registers.c = 0x01;
    gb.cpu.registers.flag_register.flags = 0x80;
    gb.step();
    assert_eq!(gb.cpu.registers.h, 0x10);
    assert_eq!(gb.cpu.registers.l, 0x00);
    assert_eq!(gb.cpu.registers.flag_register.flags, 0xA0);
}

#[test]
fn ld_hl_sp_offset_flags() {
    // SP=0x00FF, LD HL,SP+1: H and C both set from the low-byte addition.
    let mut gb = GameBoy::new(rom_with(&[0xF8, 0x01]));
    gb.cpu.stack_pointer = 0x00FF;
    gb.step();
    assert_eq!(gb.cpu.registers.h, 0x01);
    assert_eq!(gb.cpu.registers.l, 0x00);
    assert_eq!(gb.cpu.registers.flag_register.flags, 0x30);
}
