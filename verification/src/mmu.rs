//! Memory bus: 16-bit address decoding over ROM, VRAM, external RAM, WRAM,
//! OAM, I/O, HRAM and IE; MBC1/MBC3 cartridge banking; OAM DMA; the serial
//! stub; and forwarding of elapsed cycles to the timer and the audio unit.

use crate::apu::Apu;
use crate::cpu::Interrupt;
use crate::joypad::Joypad;
use crate::joypad::Key;
use crate::timer::Timer;
use crate::timer::sel_bit;
use crate::timer::tac_enabled;
use crate::timer::timer_update_spec;
use vstd::prelude::*;

verus! {

/// The memory management unit. It owns every memory region and peripheral;
/// the CPU and the pixel unit borrow it for the duration of one step.
pub struct Mmu {
    pub rom: Vec<u8>,
    pub vram: Vec<u8>,
    pub eram: Vec<u8>,
    pub wram: Vec<u8>,
    pub oam: Vec<u8>,
    pub hram: Vec<u8>,
    pub io: Vec<u8>,
    pub ie: u8,
    pub joypad: Joypad,
    pub cartridge_type: u8,
    pub rom_bank: u8,
    pub ram_bank: u8,
    pub ram_enabled: bool,
    pub banking_mode: u8,
    pub timer: Timer,
    pub apu: Apu,
    pub mbc3_rtc_sel: Option<u8>,
}

/// The bus state as mathematical values, audio unit aside: the memory
/// regions as byte sequences together with the banking latches and the
/// peripherals whose state is already plain.
pub struct MmuView {
    pub rom: Seq<u8>,
    pub vram: Seq<u8>,
    pub eram: Seq<u8>,
    pub wram: Seq<u8>,
    pub oam: Seq<u8>,
    pub hram: Seq<u8>,
    pub io: Seq<u8>,
    pub ie: u8,
    pub joypad: Joypad,
    pub cartridge_type: u8,
    pub rom_bank: u8,
    pub ram_bank: u8,
    pub ram_enabled: bool,
    pub banking_mode: u8,
    pub timer: Timer,
    pub mbc3_rtc_sel: Option<u8>,
}

/// Whether the cartridge type byte selects MBC1.
pub open spec fn spec_is_mbc1(cartridge_type: u8) -> bool {
    cartridge_type == 0x01 || cartridge_type == 0x02 || cartridge_type == 0x03
}

/// Whether the cartridge type byte selects MBC3.
pub open spec fn spec_is_mbc3(cartridge_type: u8) -> bool {
    cartridge_type == 0x0F || cartridge_type == 0x10 || cartridge_type == 0x11 || cartridge_type
        == 0x12 || cartridge_type == 0x13
}

/// The external RAM size selected by header byte 0x0149.
pub open spec fn spec_ram_size(value: u8) -> nat {
    if value == 0x01 {
        2 * 1024
    } else if value == 0x02 {
        8 * 1024
    } else if value == 0x03 {
        32 * 1024
    } else if value == 0x04 {
        128 * 1024
    } else if value == 0x05 {
        64 * 1024
    } else {
        0
    }
}

/// A load from the bus. `nr52` is the audio unit's NR52 read value, the one
/// byte of the address space whose source lives outside the view.
pub open spec fn spec_read8(v: MmuView, nr52: u8, addr: u16) -> u8 {
    if addr < 0x4000 {
        if (addr as int) < v.rom.len() {
            v.rom[addr as int]
        } else {
            0xFF
        }
    } else if addr < 0x8000 {
        let bank_addr = v.rom_bank * 0x4000 + (addr - 0x4000);
        if bank_addr < v.rom.len() {
            v.rom[bank_addr as int]
        } else {
            0xFF
        }
    } else if addr < 0xA000 {
        v.vram[addr - 0x8000]
    } else if addr < 0xC000 {
        if v.mbc3_rtc_sel is Some {
            0xFF
        } else if !v.ram_enabled || v.eram.len() == 0 {
            0xFF
        } else {
            let offset = v.ram_bank * 0x2000 + (addr - 0xA000);
            if offset < v.eram.len() {
                v.eram[offset as int]
            } else {
                0xFF
            }
        }
    } else if addr < 0xE000 {
        v.wram[addr - 0xC000]
    } else if addr < 0xFE00 {
        v.wram[(addr - 0xE000) % 0x2000]
    } else if addr < 0xFEA0 {
        v.oam[addr - 0xFE00]
    } else if addr == 0xFF00 {
        v.joypad.spec_read()
    } else if addr == 0xFF0F {
        v.io[0x0F] | 0xE0
    } else if addr == 0xFF26 {
        nr52
    } else if 0xFF80 <= addr && addr <= 0xFFFE {
        v.hram[addr - 0xFF80]
    } else if 0xFF00 <= addr && addr <= 0xFF7F {
        v.io[addr - 0xFF00]
    } else if addr == 0xFFFF {
        v.ie
    } else {
        0xFF
    }
}

/// The OAM DMA triggered by a store to 0xFF46: the source register is
/// latched, then the 0xA0 bytes at (value << 8) are copied into OAM through
/// the ordinary bus read.
pub open spec fn spec_dma(v: MmuView, nr52: u8, value: u8) -> MmuView {
    let v1 = MmuView { io: v.io.update(0x46, value), ..v };
    MmuView {
        oam: Seq::new(0xA0, |i: int| spec_read8(v1, nr52, (((value as u16) << 8) + i) as u16)),
        ..v1
    }
}

/// A store to the bus, audio routing aside: banking latches below 0x8000,
/// plain regions, and the special I/O registers (joypad select, serial stub,
/// DIV reset with its spurious TIMA tick, IF mask, STAT write mask, LY
/// read-only, OAM DMA, IE mask).
/// Stores to 0xFF00..=0xFF7F land in the I/O array even where a peripheral
/// also receives them.
pub open spec fn spec_write8(v: MmuView, nr52: u8, addr: u16, value: u8) -> MmuView {
    if addr < 0x2000 {
        MmuView { ram_enabled: (value & 0x0F) == 0x0A, ..v }
    } else if addr < 0x4000 {
        if v.cartridge_type == 0x00 {
            v
        } else if spec_is_mbc3(v.cartridge_type) {
            let bank = value & 0x7F;
            MmuView {
                rom_bank: if bank == 0 {
                    1
                } else {
                    bank
                },
                ..v
            }
        } else if spec_is_mbc1(v.cartridge_type) {
            let bank = value & 0x1F;
            MmuView {
                rom_bank: (v.rom_bank & 0xE0) | (if bank == 0 {
                    1
                } else {
                    bank
                }),
                ..v
            }
        } else {
            v
        }
    } else if addr < 0x6000 {
        if v.cartridge_type == 0x00 {
            v
        } else if spec_is_mbc3(v.cartridge_type) {
            if 0x08 <= value && value <= 0x0C {
                MmuView { mbc3_rtc_sel: Some(value), ..v }
            } else {
                MmuView { mbc3_rtc_sel: None, ram_bank: value & 0x03, ..v }
            }
        } else if spec_is_mbc1(v.cartridge_type) {
            if v.banking_mode == 0 {
                MmuView { rom_bank: (v.rom_bank & 0x1F) | ((value & 0x03) << 5), ..v }
            } else {
                MmuView { ram_bank: value & 0x03, ..v }
            }
        } else {
            v
        }
    } else if addr < 0x8000 {
        if v.cartridge_type != 0x00 && spec_is_mbc1(v.cartridge_type) {
            MmuView { banking_mode: value & 0x01, ..v }
        } else {
            v
        }
    } else if addr < 0xA000 {
        MmuView { vram: v.vram.update(addr - 0x8000, value), ..v }
    } else if addr < 0xC000 {
        if v.mbc3_rtc_sel is Some {
            v
        } else if !v.ram_enabled || v.eram.len() == 0 {
            v
        } else {
            let offset = v.ram_bank * 0x2000 + (addr - 0xA000);
            if offset < v.eram.len() {
                MmuView { eram: v.eram.update(offset as int, value), ..v }
            } else {
                v
            }
        }
    } else if addr < 0xE000 {
        MmuView { wram: v.wram.update(addr - 0xC000, value), ..v }
    } else if addr < 0xFE00 {
        MmuView { wram: v.wram.update(addr - 0xE000, value), ..v }
    } else if addr < 0xFEA0 {
        MmuView { oam: v.oam.update(addr - 0xFE00, value), ..v }
    } else if addr == 0xFF00 {
        MmuView {
            joypad: Joypad {
                select_buttons: value & 0x20 == 0,
                select_directions: value & 0x10 == 0,
                ..v.joypad
            },
            ..v
        }
    } else if addr == 0xFF02 {
        if value & 0x80 != 0 {
            MmuView {
                io: v.io.update(0x02, (value & 0x7F) as u8).update(0x01, 0xFFu8).update(
                    0x0F,
                    (v.io[0x0F] | 0x08) as u8,
                ),
                ..v
            }
        } else {
            MmuView { io: v.io.update(0x02, value), ..v }
        }
    } else if addr == 0xFF04 {
        let v1 = MmuView {
            timer: Timer { internal_counter: 0, ..v.timer },
            io: v.io.update(0x04, 0u8),
            ..v
        };
        let tac = v.io[0x07];
        if tac_enabled(tac) && (v.timer.internal_counter >> sel_bit(tac)) & 1 == 1 {
            if v.io[0x05] == 0xFF {
                MmuView {
                    io: v1.io.update(0x05, v.io[0x06]).update(0x0F, (v.io[0x0F] | 0x04) as u8),
                    ..v1
                }
            } else {
                MmuView { io: v1.io.update(0x05, (v.io[0x05] + 1) as u8), ..v1 }
            }
        } else {
            v1
        }
    } else if addr == 0xFF0F {
        MmuView { io: v.io.update(0x0F, ((v.io[0x0F] & 0xE0) | (value & 0x1F)) as u8), ..v }
    } else if addr == 0xFF41 {
        MmuView {
            io: v.io.update(0x41, ((v.io[0x41] & 0x07) | (value & 0x78) | 0x80) as u8),
            ..v
        }
    } else if addr == 0xFF44 {
        v
    } else if addr == 0xFF46 {
        spec_dma(v, nr52, value)
    } else if 0xFF80 <= addr && addr <= 0xFFFE {
        MmuView { hram: v.hram.update(addr - 0xFF80, value), ..v }
    } else if 0xFF00 <= addr && addr <= 0xFF7F {
        MmuView { io: v.io.update(addr - 0xFF00, value), ..v }
    } else if addr == 0xFFFF {
        MmuView { ie: value & 0x1F, ..v }
    } else {
        v
    }
}

/// What one bus store does to the whole machine: the view changes as
/// `spec_write8` says, and the audio unit receives stores into its register
/// range or wave RAM and is untouched otherwise.
pub open spec fn spec_store_effect(m0: Mmu, m1: Mmu, addr: u16, value: u8) -> bool {
    m1.view() == spec_write8(m0.view(), m0.apu.spec_nr52(), addr, value) && (0xFF10 <= addr
        <= 0xFF26 ==> m1.apu == m0.apu.spec_reg_write(addr, value)) && (0xFF30 <= addr <= 0xFF3F
        ==> m1.apu.ch3.wave_ram@ == m0.apu.ch3.wave_ram@.update((addr & 0x0F) as int, value)
        && m1.apu == (Apu {
        ch3: crate::wave_channel::WaveChannel { wave_ram: m1.apu.ch3.wave_ram, ..m0.apu.ch3 },
        ..m0.apu
    })) && (!(0xFF10 <= addr <= 0xFF26) && !(0xFF30 <= addr <= 0xFF3F) ==> m1.apu == m0.apu)
}

/// The view after a 16-bit little-endian store: the low byte at `addr`, then
/// the high byte one above it.
pub open spec fn spec_store16_view(v: MmuView, nr52: u8, addr: u16, value: u16) -> MmuView {
    spec_write8(
        spec_write8(v, nr52, addr, (value & 0xFF) as u8),
        nr52,
        addr.wrapping_add(1),
        (value >> 8) as u8,
    )
}

/// The effect of forwarding `cycles` elapsed T-cycles to the timer: the
/// internal counter advances per `timer_update_spec`, DIV and TIMA land in
/// the I/O bytes when they changed, an overflow raises the timer bit of IF,
/// and nothing else of the bus moves.
pub open spec fn spec_tick_rel(m0: Mmu, m1: Mmu, cycles: u8) -> bool {
    let v = m0.view();
    let run = timer_update_spec(
        v.timer.internal_counter,
        v.timer.last_tac,
        cycles,
        v.io[0x07],
        v.io[0x05],
        v.io[0x06],
    );
    let io1 = if run.new_div is Some {
        v.io.update(0x04, run.new_div->0)
    } else {
        v.io
    };
    let io2 = if run.tima_changed {
        io1.update(0x05, run.tima)
    } else {
        io1
    };
    let io3 = if run.irq {
        io2.update(0x0F, (io2[0x0F] | 0x04) as u8)
    } else {
        io2
    };
    m1.view() == (MmuView {
        timer: Timer { internal_counter: run.counter, last_tac: v.io[0x07] },
        io: io3,
        ..v
    }) && m1.apu == m0.apu
}

/// The effect of forwarding `cycles` elapsed T-cycles to the audio unit: its
/// core state folds by `spec_run` and the emitted samples are appended to
/// the two buffers; nothing else of the bus moves.
pub open spec fn spec_tick_apu_rel(m0: Mmu, m1: Mmu, cycles: u8) -> bool {
    let emitted = m0.apu.spec_core().spec_run(cycles as nat).1;
    m1 == (Mmu { apu: m1.apu, ..m0 }) && m1.apu.spec_core() == m0.apu.spec_core().spec_run(
        cycles as nat,
    ).0 && m1.apu.sample_buffer_l@ == m0.apu.sample_buffer_l@ + emitted.map_values(
        |s: (i16, i16)| s.0,
    ) && m1.apu.sample_buffer_r@ == m0.apu.sample_buffer_r@ + emitted.map_values(
        |s: (i16, i16)| s.1,
    )
}

impl Mmu {
    /// The bus state as mathematical values.
    pub open spec fn view(self) -> MmuView {
        MmuView {
            rom: self.rom@,
            vram: self.vram@,
            eram: self.eram@,
            wram: self.wram@,
            oam: self.oam@,
            hram: self.hram@,
            io: self.io@,
            ie: self.ie,
            joypad: self.joypad,
            cartridge_type: self.cartridge_type,
            rom_bank: self.rom_bank,
            ram_bank: self.ram_bank,
            ram_enabled: self.ram_enabled,
            banking_mode: self.banking_mode,
            timer: self.timer,
            mbc3_rtc_sel: self.mbc3_rtc_sel,
        }
    }

    /// Region sizes and peripheral invariants that construction establishes
    /// and every method preserves.
    pub open spec fn wf(self) -> bool {
        self.vram@.len() == 0x2000 && self.wram@.len() == 0x2000 && self.oam@.len() == 0xA0
            && self.hram@.len() == 0x7F && self.io@.len() == 0x80 && self.eram@.len() <= 0x20000
            && self.joypad.wf() && self.apu.wf()
    }

    /// The value a load of `addr` returns in the current state.
    pub open spec fn spec_read(self, addr: u16) -> u8 {
        spec_read8(self.view(), self.apu.spec_nr52(), addr)
    }

    /// A load from the bus.
    pub fn read8(&self, addr: u16) -> (r: u8)
        requires
            self.wf(),
        ensures
            r == self.spec_read(addr),
    {
        if addr < 0x4000 {
            let i = addr as usize;
            if i < self.rom.len() {
                self.rom[i]
            } else {
                0xFF
            }
        } else if addr < 0x8000 {
            let bank_addr = (self.rom_bank as usize) * 0x4000 + ((addr - 0x4000) as usize);
            if bank_addr < self.rom.len() {
                self.rom[bank_addr]
            } else {
                0xFF
            }
        } else if addr < 0xA000 {
            self.vram[(addr - 0x8000) as usize]
        } else if addr < 0xC000 {
            if self.mbc3_rtc_sel.is_some() {
                return 0xFF;
            }
            if !self.ram_enabled || self.eram.len() == 0 {
                return 0xFF;
            }
            let offset = (self.ram_bank as usize) * 0x2000 + ((addr - 0xA000) as usize);
            if offset < self.eram.len() {
                self.eram[offset]
            } else {
                0xFF
            }
        } else if addr < 0xE000 {
            self.wram[(addr - 0xC000) as usize]
        } else if addr < 0xFE00 {
            self.wram[((addr - 0xE000) as usize) % 0x2000]
        } else if addr < 0xFEA0 {
            self.oam[(addr - 0xFE00) as usize]
        } else if addr == 0xFF00 {
            self.joypad.read()
        } else if addr == 0xFF0F {
            self.io[0x0F] | 0xE0
        } else if addr == 0xFF26 {
            self.apu.read_nr52()
        } else if 0xFF80 <= addr && addr <= 0xFFFE {
            self.hram[(addr - 0xFF80) as usize]
        } else if 0xFF00 <= addr && addr <= 0xFF7F {
            self.io[(addr - 0xFF00) as usize]
        } else if addr == 0xFFFF {
            self.ie
        } else {
            0xFF
        }
    }

    /// The OAM DMA: latch the source register, then copy 0xA0 bytes from
    /// (value << 8) into OAM.
    fn dma_copy(&mut self, value: u8)
        requires
            old(self).wf(),
        ensures
            final(self).view() == spec_dma(old(self).view(), old(self).apu.spec_nr52(), value),
            final(self).apu == old(self).apu,
            final(self).wf(),
    {
        self.io.set(0x46, value);
        let ghost v1 = MmuView { io: old(self).view().io.update(0x46, value), ..old(self).view() };
        proof {
            assert(self.view() == v1);
        }
        let source = (value as u16) << 8;
        proof {
            assert((value as u16) << 8 <= 0xFF00) by (bit_vector);
        }
        let mut buf: Vec<u8> = Vec::new();
        let mut i: u16 = 0;
        while i < 0xA0
            invariant
                i <= 0xA0,
                *self == (Mmu { io: self.io, ..*old(self) }),
                self.view() == v1,
                self.wf(),
                source == (value as u16) << 8,
                source <= 0xFF00,
                buf@ == Seq::new(
                    i as nat,
                    |j: int| spec_read8(v1, old(self).apu.spec_nr52(), (source + j) as u16),
                ),
            decreases 0xA0 - i,
        {
            let byte = self.read8(source + i);
            buf.push(byte);
            proof {
                assert(buf@ =~= Seq::new(
                    (i + 1) as nat,
                    |j: int| spec_read8(v1, old(self).apu.spec_nr52(), (source + j) as u16),
                ));
            }
            i = i + 1;
        }
        let mut k: usize = 0;
        while k < 0xA0
            invariant
                k <= 0xA0,
                *self == (Mmu { io: self.io, oam: self.oam, ..*old(self) }),
                self.io@ == v1.io,
                self.wf(),
                buf@.len() == 0xA0,
                forall|j: int|
                    0 <= j < k ==> self.oam@[j] == buf@[j],
                forall|j: int|
                    k <= j < 0xA0 ==> self.oam@[j] == old(self).oam@[j],
            decreases 0xA0 - k,
        {
            let b = buf[k];
            self.oam.set(k, b);
            k = k + 1;
        }
        proof {
            assert(self.oam@ =~= Seq::new(
                0xA0,
                |j: int| spec_read8(v1, old(self).apu.spec_nr52(), (source + j) as u16),
            ));
            assert(self.view() =~= spec_dma(
                old(self).view(),
                old(self).apu.spec_nr52(),
                value,
            )) by {
                assert(self.view().oam =~= spec_dma(
                    old(self).view(),
                    old(self).apu.spec_nr52(),
                    value,
                ).oam);
            }
        }
    }

    /// A store to the bus: the view changes as `spec_write8` says, and a
    /// store into 0xFF10..=0xFF26 or wave RAM additionally reaches the audio
    /// unit.
    #[verifier::rlimit(100)]
    #[verifier::spinoff_prover]
    pub fn write8(&mut self, addr: u16, value: u8)
        requires
            old(self).wf(),
        ensures
            spec_store_effect(*old(self), *final(self), addr, value),
            final(self).wf(),
    {
        if addr < 0x2000 {
            self.ram_enabled = (value & 0x0F) == 0x0A;
        } else if addr < 0x4000 {
            if self.cartridge_type == 0x00 {
                return ;
            }
            if self.is_mbc3() {
                let mut bank = value & 0x7F;
                if bank == 0 {
                    bank = 1;
                }
                self.rom_bank = bank;
            } else if self.is_mbc1() {
                let mut bank = value & 0x1F;
                if bank == 0 {
                    bank = 1;
                }
                self.rom_bank = (self.rom_bank & 0xE0) | bank;
            }
        } else if addr < 0x6000 {
            if self.cartridge_type == 0x00 {
                return ;
            }
            if self.is_mbc3() {
                if 0x08 <= value && value <= 0x0C {
                    self.mbc3_rtc_sel = Some(value);
                } else {
                    self.mbc3_rtc_sel = None;
                    self.ram_bank = value & 0x03;
                }
            } else if self.is_mbc1() {
                if self.banking_mode == 0 {
                    self.rom_bank = (self.rom_bank & 0x1F) | ((value & 0x03) << 5);
                } else {
                    self.ram_bank = value & 0x03;
                }
            }
        } else if addr < 0x8000 {
            if self.cartridge_type == 0x00 {
                return ;
            }
            if self.is_mbc1() {
                self.banking_mode = value & 0x01;
            }
        } else if addr < 0xA000 {
            self.vram.set((addr - 0x8000) as usize, value);
        } else if addr < 0xC000 {
            if self.mbc3_rtc_sel.is_some() {
                return ;
            }
            if !self.ram_enabled || self.eram.len() == 0 {
                return ;
            }
            let offset = (self.ram_bank as usize) * 0x2000 + ((addr - 0xA000) as usize);
            if offset < self.eram.len() {
                self.eram.set(offset, value);
            }
        } else if addr < 0xE000 {
            self.wram.set((addr - 0xC000) as usize, value);
        } else if addr < 0xFE00 {
            self.wram.set((addr - 0xE000) as usize, value);
        } else if addr < 0xFEA0 {
            self.oam.set((addr - 0xFE00) as usize, value);
        } else if addr == 0xFF00 {
            self.joypad.write(value);
        } else if addr == 0xFF02 {
            if value & 0x80 != 0 {
                self.io.set(0x02, value & 0x7F);
                self.io.set(0x01, 0xFF);
                let i_f = self.io[0x0F];
                self.io.set(0x0F, i_f | 0x08);
                proof {
                    assert(self.view().io =~= old(self).view().io.update(
                        0x02,
                        (value & 0x7F) as u8,
                    ).update(0x01, 0xFFu8).update(0x0F, (old(self).view().io[0x0F] | 0x08) as u8));
                }
            } else {
                self.io.set(0x02, value);
            }
        } else if addr == 0xFF04 {
            let tac = self.io[0x07];
            let old_counter = self.timer.internal_counter;
            self.timer.reset_divider();
            self.io.set(0x04, 0);
            let bit_position: u16 = if tac & 0x03 == 0 {
                9
            } else if tac & 0x03 == 1 {
                3
            } else if tac & 0x03 == 2 {
                5
            } else {
                7
            };
            proof {
                assert(bit_position == sel_bit(tac));
                assert(bit_position < 16);
            }
            if tac & 0x04 != 0 && (old_counter >> bit_position) & 1 == 1 {
                let tima = self.io[0x05];
                if tima == 0xFF {
                    let tma = self.io[0x06];
                    self.io.set(0x05, tma);
                    let i_f = self.io[0x0F];
                    self.io.set(0x0F, i_f | 0x04);
                } else {
                    self.io.set(0x05, tima + 1);
                }
            }
        } else if addr == 0xFF0F {
            let i_f = self.io[0x0F];
            self.io.set(0x0F, (i_f & 0xE0) | (value & 0x1F));
        } else if addr == 0xFF41 {
            let stat = self.io[0x41];
            self.io.set(0x41, (stat & 0x07) | (value & 0x78) | 0x80);
        } else if addr == 0xFF44 {
        } else if addr == 0xFF46 {
            self.dma_copy(value);
        } else if 0xFF10 <= addr && addr <= 0xFF26 {
            self.apu.reg_write(addr, value);
            self.io.set((addr - 0xFF00) as usize, value);
        } else if 0xFF30 <= addr && addr <= 0xFF3F {
            self.apu.write_wave_ram(addr, value);
            self.io.set((addr - 0xFF00) as usize, value);
        } else if 0xFF80 <= addr && addr <= 0xFFFE {
            self.hram.set((addr - 0xFF80) as usize, value);
        } else if 0xFF00 <= addr && addr <= 0xFF7F {
            self.io.set((addr - 0xFF00) as usize, value);
        } else if addr == 0xFFFF {
            self.ie = value & 0x1F;
        }
    }

    /// A 16-bit little-endian load: low byte at `addr`, high byte above it.
    pub fn read16(&self, addr: u16) -> (r: u16)
        requires
            self.wf(),
        ensures
            r == crate::registers::make16(
                self.spec_read(addr.wrapping_add(1)),
                self.spec_read(addr),
            ),
    {
        let lower_byte = self.read8(addr);
        let higher_byte = self.read8(addr.wrapping_add(1));
        ((higher_byte as u16) << 8) | (lower_byte as u16)
    }

    /// A 16-bit little-endian store: low byte at `addr`, high byte above it.
    pub fn write16(&mut self, addr: u16, value: u16)
        requires
            old(self).wf(),
        ensures
            final(self).view() == spec_store16_view(
                old(self).view(),
                old(self).apu.spec_nr52(),
                addr,
                value,
            ),
            !(0xFF10 <= addr <= 0xFF26) && !(0xFF30 <= addr <= 0xFF3F) && !(0xFF10
                <= addr.wrapping_add(1) <= 0xFF26) && !(0xFF30 <= addr.wrapping_add(1) <= 0xFF3F)
                ==> final(self).apu == old(self).apu,
            final(self).wf(),
    {
        let lower_byte = (value & 0x00FF) as u8;
        let higher_byte = (value >> 8) as u8;
        self.write8(addr, lower_byte);
        let ghost mid = *self;
        self.write8(addr.wrapping_add(1), higher_byte);
        proof {
            let n = old(self).apu.spec_nr52();
            let n_mid = mid.apu.spec_nr52();
            let a2 = addr.wrapping_add(1);
            if a2 == 0xFF46 {
                assert(addr == 0xFF45);
                assert(mid.apu == old(self).apu);
            } else {
                crate::cpu::lemma_write8_nr52_insensitive(mid.view(), n_mid, n, a2, higher_byte);
            }
        }
    }

    /// Advances the timer by the elapsed cycles and applies what it reports:
    /// a DIV change, a TIMA change, and the timer interrupt request.
    pub fn tick(&mut self, cycles: u8)
        requires
            old(self).wf(),
        ensures
            spec_tick_rel(*old(self), *final(self), cycles),
            final(self).wf(),
    {
        let tac = self.io[0x07];
        let tima = self.io[0x05];
        let tma = self.io[0x06];
        let update = self.timer.update(cycles, tac, tima, tma);
        match update.new_div {
            Some(div) => {
                self.write_div(div);
            },
            None => {},
        }
        match update.new_tima {
            Some(t) => {
                self.io.set(0x05, t);
            },
            None => {},
        }
        if update.timer_interrupt {
            proof {
                crate::registers::lemma_bit_masks();
            }
            self.request_interrupt(Interrupt::Timer);
        }
    }

    /// Advances the audio unit by the elapsed cycles.
    pub fn tick_apu(&mut self, cycles: u8)
        requires
            old(self).wf(),
        ensures
            spec_tick_apu_rel(*old(self), *final(self), cycles),
            final(self).wf(),
    {
        self.apu.tick(cycles as u32);
    }

    /// Hands the accumulated audio samples out and leaves the buffers empty.
    pub fn get_audio_samples(&mut self) -> (r: (Vec<i16>, Vec<i16>))
        requires
            old(self).wf(),
        ensures
            r.0@ == old(self).apu.sample_buffer_l@,
            r.1@ == old(self).apu.sample_buffer_r@,
            final(self).apu.sample_buffer_l@ == Seq::<i16>::empty(),
            final(self).apu.sample_buffer_r@ == Seq::<i16>::empty(),
            final(self).apu.spec_core() == old(self).apu.spec_core(),
            *final(self) == (Mmu { apu: final(self).apu, ..*old(self) }),
            final(self).wf(),
    {
        self.apu.take_samples()
    }

    /// Sets the interrupt's bit in IF.
    pub fn request_interrupt(&mut self, interrupt: Interrupt)
        requires
            old(self).wf(),
        ensures
            final(self).io@ == old(self).io@.update(
                0x0F,
                (old(self).io@[0x0F] | (1u8 << interrupt.spec_bit())) as u8,
            ),
            *final(self) == (Mmu { io: final(self).io, ..*old(self) }),
            final(self).wf(),
    {
        let i_f = self.io[0x0F];
        self.io.set(0x0F, i_f | (1u8 << interrupt.bit()));
    }

    /// A device-side store to STAT, used by the pixel unit alone: unlike a
    /// CPU store through the bus, it replaces the whole byte, so the mode and
    /// comparison bits the device owns actually land.
    pub fn write_stat(&mut self, value: u8)
        requires
            old(self).wf(),
        ensures
            final(self).io@ == old(self).io@.update(0x41, value),
            *final(self) == (Mmu { io: final(self).io, ..*old(self) }),
            final(self).wf(),
    {
        self.io.set(0x41, value);
    }

    /// A store to LY, used by the pixel unit alone.
    pub fn write_ly(&mut self, value: u8)
        requires
            old(self).wf(),
        ensures
            final(self).io@ == old(self).io@.update(0x44, value),
            *final(self) == (Mmu { io: final(self).io, ..*old(self) }),
            final(self).wf(),
    {
        self.io.set(0x44, value);
    }

    /// A store to DIV's I/O byte, used by the timer plumbing alone.
    pub fn write_div(&mut self, value: u8)
        requires
            old(self).wf(),
        ensures
            final(self).io@ == old(self).io@.update(0x04, value),
            *final(self) == (Mmu { io: final(self).io, ..*old(self) }),
            final(self).wf(),
    {
        self.io.set(0x04, value);
    }

    /// A key went down: its bit clears, and the joypad interrupt is requested
    /// exactly when the key was released before.
    pub fn key_down(&mut self, key: Key)
        requires
            old(self).wf(),
        ensures
            final(self).joypad.nibble_of(key) == old(self).joypad.nibble_of(key) & !(
            1u8 << key.spec_bit()),
            final(self).joypad.is_pressed(key),
            final(self).view().io == if old(self).joypad.press_edge(key) {
                old(self).view().io.update(0x0F, (old(self).view().io[0x0F] | 0x10) as u8)
            } else {
                old(self).view().io
            },
            *final(self) == (Mmu { joypad: final(self).joypad, io: final(self).io, ..*old(self) }),
            final(self).wf(),
    {
        if self.joypad.press(key) {
            proof {
                crate::registers::lemma_bit_masks();
            }
            self.request_interrupt(Interrupt::Joypad);
        }
    }

    /// A key went up: its bit sets; no interrupt is ever requested here.
    pub fn key_up(&mut self, key: Key)
        requires
            old(self).wf(),
        ensures
            final(self).joypad.nibble_of(key) == old(self).joypad.nibble_of(key) | (1u8
                << key.spec_bit()),
            !final(self).joypad.is_pressed(key),
            *final(self) == (Mmu { joypad: final(self).joypad, ..*old(self) }),
            final(self).wf(),
    {
        self.joypad.release(key);
    }

    fn is_mbc1(&self) -> (r: bool)
        ensures
            r == spec_is_mbc1(self.cartridge_type),
    {
        self.cartridge_type == 0x01 || self.cartridge_type == 0x02 || self.cartridge_type == 0x03
    }

    fn is_mbc3(&self) -> (r: bool)
        ensures
            r == spec_is_mbc3(self.cartridge_type),
    {
        self.cartridge_type == 0x0F || self.cartridge_type == 0x10 || self.cartridge_type == 0x11
            || self.cartridge_type == 0x12 || self.cartridge_type == 0x13
    }

    /// The external RAM size selected by header byte 0x0149.
    fn ram_size_from_header(value: u8) -> (r: usize)
        ensures
            r == spec_ram_size(value),
    {
        if value == 0x01 {
            2 * 1024
        } else if value == 0x02 {
            8 * 1024
        } else if value == 0x03 {
            32 * 1024
        } else if value == 0x04 {
            128 * 1024
        } else if value == 0x05 {
            64 * 1024
        } else {
            0
        }
    }

    /// A region of `n` bytes, all holding `value`.
    fn filled(value: u8, n: usize) -> (r: Vec<u8>)
        ensures
            r@ == Seq::new(n as nat, |i: int| value),
    {
        let mut v: Vec<u8> = Vec::new();
        let mut i: usize = 0;
        while i < n
            invariant
                i <= n,
                v@ == Seq::new(i as nat, |j: int| value),
            decreases n - i,
        {
            v.push(value);
            proof {
                assert(v@ =~= Seq::new((i + 1) as nat, |j: int| value));
            }
            i = i + 1;
        }
        v
    }

    /// A fresh bus over the given cartridge bytes: the cartridge type and RAM
    /// size come from the header, bank 1 is selected, RAM is disabled, the
    /// I/O array starts at 0xFF and everything else at zero.
    pub fn new(rom: Vec<u8>, apu: Apu, timer: Timer) -> (r: Mmu)
        requires
            apu.wf(),
        ensures
            r.rom@ == rom@,
            r.cartridge_type == (if rom@.len() > 0x0147 {
                rom@[0x0147]
            } else {
                0u8
            }),
            r.eram@.len() == spec_ram_size(
                if rom@.len() > 0x0149 {
                    rom@[0x0149]
                } else {
                    0u8
                },
            ),
            r.vram@ == Seq::new(0x2000, |i: int| 0u8),
            r.wram@ == Seq::new(0x2000, |i: int| 0u8),
            r.oam@ == Seq::new(0xA0, |i: int| 0u8),
            r.hram@ == Seq::new(0x7F, |i: int| 0u8),
            r.io@ == Seq::new(0x80, |i: int| 0xFFu8),
            r.eram@ == Seq::new(r.eram@.len(), |i: int| 0u8),
            r.ie == 0,
            r.joypad == (Joypad {
                select_buttons: false,
                select_directions: false,
                buttons: 0x0F,
                directions: 0x0F,
            }),
            r.rom_bank == 1,
            r.ram_bank == 0,
            !r.ram_enabled,
            r.banking_mode == 0,
            r.timer == timer,
            r.apu == apu,
            (r.mbc3_rtc_sel is None),
            r.wf(),
    {
        let cartridge_type = if rom.len() > 0x0147 {
            rom[0x0147]
        } else {
            0
        };
        let ram_code = if rom.len() > 0x0149 {
            rom[0x0149]
        } else {
            0
        };
        let ram_size = Self::ram_size_from_header(ram_code);
        Mmu {
            rom,
            vram: Self::filled(0, 0x2000),
            eram: Self::filled(0, ram_size),
            wram: Self::filled(0, 0x2000),
            oam: Self::filled(0, 0xA0),
            hram: Self::filled(0, 0x7F),
            io: Self::filled(0xFF, 0x80),
            ie: 0,
            joypad: Joypad::new(),
            cartridge_type,
            rom_bank: 1,
            ram_bank: 0,
            ram_enabled: false,
            banking_mode: 0,
            timer,
            apu,
            mbc3_rtc_sel: None,
        }
    }
}

} // verus!
