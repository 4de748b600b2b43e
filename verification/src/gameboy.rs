//! The whole machine: CPU, bus and PPU, stepped one instruction at a time.

use crate::apu::Apu;
use crate::cpu::Cpu;
use crate::cpu::spec_step_rel;
use crate::joypad::Joypad;
use crate::joypad::Key;
use crate::mmu::Mmu;
use crate::mmu::spec_ram_size;
use crate::mmu::spec_tick_apu_rel;
use crate::mmu::spec_tick_rel;
use crate::ppu::Ppu;
use crate::ppu::PpuMode;
use crate::ppu::spec_ppu_step_rel;
use crate::registers::Registers;
use crate::timer::Timer;
use vstd::prelude::*;

verus! {

/// One console: the CPU drives the step loop, the bus owns every peripheral,
/// the PPU renders into its own framebuffer.
pub struct GameBoy {
    pub cpu: Cpu,
    pub mmu: Mmu,
    pub ppu: Ppu,
}

impl GameBoy {
    /// The component invariants, preserved by every step.
    pub open spec fn wf(self) -> bool {
        self.cpu.wf() && self.mmu.wf() && self.ppu.wf()
    }

    /// A machine at the post-boot state over the given cartridge bytes: the
    /// CPU at its boot registers, the PPU at line zero in OAM scan over a
    /// white frame, and the bus fresh over the cartridge with bank 1
    /// selected, the I/O bytes at 0xFF and every memory region cleared.
    pub fn new(rom: Vec<u8>) -> (r: GameBoy)
        ensures
            r.cpu.program_counter == 0x0100,
            r.cpu.stack_pointer == 0xFFFE,
            r.cpu.registers == Registers::spec_boot(),
            !r.cpu.ime && !r.cpu.halted && !r.cpu.stopped && !r.cpu.halt_bug
                && !r.cpu.pending_ime,
            r.ppu.scanline == 0,
            r.ppu.dot_counter == 0,
            r.ppu.mode == PpuMode::OamScan,
            !r.ppu.frame_ready,
            r.ppu.bg_color_index@ == Seq::new(160, |i: int| 0u8),
            r.ppu.framebuffer.pixels@ == Seq::new(160 * 144, |i: int| 0xFFFFFFFFu32),
            r.mmu.rom@ == rom@,
            r.mmu.cartridge_type == (if rom@.len() > 0x0147 {
                rom@[0x0147]
            } else {
                0u8
            }),
            r.mmu.eram@.len() == spec_ram_size(
                if rom@.len() > 0x0149 {
                    rom@[0x0149]
                } else {
                    0u8
                },
            ),
            r.mmu.vram@ == Seq::new(0x2000, |i: int| 0u8),
            r.mmu.wram@ == Seq::new(0x2000, |i: int| 0u8),
            r.mmu.oam@ == Seq::new(0xA0, |i: int| 0u8),
            r.mmu.hram@ == Seq::new(0x7F, |i: int| 0u8),
            r.mmu.io@ == Seq::new(0x80, |i: int| 0xFFu8),
            r.mmu.eram@ == Seq::new(r.mmu.eram@.len(), |i: int| 0u8),
            r.mmu.ie == 0,
            r.mmu.joypad == (Joypad {
                select_buttons: false,
                select_directions: false,
                buttons: 0x0F,
                directions: 0x0F,
            }),
            r.mmu.rom_bank == 1,
            r.mmu.ram_bank == 0,
            !r.mmu.ram_enabled,
            r.mmu.banking_mode == 0,
            (r.mmu.mbc3_rtc_sel is None),
            r.mmu.timer == (Timer { internal_counter: 0, last_tac: 0 }),
            r.mmu.apu.enabled,
            r.mmu.apu.frame_step == 0 && r.mmu.apu.frame_counter == 0 && r.mmu.apu.sample_timer
                == 0,
            r.mmu.apu.left_volume == 7 && r.mmu.apu.right_volume == 7,
            r.mmu.apu.sample_buffer_l@ == Seq::<i16>::empty(),
            r.mmu.apu.sample_buffer_r@ == Seq::<i16>::empty(),
            !r.mmu.apu.ch1.enabled && !r.mmu.apu.ch2.enabled && !r.mmu.apu.ch3.enabled
                && !r.mmu.apu.ch4.enabled,
            r.wf(),
    {
        GameBoy { cpu: Cpu::new(), mmu: Mmu::new(rom, Apu::new(), Timer::new()), ppu: Ppu::new() }
    }

    /// One machine step: the CPU runs one logical unit (`spec_step_rel`); the
    /// bus forwards the elapsed cycle count to the timer (`spec_tick_rel`)
    /// and the audio unit (`spec_tick_apu_rel`); and the PPU advances by the
    /// same number of dots (`spec_ppu_step_rel`). Returns whether this step
    /// completed a frame, and leaves the frame flag cleared either way so
    /// each frame is reported exactly once.
    pub fn step(&mut self) -> (frame: bool)
        requires
            old(self).wf(),
        ensures
            exists|cycles: u8, c1: Cpu, m1: Mmu, m2: Mmu, m3: Mmu, p1: Ppu|
                {
                    &&& #[trigger] spec_step_rel(old(self).cpu, old(self).mmu, c1, m1, cycles)
                    &&& 4 <= cycles <= 24
                    &&& #[trigger] spec_tick_rel(m1, m2, cycles)
                    &&& #[trigger] spec_tick_apu_rel(m2, m3, cycles)
                    &&& #[trigger] spec_ppu_step_rel(old(self).ppu, m3, p1, final(self).mmu, cycles as u16)
                    &&& final(self).cpu == c1
                    &&& final(self).ppu == (Ppu { frame_ready: false, ..p1 })
                    &&& frame == p1.frame_ready
                },
            !final(self).ppu.frame_ready,
            final(self).wf(),
    {
        let cycles = self.cpu.step(&mut self.mmu);
        let ghost c1 = self.cpu;
        let ghost m1 = self.mmu;
        self.mmu.tick(cycles);
        let ghost m2 = self.mmu;
        self.mmu.tick_apu(cycles);
        let ghost m3 = self.mmu;
        self.ppu.step(cycles as u16, &mut self.mmu);
        let ghost p1 = self.ppu;
        proof {
            assert(spec_step_rel(old(self).cpu, old(self).mmu, c1, m1, cycles));
            assert(spec_tick_rel(m1, m2, cycles));
            assert(spec_tick_apu_rel(m2, m3, cycles));
            assert(spec_ppu_step_rel(old(self).ppu, m3, p1, self.mmu, cycles as u16));
        }
        if self.ppu.frame_ready {
            self.ppu.frame_ready = false;
            proof {
                assert(self.ppu == (Ppu { frame_ready: false, ..p1 }));
            }
            return true;
        }
        proof {
            assert(self.ppu == (Ppu { frame_ready: false, ..p1 }));
        }
        false
    }

    /// Drains the audio unit's accumulated stereo samples.
    pub fn get_audio_samples(&mut self) -> (r: (Vec<i16>, Vec<i16>))
        requires
            old(self).wf(),
        ensures
            r.0@ == old(self).mmu.apu.sample_buffer_l@,
            r.1@ == old(self).mmu.apu.sample_buffer_r@,
            final(self).mmu.apu.sample_buffer_l@ == Seq::<i16>::empty(),
            final(self).mmu.apu.sample_buffer_r@ == Seq::<i16>::empty(),
            final(self).mmu.apu.spec_core() == old(self).mmu.apu.spec_core(),
            final(self).mmu == (Mmu { apu: final(self).mmu.apu, ..old(self).mmu }),
            *final(self) == (GameBoy { mmu: final(self).mmu, ..*old(self) }),
            final(self).wf(),
    {
        self.mmu.get_audio_samples()
    }

    /// A key went down: its joypad bit clears, and the joypad bit of IF is
    /// raised exactly when the key was released before (a released-to-pressed
    /// edge). Nothing else of the machine moves.
    pub fn key_down(&mut self, key: Key)
        requires
            old(self).wf(),
        ensures
            final(self).mmu.joypad.nibble_of(key) == old(self).mmu.joypad.nibble_of(key) & !(
            1u8 << key.spec_bit()),
            final(self).mmu.joypad.is_pressed(key),
            final(self).mmu.io@ == (if old(self).mmu.joypad.press_edge(key) {
                old(self).mmu.io@.update(0x0F, (old(self).mmu.io@[0x0F] | 0x10) as u8)
            } else {
                old(self).mmu.io@
            }),
            final(self).mmu == (Mmu {
                joypad: final(self).mmu.joypad,
                io: final(self).mmu.io,
                ..old(self).mmu
            }),
            *final(self) == (GameBoy { mmu: final(self).mmu, ..*old(self) }),
            final(self).wf(),
    {
        self.mmu.key_down(key);
    }

    /// A key went up: its joypad bit sets; no interrupt is ever requested
    /// here, and nothing else of the machine moves.
    pub fn key_up(&mut self, key: Key)
        requires
            old(self).wf(),
        ensures
            final(self).mmu.joypad.nibble_of(key) == old(self).mmu.joypad.nibble_of(key) | (1u8
                << key.spec_bit()),
            !final(self).mmu.joypad.is_pressed(key),
            final(self).mmu == (Mmu { joypad: final(self).mmu.joypad, ..old(self).mmu }),
            *final(self) == (GameBoy { mmu: final(self).mmu, ..*old(self) }),
            final(self).wf(),
    {
        self.mmu.key_up(key);
    }
}

} // verus!
