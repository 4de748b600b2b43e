//! Audio unit: an 8192-cycle frame sequencer clocking the four channels'
//! length, envelope and sweep units, and a stereo mixer that emits one sample
//! pair per 95 CPU cycles (4194304 / 44100, rounded down).
//!
//! Samples are plain integers in 1/420ths of full scale: each channel
//! contributes up to +-60, four channels sum to +-240, and the 0..=7 master
//! volume multiplies that, clamped to +-420. The host divides by 420 to get
//! the usual [-1, 1] range.

use crate::noise_channel::NoiseChannel;
use crate::square_channel_1::SquareChannel1;
use crate::square_channel_2::SquareChannel2;
use crate::wave_channel::WaveChannel;
use vstd::prelude::*;

verus! {

/// Host sample rate in Hz.
pub const SAMPLE_RATE: u32 = 44100;

/// CPU clock in Hz.
pub const CPU_FREQ: u32 = 4194304;

/// CPU cycles per emitted sample pair.
pub const SAMPLE_PERIOD: u32 = CPU_FREQ / SAMPLE_RATE;

/// Full scale of an emitted sample: values are clamped to this magnitude and
/// mean that fraction of full amplitude.
pub const SAMPLE_SCALE: i16 = 420;

/// Everything of the audio unit except the two outgoing sample buffers; the
/// per-cycle transition is a pure function on this state.
pub struct ApuCore {
    pub enabled: bool,
    pub cycles: u32,
    pub frame_step: u8,
    pub frame_counter: u32,
    pub ch1: SquareChannel1,
    pub ch2: SquareChannel2,
    pub ch3: WaveChannel,
    pub ch4: NoiseChannel,
    pub left_volume: u8,
    pub right_volume: u8,
    pub ch1_left: bool,
    pub ch1_right: bool,
    pub ch2_left: bool,
    pub ch2_right: bool,
    pub ch3_left: bool,
    pub ch3_right: bool,
    pub ch4_left: bool,
    pub ch4_right: bool,
    pub sample_timer: u32,
}

/// Clamp to full scale.
pub open spec fn spec_clamp(v: int) -> i16 {
    if v < -420 {
        -420i16
    } else if v > 420 {
        420i16
    } else {
        v as i16
    }
}

impl ApuCore {
    /// Field ranges preserved by every transition.
    pub open spec fn wf(self) -> bool {
        self.ch1.wf() && self.ch2.wf() && self.ch3.wf() && self.ch4.wf() && self.frame_counter
            < 8192 && self.frame_step <= 7 && self.sample_timer < 95 && self.left_volume <= 7
            && self.right_volume <= 7
    }

    /// What the frame sequencer clocks at `frame_step`: lengths on steps 0,
    /// 2, 4 and 6; the sweep on step 2; the envelopes on step 7.
    pub open spec fn spec_frame_clock(self) -> ApuCore {
        if self.frame_step == 2 {
            ApuCore {
                ch1: self.ch1.spec_clock_length().spec_clock_sweep(),
                ch2: self.ch2.spec_clock_length(),
                ch3: self.ch3.spec_clock_length(),
                ch4: self.ch4.spec_clock_length(),
                ..self
            }
        } else if self.frame_step == 0 || self.frame_step == 4 || self.frame_step == 6 {
            ApuCore {
                ch1: self.ch1.spec_clock_length(),
                ch2: self.ch2.spec_clock_length(),
                ch3: self.ch3.spec_clock_length(),
                ch4: self.ch4.spec_clock_length(),
                ..self
            }
        } else if self.frame_step == 7 {
            ApuCore {
                ch1: self.ch1.spec_clock_envelope(),
                ch2: self.ch2.spec_clock_envelope(),
                ch4: self.ch4.spec_clock_envelope(),
                ..self
            }
        } else {
            self
        }
    }

    /// The raw stereo mix: each enabled channel's digital sample routed by
    /// the NR51 panning bits, summed per side and scaled by the NR50 master
    /// volume. Units are 1/420ths of full scale, before clamping.
    pub open spec fn spec_mix(self) -> (int, int) {
        if !self.enabled {
            (0, 0)
        } else {
            let s1 = self.ch1.spec_sample() as int;
            let s2 = self.ch2.spec_sample() as int;
            let s3 = self.ch3.spec_sample() as int;
            let s4 = self.ch4.spec_sample() as int;
            let left = (if self.ch1_left {
                s1
            } else {
                0
            }) + (if self.ch2_left {
                s2
            } else {
                0
            }) + (if self.ch3_left {
                s3
            } else {
                0
            }) + (if self.ch4_left {
                s4
            } else {
                0
            });
            let right = (if self.ch1_right {
                s1
            } else {
                0
            }) + (if self.ch2_right {
                s2
            } else {
                0
            }) + (if self.ch3_right {
                s3
            } else {
                0
            }) + (if self.ch4_right {
                s4
            } else {
                0
            });
            (left * self.left_volume, right * self.right_volume)
        }
    }

    /// The cycle count and frame sequencer part of one T-cycle: the frame
    /// counter wraps at 8192 and then clocks the sequencer.
    pub open spec fn spec_frame_advance(self) -> ApuCore {
        let c0 = ApuCore { cycles: self.cycles.wrapping_add(1), ..self };
        if c0.frame_counter + 1 >= 8192 {
            (ApuCore {
                frame_counter: 0,
                frame_step: ((c0.frame_step + 1) as u8) & 7,
                ..c0
            }).spec_frame_clock()
        } else {
            ApuCore { frame_counter: (c0.frame_counter + 1) as u32, ..c0 }
        }
    }

    /// One T-cycle of every channel's own timer.
    pub open spec fn spec_tick_channels(self) -> ApuCore {
        ApuCore {
            ch1: self.ch1.spec_tick(),
            ch2: self.ch2.spec_tick(),
            ch3: self.ch3.spec_tick(),
            ch4: self.ch4.spec_tick(),
            ..self
        }
    }

    /// One T-cycle of the audio unit: while enabled, the frame counter wraps
    /// at 8192 and clocks the sequencer, every channel ticks, and each 95th
    /// cycle emits one clamped stereo sample.
    pub open spec fn spec_cycle(self) -> (ApuCore, Option<(i16, i16)>) {
        if !self.enabled {
            (self, None)
        } else {
            let c2 = self.spec_frame_advance().spec_tick_channels();
            if c2.sample_timer + 1 >= 95 {
                let m = c2.spec_mix();
                (
                    ApuCore { sample_timer: (c2.sample_timer + 1 - 95) as u32, ..c2 },
                    Some((spec_clamp(m.0), spec_clamp(m.1))),
                )
            } else {
                (ApuCore { sample_timer: (c2.sample_timer + 1) as u32, ..c2 }, None)
            }
        }
    }

    /// `n` T-cycles: the final state and the emitted sample pairs in order.
    pub open spec fn spec_run(self, n: nat) -> (ApuCore, Seq<(i16, i16)>)
        decreases n,
    {
        if n == 0 {
            (self, Seq::empty())
        } else {
            let (c1, e) = self.spec_cycle();
            let (c2, rest) = c1.spec_run((n - 1) as nat);
            (
                c2,
                match e {
                    Some(s) => seq![s] + rest,
                    None => rest,
                },
            )
        }
    }
}

/// The audio unit: the core state plus the two buffers of emitted samples,
/// drained by the host.
pub struct Apu {
    pub enabled: bool,
    pub cycles: u32,
    pub frame_step: u8,
    pub frame_counter: u32,
    pub ch1: SquareChannel1,
    pub ch2: SquareChannel2,
    pub ch3: WaveChannel,
    pub ch4: NoiseChannel,
    pub left_volume: u8,
    pub right_volume: u8,
    pub ch1_left: bool,
    pub ch1_right: bool,
    pub ch2_left: bool,
    pub ch2_right: bool,
    pub ch3_left: bool,
    pub ch3_right: bool,
    pub ch4_left: bool,
    pub ch4_right: bool,
    pub sample_timer: u32,
    pub sample_buffer_l: Vec<i16>,
    pub sample_buffer_r: Vec<i16>,
}

impl Apu {
    /// The pure transition state of this unit.
    pub open spec fn spec_core(self) -> ApuCore {
        ApuCore {
            enabled: self.enabled,
            cycles: self.cycles,
            frame_step: self.frame_step,
            frame_counter: self.frame_counter,
            ch1: self.ch1,
            ch2: self.ch2,
            ch3: self.ch3,
            ch4: self.ch4,
            left_volume: self.left_volume,
            right_volume: self.right_volume,
            ch1_left: self.ch1_left,
            ch1_right: self.ch1_right,
            ch2_left: self.ch2_left,
            ch2_right: self.ch2_right,
            ch3_left: self.ch3_left,
            ch3_right: self.ch3_right,
            ch4_left: self.ch4_left,
            ch4_right: self.ch4_right,
            sample_timer: self.sample_timer,
        }
    }

    pub open spec fn wf(self) -> bool {
        self.spec_core().wf()
    }


    /// NR52's read value: unit enable in bit 7, channel enables in bits 3..0.
    pub open spec fn spec_nr52(self) -> u8 {
        (if self.enabled {
            0x80u8
        } else {
            0u8
        }) | (if self.ch4.enabled {
            0x08u8
        } else {
            0u8
        }) | (if self.ch3.enabled {
            0x04u8
        } else {
            0u8
        }) | (if self.ch2.enabled {
            0x02u8
        } else {
            0u8
        }) | (if self.ch1.enabled {
            0x01u8
        } else {
            0u8
        })
    }

    /// NR50 effect: the two master volume latches.
    pub open spec fn spec_write_nr50(self, value: u8) -> Apu {
        Apu { left_volume: (value >> 4) & 0x07, right_volume: value & 0x07, ..self }
    }

    /// NR51 effect: the eight panning latches.
    pub open spec fn spec_write_nr51(self, value: u8) -> Apu {
        Apu {
            ch1_left: value & 0x10 != 0,
            ch1_right: value & 0x01 != 0,
            ch2_left: value & 0x20 != 0,
            ch2_right: value & 0x02 != 0,
            ch3_left: value & 0x40 != 0,
            ch3_right: value & 0x04 != 0,
            ch4_left: value & 0x80 != 0,
            ch4_right: value & 0x08 != 0,
            ..self
        }
    }

    /// NR52 effect: bit 7 switches the unit; switching it off disables all
    /// four channels.
    pub open spec fn spec_write_nr52(self, value: u8) -> Apu {
        if value & 0x80 != 0 {
            Apu { enabled: true, ..self }
        } else {
            Apu {
                enabled: false,
                ch1: SquareChannel1 { enabled: false, ..self.ch1 },
                ch2: SquareChannel2 { enabled: false, ..self.ch2 },
                ch3: WaveChannel { enabled: false, ..self.ch3 },
                ch4: NoiseChannel { enabled: false, ..self.ch4 },
                ..self
            }
        }
    }

    /// The effect of a store to an audio register (0xFF10..=0xFF26, wave RAM
    /// excluded): channel registers route to their channel, NR50..NR52 to the
    /// mixer latches; unused addresses in the range change nothing.
    pub open spec fn spec_reg_write(self, addr: u16, value: u8) -> Apu {
        if addr == 0xFF10 {
            Apu { ch1: self.ch1.spec_write_sweep(value), ..self }
        } else if addr == 0xFF11 {
            Apu { ch1: self.ch1.spec_write_duty_length(value), ..self }
        } else if addr == 0xFF12 {
            Apu { ch1: self.ch1.spec_write_envelope(value), ..self }
        } else if addr == 0xFF13 {
            Apu { ch1: self.ch1.spec_write_freq_low(value), ..self }
        } else if addr == 0xFF14 {
            Apu { ch1: self.ch1.spec_write_freq_high(value), ..self }
        } else if addr == 0xFF16 {
            Apu { ch2: self.ch2.spec_write_duty_length(value), ..self }
        } else if addr == 0xFF17 {
            Apu { ch2: self.ch2.spec_write_envelope(value), ..self }
        } else if addr == 0xFF18 {
            Apu { ch2: self.ch2.spec_write_freq_low(value), ..self }
        } else if addr == 0xFF19 {
            Apu { ch2: self.ch2.spec_write_freq_high(value), ..self }
        } else if addr == 0xFF1A {
            Apu { ch3: self.ch3.spec_write_nr30(value), ..self }
        } else if addr == 0xFF1B {
            Apu { ch3: self.ch3.spec_write_nr31(value as u16), ..self }
        } else if addr == 0xFF1C {
            Apu { ch3: self.ch3.spec_write_nr32(value), ..self }
        } else if addr == 0xFF1D {
            Apu { ch3: self.ch3.spec_write_freq_low(value), ..self }
        } else if addr == 0xFF1E {
            Apu { ch3: self.ch3.spec_write_freq_high(value), ..self }
        } else if addr == 0xFF20 {
            Apu { ch4: self.ch4.spec_write_nr41(value), ..self }
        } else if addr == 0xFF21 {
            Apu { ch4: self.ch4.spec_write_nr42(value), ..self }
        } else if addr == 0xFF22 {
            Apu { ch4: self.ch4.spec_write_nr43(value), ..self }
        } else if addr == 0xFF23 {
            if value & 0x80 != 0 {
                Apu { ch4: self.ch4.spec_write_nr44(value).spec_trigger(), ..self }
            } else {
                Apu { ch4: self.ch4.spec_write_nr44(value), ..self }
            }
        } else if addr == 0xFF24 {
            self.spec_write_nr50(value)
        } else if addr == 0xFF25 {
            self.spec_write_nr51(value)
        } else if addr == 0xFF26 {
            self.spec_write_nr52(value)
        } else {
            self
        }
    }

    /// Power-on state: unit enabled, both sides at full volume, every channel
    /// routed to both sides, channels at their power-on state, buffers empty.
    pub fn new() -> (r: Apu)
        ensures
            r.wf(),
            r.enabled,
            r.cycles == 0,
            r.frame_step == 0,
            r.frame_counter == 0,
            !r.ch1.enabled && !r.ch1.dac_enabled && r.ch1.volume == 0,
            !r.ch2.enabled && !r.ch2.dac_enabled && r.ch2.volume == 0,
            !r.ch3.enabled && !r.ch3.dac_enabled && r.ch3.volume_code == 0,
            !r.ch4.enabled && r.ch4.volume == 0 && r.ch4.lfsr == 0,
            r.left_volume == 7,
            r.right_volume == 7,
            r.ch1_left && r.ch1_right && r.ch2_left && r.ch2_right && r.ch3_left && r.ch3_right
                && r.ch4_left && r.ch4_right,
            r.sample_timer == 0,
            r.sample_buffer_l@ == Seq::<i16>::empty(),
            r.sample_buffer_r@ == Seq::<i16>::empty(),
    {
        Apu {
            enabled: true,
            cycles: 0,
            frame_step: 0,
            frame_counter: 0,
            ch1: SquareChannel1::default(),
            ch2: SquareChannel2::default(),
            ch3: WaveChannel::default(),
            ch4: NoiseChannel::default(),
            left_volume: 7,
            right_volume: 7,
            ch1_left: true,
            ch1_right: true,
            ch2_left: true,
            ch2_right: true,
            ch3_left: true,
            ch3_right: true,
            ch4_left: true,
            ch4_right: true,
            sample_timer: 0,
            sample_buffer_l: Vec::new(),
            sample_buffer_r: Vec::new(),
        }
    }

    /// NR50: master volume, left in bits 6..4 and right in bits 2..0.
    pub fn write_nr50(&mut self, value: u8)
        ensures
            *final(self) == old(self).spec_write_nr50(value),
            old(self).wf() ==> final(self).wf(),
    {
        proof {
            crate::registers::lemma_u8_bits(value);
        }
        self.left_volume = (value >> 4) & 0x07;
        self.right_volume = value & 0x07;
    }

    /// NR51: panning, one bit per channel and side.
    pub fn write_nr51(&mut self, value: u8)
        ensures
            *final(self) == old(self).spec_write_nr51(value),
            old(self).wf() ==> final(self).wf(),
    {
        self.ch1_left = value & 0x10 != 0;
        self.ch1_right = value & 0x01 != 0;
        self.ch2_left = value & 0x20 != 0;
        self.ch2_right = value & 0x02 != 0;
        self.ch3_left = value & 0x40 != 0;
        self.ch3_right = value & 0x04 != 0;
        self.ch4_left = value & 0x80 != 0;
        self.ch4_right = value & 0x08 != 0;
    }

    /// NR52 write: bit 7 switches the whole unit; clearing it disables all
    /// four channels.
    pub fn write_nr52(&mut self, value: u8)
        ensures
            *final(self) == old(self).spec_write_nr52(value),
            final(self).enabled == (value & 0x80 != 0),
            old(self).wf() ==> final(self).wf(),
    {
        self.enabled = value & 0x80 != 0;
        if !self.enabled {
            self.reset();
        }
    }

    /// NR52 read: bit 7 is the unit enable, bits 3..0 reflect each channel's
    /// enabled state, the rest read as zero here.
    pub fn read_nr52(&self) -> (r: u8)
        ensures
            r == self.spec_nr52(),
    {
        (if self.enabled {
            0x80u8
        } else {
            0u8
        }) | (if self.ch4.enabled {
            0x08u8
        } else {
            0u8
        }) | (if self.ch3.enabled {
            0x04u8
        } else {
            0u8
        }) | (if self.ch2.enabled {
            0x02u8
        } else {
            0u8
        }) | (if self.ch1.enabled {
            0x01u8
        } else {
            0u8
        })
    }


    /// A store to an audio register (0xFF10..=0xFF26), exactly
    /// `spec_reg_write`. Wave RAM stores go through `write_wave_ram`.
    #[verifier::rlimit(100)]
    #[verifier::spinoff_prover]
    pub fn reg_write(&mut self, addr: u16, value: u8)
        requires
            old(self).wf(),
        ensures
            *final(self) == old(self).spec_reg_write(addr, value),
            final(self).wf(),
    {
        if addr == 0xFF10 {
            self.ch1.write_sweep(value);
        } else if addr == 0xFF11 {
            self.ch1.write_duty_length(value);
        } else if addr == 0xFF12 {
            self.ch1.write_envelope(value);
        } else if addr == 0xFF13 {
            self.ch1.write_freq_low(value);
        } else if addr == 0xFF14 {
            self.ch1.write_freq_high(value);
        } else if addr == 0xFF16 {
            self.ch2.write_duty_length(value);
        } else if addr == 0xFF17 {
            self.ch2.write_envelope(value);
        } else if addr == 0xFF18 {
            self.ch2.write_freq_low(value);
        } else if addr == 0xFF19 {
            self.ch2.write_freq_high(value);
        } else if addr == 0xFF1A {
            self.ch3.write_nr30(value);
        } else if addr == 0xFF1B {
            self.ch3.write_nr31(value as u16);
        } else if addr == 0xFF1C {
            self.ch3.write_nr32(value);
        } else if addr == 0xFF1D {
            self.ch3.write_freq_low(value);
        } else if addr == 0xFF1E {
            self.ch3.write_freq_high(value);
        } else if addr == 0xFF20 {
            self.ch4.write_nr41(value);
        } else if addr == 0xFF21 {
            self.ch4.write_nr42(value);
        } else if addr == 0xFF22 {
            self.ch4.write_nr43(value);
        } else if addr == 0xFF23 {
            self.ch4.write_nr44(value);
            if value & 0x80 != 0 {
                self.ch4.trigger();
            }
        } else if addr == 0xFF24 {
            self.write_nr50(value);
        } else if addr == 0xFF25 {
            self.write_nr51(value);
        } else if addr == 0xFF26 {
            self.write_nr52(value);
        }
    }

    /// A store to wave RAM (0xFF30..=0xFF3F).
    pub fn write_wave_ram(&mut self, addr: u16, value: u8)
        requires
            old(self).wf(),
        ensures
            final(self).ch3.wave_ram@ == old(self).ch3.wave_ram@.update(
                (addr & 0x0F) as int,
                value,
            ),
            *final(self) == (Apu {
                ch3: WaveChannel { wave_ram: final(self).ch3.wave_ram, ..old(self).ch3 },
                ..*old(self)
            }),
            final(self).wf(),
    {
        self.ch3.write_wave_ram(addr, value);
    }

    /// Disables the four channels (the unit was switched off).
    fn reset(&mut self)
        ensures
            *final(self) == (Apu {
                ch1: SquareChannel1 { enabled: false, ..old(self).ch1 },
                ch2: SquareChannel2 { enabled: false, ..old(self).ch2 },
                ch3: WaveChannel { enabled: false, ..old(self).ch3 },
                ch4: NoiseChannel { enabled: false, ..old(self).ch4 },
                ..*old(self)
            }),
    {
        self.ch1.enabled = false;
        self.ch2.enabled = false;
        self.ch3.enabled = false;
        self.ch4.enabled = false;
    }

    /// The raw stereo mix of the current channel outputs.
    #[verifier::rlimit(100)]
    #[verifier::spinoff_prover]
    fn mix_stereo(&self) -> (r: (i16, i16))
        requires
            self.wf(),
        ensures
            r.0 as int == self.spec_core().spec_mix().0,
            r.1 as int == self.spec_core().spec_mix().1,
    {
        if !self.enabled {
            return (0, 0);
        }
        let s1 = self.ch1.sample();
        let s2 = self.ch2.sample();
        let s3 = self.ch3.sample();
        let s4 = self.ch4.sample();
        let left: i16 = (if self.ch1_left {
            s1
        } else {
            0
        }) + (if self.ch2_left {
            s2
        } else {
            0
        }) + (if self.ch3_left {
            s3
        } else {
            0
        }) + (if self.ch4_left {
            s4
        } else {
            0
        });
        let right: i16 = (if self.ch1_right {
            s1
        } else {
            0
        }) + (if self.ch2_right {
            s2
        } else {
            0
        }) + (if self.ch3_right {
            s3
        } else {
            0
        }) + (if self.ch4_right {
            s4
        } else {
            0
        });
        proof {
            assert(-240 <= left <= 240 && -240 <= right <= 240);
            assert(self.left_volume <= 7 && self.right_volume <= 7);
            let lv = self.left_volume as int;
            let rv = self.right_volume as int;
            assert(-1680 <= left * lv <= 1680 && -1680 <= right * rv <= 1680) by (nonlinear_arith)
                requires
                    -240 <= left <= 240,
                    -240 <= right <= 240,
                    0 <= lv <= 7,
                    0 <= rv <= 7,
            ;
        }
        (left * (self.left_volume as i16), right * (self.right_volume as i16))
    }

    /// One T-cycle, exactly `ApuCore::spec_cycle`: any emitted sample pair is
    /// appended to the buffers.
    #[verifier::rlimit(100)]
    #[verifier::spinoff_prover]
    fn tick_cycle(&mut self)
        requires
            old(self).wf(),
        ensures
            final(self).spec_core() == old(self).spec_core().spec_cycle().0,
            final(self).wf(),
            ({
                let e = old(self).spec_core().spec_cycle().1;
                match e {
                    Some(s) => final(self).sample_buffer_l@ == old(self).sample_buffer_l@.push(s.0)
                        && final(self).sample_buffer_r@ == old(self).sample_buffer_r@.push(s.1),
                    None => final(self).sample_buffer_l@ == old(self).sample_buffer_l@
                        && final(self).sample_buffer_r@ == old(self).sample_buffer_r@,
                }
            }),
    {
        if !self.enabled {
            return ;
        }
        self.advance_frame();
        self.tick_channels();

        self.sample_timer = self.sample_timer + 1;
        if self.sample_timer >= SAMPLE_PERIOD {
            self.sample_timer = self.sample_timer - SAMPLE_PERIOD;
            let (l, r) = self.mix_stereo();
            let lc: i16 = if l < -420 {
                -420
            } else if l > 420 {
                420
            } else {
                l
            };
            let rc: i16 = if r < -420 {
                -420
            } else if r > 420 {
                420
            } else {
                r
            };
            self.sample_buffer_l.push(lc);
            self.sample_buffer_r.push(rc);
        }
    }

    /// The cycle count and frame sequencer part of one T-cycle.
    #[verifier::rlimit(100)]
    #[verifier::spinoff_prover]
    fn advance_frame(&mut self)
        requires
            old(self).wf(),
        ensures
            final(self).spec_core() == old(self).spec_core().spec_frame_advance(),
            final(self).sample_buffer_l == old(self).sample_buffer_l,
            final(self).sample_buffer_r == old(self).sample_buffer_r,
            final(self).wf(),
    {
        let ghost start = self.spec_core();
        self.cycles = self.cycles.wrapping_add(1);
        let ghost c0 = ApuCore { cycles: start.cycles.wrapping_add(1), ..start };
        proof {
            assert(self.spec_core() == c0);
        }
        self.frame_counter = self.frame_counter + 1;
        if self.frame_counter >= 8192 {
            self.frame_counter = 0;
            self.frame_step = (self.frame_step + 1) & 7;
            proof {
                crate::registers::lemma_u8_bits((old(self).frame_step + 1) as u8);
            }
            self.clock_frame_sequencer();
        }
    }

    /// One T-cycle of every channel's own timer.
    fn tick_channels(&mut self)
        requires
            old(self).wf(),
        ensures
            final(self).spec_core() == old(self).spec_core().spec_tick_channels(),
            final(self).sample_buffer_l == old(self).sample_buffer_l,
            final(self).sample_buffer_r == old(self).sample_buffer_r,
            final(self).wf(),
    {
        self.ch1.tick();
        self.ch2.tick();
        self.ch3.tick();
        self.ch4.tick();
    }

    /// What the frame sequencer clocks at the current step.
    fn clock_frame_sequencer(&mut self)
        requires
            old(self).ch1.wf(),
            old(self).ch2.wf(),
            old(self).ch3.wf(),
            old(self).ch4.wf(),
        ensures
            final(self).spec_core() == old(self).spec_core().spec_frame_clock(),
            final(self).sample_buffer_l == old(self).sample_buffer_l,
            final(self).sample_buffer_r == old(self).sample_buffer_r,
            final(self).ch1.wf() && final(self).ch2.wf() && final(self).ch3.wf()
                && final(self).ch4.wf(),
    {
        if self.frame_step == 2 {
            self.ch1.clock_length();
            self.ch1.clock_sweep();
            self.ch2.clock_length();
            self.ch3.clock_length();
            self.ch4.clock_length();
        } else if self.frame_step == 0 || self.frame_step == 4 || self.frame_step == 6 {
            self.ch1.clock_length();
            self.ch2.clock_length();
            self.ch3.clock_length();
            self.ch4.clock_length();
        } else if self.frame_step == 7 {
            self.ch1.clock_envelope();
            self.ch2.clock_envelope();
            self.ch4.clock_envelope();
        }
    }

    /// Advances the audio unit by `cycles` T-cycles, exactly
    /// `ApuCore::spec_run`: the emitted sample pairs are appended to the two
    /// buffers in order.
    pub fn tick(&mut self, cycles: u32)
        requires
            old(self).wf(),
        ensures
            final(self).spec_core() == old(self).spec_core().spec_run(cycles as nat).0,
            final(self).wf(),
            ({
                let emitted = old(self).spec_core().spec_run(cycles as nat).1;
                final(self).sample_buffer_l@ == old(self).sample_buffer_l@ + emitted.map_values(
                    |s: (i16, i16)| s.0,
                ) && final(self).sample_buffer_r@ == old(self).sample_buffer_r@
                    + emitted.map_values(|s: (i16, i16)| s.1)
            }),
    {
        let ghost run0 = old(self).spec_core().spec_run(cycles as nat);
        let mut i: u32 = 0;
        proof {
            assert(old(self).sample_buffer_l@ =~= old(self).sample_buffer_l@ + Seq::<(
                i16,
                i16,
            )>::empty().map_values(|s: (i16, i16)| s.0));
            assert(old(self).sample_buffer_r@ =~= old(self).sample_buffer_r@ + Seq::<(
                i16,
                i16,
            )>::empty().map_values(|s: (i16, i16)| s.1));
        }
        let ghost mut emitted: Seq<(i16, i16)> = Seq::empty();
        while i < cycles
            invariant
                i <= cycles,
                self.wf(),
                ({
                    let (cf, ef) = self.spec_core().spec_run((cycles - i) as nat);
                    run0.0 == cf && run0.1 == emitted + ef
                }),
                self.sample_buffer_l@ == old(self).sample_buffer_l@ + emitted.map_values(
                    |s: (i16, i16)| s.0,
                ),
                self.sample_buffer_r@ == old(self).sample_buffer_r@ + emitted.map_values(
                    |s: (i16, i16)| s.1,
                ),
            decreases cycles - i,
        {
            let ghost pre = self.spec_core();
            let ghost rem = (cycles - i) as nat;
            self.tick_cycle();
            proof {
                let (c1, e) = pre.spec_cycle();
                let (c2, rest) = c1.spec_run((rem - 1) as nat);
                assert(pre.spec_run(rem).0 == c2);
                assert(pre.spec_run(rem).1 == match e {
                    Some(s) => seq![s] + rest,
                    None => rest,
                });
                match e {
                    Some(s) => {
                        assert(emitted + (seq![s] + rest) =~= (emitted + seq![s]) + rest);
                        assert((emitted + seq![s]).map_values(|t: (i16, i16)| t.0)
                            =~= emitted.map_values(|t: (i16, i16)| t.0).push(s.0));
                        assert((emitted + seq![s]).map_values(|t: (i16, i16)| t.1)
                            =~= emitted.map_values(|t: (i16, i16)| t.1).push(s.1));
                        assert(old(self).sample_buffer_l@ + (emitted + seq![s]).map_values(
                            |t: (i16, i16)| t.0,
                        ) =~= (old(self).sample_buffer_l@ + emitted.map_values(
                            |t: (i16, i16)| t.0,
                        )).push(s.0));
                        assert(old(self).sample_buffer_r@ + (emitted + seq![s]).map_values(
                            |t: (i16, i16)| t.1,
                        ) =~= (old(self).sample_buffer_r@ + emitted.map_values(
                            |t: (i16, i16)| t.1,
                        )).push(s.1));
                        emitted = emitted + seq![s];
                    },
                    None => {},
                }
            }
            i = i + 1;
        }
    }

    /// Hands the accumulated samples to the caller and leaves the buffers
    /// empty.
    pub fn take_samples(&mut self) -> (r: (Vec<i16>, Vec<i16>))
        ensures
            r.0@ == old(self).sample_buffer_l@,
            r.1@ == old(self).sample_buffer_r@,
            final(self).sample_buffer_l@ == Seq::<i16>::empty(),
            final(self).sample_buffer_r@ == Seq::<i16>::empty(),
            final(self).spec_core() == old(self).spec_core(),
            old(self).wf() ==> final(self).wf(),
    {
        let mut out_l: Vec<i16> = Vec::new();
        let mut out_r: Vec<i16> = Vec::new();
        core::mem::swap(&mut out_l, &mut self.sample_buffer_l);
        core::mem::swap(&mut out_r, &mut self.sample_buffer_r);
        (out_l, out_r)
    }
}

} // verus!
