//! Square wave channel with frequency sweep: duty generator, 64-step length
//! counter, volume envelope, and the sweep unit that slides the frequency and
//! can disable the channel on overflow.

use crate::square_channel_2::spec_duty_high;
use crate::square_channel_2::duty_high;
use vstd::prelude::*;

verus! {

/// State of the first square channel.
pub struct SquareChannel1 {
    pub enabled: bool,
    pub length_enable: bool,
    pub dac_enabled: bool,
    pub duty: u8,
    pub duty_step: u8,
    pub frequency: u16,
    pub timer: i16,
    pub length_counter: u8,
    pub volume: u8,
    pub envelope_period: u8,
    pub envelope_timer: u8,
    pub envelope_increase: bool,
    pub sweep_period: u8,
    pub sweep_timer: u8,
    pub sweep_shift: u8,
    pub sweep_decrease: bool,
    pub sweep_shadow_freq: u16,
}

impl SquareChannel1 {
    /// Field ranges that construction establishes and every method preserves.
    pub open spec fn wf(self) -> bool {
        self.frequency <= 2047 && self.duty <= 3 && self.duty_step <= 7 && self.volume <= 15
            && self.envelope_period <= 7 && 0 <= self.timer <= 8192 && self.length_counter <= 64
            && self.sweep_period <= 7 && self.sweep_shift <= 7 && self.sweep_timer <= 8
            && self.sweep_shadow_freq <= 2047
    }

    /// The next sweep frequency: shadow +- (shadow >> shift).
    pub open spec fn spec_sweep_freq(self) -> u16 {
        if self.sweep_decrease {
            (self.sweep_shadow_freq - (self.sweep_shadow_freq >> self.sweep_shift)) as u16
        } else {
            (self.sweep_shadow_freq + (self.sweep_shadow_freq >> self.sweep_shift)) as u16
        }
    }

    /// One overflow calculation: computes the next sweep frequency and
    /// disables the channel when it exceeds 2047; the state is otherwise kept.
    pub open spec fn spec_calculate_sweep(self) -> SquareChannel1 {
        if self.spec_sweep_freq() > 2047 {
            SquareChannel1 { enabled: false, ..self }
        } else {
            self
        }
    }

    /// One T-cycle: while enabled, the frequency timer counts down and on
    /// expiry reloads to (2048 - frequency) * 4 and advances the duty step.
    pub open spec fn spec_tick(self) -> SquareChannel1 {
        if !self.enabled {
            self
        } else {
            let t = (self.timer - 1) as i16;
            if t <= 0 {
                SquareChannel1 {
                    timer: ((2048 - self.frequency) * 4) as i16,
                    duty_step: ((self.duty_step + 1) as u8) & 7,
                    ..self
                }
            } else {
                SquareChannel1 { timer: t, ..self }
            }
        }
    }

    /// One length clock, as for the other square channel.
    pub open spec fn spec_clock_length(self) -> SquareChannel1 {
        if !self.length_enable || self.length_counter == 0 {
            self
        } else {
            let c = (self.length_counter - 1) as u8;
            SquareChannel1 { length_counter: c, enabled: (c != 0 && self.enabled), ..self }
        }
    }

    /// One envelope clock, as for the other square channel.
    pub open spec fn spec_clock_envelope(self) -> SquareChannel1 {
        if self.envelope_period == 0 {
            self
        } else {
            let t = if self.envelope_timer > 0 {
                (self.envelope_timer - 1) as u8
            } else {
                self.envelope_timer
            };
            if t == 0 {
                let v = if self.envelope_increase {
                    if self.volume < 15 {
                        (self.volume + 1) as u8
                    } else {
                        self.volume
                    }
                } else {
                    if self.volume > 0 {
                        (self.volume - 1) as u8
                    } else {
                        self.volume
                    }
                };
                SquareChannel1 { envelope_timer: self.envelope_period, volume: v, ..self }
            } else {
                SquareChannel1 { envelope_timer: t, ..self }
            }
        }
    }

    /// One sweep clock: with a nonzero period, the sweep timer counts down
    /// and on expiry reloads; then, with a nonzero shift, the new frequency is
    /// computed and, if it stayed in range, written to both the frequency and
    /// the shadow register, followed by a second overflow-only calculation.
    pub open spec fn spec_clock_sweep(self) -> SquareChannel1 {
        if self.sweep_period == 0 {
            self
        } else {
            let t = if self.sweep_timer > 0 {
                (self.sweep_timer - 1) as u8
            } else {
                self.sweep_timer
            };
            if t == 0 {
                let s = SquareChannel1 { sweep_timer: self.sweep_period, ..self };
                if s.sweep_shift > 0 {
                    let nf = s.spec_sweep_freq();
                    let s1 = s.spec_calculate_sweep();
                    if nf <= 2047 {
                        let s2 = SquareChannel1 { frequency: nf, sweep_shadow_freq: nf, ..s1 };
                        s2.spec_calculate_sweep()
                    } else {
                        s1
                    }
                } else {
                    s
                }
            } else {
                SquareChannel1 { sweep_timer: t, ..self }
            }
        }
    }

    /// The channel's digital output in sixtieths of full scale.
    pub open spec fn spec_sample(self) -> i16 {
        if !self.enabled || !self.dac_enabled {
            0
        } else if spec_duty_high(self.duty, self.duty_step) {
            (self.volume * 4) as i16
        } else {
            (-(self.volume * 4)) as i16
        }
    }

    /// A trigger (NR14 bit 7) with the DAC on: enables the channel, reloads
    /// the frequency timer, restarts the duty step, reloads a zero length
    /// counter to 64, reloads the envelope timer, copies the frequency into
    /// the sweep shadow register, reloads the sweep timer (using 8 for a zero
    /// period) and, with a nonzero shift, runs an immediate overflow check.
    pub open spec fn spec_trigger(self) -> SquareChannel1 {
        if !self.dac_enabled {
            self
        } else {
            let s = SquareChannel1 {
                enabled: true,
                timer: ((2048 - self.frequency) * 4) as i16,
                duty_step: 0,
                length_counter: if self.length_counter == 0 {
                    64
                } else {
                    self.length_counter
                },
                envelope_timer: self.envelope_period,
                sweep_shadow_freq: self.frequency,
                sweep_timer: if self.sweep_period == 0 {
                    8
                } else {
                    self.sweep_period
                },
                ..self
            };
            if s.sweep_shift > 0 {
                s.spec_calculate_sweep()
            } else {
                s
            }
        }
    }


    /// NR11 effect: duty pattern in bits 7..6, length load in bits 5..0.
    pub open spec fn spec_write_duty_length(self, value: u8) -> SquareChannel1 {
        SquareChannel1 {
            duty: value >> 6,
            length_counter: (64 - (value & 0x3F)) as u8,
            ..self
        }
    }

    /// NR12 effect: volume, direction, period and the DAC gate.
    pub open spec fn spec_write_envelope(self, value: u8) -> SquareChannel1 {
        SquareChannel1 {
            dac_enabled: value & 0xF8 != 0,
            volume: (value >> 4) & 0x0F,
            envelope_increase: value & 0x08 != 0,
            envelope_period: value & 0x07,
            ..self
        }
    }

    /// NR10 effect: sweep period, direction and shift.
    pub open spec fn spec_write_sweep(self, value: u8) -> SquareChannel1 {
        SquareChannel1 {
            sweep_period: (value >> 4) & 0x07,
            sweep_decrease: value & 0x08 != 0,
            sweep_shift: value & 0x07,
            ..self
        }
    }

    /// NR13 effect: low eight frequency bits.
    pub open spec fn spec_write_freq_low(self, value: u8) -> SquareChannel1 {
        SquareChannel1 { frequency: (self.frequency & 0x0700) | (value as u16), ..self }
    }

    /// NR14 effect: frequency high bits, length enable, and a trigger when
    /// bit 7 is set.
    pub open spec fn spec_write_freq_high(self, value: u8) -> SquareChannel1 {
        let ch = SquareChannel1 {
            frequency: (self.frequency & 0x00FF) | (((value & 0x07) as u16) << 8),
            length_enable: value & 0x40 != 0,
            ..self
        };
        if value & 0x80 != 0 {
            ch.spec_trigger()
        } else {
            ch
        }
    }

    pub fn tick(&mut self)
        requires
            old(self).wf(),
        ensures
            *final(self) == old(self).spec_tick(),
            final(self).wf(),
    {
        if !self.enabled {
            return ;
        }
        self.timer = self.timer - 1;
        if self.timer <= 0 {
            self.timer = (2048 - self.frequency) as i16 * 4;
            self.duty_step = (self.duty_step + 1) & 7;
            proof {
                crate::registers::lemma_u8_bits((old(self).duty_step + 1) as u8);
            }
        }
    }

    pub fn clock_length(&mut self)
        requires
            old(self).wf(),
        ensures
            *final(self) == old(self).spec_clock_length(),
            final(self).wf(),
    {
        if !self.length_enable {
            return ;
        }
        if self.length_counter > 0 {
            self.length_counter = self.length_counter - 1;
            if self.length_counter == 0 {
                self.enabled = false;
            }
        }
    }

    pub fn clock_envelope(&mut self)
        requires
            old(self).wf(),
        ensures
            *final(self) == old(self).spec_clock_envelope(),
            final(self).wf(),
    {
        if self.envelope_period == 0 {
            return ;
        }
        if self.envelope_timer > 0 {
            self.envelope_timer = self.envelope_timer - 1;
        }
        if self.envelope_timer == 0 {
            self.envelope_timer = self.envelope_period;
            if self.envelope_increase {
                if self.volume < 15 {
                    self.volume = self.volume + 1;
                }
            } else {
                if self.volume > 0 {
                    self.volume = self.volume - 1;
                }
            }
        }
    }

    /// Computes the next sweep frequency, disabling the channel when it
    /// overflows past 2047.
    fn calculate_sweep(&mut self) -> (new_freq: u16)
        requires
            old(self).wf(),
        ensures
            new_freq == old(self).spec_sweep_freq(),
            *final(self) == old(self).spec_calculate_sweep(),
            final(self).wf(),
    {
        proof {
            crate::registers::lemma_shr_le(self.sweep_shadow_freq, self.sweep_shift as u16);
        }
        let delta = self.sweep_shadow_freq >> self.sweep_shift;
        let new_freq = if self.sweep_decrease {
            self.sweep_shadow_freq - delta
        } else {
            self.sweep_shadow_freq + delta
        };
        if new_freq > 2047 {
            self.enabled = false;
        }
        new_freq
    }

    pub fn clock_sweep(&mut self)
        requires
            old(self).wf(),
        ensures
            *final(self) == old(self).spec_clock_sweep(),
            final(self).wf(),
    {
        if self.sweep_period == 0 {
            return ;
        }
        if self.sweep_timer > 0 {
            self.sweep_timer = self.sweep_timer - 1;
        }
        if self.sweep_timer == 0 {
            self.sweep_timer = self.sweep_period;
            if self.sweep_shift > 0 {
                let new_freq = self.calculate_sweep();
                if new_freq <= 2047 {
                    self.frequency = new_freq;
                    self.sweep_shadow_freq = new_freq;
                    self.calculate_sweep();
                }
            }
        }
    }

    /// The channel's current digital output.
    pub fn sample(&self) -> (r: i16)
        requires
            self.wf(),
        ensures
            r == self.spec_sample(),
            -60 <= r <= 60,
    {
        if !self.enabled || !self.dac_enabled {
            return 0;
        }
        let amp = (self.volume * 4) as i16;
        if duty_high(self.duty, self.duty_step) {
            amp
        } else {
            -amp
        }
    }

    pub fn trigger(&mut self)
        requires
            old(self).wf(),
        ensures
            *final(self) == old(self).spec_trigger(),
            final(self).wf(),
    {
        if !self.dac_enabled {
            return ;
        }
        self.enabled = true;
        self.timer = (2048 - self.frequency) as i16 * 4;
        self.duty_step = 0;
        if self.length_counter == 0 {
            self.length_counter = 64;
        }
        self.envelope_timer = self.envelope_period;
        self.sweep_shadow_freq = self.frequency;
        self.sweep_timer = if self.sweep_period == 0 {
            8
        } else {
            self.sweep_period
        };
        if self.sweep_shift > 0 {
            self.calculate_sweep();
        }
    }

    /// NR11: duty pattern in bits 7..6, length load in bits 5..0.
    pub fn write_duty_length(&mut self, value: u8)
        requires
            old(self).wf(),
        ensures
            *final(self) == old(self).spec_write_duty_length(value),
            final(self).wf(),
    {
        proof {
            crate::registers::lemma_u8_bits(value);
        }
        self.duty = value >> 6;
        self.length_counter = 64 - (value & 0x3F);
    }

    /// NR12: volume in bits 7..4, direction in bit 3, period in bits 2..0.
    /// The DAC is on exactly when bits 7..3 are not all zero.
    pub fn write_envelope(&mut self, value: u8)
        requires
            old(self).wf(),
        ensures
            *final(self) == old(self).spec_write_envelope(value),
            final(self).wf(),
    {
        proof {
            crate::registers::lemma_u8_bits(value);
        }
        self.dac_enabled = (value & 0xF8) != 0;
        self.volume = (value >> 4) & 0x0F;
        self.envelope_increase = (value & 0x08) != 0;
        self.envelope_period = value & 0x07;
    }

    /// NR10: sweep period in bits 6..4, direction in bit 3, shift in bits
    /// 2..0.
    pub fn write_sweep(&mut self, value: u8)
        requires
            old(self).wf(),
        ensures
            *final(self) == old(self).spec_write_sweep(value),
            final(self).wf(),
    {
        proof {
            crate::registers::lemma_u8_bits(value);
        }
        self.sweep_period = (value >> 4) & 0x07;
        self.sweep_decrease = (value & 0x08) != 0;
        self.sweep_shift = value & 0x07;
    }

    /// NR13: low eight frequency bits.
    pub fn write_freq_low(&mut self, value: u8)
        requires
            old(self).wf(),
        ensures
            *final(self) == old(self).spec_write_freq_low(value),
            final(self).wf(),
    {
        proof {
            crate::square_channel_2::lemma_freq_mask(self.frequency, value);
        }
        self.frequency = (self.frequency & 0x0700) | value as u16;
    }

    /// NR14: frequency bits 10..8 in bits 2..0, length enable in bit 6, and a
    /// trigger when bit 7 is set.
    pub fn write_freq_high(&mut self, value: u8)
        requires
            old(self).wf(),
        ensures
            *final(self) == old(self).spec_write_freq_high(value),
            final(self).wf(),
    {
        proof {
            crate::square_channel_2::lemma_freq_mask(self.frequency, value);
        }
        self.frequency = (self.frequency & 0x00FF) | (((value & 0x07) as u16) << 8);
        self.length_enable = value & 0x40 != 0;
        if value & 0x80 != 0 {
            self.trigger();
        }
    }
}

impl Default for SquareChannel1 {
    /// The power-on state: everything off and zero.
    fn default() -> (r: SquareChannel1)
        ensures
            r == (SquareChannel1 {
                enabled: false,
                length_enable: false,
                dac_enabled: false,
                duty: 0,
                duty_step: 0,
                frequency: 0,
                timer: 0,
                length_counter: 0,
                volume: 0,
                envelope_period: 0,
                envelope_timer: 0,
                envelope_increase: false,
                sweep_period: 0,
                sweep_timer: 0,
                sweep_shift: 0,
                sweep_decrease: false,
                sweep_shadow_freq: 0,
            }),
            r.wf(),
    {
        SquareChannel1 {
            enabled: false,
            length_enable: false,
            dac_enabled: false,
            duty: 0,
            duty_step: 0,
            frequency: 0,
            timer: 0,
            length_counter: 0,
            volume: 0,
            envelope_period: 0,
            envelope_timer: 0,
            envelope_increase: false,
            sweep_period: 0,
            sweep_timer: 0,
            sweep_shift: 0,
            sweep_decrease: false,
            sweep_shadow_freq: 0,
        }
    }
}

} // verus!
