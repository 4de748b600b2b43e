//! Square wave channel without sweep: duty generator, 64-step length counter
//! and volume envelope.

use vstd::prelude::*;

verus! {

/// Whether the duty waveform is high at `step` for duty pattern `duty`.
/// The four patterns are 12.5%, 25%, 50% and 75%.
pub open spec fn spec_duty_high(duty: u8, step: u8) -> bool {
    if duty == 0 {
        step == 7
    } else if duty == 1 {
        step == 0 || step == 7
    } else if duty == 2 {
        step == 0 || step >= 5
    } else {
        1 <= step && step <= 6
    }
}

/// Exec form of the duty waveform table.
pub fn duty_high(duty: u8, step: u8) -> (r: bool)
    ensures
        r == spec_duty_high(duty, step),
{
    if duty == 0 {
        step == 7
    } else if duty == 1 {
        step == 0 || step == 7
    } else if duty == 2 {
        step == 0 || step >= 5
    } else {
        1 <= step && step <= 6
    }
}


/// The 11-bit frequency register stays in range when either half is
/// rewritten.
pub proof fn lemma_freq_mask(f: u16, value: u8)
    ensures
        f <= 2047 ==> ((f & 0x0700) | (value as u16)) <= 2047,
        ((f & 0x00FF) | (((value & 0x07) as u16) << 8)) <= 2047,
{
    assert((f <= 2047 ==> ((f & 0x0700) | (value as u16)) <= 2047) && ((f & 0x00FF) | (((value
        & 0x07) as u16) << 8)) <= 2047) by (bit_vector);
}

/// State of the second square channel.
pub struct SquareChannel2 {
    pub enabled: bool,
    pub length_enable: bool,
    pub dac_enabled: bool,
    pub duty: u8,
    pub duty_step: u8,
    pub frequency: u16,
    pub timer: i16,
    pub length_counter: u8,
    pub volume: u8,
    pub envelope_period: u8,
    pub envelope_timer: u8,
    pub envelope_increase: bool,
}

impl SquareChannel2 {
    /// Field ranges that construction establishes and every method preserves.
    pub open spec fn wf(self) -> bool {
        self.frequency <= 2047 && self.duty <= 3 && self.duty_step <= 7 && self.volume <= 15
            && self.envelope_period <= 7 && 0 <= self.timer <= 8192 && self.length_counter <= 64
    }

    /// One T-cycle: while enabled, the frequency timer counts down and on
    /// expiry reloads to (2048 - frequency) * 4 and advances the duty step.
    pub open spec fn spec_tick(self) -> SquareChannel2 {
        if !self.enabled {
            self
        } else {
            let t = (self.timer - 1) as i16;
            if t <= 0 {
                SquareChannel2 {
                    timer: ((2048 - self.frequency) * 4) as i16,
                    duty_step: ((self.duty_step + 1) as u8) & 7,
                    ..self
                }
            } else {
                SquareChannel2 { timer: t, ..self }
            }
        }
    }

    /// One length clock: while length is enabled, a nonzero counter counts
    /// down and the channel is disabled when it reaches zero.
    pub open spec fn spec_clock_length(self) -> SquareChannel2 {
        if !self.length_enable || self.length_counter == 0 {
            self
        } else {
            let c = (self.length_counter - 1) as u8;
            SquareChannel2 { length_counter: c, enabled: (c != 0 && self.enabled), ..self }
        }
    }

    /// One envelope clock: with a nonzero period, the envelope timer counts
    /// down and on expiry reloads and moves the volume one step toward 15 or
    /// toward 0.
    pub open spec fn spec_clock_envelope(self) -> SquareChannel2 {
        if self.envelope_period == 0 {
            self
        } else {
            let t = if self.envelope_timer > 0 {
                (self.envelope_timer - 1) as u8
            } else {
                self.envelope_timer
            };
            if t == 0 {
                let v = if self.envelope_increase {
                    if self.volume < 15 {
                        (self.volume + 1) as u8
                    } else {
                        self.volume
                    }
                } else {
                    if self.volume > 0 {
                        (self.volume - 1) as u8
                    } else {
                        self.volume
                    }
                };
                SquareChannel2 { envelope_timer: self.envelope_period, volume: v, ..self }
            } else {
                SquareChannel2 { envelope_timer: t, ..self }
            }
        }
    }

    /// The channel's digital output in sixtieths of full scale: zero when the
    /// channel or its DAC is off, else +-(volume * 4) following the duty
    /// waveform.
    pub open spec fn spec_sample(self) -> i16 {
        if !self.enabled || !self.dac_enabled {
            0
        } else if spec_duty_high(self.duty, self.duty_step) {
            (self.volume * 4) as i16
        } else {
            (-(self.volume * 4)) as i16
        }
    }

    /// A trigger (NRx4 bit 7) with the DAC on: enables the channel, reloads
    /// the frequency timer, restarts the duty step, reloads a zero length
    /// counter to 64 and reloads the envelope timer.
    pub open spec fn spec_trigger(self) -> SquareChannel2 {
        if !self.dac_enabled {
            self
        } else {
            SquareChannel2 {
                enabled: true,
                timer: ((2048 - self.frequency) * 4) as i16,
                duty_step: 0,
                length_counter: if self.length_counter == 0 {
                    64
                } else {
                    self.length_counter
                },
                envelope_timer: self.envelope_period,
                ..self
            }
        }
    }


    /// NR21 effect: duty pattern in bits 7..6, length load in bits 5..0.
    pub open spec fn spec_write_duty_length(self, value: u8) -> SquareChannel2 {
        SquareChannel2 {
            duty: value >> 6,
            length_counter: (64 - (value & 0x3F)) as u8,
            ..self
        }
    }

    /// NR22 effect: volume, direction, period and the DAC gate.
    pub open spec fn spec_write_envelope(self, value: u8) -> SquareChannel2 {
        SquareChannel2 {
            dac_enabled: value & 0xF8 != 0,
            volume: (value >> 4) & 0x0F,
            envelope_increase: value & 0x08 != 0,
            envelope_period: value & 0x07,
            ..self
        }
    }

    /// NR23 effect: low eight frequency bits.
    pub open spec fn spec_write_freq_low(self, value: u8) -> SquareChannel2 {
        SquareChannel2 { frequency: (self.frequency & 0x0700) | (value as u16), ..self }
    }

    /// NR24 effect: frequency high bits, length enable, and a trigger when
    /// bit 7 is set.
    pub open spec fn spec_write_freq_high(self, value: u8) -> SquareChannel2 {
        let ch = SquareChannel2 {
            frequency: (self.frequency & 0x00FF) | (((value & 0x07) as u16) << 8),
            length_enable: value & 0x40 != 0,
            ..self
        };
        if value & 0x80 != 0 {
            ch.spec_trigger()
        } else {
            ch
        }
    }

    pub fn tick(&mut self)
        requires
            old(self).wf(),
        ensures
            *final(self) == old(self).spec_tick(),
            final(self).wf(),
    {
        if !self.enabled {
            return ;
        }
        self.timer = self.timer - 1;
        if self.timer <= 0 {
            self.timer = (2048 - self.frequency) as i16 * 4;
            self.duty_step = (self.duty_step + 1) & 7;
            proof {
                crate::registers::lemma_u8_bits((old(self).duty_step + 1) as u8);
            }
        }
    }

    pub fn clock_length(&mut self)
        requires
            old(self).wf(),
        ensures
            *final(self) == old(self).spec_clock_length(),
            final(self).wf(),
    {
        if !self.length_enable {
            return ;
        }
        if self.length_counter > 0 {
            self.length_counter = self.length_counter - 1;
            if self.length_counter == 0 {
                self.enabled = false;
            }
        }
    }

    pub fn clock_envelope(&mut self)
        requires
            old(self).wf(),
        ensures
            *final(self) == old(self).spec_clock_envelope(),
            final(self).wf(),
    {
        if self.envelope_period == 0 {
            return ;
        }
        if self.envelope_timer > 0 {
            self.envelope_timer = self.envelope_timer - 1;
        }
        if self.envelope_timer == 0 {
            self.envelope_timer = self.envelope_period;
            if self.envelope_increase {
                if self.volume < 15 {
                    self.volume = self.volume + 1;
                }
            } else {
                if self.volume > 0 {
                    self.volume = self.volume - 1;
                }
            }
        }
    }

    pub fn trigger(&mut self)
        requires
            old(self).wf(),
        ensures
            *final(self) == old(self).spec_trigger(),
            final(self).wf(),
    {
        if !self.dac_enabled {
            return ;
        }
        self.enabled = true;
        self.timer = (2048 - self.frequency) as i16 * 4;
        self.duty_step = 0;
        if self.length_counter == 0 {
            self.length_counter = 64;
        }
        self.envelope_timer = self.envelope_period;
    }

    /// The channel's current digital output.
    pub fn sample(&self) -> (r: i16)
        requires
            self.wf(),
        ensures
            r == self.spec_sample(),
            -60 <= r <= 60,
    {
        if !self.enabled || !self.dac_enabled {
            return 0;
        }
        let amp = (self.volume * 4) as i16;
        if duty_high(self.duty, self.duty_step) {
            amp
        } else {
            -amp
        }
    }

    /// NR21: duty pattern in bits 7..6, length load in bits 5..0 (counter
    /// becomes 64 minus the load).
    pub fn write_duty_length(&mut self, value: u8)
        requires
            old(self).wf(),
        ensures
            *final(self) == old(self).spec_write_duty_length(value),
            final(self).wf(),
    {
        proof {
            crate::registers::lemma_u8_bits(value);
        }
        self.duty = value >> 6;
        self.length_counter = 64 - (value & 0x3F);
    }

    /// NR22: volume in bits 7..4, direction in bit 3, period in bits 2..0.
    /// The DAC is on exactly when bits 7..3 are not all zero.
    pub fn write_envelope(&mut self, value: u8)
        requires
            old(self).wf(),
        ensures
            *final(self) == old(self).spec_write_envelope(value),
            final(self).wf(),
    {
        proof {
            crate::registers::lemma_u8_bits(value);
        }
        self.dac_enabled = (value & 0xF8) != 0;
        self.volume = (value >> 4) & 0x0F;
        self.envelope_increase = (value & 0x08) != 0;
        self.envelope_period = value & 0x07;
    }

    /// NR23: low eight frequency bits.
    pub fn write_freq_low(&mut self, value: u8)
        requires
            old(self).wf(),
        ensures
            *final(self) == old(self).spec_write_freq_low(value),
            final(self).wf(),
    {
        proof {
            lemma_freq_mask(self.frequency, value);
        }
        self.frequency = (self.frequency & 0x0700) | value as u16;
    }

    /// NR24: frequency bits 10..8 in bits 2..0, length enable in bit 6, and a
    /// trigger when bit 7 is set.
    pub fn write_freq_high(&mut self, value: u8)
        requires
            old(self).wf(),
        ensures
            *final(self) == old(self).spec_write_freq_high(value),
            final(self).wf(),
    {
        proof {
            lemma_freq_mask(self.frequency, value);
        }
        self.frequency = (self.frequency & 0x00FF) | (((value & 0x07) as u16) << 8);
        self.length_enable = value & 0x40 != 0;
        if value & 0x80 != 0 {
            self.trigger();
        }
    }
}

impl Default for SquareChannel2 {
    /// The power-on state: everything off and zero.
    fn default() -> (r: SquareChannel2)
        ensures
            r == (SquareChannel2 {
                enabled: false,
                length_enable: false,
                dac_enabled: false,
                duty: 0,
                duty_step: 0,
                frequency: 0,
                timer: 0,
                length_counter: 0,
                volume: 0,
                envelope_period: 0,
                envelope_timer: 0,
                envelope_increase: false,
            }),
            r.wf(),
    {
        SquareChannel2 {
            enabled: false,
            length_enable: false,
            dac_enabled: false,
            duty: 0,
            duty_step: 0,
            frequency: 0,
            timer: 0,
            length_counter: 0,
            volume: 0,
            envelope_period: 0,
            envelope_timer: 0,
            envelope_increase: false,
        }
    }
}

} // verus!
