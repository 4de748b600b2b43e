//! Noise channel: a 15-bit linear feedback shift register clocked by a
//! divisor-and-shift timer, with length counter and volume envelope.

use vstd::prelude::*;

verus! {

/// The divisor selected by NR43 bits 2..0.
pub open spec fn spec_divisor(code: u8) -> i32 {
    if code == 0 {
        8
    } else if code == 1 {
        16
    } else if code == 2 {
        32
    } else if code == 3 {
        48
    } else if code == 4 {
        64
    } else if code == 5 {
        80
    } else if code == 6 {
        96
    } else {
        112
    }
}

/// State of the noise channel.
pub struct NoiseChannel {
    pub enabled: bool,
    pub length_enable: bool,
    pub length_counter: u8,
    pub volume: u8,
    pub envelope_period: u8,
    pub envelope_timer: u8,
    pub envelope_increase: bool,
    pub lfsr: u16,
    pub clock_shift: u8,
    pub divisor_code: u8,
    pub width_mode_7: bool,
    pub timer: i32,
}

impl NoiseChannel {
    /// Field ranges that construction establishes and every method preserves.
    pub open spec fn wf(self) -> bool {
        self.volume <= 15 && self.envelope_period <= 7 && self.length_counter <= 64
            && self.clock_shift <= 15 && self.divisor_code <= 7 && 0 <= self.timer <= 112 * 32768
    }

    /// The timer reload value: divisor shifted left by the clock shift.
    pub open spec fn spec_reload(self) -> i32 {
        spec_divisor(self.divisor_code) << self.clock_shift
    }

    /// One step of the shift register: the xor of bits 0 and 1 moves into bit
    /// 14 after a right shift, and in 7-bit width mode also replaces bit 6.
    pub open spec fn spec_lfsr_step(lfsr: u16, width_mode_7: bool) -> u16 {
        let x = (lfsr & 1) ^ ((lfsr >> 1) & 1);
        let l = (lfsr >> 1) | (x << 14);
        if width_mode_7 {
            (l & !(1u16 << 6)) | (x << 6)
        } else {
            l
        }
    }

    /// One T-cycle: while enabled, the timer counts down and on expiry
    /// reloads and steps the shift register.
    pub open spec fn spec_tick(self) -> NoiseChannel {
        if !self.enabled {
            self
        } else {
            let t = (self.timer - 1) as i32;
            if t <= 0 {
                NoiseChannel {
                    timer: self.spec_reload(),
                    lfsr: Self::spec_lfsr_step(self.lfsr, self.width_mode_7),
                    ..self
                }
            } else {
                NoiseChannel { timer: t, ..self }
            }
        }
    }

    /// One length clock, as for the square channels.
    pub open spec fn spec_clock_length(self) -> NoiseChannel {
        if !self.length_enable || self.length_counter == 0 {
            self
        } else {
            let c = (self.length_counter - 1) as u8;
            NoiseChannel { length_counter: c, enabled: (c != 0 && self.enabled), ..self }
        }
    }

    /// One envelope clock, as for the square channels.
    pub open spec fn spec_clock_envelope(self) -> NoiseChannel {
        if self.envelope_period == 0 {
            self
        } else {
            let t = if self.envelope_timer > 0 {
                (self.envelope_timer - 1) as u8
            } else {
                self.envelope_timer
            };
            if t == 0 {
                let v = if self.envelope_increase && self.volume < 15 {
                    (self.volume + 1) as u8
                } else if !self.envelope_increase && self.volume > 0 {
                    (self.volume - 1) as u8
                } else {
                    self.volume
                };
                NoiseChannel { envelope_timer: self.envelope_period, volume: v, ..self }
            } else {
                NoiseChannel { envelope_timer: t, ..self }
            }
        }
    }

    /// The channel's digital output in sixtieths of full scale: bit 0 of the
    /// shift register inverted gives the waveform sign.
    pub open spec fn spec_sample(self) -> i16 {
        if !self.enabled || self.volume == 0 {
            0
        } else if self.lfsr & 1 == 0 {
            (self.volume * 4) as i16
        } else {
            (-(self.volume * 4)) as i16
        }
    }

    /// A trigger (NR44 bit 7): enables the channel, reloads a zero length
    /// counter to 64, reloads the envelope timer, fills the shift register
    /// with ones and reloads the timer.
    pub open spec fn spec_trigger(self) -> NoiseChannel {
        NoiseChannel {
            enabled: true,
            length_counter: if self.length_counter == 0 {
                64
            } else {
                self.length_counter
            },
            envelope_timer: self.envelope_period,
            lfsr: 0x7FFF,
            timer: self.spec_reload(),
            ..self
        }
    }


    /// NR41 effect: the counter becomes 64 minus the length load.
    pub open spec fn spec_write_nr41(self, value: u8) -> NoiseChannel {
        NoiseChannel { length_counter: (64 - (value & 0x3F)) as u8, ..self }
    }

    /// NR42 effect: volume, direction and period.
    pub open spec fn spec_write_nr42(self, value: u8) -> NoiseChannel {
        NoiseChannel {
            volume: (value >> 4) & 0x0F,
            envelope_increase: value & 0x08 != 0,
            envelope_period: value & 0x07,
            ..self
        }
    }

    /// NR43 effect: clock shift, width mode and divisor code.
    pub open spec fn spec_write_nr43(self, value: u8) -> NoiseChannel {
        NoiseChannel {
            clock_shift: value >> 4,
            width_mode_7: value & 0x08 != 0,
            divisor_code: value & 0x07,
            ..self
        }
    }

    /// NR44 effect: the length enable bit.
    pub open spec fn spec_write_nr44(self, value: u8) -> NoiseChannel {
        NoiseChannel { length_enable: value & 0x40 != 0, ..self }
    }

    /// NR41: length load in bits 5..0 (counter becomes 64 minus the load).
    pub fn write_nr41(&mut self, value: u8)
        requires
            old(self).wf(),
        ensures
            *final(self) == old(self).spec_write_nr41(value),
            final(self).wf(),
    {
        proof {
            crate::registers::lemma_u8_bits(value);
        }
        self.length_counter = 64 - (value & 0x3F);
    }

    /// NR42: volume in bits 7..4, direction in bit 3, period in bits 2..0.
    pub fn write_nr42(&mut self, value: u8)
        requires
            old(self).wf(),
        ensures
            *final(self) == old(self).spec_write_nr42(value),
            final(self).wf(),
    {
        proof {
            crate::registers::lemma_u8_bits(value);
        }
        self.volume = (value >> 4) & 0x0F;
        self.envelope_increase = (value & 0x08) != 0;
        self.envelope_period = value & 0x07;
    }

    /// NR43: clock shift in bits 7..4, width mode in bit 3, divisor code in
    /// bits 2..0.
    pub fn write_nr43(&mut self, value: u8)
        requires
            old(self).wf(),
        ensures
            *final(self) == old(self).spec_write_nr43(value),
            final(self).wf(),
    {
        proof {
            crate::registers::lemma_u8_bits(value);
        }
        self.clock_shift = value >> 4;
        self.width_mode_7 = value & 0x08 != 0;
        self.divisor_code = value & 0x07;
    }

    /// NR44: the length enable bit. The trigger bit is handled by the bus,
    /// which calls `trigger` when bit 7 of the written value is set.
    pub fn write_nr44(&mut self, value: u8)
        requires
            old(self).wf(),
        ensures
            *final(self) == old(self).spec_write_nr44(value),
            final(self).wf(),
    {
        self.length_enable = value & 0x40 != 0;
    }

    /// The timer reload value.
    fn reload_timer(&self) -> (r: i32)
        requires
            self.divisor_code <= 7,
            self.clock_shift <= 15,
        ensures
            r == self.spec_reload(),
            8 <= r <= 112 * 32768,
    {
        let divisor: i32 = if self.divisor_code == 0 {
            8
        } else if self.divisor_code == 1 {
            16
        } else if self.divisor_code == 2 {
            32
        } else if self.divisor_code == 3 {
            48
        } else if self.divisor_code == 4 {
            64
        } else if self.divisor_code == 5 {
            80
        } else if self.divisor_code == 6 {
            96
        } else {
            112
        };
        proof {
            let d = divisor;
            let k = self.clock_shift;
            assert(8 <= d <= 112 && k <= 15 ==> 8 <= (d << k) <= 112 * 32768) by (bit_vector);
        }
        divisor << self.clock_shift
    }

    pub fn trigger(&mut self)
        requires
            old(self).wf(),
        ensures
            *final(self) == old(self).spec_trigger(),
            final(self).wf(),
    {
        self.enabled = true;
        if self.length_counter == 0 {
            self.length_counter = 64;
        }
        self.envelope_timer = self.envelope_period;
        self.lfsr = 0x7FFF;
        self.timer = self.reload_timer();
    }

    pub fn tick(&mut self)
        requires
            old(self).wf(),
        ensures
            *final(self) == old(self).spec_tick(),
            final(self).wf(),
    {
        if !self.enabled {
            return ;
        }
        self.timer = self.timer - 1;
        if self.timer <= 0 {
            self.timer = self.reload_timer();
            let bit0 = self.lfsr & 1;
            let bit1 = (self.lfsr >> 1) & 1;
            let xor = bit0 ^ bit1;
            self.lfsr = self.lfsr >> 1;
            self.lfsr = self.lfsr | (xor << 14);
            if self.width_mode_7 {
                self.lfsr = self.lfsr & !(1u16 << 6);
                self.lfsr = self.lfsr | (xor << 6);
            }
        }
    }

    pub fn clock_envelope(&mut self)
        requires
            old(self).wf(),
        ensures
            *final(self) == old(self).spec_clock_envelope(),
            final(self).wf(),
    {
        if self.envelope_period == 0 {
            return ;
        }
        if self.envelope_timer > 0 {
            self.envelope_timer = self.envelope_timer - 1;
        }
        if self.envelope_timer == 0 {
            self.envelope_timer = self.envelope_period;
            if self.envelope_increase && self.volume < 15 {
                self.volume = self.volume + 1;
            } else if !self.envelope_increase && self.volume > 0 {
                self.volume = self.volume - 1;
            }
        }
    }

    pub fn clock_length(&mut self)
        requires
            old(self).wf(),
        ensures
            *final(self) == old(self).spec_clock_length(),
            final(self).wf(),
    {
        if !self.length_enable {
            return ;
        }
        if self.length_counter > 0 {
            self.length_counter = self.length_counter - 1;
            if self.length_counter == 0 {
                self.enabled = false;
            }
        }
    }

    /// The channel's current digital output.
    pub fn sample(&self) -> (r: i16)
        requires
            self.wf(),
        ensures
            r == self.spec_sample(),
            -60 <= r <= 60,
    {
        if !self.enabled || self.volume == 0 {
            return 0;
        }
        let amp = (self.volume * 4) as i16;
        if self.lfsr & 1 == 0 {
            amp
        } else {
            -amp
        }
    }
}

impl Default for NoiseChannel {
    /// The power-on state: everything off and zero.
    fn default() -> (r: NoiseChannel)
        ensures
            r == (NoiseChannel {
                enabled: false,
                length_enable: false,
                length_counter: 0,
                volume: 0,
                envelope_period: 0,
                envelope_timer: 0,
                envelope_increase: false,
                lfsr: 0,
                clock_shift: 0,
                divisor_code: 0,
                width_mode_7: false,
                timer: 0,
            }),
            r.wf(),
    {
        NoiseChannel {
            enabled: false,
            length_enable: false,
            length_counter: 0,
            volume: 0,
            envelope_period: 0,
            envelope_timer: 0,
            envelope_increase: false,
            lfsr: 0,
            clock_shift: 0,
            divisor_code: 0,
            width_mode_7: false,
            timer: 0,
        }
    }
}

} // verus!
