//! Wave channel: 32 four-bit samples in 16 bytes of wave RAM, a 256-step
//! length counter and a coarse volume shifter.

use vstd::prelude::*;

verus! {

/// State of the wave channel.
pub struct WaveChannel {
    pub enabled: bool,
    pub dac_enabled: bool,
    pub frequency: u16,
    pub timer: i16,
    pub length_counter: u16,
    pub volume_code: u8,
    pub wave_ram: Vec<u8>,
    pub position: u8,
}

impl WaveChannel {
    /// Field ranges that construction establishes and every method preserves.
    pub open spec fn wf(self) -> bool {
        self.frequency <= 2047 && self.position <= 31 && self.volume_code <= 3
            && self.length_counter <= 256 && 0 <= self.timer <= 4096 && self.wave_ram@.len() == 16
    }

    /// One T-cycle: while enabled, the timer counts down and on expiry
    /// reloads to (2048 - frequency) * 2 and advances the sample position.
    pub open spec fn spec_tick(self) -> WaveChannel {
        if !self.enabled {
            self
        } else {
            let t = (self.timer - 1) as i16;
            if t <= 0 {
                WaveChannel {
                    timer: ((2048 - self.frequency) * 2) as i16,
                    position: ((self.position + 1) as u8) & 31,
                    ..self
                }
            } else {
                WaveChannel { timer: t, ..self }
            }
        }
    }

    /// One length clock: a nonzero counter counts down and the channel is
    /// disabled when it reaches zero.
    pub open spec fn spec_clock_length(self) -> WaveChannel {
        if self.length_counter == 0 {
            self
        } else {
            let c = (self.length_counter - 1) as u16;
            WaveChannel { length_counter: c, enabled: (c != 0 && self.enabled), ..self }
        }
    }

    /// The 4-bit sample under the current position: high nibble first.
    pub open spec fn spec_current_nibble(self) -> u8 {
        if self.position & 1 == 0 {
            self.wave_ram@[(self.position / 2) as int] >> 4
        } else {
            self.wave_ram@[(self.position / 2) as int] & 0x0F
        }
    }

    /// The channel's digital output in sixtieths of full scale: zero when
    /// disabled or muted; otherwise the nibble scaled by the volume code
    /// (full, half or quarter) and recentred around zero.
    pub open spec fn spec_sample(self) -> i16 {
        if !self.enabled || self.volume_code == 0 {
            0
        } else {
            let nib = self.spec_current_nibble();
            if self.volume_code == 1 {
                (8 * nib - 60) as i16
            } else if self.volume_code == 2 {
                (4 * nib - 60) as i16
            } else {
                (2 * nib - 60) as i16
            }
        }
    }

    /// A trigger (NR34 bit 7) with the DAC on: enables the channel, reloads
    /// the timer, restarts the position and reloads a zero length counter to
    /// 256.
    pub open spec fn spec_trigger(self) -> WaveChannel {
        if !self.dac_enabled {
            self
        } else {
            WaveChannel {
                enabled: true,
                timer: ((2048 - self.frequency) * 2) as i16,
                position: 0,
                length_counter: if self.length_counter == 0 {
                    256
                } else {
                    self.length_counter
                },
                ..self
            }
        }
    }


    /// NR30 effect: the DAC gate; clearing it disables the channel.
    pub open spec fn spec_write_nr30(self, value: u8) -> WaveChannel {
        WaveChannel {
            dac_enabled: value & 0x80 != 0,
            enabled: (self.enabled && value & 0x80 != 0),
            ..self
        }
    }

    /// NR31 effect: the counter becomes 256 minus the length load.
    pub open spec fn spec_write_nr31(self, value: u16) -> WaveChannel {
        WaveChannel { length_counter: (256 - value) as u16, ..self }
    }

    /// NR32 effect: the volume code.
    pub open spec fn spec_write_nr32(self, value: u8) -> WaveChannel {
        WaveChannel { volume_code: (value >> 5) & 0x03, ..self }
    }

    /// NR33 effect: low eight frequency bits.
    pub open spec fn spec_write_freq_low(self, value: u8) -> WaveChannel {
        WaveChannel { frequency: (self.frequency & 0x0700) | (value as u16), ..self }
    }

    /// NR34 effect: frequency high bits and a trigger when bit 7 is set.
    pub open spec fn spec_write_freq_high(self, value: u8) -> WaveChannel {
        let ch = WaveChannel {
            frequency: (self.frequency & 0x00FF) | (((value & 0x07) as u16) << 8),
            ..self
        };
        if value & 0x80 != 0 {
            ch.spec_trigger()
        } else {
            ch
        }
    }

    /// NR30: the DAC enable bit; turning the DAC off disables the channel.
    pub fn write_nr30(&mut self, value: u8)
        requires
            old(self).wf(),
        ensures
            final(self).dac_enabled == (value & 0x80 != 0),
            final(self).enabled == (old(self).enabled && value & 0x80 != 0),
            *final(self) == old(self).spec_write_nr30(value),
            final(self).wf(),
    {
        self.dac_enabled = value & 0x80 != 0;
        if self.dac_enabled {
            return ;
        }
        self.enabled = false;
    }

    /// NR31: the length load; the counter becomes 256 minus it.
    pub fn write_nr31(&mut self, value: u16)
        requires
            old(self).wf(),
            value <= 255,
        ensures
            *final(self) == old(self).spec_write_nr31(value),
            final(self).wf(),
    {
        self.length_counter = 256 - value;
    }

    /// NR32: the volume code in bits 6..5 (mute, full, half, quarter).
    pub fn write_nr32(&mut self, value: u8)
        requires
            old(self).wf(),
        ensures
            *final(self) == old(self).spec_write_nr32(value),
            final(self).wf(),
    {
        proof {
            crate::registers::lemma_u8_bits(value);
        }
        self.volume_code = (value >> 5) & 0x03;
    }

    /// NR33: low eight frequency bits.
    pub fn write_freq_low(&mut self, value: u8)
        requires
            old(self).wf(),
        ensures
            *final(self) == old(self).spec_write_freq_low(value),
            final(self).wf(),
    {
        proof {
            crate::square_channel_2::lemma_freq_mask(self.frequency, value);
        }
        self.frequency = (self.frequency & 0x0700) | value as u16;
    }

    /// NR34: frequency bits 10..8 in bits 2..0 and a trigger when bit 7 is
    /// set.
    pub fn write_freq_high(&mut self, value: u8)
        requires
            old(self).wf(),
        ensures
            *final(self) == old(self).spec_write_freq_high(value),
            final(self).wf(),
    {
        proof {
            crate::square_channel_2::lemma_freq_mask(self.frequency, value);
        }
        self.frequency = (self.frequency & 0x00FF) | (((value & 0x07) as u16) << 8);
        if value & 0x80 != 0 {
            self.trigger();
        }
    }

    pub fn trigger(&mut self)
        requires
            old(self).wf(),
        ensures
            *final(self) == old(self).spec_trigger(),
            final(self).wf(),
    {
        if !self.dac_enabled {
            return ;
        }
        self.enabled = true;
        self.timer = (2048 - self.frequency) as i16 * 2;
        self.position = 0;
        if self.length_counter == 0 {
            self.length_counter = 256;
        }
    }

    pub fn tick(&mut self)
        requires
            old(self).wf(),
        ensures
            *final(self) == old(self).spec_tick(),
            final(self).wf(),
    {
        if !self.enabled {
            return ;
        }
        self.timer = self.timer - 1;
        if self.timer <= 0 {
            self.timer = (2048 - self.frequency) as i16 * 2;
            self.position = (self.position + 1) & 31;
            proof {
                crate::registers::lemma_u8_bits((old(self).position + 1) as u8);
            }
        }
    }

    /// The channel's current digital output.
    pub fn sample(&self) -> (r: i16)
        requires
            self.wf(),
        ensures
            r == self.spec_sample(),
            -60 <= r <= 60,
    {
        if !self.enabled || self.volume_code == 0 {
            return 0;
        }
        let byte = self.wave_ram[(self.position / 2) as usize];
        let sample: u8 = if self.position & 1 == 0 {
            byte >> 4
        } else {
            byte & 0x0F
        };
        proof {
            crate::registers::lemma_u8_bits(byte);
            crate::registers::lemma_u8_bits(self.position);
        }
        if self.volume_code == 1 {
            8 * (sample as i16) - 60
        } else if self.volume_code == 2 {
            4 * (sample as i16) - 60
        } else {
            2 * (sample as i16) - 60
        }
    }

    pub fn clock_length(&mut self)
        requires
            old(self).wf(),
        ensures
            *final(self) == old(self).spec_clock_length(),
            final(self).wf(),
    {
        if self.length_counter > 0 {
            self.length_counter = self.length_counter - 1;
            if self.length_counter == 0 {
                self.enabled = false;
            }
        }
    }

    /// A store to wave RAM (0xFF30..=0xFF3F); only the low four address bits
    /// select the byte.
    pub fn write_wave_ram(&mut self, addr: u16, value: u8)
        requires
            old(self).wf(),
        ensures
            final(self).wave_ram@ == old(self).wave_ram@.update((addr & 0x0F) as int, value),
            *final(self) == (WaveChannel { wave_ram: final(self).wave_ram, ..*old(self) }),
            final(self).wf(),
    {
        proof {
            crate::registers::lemma_u16_bits(addr);
        }
        let idx = (addr & 0x0F) as usize;
        self.wave_ram.set(idx, value);
    }

    /// A load from wave RAM.
    pub fn read_wave_ram(&self, addr: u16) -> (r: u8)
        requires
            self.wf(),
        ensures
            r == self.wave_ram@[(addr & 0x0F) as int],
    {
        proof {
            crate::registers::lemma_u16_bits(addr);
        }
        self.wave_ram[(addr & 0x0F) as usize]
    }
}

impl Default for WaveChannel {
    /// The power-on state: everything off and zero, wave RAM cleared.
    fn default() -> (r: WaveChannel)
        ensures
            r.enabled == false,
            r.dac_enabled == false,
            r.frequency == 0,
            r.timer == 0,
            r.length_counter == 0,
            r.volume_code == 0,
            r.position == 0,
            r.wave_ram@ == Seq::new(16, |i: int| 0u8),
            r.wf(),
    {
        let mut wave_ram: Vec<u8> = Vec::new();
        let mut i: usize = 0;
        while i < 16
            invariant
                i <= 16,
                wave_ram@ == Seq::new(i as nat, |j: int| 0u8),
            decreases 16 - i,
        {
            wave_ram.push(0);
            proof {
                assert(wave_ram@ =~= Seq::new((i + 1) as nat, |j: int| 0u8));
            }
            i = i + 1;
        }
        WaveChannel {
            enabled: false,
            dac_enabled: false,
            frequency: 0,
            timer: 0,
            length_counter: 0,
            volume_code: 0,
            wave_ram,
            position: 0,
        }
    }
}

} // verus!
