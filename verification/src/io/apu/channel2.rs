use vstd::prelude::*;
use crate::io::apu::{lemma_register_masks, tick_count, DUTY_TABLE};

verus! {

/// Channel 2 — Square wave (NR21–NR24).
pub struct Channel2 {
    pub enabled: bool,
    // NR21: duty[7:6], length_load[5:0]
    pub duty: u8,
    pub length_load: u8,
    // NR22: initial_volume[7:4], env_dir[3], env_period[2:0]
    pub initial_volume: u8,
    pub env_add: bool,
    pub env_period: u8,
    // NR23/NR24: frequency + trigger + length_enable
    pub frequency: u16,
    pub length_enable: bool,
    // Internal state (timers in T-cycles)
    pub duty_pos: usize,
    pub freq_timer: i32,
    pub volume: u8,
    pub env_timer: u8,
    pub length_counter: u16,
}

impl Channel2 {
    /// The channel at power-on.
    pub open spec fn new_spec() -> Channel2 {
        Channel2 {
            enabled: false,
            duty: 0,
            length_load: 0,
            initial_volume: 0,
            env_add: false,
            env_period: 0,
            frequency: 0,
            length_enable: false,
            duty_pos: 0,
            freq_timer: 0,
            volume: 0,
            env_timer: 0,
            length_counter: 0,
        }
    }

    pub fn new() -> (r: Self)
        ensures
            r.wf(),
            r == Self::new_spec(),
    {
        Self {
            enabled: false,
            duty: 0,
            length_load: 0,
            initial_volume: 0,
            env_add: false,
            env_period: 0,
            frequency: 0,
            length_enable: false,
            duty_pos: 0,
            freq_timer: 0,
            volume: 0,
            env_timer: 0,
            length_counter: 0,
        }
    }

    /// Register fields within their widths (the length counter within its
    /// full length), and the frequency timer within
    /// one period.
    pub open spec fn wf(&self) -> bool {
        &&& self.length_counter <= 64
        &&& self.volume <= 15
        &&& self.initial_volume <= 15
        &&& self.duty < 4
        &&& self.duty_pos < 8
        &&& self.frequency < 2048
        &&& 0 <= self.freq_timer <= 8192
    }

    /// The timer period of the current frequency, in T-cycles.
    pub open spec fn period(&self) -> int {
        (2048 - self.frequency) * 4
    }

    pub open spec fn read_spec(&self, addr: u16) -> u8 {
        if addr == 0xFF16 {
            (self.duty << 6) | 0x3F
        } else if addr == 0xFF17 {
            (self.initial_volume << 4) | ((if self.env_add { 1u8 } else { 0u8 }) << 3) | self.env_period
        } else if addr == 0xFF19 {
            ((if self.length_enable { 1u8 } else { 0u8 }) << 6) | 0xBF
        } else {
            0xFF
        }
    }

    pub fn read_reg(&self, addr: u16) -> (r: u8)
        ensures
            r == self.read_spec(addr),
    {
        match addr {
            0xFF16 => (self.duty << 6) | 0x3F,
            0xFF17 => {
                (self.initial_volume << 4) | ((if self.env_add { 1u8 } else { 0u8 }) << 3)
                    | self.env_period
            },
            0xFF18 => 0xFF,
            0xFF19 => ((if self.length_enable { 1u8 } else { 0u8 }) << 6) | 0xBF,
            _ => 0xFF,
        }
    }

    /// The channel after a trigger (NR24 bit 7): enabled, length reloaded if
    /// it ran out, timer, volume and envelope restarted.
    pub open spec fn triggered(self) -> Channel2 {
        Channel2 {
            enabled: true,
            length_counter: if self.length_counter == 0 {
                64
            } else {
                self.length_counter
            },
            freq_timer: ((2048 - self.frequency) * 4) as i32,
            volume: self.initial_volume,
            env_timer: self.env_period,
            ..self
        }
    }

    pub open spec fn write_spec(self, addr: u16, val: u8) -> Channel2 {
        if addr == 0xFF16 {
            Channel2 {
                duty: (val >> 6) & 0x03,
                length_load: val & 0x3F,
                length_counter: (64 - (val & 0x3F)) as u16,
                ..self
            }
        } else if addr == 0xFF17 {
            Channel2 {
                initial_volume: val >> 4,
                env_add: (val & 0x08) != 0,
                env_period: val & 0x07,
                enabled: self.enabled && val & 0xF8 != 0,
                ..self
            }
        } else if addr == 0xFF18 {
            Channel2 { frequency: (self.frequency & 0x700) | val as u16, ..self }
        } else if addr == 0xFF19 {
            let c = Channel2 {
                frequency: (self.frequency & 0x00FF) | (((val & 0x07) as u16) << 8),
                length_enable: (val & 0x40) != 0,
                ..self
            };
            if val & 0x80 != 0 {
                c.triggered()
            } else {
                c
            }
        } else {
            self
        }
    }

    pub fn write_reg(&mut self, addr: u16, val: u8)
        requires
            old(self).wf(),
        ensures
            final(self).wf(),
            *final(self) == old(self).write_spec(addr, val),
    {
        proof {
            lemma_register_masks(val, self.frequency);
        }
        match addr {
            0xFF16 => {
                self.duty = (val >> 6) & 0x03;
                self.length_load = val & 0x3F;
                self.length_counter = 64 - self.length_load as u16;
            },
            0xFF17 => {
                self.initial_volume = val >> 4;
                self.env_add = (val & 0x08) != 0;
                self.env_period = val & 0x07;
                if val & 0xF8 == 0 {
                    self.enabled = false;
                }
            },
            0xFF18 => {
                self.frequency = (self.frequency & 0x700) | val as u16;
            },
            0xFF19 => {
                self.frequency = (self.frequency & 0x00FF) | (((val & 0x07) as u16) << 8);
                self.length_enable = (val & 0x40) != 0;
                if val & 0x80 != 0 {
                    self.trigger();
                }
            },
            _ => {},
        }
    }

    fn trigger(&mut self)
        requires
            old(self).wf(),
        ensures
            final(self).wf(),
            *final(self) == old(self).triggered(),
    {
        self.enabled = true;
        if self.length_counter == 0 {
            self.length_counter = 64;
        }
        self.freq_timer = (2048 - self.frequency as i32) * 4;
        self.volume = self.initial_volume;
        self.env_timer = self.env_period;
    }

    pub open spec fn length_clocked(self) -> Channel2 {
        if self.length_enable && self.length_counter > 0 {
            let lc = (self.length_counter - 1) as u16;
            Channel2 { length_counter: lc, enabled: self.enabled && lc != 0, ..self }
        } else {
            self
        }
    }

    /// Called at every length step (256 Hz) by the frame sequencer.
    pub fn clock_length(&mut self)
        ensures
            *final(self) == old(self).length_clocked(),
    {
        if self.length_enable && self.length_counter > 0 {
            self.length_counter = self.length_counter - 1;
            if self.length_counter == 0 {
                self.enabled = false;
            }
        }
    }

    pub open spec fn envelope_clocked(self) -> Channel2 {
        if self.env_period == 0 {
            self
        } else {
            let t = if self.env_timer > 0 {
                (self.env_timer - 1) as u8
            } else {
                self.env_timer
            };
            if t == 0 {
                let v = if self.env_add && self.volume < 15 {
                    (self.volume + 1) as u8
                } else if !self.env_add && self.volume > 0 {
                    (self.volume - 1) as u8
                } else {
                    self.volume
                };
                Channel2 { env_timer: self.env_period, volume: v, ..self }
            } else {
                Channel2 { env_timer: t, ..self }
            }
        }
    }

    /// Called at every envelope step (64 Hz) by the frame sequencer.
    pub fn clock_envelope(&mut self)
        ensures
            *final(self) == old(self).envelope_clocked(),
    {
        if self.env_period == 0 {
            return;
        }
        if self.env_timer > 0 {
            self.env_timer = self.env_timer - 1;
        }
        if self.env_timer == 0 {
            self.env_timer = self.env_period;
            if self.env_add && self.volume < 15 {
                self.volume = self.volume + 1;
            } else if !self.env_add && self.volume > 0 {
                self.volume = self.volume - 1;
            }
        }
    }

    /// The channel after `t` T-cycles of its frequency timer (when enabled),
    /// and the sample it then outputs: its volume on a high step of the duty
    /// pattern, else 0.
    pub open spec fn tick_spec(self, t: u32) -> (Channel2, u8) {
        if !self.enabled {
            (self, 0)
        } else {
            let ft = self.freq_timer - t;
            let k = tick_count(ft, self.period());
            let c = Channel2 {
                freq_timer: (ft + k * self.period()) as i32,
                duty_pos: ((self.duty_pos + k) % 8) as usize,
                ..self
            };
            (c, if DUTY_TABLE[c.duty as int][c.duty_pos as int] != 0 {
                c.volume
            } else {
                0
            })
        }
    }

    /// Advance frequency timer by `t_cycles` (T-cycles). Returns current output (0 or volume).
    pub fn tick(&mut self, t_cycles: u32) -> (r: u8)
        requires
            old(self).wf(),
            old(self).enabled ==> t_cycles <= i32::MAX,
        ensures
            final(self).wf(),
            (*final(self), r) == old(self).tick_spec(t_cycles),
            r <= 15,
    {
        if !self.enabled {
            return 0;
        }
        let period: i32 = (2048 - self.frequency as i32) * 4;
        self.freq_timer = self.freq_timer - t_cycles as i32;
        let ghost ft0 = self.freq_timer as int;
        let ghost mut k: int = 0;
        while self.freq_timer <= 0
            invariant
                period == old(self).period(),
                0 < period <= 8192,
                self.duty_pos < 8,
                k >= 0,
                self.freq_timer == ft0 + k * period,
                self.freq_timer <= 8192,
                k > 0 ==> ft0 + (k - 1) * period <= 0,
                self.duty_pos == (old(self).duty_pos + k) % 8,
                *self == (Channel2 { freq_timer: self.freq_timer, duty_pos: self.duty_pos, ..*old(self) }),
            decreases 8192 - self.freq_timer,
        {
            self.freq_timer = self.freq_timer + period;
            self.duty_pos = (self.duty_pos + 1) % 8;
            proof {
                assert((k + 1) * period == k * period + period) by (nonlinear_arith);
                k = k + 1;
            }
        }
        proof {
            crate::io::apu::lemma_tick_count(ft0, period as int, k);
        }
        if DUTY_TABLE[self.duty as usize][self.duty_pos] != 0 {
            self.volume
        } else {
            0
        }
    }
}

} // verus!
