use vstd::prelude::*;
use crate::io::apu::{lemma_register_masks, tick_count};

verus! {

/// Noise frequency divisor table (in T-cycles).
pub const DIVISOR_TABLE: [u32; 8] = [8, 16, 32, 48, 64, 80, 96, 112];

/// The LFSR after one clock: bits 0 and 1 XORed, shifted right, the result
/// placed in bit 14 (and also in bit 6 in 7-bit mode).
pub open spec fn lfsr_step(lfsr: u16, width_mode: bool) -> u16 {
    let xor_bit = (lfsr & 1) ^ ((lfsr >> 1) & 1);
    let l = (lfsr >> 1) | (xor_bit << 14);
    if width_mode {
        (l & !(1u16 << 6)) | (xor_bit << 6)
    } else {
        l
    }
}

/// The LFSR after `n` clocks.
pub open spec fn lfsr_after(lfsr: u16, width_mode: bool, n: nat) -> u16
    decreases n,
{
    if n == 0 {
        lfsr
    } else {
        lfsr_step(lfsr_after(lfsr, width_mode, (n - 1) as nat), width_mode)
    }
}

/// Channel 4 — Noise/LFSR (NR41–NR44).
pub struct Channel4 {
    pub enabled: bool,
    // NR41: length_load[5:0]
    pub length_load: u8,
    // NR42: initial_volume[7:4], env_dir[3], env_period[2:0]
    pub initial_volume: u8,
    pub env_add: bool,
    pub env_period: u8,
    // NR43: clock_shift[7:4], width_mode[3], divisor_code[2:0]
    pub clock_shift: u8,
    /// true = 7-bit LFSR, false = 15-bit
    pub width_mode: bool,
    pub divisor_code: u8,
    // NR44: trigger, length_enable
    pub length_enable: bool,
    // Internal state (timer in T-cycles)
    pub lfsr: u16,
    pub freq_timer: i32,
    pub volume: u8,
    pub env_timer: u8,
    pub length_counter: u16,
}

/// The noise timer period: the divisor shifted left by the clock shift.
pub open spec fn noise_period(divisor_code: u8, clock_shift: u8) -> int {
    (DIVISOR_TABLE[divisor_code as int] << clock_shift) as int
}

/// The longest noise timer period.
pub proof fn lemma_noise_period(divisor_code: u8, clock_shift: u8)
    requires
        divisor_code < 8,
        clock_shift < 16,
    ensures
        8 <= noise_period(divisor_code, clock_shift) <= 0x380000,
{
    let d = DIVISOR_TABLE[divisor_code as int];
    assert(8 <= (d << clock_shift) <= 0x380000) by (bit_vector)
        requires
            8 <= d <= 112,
            clock_shift < 16,
    ;
}

impl Channel4 {
    /// The channel at power-on.
    pub open spec fn new_spec() -> Channel4 {
        Channel4 {
            enabled: false,
            length_load: 0,
            initial_volume: 0,
            env_add: false,
            env_period: 0,
            clock_shift: 0,
            width_mode: false,
            divisor_code: 0,
            length_enable: false,
            lfsr: 0x7FFF,
            freq_timer: 0,
            volume: 0,
            env_timer: 0,
            length_counter: 0,
        }
    }

    pub fn new() -> (r: Self)
        ensures
            r.wf(),
            r == Self::new_spec(),
    {
        Self {
            enabled: false,
            length_load: 0,
            initial_volume: 0,
            env_add: false,
            env_period: 0,
            clock_shift: 0,
            width_mode: false,
            divisor_code: 0,
            length_enable: false,
            lfsr: 0x7FFF,
            freq_timer: 0,
            volume: 0,
            env_timer: 0,
            length_counter: 0,
        }
    }

    /// Register fields within their widths (the length counter within its
    /// full length), and the frequency timer within
    /// the longest period.
    pub open spec fn wf(&self) -> bool {
        &&& self.length_counter <= 64
        &&& self.volume <= 15
        &&& self.initial_volume <= 15
        &&& self.divisor_code < 8
        &&& self.clock_shift < 16
        &&& 0 <= self.freq_timer <= 0x380000
    }

    /// The timer period in T-cycles.
    pub open spec fn period(&self) -> int {
        noise_period(self.divisor_code, self.clock_shift)
    }

    pub open spec fn read_spec(&self, addr: u16) -> u8 {
        if addr == 0xFF21 {
            (self.initial_volume << 4) | ((if self.env_add { 1u8 } else { 0u8 }) << 3) | self.env_period
        } else if addr == 0xFF22 {
            (self.clock_shift << 4) | ((if self.width_mode { 1u8 } else { 0u8 }) << 3) | self.divisor_code
        } else if addr == 0xFF23 {
            ((if self.length_enable { 1u8 } else { 0u8 }) << 6) | 0xBF
        } else {
            0xFF
        }
    }

    pub fn read_reg(&self, addr: u16) -> (r: u8)
        ensures
            r == self.read_spec(addr),
    {
        match addr {
            0xFF20 => 0xFF,
            0xFF21 => {
                (self.initial_volume << 4) | ((if self.env_add { 1u8 } else { 0u8 }) << 3)
                    | self.env_period
            },
            0xFF22 => {
                (self.clock_shift << 4) | ((if self.width_mode { 1u8 } else { 0u8 }) << 3)
                    | self.divisor_code
            },
            0xFF23 => ((if self.length_enable { 1u8 } else { 0u8 }) << 6) | 0xBF,
            _ => 0xFF,
        }
    }

    /// The channel after a trigger (NR44 bit 7): enabled, length reloaded if
    /// it ran out, LFSR reset, timer, volume and envelope restarted.
    pub open spec fn triggered(self) -> Channel4 {
        Channel4 {
            enabled: true,
            length_counter: if self.length_counter == 0 {
                64
            } else {
                self.length_counter
            },
            lfsr: 0x7FFF,
            freq_timer: self.period() as i32,
            volume: self.initial_volume,
            env_timer: self.env_period,
            ..self
        }
    }

    pub open spec fn write_spec(self, addr: u16, val: u8) -> Channel4 {
        if addr == 0xFF20 {
            Channel4 { length_load: val & 0x3F, length_counter: (64 - (val & 0x3F)) as u16, ..self }
        } else if addr == 0xFF21 {
            Channel4 {
                initial_volume: val >> 4,
                env_add: (val & 0x08) != 0,
                env_period: val & 0x07,
                enabled: self.enabled && val & 0xF8 != 0,
                ..self
            }
        } else if addr == 0xFF22 {
            Channel4 {
                clock_shift: val >> 4,
                width_mode: (val & 0x08) != 0,
                divisor_code: val & 0x07,
                ..self
            }
        } else if addr == 0xFF23 {
            let c = Channel4 { length_enable: (val & 0x40) != 0, ..self };
            if val & 0x80 != 0 {
                c.triggered()
            } else {
                c
            }
        } else {
            self
        }
    }

    pub fn write_reg(&mut self, addr: u16, val: u8)
        requires
            old(self).wf(),
        ensures
            final(self).wf(),
            *final(self) == old(self).write_spec(addr, val),
    {
        proof {
            lemma_register_masks(val, 0);
        }
        match addr {
            0xFF20 => {
                self.length_load = val & 0x3F;
                self.length_counter = 64 - self.length_load as u16;
            },
            0xFF21 => {
                self.initial_volume = val >> 4;
                self.env_add = (val & 0x08) != 0;
                self.env_period = val & 0x07;
                if val & 0xF8 == 0 {
                    self.enabled = false;
                }
            },
            0xFF22 => {
                self.clock_shift = val >> 4;
                self.width_mode = (val & 0x08) != 0;
                self.divisor_code = val & 0x07;
            },
            0xFF23 => {
                self.length_enable = (val & 0x40) != 0;
                if val & 0x80 != 0 {
                    self.trigger();
                }
            },
            _ => {},
        }
    }

    fn noise_timer_period(&self) -> (r: i32)
        requires
            self.wf(),
        ensures
            r == self.period(),
            8 <= r <= 0x380000,
    {
        proof {
            lemma_noise_period(self.divisor_code, self.clock_shift);
        }
        (DIVISOR_TABLE[self.divisor_code as usize] << self.clock_shift) as i32
    }

    fn trigger(&mut self)
        requires
            old(self).wf(),
        ensures
            final(self).wf(),
            *final(self) == old(self).triggered(),
    {
        self.enabled = true;
        if self.length_counter == 0 {
            self.length_counter = 64;
        }
        self.lfsr = 0x7FFF;
        self.freq_timer = self.noise_timer_period();
        self.volume = self.initial_volume;
        self.env_timer = self.env_period;
    }

    pub open spec fn length_clocked(self) -> Channel4 {
        if self.length_enable && self.length_counter > 0 {
            let lc = (self.length_counter - 1) as u16;
            Channel4 { length_counter: lc, enabled: self.enabled && lc != 0, ..self }
        } else {
            self
        }
    }

    /// Called at every length step (256 Hz) by the frame sequencer.
    pub fn clock_length(&mut self)
        ensures
            *final(self) == old(self).length_clocked(),
    {
        if self.length_enable && self.length_counter > 0 {
            self.length_counter = self.length_counter - 1;
            if self.length_counter == 0 {
                self.enabled = false;
            }
        }
    }

    pub open spec fn envelope_clocked(self) -> Channel4 {
        if self.env_period == 0 {
            self
        } else {
            let t = if self.env_timer > 0 {
                (self.env_timer - 1) as u8
            } else {
                self.env_timer
            };
            if t == 0 {
                let v = if self.env_add && self.volume < 15 {
                    (self.volume + 1) as u8
                } else if !self.env_add && self.volume > 0 {
                    (self.volume - 1) as u8
                } else {
                    self.volume
                };
                Channel4 { env_timer: self.env_period, volume: v, ..self }
            } else {
                Channel4 { env_timer: t, ..self }
            }
        }
    }

    /// Called at every envelope step (64 Hz) by the frame sequencer.
    pub fn clock_envelope(&mut self)
        ensures
            *final(self) == old(self).envelope_clocked(),
    {
        if self.env_period == 0 {
            return;
        }
        if self.env_timer > 0 {
            self.env_timer = self.env_timer - 1;
        }
        if self.env_timer == 0 {
            self.env_timer = self.env_period;
            if self.env_add && self.volume < 15 {
                self.volume = self.volume + 1;
            } else if !self.env_add && self.volume > 0 {
                self.volume = self.volume - 1;
            }
        }
    }

    /// The channel after `t` T-cycles of its timer (when enabled): the LFSR
    /// is clocked once per period elapsed; the output is the volume while
    /// LFSR bit 0 is clear, else 0.
    pub open spec fn tick_spec(self, t: u32) -> (Channel4, u8) {
        if !self.enabled {
            (self, 0)
        } else {
            let ft = self.freq_timer - t;
            let k = tick_count(ft, self.period());
            let c = Channel4 {
                freq_timer: (ft + k * self.period()) as i32,
                lfsr: lfsr_after(self.lfsr, self.width_mode, k as nat),
                ..self
            };
            (c, if c.lfsr & 1 == 0 {
                c.volume
            } else {
                0
            })
        }
    }

    /// Advance LFSR by `t_cycles` (T-cycles). Returns current output (0 or volume).
    pub fn tick(&mut self, t_cycles: u32) -> (r: u8)
        requires
            old(self).wf(),
            old(self).enabled ==> t_cycles <= i32::MAX,
        ensures
            final(self).wf(),
            (*final(self), r) == old(self).tick_spec(t_cycles),
            r <= 15,
    {
        if !self.enabled {
            return 0;
        }
        let period = self.noise_timer_period();
        self.freq_timer = self.freq_timer - t_cycles as i32;
        let ghost ft0 = self.freq_timer as int;
        let ghost mut k: int = 0;
        while self.freq_timer <= 0
            invariant
                period == old(self).period(),
                8 <= period <= 0x380000,
                k >= 0,
                self.freq_timer == ft0 + k * period,
                self.freq_timer <= 0x380000,
                k > 0 ==> ft0 + (k - 1) * period <= 0,
                self.lfsr == lfsr_after(old(self).lfsr, old(self).width_mode, k as nat),
                *self == (Channel4 { freq_timer: self.freq_timer, lfsr: self.lfsr, ..*old(self) }),
            decreases 0x380000 - self.freq_timer,
        {
            self.freq_timer = self.freq_timer + period;

            // Clock the LFSR: XOR bits 0 and 1, shift right, place result in bit 14
            let xor_bit = (self.lfsr & 1) ^ ((self.lfsr >> 1) & 1);
            self.lfsr = (self.lfsr >> 1) | (xor_bit << 14);
            if self.width_mode {
                // Also place XOR result in bit 6 for 7-bit mode
                self.lfsr = (self.lfsr & !(1u16 << 6)) | (xor_bit << 6);
            }
            proof {
                assert((k + 1) * period == k * period + period) by (nonlinear_arith);
                k = k + 1;
            }
        }
        proof {
            crate::io::apu::lemma_tick_count(ft0, period as int, k);
        }
        // Output: bit 0 inverted (0 = high output)
        if self.lfsr & 1 == 0 {
            self.volume
        } else {
            0
        }
    }
}

} // verus!
