use vstd::prelude::*;
use crate::io::apu::{lemma_register_masks, tick_count, DUTY_TABLE};

verus! {

/// Channel 1 — Square wave with frequency sweep (NR10–NR14).
pub struct Channel1 {
    pub enabled: bool,
    // NR10: sweep
    pub sweep_period: u8,
    pub sweep_negate: bool,
    pub sweep_shift: u8,
    // NR11: duty[7:6], length_load[5:0]
    pub duty: u8,
    pub length_load: u8,
    // NR12: initial_volume[7:4], env_dir[3], env_period[2:0]
    pub initial_volume: u8,
    pub env_add: bool,
    pub env_period: u8,
    // NR13/NR14: frequency + trigger + length_enable
    pub frequency: u16,
    pub length_enable: bool,
    // Internal state (all timers in T-cycles)
    pub duty_pos: usize,
    pub freq_timer: i32,
    pub volume: u8,
    pub env_timer: u8,
    pub length_counter: u16,
    pub shadow_freq: u16,
    pub sweep_timer: u8,
    pub sweep_enabled: bool,
}

/// The frequency the sweep unit computes from the shadow frequency.
pub open spec fn sweep_target(shadow: u16, shift: u8, negate: bool) -> u16 {
    let delta = shadow >> shift;
    if negate {
        shadow.wrapping_sub(delta)
    } else {
        shadow.wrapping_add(delta)
    }
}

impl Channel1 {
    /// The channel at power-on.
    pub open spec fn new_spec() -> Channel1 {
        Channel1 {
            enabled: false,
            sweep_period: 0,
            sweep_negate: false,
            sweep_shift: 0,
            duty: 0,
            length_load: 0,
            initial_volume: 0,
            env_add: false,
            env_period: 0,
            frequency: 0,
            length_enable: false,
            duty_pos: 0,
            freq_timer: 0,
            volume: 0,
            env_timer: 0,
            length_counter: 0,
            shadow_freq: 0,
            sweep_timer: 0,
            sweep_enabled: false,
        }
    }

    pub fn new() -> (r: Self)
        ensures
            r.wf(),
            r == Self::new_spec(),
    {
        Self {
            enabled: false,
            sweep_period: 0,
            sweep_negate: false,
            sweep_shift: 0,
            duty: 0,
            length_load: 0,
            initial_volume: 0,
            env_add: false,
            env_period: 0,
            frequency: 0,
            length_enable: false,
            duty_pos: 0,
            freq_timer: 0,
            volume: 0,
            env_timer: 0,
            length_counter: 0,
            shadow_freq: 0,
            sweep_timer: 0,
            sweep_enabled: false,
        }
    }

    /// Register fields within their widths (the length counter within its
    /// full length), and the frequency timer within
    /// one period.
    pub open spec fn wf(&self) -> bool {
        &&& self.length_counter <= 64
        &&& self.volume <= 15
        &&& self.initial_volume <= 15
        &&& self.duty < 4
        &&& self.duty_pos < 8
        &&& self.frequency < 2048
        &&& 0 <= self.freq_timer <= 8192
        &&& self.sweep_shift < 8
    }

    /// The timer period of the current frequency, in T-cycles.
    pub open spec fn period(&self) -> int {
        (2048 - self.frequency) * 4
    }

    pub open spec fn read_spec(&self, addr: u16) -> u8 {
        if addr == 0xFF10 {
            ((self.sweep_period & 0x07) << 4) | ((if self.sweep_negate { 1u8 } else { 0u8 }) << 3) | (self.sweep_shift
                & 0x07) | 0x80
        } else if addr == 0xFF11 {
            (self.duty << 6) | 0x3F
        } else if addr == 0xFF12 {
            (self.initial_volume << 4) | ((if self.env_add { 1u8 } else { 0u8 }) << 3) | self.env_period
        } else if addr == 0xFF14 {
            ((if self.length_enable { 1u8 } else { 0u8 }) << 6) | 0xBF
        } else {
            0xFF
        }
    }

    pub fn read_reg(&self, addr: u16) -> (r: u8)
        ensures
            r == self.read_spec(addr),
    {
        match addr {
            0xFF10 => {
                ((self.sweep_period & 0x07) << 4) | ((if self.sweep_negate { 1u8 } else { 0u8 }) << 3) | (
                self.sweep_shift & 0x07) | 0x80
            },
            0xFF11 => (self.duty << 6) | 0x3F,
            0xFF12 => {
                (self.initial_volume << 4) | ((if self.env_add { 1u8 } else { 0u8 }) << 3)
                    | self.env_period
            },
            0xFF13 => 0xFF,
            0xFF14 => ((if self.length_enable { 1u8 } else { 0u8 }) << 6) | 0xBF,
            _ => 0xFF,
        }
    }

    /// The channel after a trigger (NR14 bit 7): enabled, length reloaded
    /// if it ran out, timer, volume and envelope restarted, the sweep unit
    /// reloaded; an immediate sweep overflow disables it again.
    pub open spec fn triggered(self) -> Channel1 {
        let c = Channel1 {
            enabled: true,
            length_counter: if self.length_counter == 0 {
                64
            } else {
                self.length_counter
            },
            freq_timer: ((2048 - self.frequency) * 4) as i32,
            volume: self.initial_volume,
            env_timer: self.env_period,
            shadow_freq: self.frequency,
            sweep_timer: if self.sweep_period == 0 {
                8
            } else {
                self.sweep_period
            },
            sweep_enabled: self.sweep_period != 0 || self.sweep_shift != 0,
            ..self
        };
        if c.sweep_shift != 0 && sweep_target(c.shadow_freq, c.sweep_shift, c.sweep_negate) > 2047 {
            Channel1 { enabled: false, ..c }
        } else {
            c
        }
    }

    pub open spec fn write_spec(self, addr: u16, val: u8) -> Channel1 {
        if addr == 0xFF10 {
            Channel1 {
                sweep_period: (val >> 4) & 0x07,
                sweep_negate: (val & 0x08) != 0,
                sweep_shift: val & 0x07,
                ..self
            }
        } else if addr == 0xFF11 {
            Channel1 {
                duty: (val >> 6) & 0x03,
                length_load: val & 0x3F,
                length_counter: (64 - (val & 0x3F)) as u16,
                ..self
            }
        } else if addr == 0xFF12 {
            Channel1 {
                initial_volume: val >> 4,
                env_add: (val & 0x08) != 0,
                env_period: val & 0x07,
                enabled: self.enabled && val & 0xF8 != 0,
                ..self
            }
        } else if addr == 0xFF13 {
            Channel1 { frequency: (self.frequency & 0x700) | val as u16, ..self }
        } else if addr == 0xFF14 {
            let c = Channel1 {
                frequency: (self.frequency & 0x00FF) | (((val & 0x07) as u16) << 8),
                length_enable: (val & 0x40) != 0,
                ..self
            };
            if val & 0x80 != 0 {
                c.triggered()
            } else {
                c
            }
        } else {
            self
        }
    }

    pub fn write_reg(&mut self, addr: u16, val: u8)
        requires
            old(self).wf(),
        ensures
            final(self).wf(),
            *final(self) == old(self).write_spec(addr, val),
    {
        proof {
            lemma_register_masks(val, self.frequency);
        }
        match addr {
            0xFF10 => {
                self.sweep_period = (val >> 4) & 0x07;
                self.sweep_negate = (val & 0x08) != 0;
                self.sweep_shift = val & 0x07;
            },
            0xFF11 => {
                self.duty = (val >> 6) & 0x03;
                self.length_load = val & 0x3F;
                self.length_counter = 64 - self.length_load as u16;
            },
            0xFF12 => {
                self.initial_volume = val >> 4;
                self.env_add = (val & 0x08) != 0;
                self.env_period = val & 0x07;
                if val & 0xF8 == 0 {
                    self.enabled = false;
                }
            },
            0xFF13 => {
                self.frequency = (self.frequency & 0x700) | val as u16;
            },
            0xFF14 => {
                self.frequency = (self.frequency & 0x00FF) | (((val & 0x07) as u16) << 8);
                self.length_enable = (val & 0x40) != 0;
                if val & 0x80 != 0 {
                    self.trigger();
                }
            },
            _ => {},
        }
    }

    fn calculate_sweep_freq(&self) -> (r: u16)
        requires
            self.sweep_shift < 8,
        ensures
            r == sweep_target(self.shadow_freq, self.sweep_shift, self.sweep_negate),
    {
        let delta = self.shadow_freq >> self.sweep_shift;
        if self.sweep_negate {
            self.shadow_freq.wrapping_sub(delta)
        } else {
            self.shadow_freq.wrapping_add(delta)
        }
    }

    fn trigger(&mut self)
        requires
            old(self).wf(),
        ensures
            final(self).wf(),
            *final(self) == old(self).triggered(),
    {
        self.enabled = true;
        if self.length_counter == 0 {
            self.length_counter = 64;
        }
        self.freq_timer = (2048 - self.frequency as i32) * 4;
        self.volume = self.initial_volume;
        self.env_timer = self.env_period;
        self.shadow_freq = self.frequency;
        self.sweep_timer = if self.sweep_period == 0 {
            8
        } else {
            self.sweep_period
        };
        self.sweep_enabled = self.sweep_period != 0 || self.sweep_shift != 0;
        if self.sweep_shift != 0 {
            let new_freq = self.calculate_sweep_freq();
            if new_freq > 2047 {
                self.enabled = false;
            }
        }
    }

    pub open spec fn length_clocked(self) -> Channel1 {
        if self.length_enable && self.length_counter > 0 {
            let lc = (self.length_counter - 1) as u16;
            Channel1 { length_counter: lc, enabled: self.enabled && lc != 0, ..self }
        } else {
            self
        }
    }

    /// Called at every length step (256 Hz) by the frame sequencer.
    pub fn clock_length(&mut self)
        ensures
            *final(self) == old(self).length_clocked(),
    {
        if self.length_enable && self.length_counter > 0 {
            self.length_counter = self.length_counter - 1;
            if self.length_counter == 0 {
                self.enabled = false;
            }
        }
    }

    pub open spec fn envelope_clocked(self) -> Channel1 {
        if self.env_period == 0 {
            self
        } else {
            let t = if self.env_timer > 0 {
                (self.env_timer - 1) as u8
            } else {
                self.env_timer
            };
            if t == 0 {
                let v = if self.env_add && self.volume < 15 {
                    (self.volume + 1) as u8
                } else if !self.env_add && self.volume > 0 {
                    (self.volume - 1) as u8
                } else {
                    self.volume
                };
                Channel1 { env_timer: self.env_period, volume: v, ..self }
            } else {
                Channel1 { env_timer: t, ..self }
            }
        }
    }

    /// Called at every envelope step (64 Hz) by the frame sequencer.
    pub fn clock_envelope(&mut self)
        ensures
            *final(self) == old(self).envelope_clocked(),
    {
        if self.env_period == 0 {
            return;
        }
        if self.env_timer > 0 {
            self.env_timer = self.env_timer - 1;
        }
        if self.env_timer == 0 {
            self.env_timer = self.env_period;
            if self.env_add && self.volume < 15 {
                self.volume = self.volume + 1;
            } else if !self.env_add && self.volume > 0 {
                self.volume = self.volume - 1;
            }
        }
    }

    pub open spec fn sweep_clocked(self) -> Channel1 {
        let t = if self.sweep_timer > 0 {
            (self.sweep_timer - 1) as u8
        } else {
            self.sweep_timer
        };
        if t != 0 {
            Channel1 { sweep_timer: t, ..self }
        } else {
            let c = Channel1 {
                sweep_timer: if self.sweep_period == 0 {
                    8
                } else {
                    self.sweep_period
                },
                ..self
            };
            if c.sweep_enabled && c.sweep_period != 0 {
                let new_freq = sweep_target(c.shadow_freq, c.sweep_shift, c.sweep_negate);
                if new_freq > 2047 {
                    Channel1 { enabled: false, ..c }
                } else if c.sweep_shift != 0 {
                    let d = Channel1 { frequency: new_freq, shadow_freq: new_freq, ..c };
                    if sweep_target(new_freq, c.sweep_shift, c.sweep_negate) > 2047 {
                        Channel1 { enabled: false, ..d }
                    } else {
                        d
                    }
                } else {
                    c
                }
            } else {
                c
            }
        }
    }

    /// Called at every sweep step (128 Hz) by the frame sequencer.
    pub fn clock_sweep(&mut self)
        requires
            old(self).wf(),
        ensures
            final(self).wf(),
            *final(self) == old(self).sweep_clocked(),
    {
        if self.sweep_timer > 0 {
            self.sweep_timer = self.sweep_timer - 1;
        }
        if self.sweep_timer == 0 {
            self.sweep_timer = if self.sweep_period == 0 {
                8
            } else {
                self.sweep_period
            };
            if self.sweep_enabled && self.sweep_period != 0 {
                let new_freq = self.calculate_sweep_freq();
                if new_freq > 2047 {
                    self.enabled = false;
                } else if self.sweep_shift != 0 {
                    self.frequency = new_freq;
                    self.shadow_freq = new_freq;
                    // Second overflow check
                    let check = self.calculate_sweep_freq();
                    if check > 2047 {
                        self.enabled = false;
                    }
                }
            }
        }
    }

    /// The channel after `t` T-cycles of its frequency timer (when enabled),
    /// and the sample it then outputs: its volume on a high step of the duty
    /// pattern, else 0.
    pub open spec fn tick_spec(self, t: u32) -> (Channel1, u8) {
        if !self.enabled {
            (self, 0)
        } else {
            let ft = self.freq_timer - (t as i32);
            let k = tick_count(ft, self.period());
            let c = Channel1 {
                freq_timer: (ft + k * self.period()) as i32,
                duty_pos: ((self.duty_pos + k) % 8) as usize,
                ..self
            };
            (c, if DUTY_TABLE[c.duty as int][c.duty_pos as int] != 0 {
                c.volume
            } else {
                0
            })
        }
    }

    /// Advance frequency timer by `t_cycles` (T-cycles). Returns current output (0 or volume).
    pub fn tick(&mut self, t_cycles: u32) -> (r: u8)
        requires
            old(self).wf(),
            old(self).enabled ==> t_cycles <= i32::MAX,
        ensures
            final(self).wf(),
            (*final(self), r) == old(self).tick_spec(t_cycles),
            r <= 15,
    {
        if !self.enabled {
            return 0;
        }
        let period: i32 = (2048 - self.frequency as i32) * 4;
        self.freq_timer = self.freq_timer - t_cycles as i32;
        let ghost ft0 = self.freq_timer as int;
        let ghost mut k: int = 0;
        while self.freq_timer <= 0
            invariant
                period == old(self).period(),
                0 < period <= 8192,
                self.duty_pos < 8,
                k >= 0,
                self.freq_timer == ft0 + k * period,
                self.freq_timer <= 8192,
                k > 0 ==> ft0 + (k - 1) * period <= 0,
                self.duty_pos == (old(self).duty_pos + k) % 8,
                self.duty == old(self).duty,
                self.frequency == old(self).frequency,
                *self == (Channel1 { freq_timer: self.freq_timer, duty_pos: self.duty_pos, ..*old(self) }),
            decreases 8192 - self.freq_timer,
        {
            self.freq_timer = self.freq_timer + period;
            self.duty_pos = (self.duty_pos + 1) % 8;
            proof {
                assert((k + 1) * period == k * period + period) by (nonlinear_arith);
                k = k + 1;
            }
        }
        proof {
            crate::io::apu::lemma_tick_count(ft0, period as int, k);
        }
        if DUTY_TABLE[self.duty as usize][self.duty_pos] != 0 {
            self.volume
        } else {
            0
        }
    }
}

/// Reading a register back after writing it: NR10 gives the value with
/// bit 7 set, NR11 the duty bits, NR12 the whole value, NR13 0xFF (write
/// only), NR14 the length-enable bit; the other bits read as 1.
pub proof fn lemma_registers_read_back(c: Channel1, addr: u16, val: u8)
    ensures
        addr == 0xFF10 ==> c.write_spec(addr, val).read_spec(addr) == val | 0x80,
        addr == 0xFF11 ==> c.write_spec(addr, val).read_spec(addr) == (val & 0xC0) | 0x3F,
        addr == 0xFF12 ==> c.write_spec(addr, val).read_spec(addr) == val,
        addr == 0xFF13 ==> c.write_spec(addr, val).read_spec(addr) == 0xFF,
        addr == 0xFF14 ==> c.write_spec(addr, val).read_spec(addr) == (val & 0x40) | 0xBF,
{
    let neg = (val & 0x08) != 0;
    assert((((val >> 4) & 0x07) & 0x07) << 4 | ((if neg { 1u8 } else { 0u8 }) << 3) | ((val & 0x07)
        & 0x07) | 0x80 == val | 0x80) by (bit_vector)
        requires
            neg == ((val & 0x08) != 0),
    ;
    assert((((val >> 6) & 0x03) << 6) | 0x3F == (val & 0xC0) | 0x3F) by (bit_vector);
    let add = (val & 0x08) != 0;
    assert(((val >> 4) << 4) | ((if add { 1u8 } else { 0u8 }) << 3) | (val & 0x07) == val) by (bit_vector)
        requires
            add == ((val & 0x08) != 0),
    ;
    let le = (val & 0x40) != 0;
    assert(((if le { 1u8 } else { 0u8 }) << 6) | 0xBF == (val & 0x40) | 0xBF) by (bit_vector)
        requires
            le == ((val & 0x40) != 0),
    ;
}

/// One call on channel 1: a register write, a run of the frequency timer,
/// or one of the frame sequencer's clocks.
pub enum Channel1Op {
    Write(u16, u8),
    Tick(u32),
    ClockLength,
    ClockEnvelope,
    ClockSweep,
}

impl Channel1 {
    /// The channel after one call, as the call's contract gives it.
    pub open spec fn apply(self, op: Channel1Op) -> Channel1 {
        match op {
            Channel1Op::Write(a, v) => self.write_spec(a, v),
            Channel1Op::Tick(t) => self.tick_spec(t).0,
            Channel1Op::ClockLength => self.length_clocked(),
            Channel1Op::ClockEnvelope => self.envelope_clocked(),
            Channel1Op::ClockSweep => self.sweep_clocked(),
        }
    }

    /// The channel after a sequence of calls, first to last.
    pub open spec fn after_ops(self, ops: Seq<Channel1Op>) -> Channel1
        decreases ops.len(),
    {
        if ops.len() == 0 {
            self
        } else {
            self.after_ops(ops.drop_last()).apply(ops.last())
        }
    }
}

/// The value of the last write to `addr` in `ops`, if there is one.
pub open spec fn last_write(ops: Seq<Channel1Op>, addr: u16) -> Option<u8>
    decreases ops.len(),
{
    if ops.len() == 0 {
        None
    } else {
        match ops.last() {
            Channel1Op::Write(a, v) => if a == addr {
                Some(v)
            } else {
                last_write(ops.drop_last(), addr)
            },
            _ => last_write(ops.drop_last(), addr),
        }
    }
}

/// What a register of channel 1 reads after `v` was written to it: NR10
/// with bit 7 set, NR11 with the length bits set, NR12 as written, NR14
/// with all but the length-enable bit set; NR13 and unmapped addresses
/// read 0xFF.
pub open spec fn register_read_back(addr: u16, v: u8) -> u8 {
    if addr == 0xFF10 {
        v | 0x80
    } else if addr == 0xFF11 {
        v | 0x3F
    } else if addr == 0xFF12 {
        v
    } else if addr == 0xFF14 {
        v | 0xBF
    } else {
        0xFF
    }
}

/// Every register of channel 1 reads back the value last written to it,
/// its unused bits set, whatever writes to other registers, timer runs
/// and frame-sequencer clocks came after; a register never written reads
/// as before, and on a fresh channel as if 0 had been written.
pub proof fn lemma_registers_read_back_after(c: Channel1, ops: Seq<Channel1Op>, addr: u16)
    ensures
        c.after_ops(ops).read_spec(addr) == match last_write(ops, addr) {
            Some(v) => register_read_back(addr, v),
            None => c.read_spec(addr),
        },
        Channel1::new_spec().read_spec(addr) == register_read_back(addr, 0),
    decreases ops.len(),
{
    assert(((0u8 & 0x07) << 4) | (0u8 << 3) | (0u8 & 0x07) | 0x80 == 0u8 | 0x80
        && (0u8 << 6) | 0x3F == 0u8 | 0x3F && (0u8 << 4) | (0u8 << 3) | 0u8 == 0u8
        && (0u8 << 6) | 0xBF == 0u8 | 0xBF) by (bit_vector);
    if ops.len() > 0 {
        lemma_registers_read_back_after(c, ops.drop_last(), addr);
        let p = c.after_ops(ops.drop_last());
        match ops.last() {
            Channel1Op::Write(a, v) => {
                lemma_registers_read_back(p, a, v);
                assert((v & 0xC0) | 0x3F == v | 0x3F && (v & 0x40) | 0xBF == v | 0xBF)
                    by (bit_vector);
            },
            _ => {},
        }
    }
}

} // verus!
