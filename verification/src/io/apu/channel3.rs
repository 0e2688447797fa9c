use vstd::prelude::*;
use crate::io::apu::{lemma_register_masks, tick_count};

verus! {

/// Channel 3 — Wave channel (NR30–NR34 + wave RAM at 0xFF30–0xFF3F).
pub struct Channel3 {
    pub enabled: bool,
    pub dac_enabled: bool,
    // NR31: length_load (max 256)
    pub length_load: u8,
    // NR32: output_level [6:5]  0=mute,1=100%,2=50%,3=25%
    pub output_level: u8,
    // NR33/NR34: frequency + trigger + length_enable
    pub frequency: u16,
    pub length_enable: bool,
    // Wave RAM: 16 bytes holding 32 4-bit samples
    pub wave_ram: [u8; 16],
    // Internal state (timer in T-cycles)
    pub wave_pos: usize,
    pub freq_timer: i32,
    pub length_counter: u16,
}

impl Channel3 {
    /// The channel at power-on.
    pub open spec fn new_spec() -> Channel3 {
        Channel3 {
            enabled: false,
            dac_enabled: false,
            length_load: 0,
            output_level: 0,
            frequency: 0,
            length_enable: false,
            wave_ram: vstd::array::spec_array_fill_for_copy_type::<u8, 16>(0),
            wave_pos: 0,
            freq_timer: 0,
            length_counter: 0,
        }
    }

    pub fn new() -> (r: Self)
        ensures
            r.wf(),
            r == Self::new_spec(),
            forall|i: int| 0 <= i < 16 ==> r.wave_ram[i] == 0,
    {
        Self {
            enabled: false,
            dac_enabled: false,
            length_load: 0,
            output_level: 0,
            frequency: 0,
            length_enable: false,
            wave_ram: [0u8; 16],
            wave_pos: 0,
            freq_timer: 0,
            length_counter: 0,
        }
    }

    /// Register fields within their widths (the length counter within its
    /// full length), and the frequency timer within
    /// one period.
    pub open spec fn wf(&self) -> bool {
        &&& self.length_counter <= 256
        &&& (self.enabled ==> self.dac_enabled)
        &&& self.wave_pos < 32
        &&& self.frequency < 2048
        &&& 0 <= self.freq_timer <= 4096
    }

    /// The timer period of the current frequency, in T-cycles.
    pub open spec fn period(&self) -> int {
        (2048 - self.frequency) * 2
    }

    pub open spec fn read_spec(&self, addr: u16) -> u8 {
        if addr == 0xFF1A {
            ((if self.dac_enabled { 1u8 } else { 0u8 }) << 7) | 0x7F
        } else if addr == 0xFF1C {
            (self.output_level << 5) | 0x9F
        } else if addr == 0xFF1E {
            ((if self.length_enable { 1u8 } else { 0u8 }) << 6) | 0xBF
        } else if 0xFF30 <= addr <= 0xFF3F {
            self.wave_ram[addr - 0xFF30]
        } else {
            0xFF
        }
    }

    pub fn read_reg(&self, addr: u16) -> (r: u8)
        ensures
            r == self.read_spec(addr),
    {
        match addr {
            0xFF1A => ((if self.dac_enabled { 1u8 } else { 0u8 }) << 7) | 0x7F,
            0xFF1B => 0xFF,
            0xFF1C => (self.output_level << 5) | 0x9F,
            0xFF1D => 0xFF,
            0xFF1E => ((if self.length_enable { 1u8 } else { 0u8 }) << 6) | 0xBF,
            0xFF30..=0xFF3F => self.wave_ram[(addr - 0xFF30) as usize],
            _ => 0xFF,
        }
    }

    /// The channel after a trigger (NR34 bit 7): enabled if its DAC is on,
    /// length reloaded if it ran out, timer and wave position restarted.
    pub open spec fn triggered(self) -> Channel3 {
        Channel3 {
            enabled: self.enabled || self.dac_enabled,
            length_counter: if self.length_counter == 0 {
                256
            } else {
                self.length_counter
            },
            freq_timer: ((2048 - self.frequency) * 2) as i32,
            wave_pos: 0,
            ..self
        }
    }

    pub open spec fn write_spec(self, addr: u16, val: u8) -> Channel3 {
        if addr == 0xFF1A {
            let dac = (val & 0x80) != 0;
            Channel3 { dac_enabled: dac, enabled: self.enabled && dac, ..self }
        } else if addr == 0xFF1B {
            Channel3 { length_load: val, length_counter: (256 - val) as u16, ..self }
        } else if addr == 0xFF1C {
            Channel3 { output_level: (val >> 5) & 0x03, ..self }
        } else if addr == 0xFF1D {
            Channel3 { frequency: (self.frequency & 0x700) | val as u16, ..self }
        } else if addr == 0xFF1E {
            let c = Channel3 {
                frequency: (self.frequency & 0x00FF) | (((val & 0x07) as u16) << 8),
                length_enable: (val & 0x40) != 0,
                ..self
            };
            if val & 0x80 != 0 {
                c.triggered()
            } else {
                c
            }
        } else if 0xFF30 <= addr <= 0xFF3F {
            Channel3 { wave_ram: vstd::array::spec_array_update(self.wave_ram, addr - 0xFF30, val), ..self }
        } else {
            self
        }
    }

    pub fn write_reg(&mut self, addr: u16, val: u8)
        requires
            old(self).wf(),
        ensures
            final(self).wf(),
            *final(self) == old(self).write_spec(addr, val),
    {
        proof {
            lemma_register_masks(val, self.frequency);
        }
        match addr {
            0xFF1A => {
                self.dac_enabled = (val & 0x80) != 0;
                if !self.dac_enabled {
                    self.enabled = false;
                }
            },
            0xFF1B => {
                self.length_load = val;
                self.length_counter = 256 - val as u16;
            },
            0xFF1C => {
                self.output_level = (val >> 5) & 0x03;
            },
            0xFF1D => {
                self.frequency = (self.frequency & 0x700) | val as u16;
            },
            0xFF1E => {
                self.frequency = (self.frequency & 0x00FF) | (((val & 0x07) as u16) << 8);
                self.length_enable = (val & 0x40) != 0;
                if val & 0x80 != 0 {
                    self.trigger();
                }
            },
            0xFF30..=0xFF3F => {
                self.wave_ram[(addr - 0xFF30) as usize] = val;
            },
            _ => {},
        }
    }

    fn trigger(&mut self)
        requires
            old(self).wf(),
        ensures
            final(self).wf(),
            *final(self) == old(self).triggered(),
    {
        if self.dac_enabled {
            self.enabled = true;
        }
        if self.length_counter == 0 {
            self.length_counter = 256;
        }
        self.freq_timer = (2048 - self.frequency as i32) * 2;
        self.wave_pos = 0;
    }

    pub open spec fn length_clocked(self) -> Channel3 {
        if self.length_enable && self.length_counter > 0 {
            let lc = (self.length_counter - 1) as u16;
            Channel3 { length_counter: lc, enabled: self.enabled && lc != 0, ..self }
        } else {
            self
        }
    }

    /// Called at every length step (256 Hz) by the frame sequencer.
    pub fn clock_length(&mut self)
        ensures
            *final(self) == old(self).length_clocked(),
    {
        if self.length_enable && self.length_counter > 0 {
            self.length_counter = self.length_counter - 1;
            if self.length_counter == 0 {
                self.enabled = false;
            }
        }
    }

    /// The 4-bit sample at the current wave position (high nibble first).
    pub open spec fn sample(self) -> u8 {
        let byte = self.wave_ram[(self.wave_pos / 2) as int];
        if self.wave_pos & 1 == 0 {
            byte >> 4
        } else {
            byte & 0x0F
        }
    }

    /// The channel after `t` T-cycles of its frequency timer (when enabled),
    /// and the sample it then outputs, scaled by the output level.
    pub open spec fn tick_spec(self, t: u32) -> (Channel3, u8) {
        if !self.enabled {
            (self, 0)
        } else {
            let ft = self.freq_timer - t;
            let k = tick_count(ft, self.period());
            let c = Channel3 {
                freq_timer: (ft + k * self.period()) as i32,
                wave_pos: ((self.wave_pos + k) % 32) as usize,
                ..self
            };
            let nibble = c.sample();
            (c, if c.output_level == 1 {
                nibble
            } else if c.output_level == 2 {
                nibble >> 1
            } else if c.output_level == 3 {
                nibble >> 2
            } else {
                0
            })
        }
    }

    /// Advance by `t_cycles` (T-cycles). Returns current output sample (0–15).
    pub fn tick(&mut self, t_cycles: u32) -> (r: u8)
        requires
            old(self).wf(),
            old(self).enabled ==> t_cycles <= i32::MAX,
        ensures
            final(self).wf(),
            (*final(self), r) == old(self).tick_spec(t_cycles),
            r <= 15,
    {
        if !self.enabled {
            return 0;
        }
        let period: i32 = (2048 - self.frequency as i32) * 2;
        self.freq_timer = self.freq_timer - t_cycles as i32;
        let ghost ft0 = self.freq_timer as int;
        let ghost mut k: int = 0;
        while self.freq_timer <= 0
            invariant
                period == old(self).period(),
                0 < period <= 4096,
                self.wave_pos < 32,
                k >= 0,
                self.freq_timer == ft0 + k * period,
                self.freq_timer <= 4096,
                k > 0 ==> ft0 + (k - 1) * period <= 0,
                self.wave_pos == (old(self).wave_pos + k) % 32,
                *self == (Channel3 { freq_timer: self.freq_timer, wave_pos: self.wave_pos, ..*old(self) }),
            decreases 4096 - self.freq_timer,
        {
            self.freq_timer = self.freq_timer + period;
            self.wave_pos = (self.wave_pos + 1) % 32;
            proof {
                assert((k + 1) * period == k * period + period) by (nonlinear_arith);
                k = k + 1;
            }
        }
        proof {
            crate::io::apu::lemma_tick_count(ft0, period as int, k);
        }
        let byte = self.wave_ram[self.wave_pos / 2];
        let nibble = if self.wave_pos & 1 == 0 {
            byte >> 4
        } else {
            byte & 0x0F
        };
        assert(byte >> 4 <= 15 && byte & 0x0F <= 15 && (nibble <= 15 ==> nibble >> 1 <= 15 && nibble
            >> 2 <= 15)) by (bit_vector);
        match self.output_level {
            0 => 0,
            1 => nibble,
            2 => nibble >> 1,
            3 => nibble >> 2,
            _ => 0,
        }
    }
}

/// Wave RAM gives back what was written to it.
pub proof fn lemma_wave_ram_read_back(c: Channel3, addr: u16, val: u8)
    requires
        0xFF30 <= addr <= 0xFF3F,
    ensures
        c.write_spec(addr, val).read_spec(addr) == val,
{
}

/// One call on channel 3: a register or wave-RAM write, a run of the
/// frequency timer, or a length clock.
pub enum Channel3Op {
    Write(u16, u8),
    Tick(u32),
    ClockLength,
}

impl Channel3 {
    /// The channel after one call, as the call's contract gives it.
    pub open spec fn apply(self, op: Channel3Op) -> Channel3 {
        match op {
            Channel3Op::Write(a, v) => self.write_spec(a, v),
            Channel3Op::Tick(t) => self.tick_spec(t).0,
            Channel3Op::ClockLength => self.length_clocked(),
        }
    }

    /// The channel after a sequence of calls, first to last.
    pub open spec fn after_ops(self, ops: Seq<Channel3Op>) -> Channel3
        decreases ops.len(),
    {
        if ops.len() == 0 {
            self
        } else {
            self.after_ops(ops.drop_last()).apply(ops.last())
        }
    }
}

/// The value of the last write to `addr` in `ops`, if there is one.
pub open spec fn last_write(ops: Seq<Channel3Op>, addr: u16) -> Option<u8>
    decreases ops.len(),
{
    if ops.len() == 0 {
        None
    } else {
        match ops.last() {
            Channel3Op::Write(a, v) => if a == addr {
                Some(v)
            } else {
                last_write(ops.drop_last(), addr)
            },
            _ => last_write(ops.drop_last(), addr),
        }
    }
}

/// What an address of channel 3 reads after `v` was written to it: NR30
/// with all but the DAC bit set, NR32 with all but the level bits set,
/// NR34 with all but the length-enable bit set, a wave-RAM byte as
/// written; NR31, NR33 and unmapped addresses read 0xFF.
pub open spec fn register_read_back(addr: u16, v: u8) -> u8 {
    if addr == 0xFF1A {
        v | 0x7F
    } else if addr == 0xFF1C {
        v | 0x9F
    } else if addr == 0xFF1E {
        v | 0xBF
    } else if 0xFF30 <= addr <= 0xFF3F {
        v
    } else {
        0xFF
    }
}

/// Every register and wave-RAM byte of channel 3 reads back the value last
/// written to it (a wave byte exactly, whether the channel or its DAC is
/// on or not), whatever other writes, timer runs and length clocks came
/// after; one never written reads as before, and on a fresh channel as if
/// 0 had been written.
pub proof fn lemma_read_back_after(c: Channel3, ops: Seq<Channel3Op>, addr: u16)
    ensures
        c.after_ops(ops).read_spec(addr) == match last_write(ops, addr) {
            Some(v) => register_read_back(addr, v),
            None => c.read_spec(addr),
        },
        Channel3::new_spec().read_spec(addr) == register_read_back(addr, 0),
    decreases ops.len(),
{
    assert((0u8 << 7) | 0x7F == 0u8 | 0x7F && (0u8 << 5) | 0x9F == 0u8 | 0x9F && (0u8 << 6) | 0xBF
        == 0u8 | 0xBF) by (bit_vector);
    if 0xFF30 <= addr <= 0xFF3F {
        assert(Channel3::new_spec().wave_ram@[addr - 0xFF30] == 0);
    }
    if ops.len() > 0 {
        lemma_read_back_after(c, ops.drop_last(), addr);
        let p = c.after_ops(ops.drop_last());
        match ops.last() {
            Channel3Op::Write(a, v) => {
                let dac = (v & 0x80) != 0;
                assert(((if dac { 1u8 } else { 0u8 }) << 7) | 0x7F == v | 0x7F) by (bit_vector)
                    requires
                        dac == ((v & 0x80) != 0),
                ;
                assert((((v >> 5) & 0x03) << 5) | 0x9F == v | 0x9F) by (bit_vector);
                let le = (v & 0x40) != 0;
                assert(((if le { 1u8 } else { 0u8 }) << 6) | 0xBF == v | 0xBF) by (bit_vector)
                    requires
                        le == ((v & 0x40) != 0),
                ;
            },
            _ => {},
        }
    }
}

} // verus!
