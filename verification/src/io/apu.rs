//! The audio processing unit and its four channels.

pub mod channel1;
pub mod channel2;
pub mod channel3;
pub mod channel4;

use vstd::prelude::*;
use crate::mmu::{MemHandler, MemRead, MemWrite};
use channel1::Channel1;
use channel2::Channel2;
use channel3::Channel3;
use channel4::Channel4;

verus! {

/// Duty cycle waveform table (8 steps each).
/// Patterns: 12.5%, 25%, 50%, 75%.
pub const DUTY_TABLE: [[u8; 8]; 4] = [
    [0, 0, 0, 0, 0, 0, 0, 1],
    [1, 0, 0, 0, 0, 0, 0, 1],
    [1, 0, 0, 0, 1, 1, 1, 1],
    [0, 1, 1, 1, 1, 1, 1, 0],
];

/// How many times a frequency timer that reads `ft` after counting down
/// reloads with `period` before it is positive again.
pub open spec fn tick_count(ft: int, period: int) -> int {
    if ft > 0 {
        0
    } else {
        (0 - ft) / period + 1
    }
}

/// A timer that has just turned positive after `k` reloads reloaded
/// exactly `tick_count` times.
pub proof fn lemma_tick_count(ft: int, period: int, k: int)
    requires
        period > 0,
        k >= 0,
        ft + k * period > 0,
        k > 0 ==> ft + (k - 1) * period <= 0,
        k == 0 ==> ft > 0,
    ensures
        k == tick_count(ft, period),
{
    if k > 0 {
        let x = 0 - ft;
        let r = x - (k - 1) * period;
        assert(0 <= r < period) by (nonlinear_arith)
            requires
                ft + k * period > 0,
                ft + (k - 1) * period <= 0,
                r == (0 - ft) - (k - 1) * period,
                period > 0,
        ;
        vstd::arithmetic::div_mod::lemma_fundamental_div_mod_converse(x, period, k - 1, r);
    }
}

/// Register fields written from a byte keep their widths.
pub proof fn lemma_register_masks(val: u8, freq: u16)
    ensures
        val & 0x3F <= 63,
        (val >> 6) & 0x03 < 4,
        val >> 4 <= 15,
        val & 0x07 < 8,
        (val >> 4) & 0x07 < 8,
        (val >> 5) & 0x03 < 4,
        freq < 2048 ==> (freq & 0x700) | (val as u16) < 2048,
        (freq & 0x00FF) | (((val & 0x07) as u16) << 8) < 2048,
{
    assert(val & 0x3F <= 63 && (val >> 6) & 0x03 < 4 && val >> 4 <= 15 && val & 0x07 < 8 && (val
        >> 4) & 0x07 < 8 && (val >> 5) & 0x03 < 4 && (freq < 2048 ==> (freq & 0x700) | (val as u16)
        < 2048) && (freq & 0x00FF) | (((val & 0x07) as u16) << 8) < 2048) by (bit_vector);
}


/// Frame sequencer period in T-cycles (512 Hz).
pub const FRAME_SEQ_PERIOD: u32 = 32_768;

/// Output samples per second.
pub const SAMPLE_RATE: u64 = 44_100;

/// T-cycles per second (4 per CPU clock): one output sample is due every
/// T_CYCLES_PER_SECOND / SAMPLE_RATE T-cycles, which the sample clock counts
/// exactly by advancing SAMPLE_RATE per T-cycle.
pub const T_CYCLES_PER_SECOND: u64 = 16_777_216;

pub struct Apu {
    pub ch1: Channel1,
    pub ch2: Channel2,
    pub ch3: Channel3,
    pub ch4: Channel4,
    /// NR50 (0xFF24): L/R master volume
    pub nr50: u8,
    /// NR51 (0xFF25): channel panning
    pub nr51: u8,
    /// NR52 (0xFF26): master enable
    pub master_enable: bool,
    // Frame sequencer
    pub frame_seq_timer: u32,
    pub frame_seq_step: u8,
    /// Sample clock: T-cycles since the last sample, times SAMPLE_RATE
    pub sample_clock: u64,
}

impl Apu {
    /// The state at power-on: every channel reset, full volume on both
    /// sides, sound on, the frame sequencer and sample clock at zero.
    pub open spec fn fresh_spec() -> Apu {
        Apu {
            ch1: Channel1::new_spec(),
            ch2: Channel2::new_spec(),
            ch3: Channel3::new_spec(),
            ch4: Channel4::new_spec(),
            nr50: 0x77,
            nr51: 0xF3,
            master_enable: true,
            frame_seq_timer: 0,
            frame_seq_step: 0,
            sample_clock: 0,
        }
    }

    pub fn new() -> (r: Self)
        ensures
            r.wf(),
            r == Apu::fresh_spec(),
    {
        Self {
            ch1: Channel1::new(),
            ch2: Channel2::new(),
            ch3: Channel3::new(),
            ch4: Channel4::new(),
            nr50: 0x77,
            nr51: 0xF3,
            master_enable: true,
            frame_seq_timer: 0,
            frame_seq_step: 0,
            sample_clock: 0,
        }
    }

    pub open spec fn channels_wf(&self) -> bool {
        &&& self.ch1.wf()
        &&& self.ch2.wf()
        &&& self.ch3.wf()
        &&& self.ch4.wf()
    }

    pub open spec fn wf(&self) -> bool {
        &&& self.channels_wf()
        &&& self.frame_seq_timer < FRAME_SEQ_PERIOD
        &&& self.frame_seq_step < 8
        &&& self.sample_clock < T_CYCLES_PER_SECOND
    }

    /// The APU after one frame-sequencer step: lengths on steps 0, 2, 4, 6,
    /// the channel 1 sweep on steps 2 and 6, envelopes on step 7.
    pub open spec fn sequenced_once(self) -> Apu {
        let s = self.frame_seq_step;
        let a = if s == 0 || s == 4 {
            Apu {
                ch1: self.ch1.length_clocked(),
                ch2: self.ch2.length_clocked(),
                ch3: self.ch3.length_clocked(),
                ch4: self.ch4.length_clocked(),
                ..self
            }
        } else if s == 2 || s == 6 {
            Apu {
                ch1: self.ch1.length_clocked().sweep_clocked(),
                ch2: self.ch2.length_clocked(),
                ch3: self.ch3.length_clocked(),
                ch4: self.ch4.length_clocked(),
                ..self
            }
        } else if s == 7 {
            Apu {
                ch1: self.ch1.envelope_clocked(),
                ch2: self.ch2.envelope_clocked(),
                ch4: self.ch4.envelope_clocked(),
                ..self
            }
        } else {
            self
        };
        Apu { frame_seq_step: ((s + 1) % 8) as u8, ..a }
    }

    /// The APU after `n` frame-sequencer steps.
    pub open spec fn sequenced(self, n: nat) -> Apu
        decreases n,
    {
        if n == 0 {
            self
        } else {
            self.sequenced((n - 1) as nat).sequenced_once()
        }
    }

    /// The APU after `cycles` M-cycles (4 T-cycles each), apart from the
    /// samples it produces: the frame sequencer steps once per 32768
    /// T-cycles, each channel's timer runs, and the sample clock advances.
    pub open spec fn update_spec(self, cycles: usize) -> Apu {
        if !self.master_enable {
            self
        } else {
            let t = (cycles as u32) * 4;
            let total = self.frame_seq_timer + t;
            let a = Apu {
                frame_seq_timer: (total % 32768) as u32,
                ..self.sequenced((total / 32768) as nat)
            };
            let clock = self.sample_clock + t * 44100;
            Apu {
                ch1: a.ch1.tick_spec(t as u32).0,
                ch2: a.ch2.tick_spec(t as u32).0,
                ch3: a.ch3.tick_spec(t as u32).0,
                ch4: a.ch4.tick_spec(t as u32).0,
                sample_clock: (clock % 16_777_216) as u64,
                ..a
            }
        }
    }

    /// The samples produced by `update(cycles)`: one per sample time passed,
    /// each the sum of the four channel outputs after the timers ran.
    pub open spec fn new_samples(self, cycles: usize) -> Seq<u8> {
        if !self.master_enable {
            Seq::empty()
        } else {
            let t = (cycles as u32) * 4;
            let total = self.frame_seq_timer + t;
            let a = self.sequenced((total / 32768) as nat);
            let mix = (a.ch1.tick_spec(t as u32).1 + a.ch2.tick_spec(t as u32).1 + a.ch3.tick_spec(
                t as u32,
            ).1 + a.ch4.tick_spec(t as u32).1) as u8;
            let clock = self.sample_clock + t * 44100;
            Seq::new((clock / 16_777_216) as nat, |i: int| mix)
        }
    }
}


impl Apu {
    fn clock_frame_sequencer(&mut self)
        requires
            old(self).channels_wf(),
            old(self).frame_seq_step < 8,
        ensures
            final(self).channels_wf(),
            final(self).frame_seq_step < 8,
            *final(self) == old(self).sequenced_once(),
    {
        let s = self.frame_seq_step;
        if s == 0 || s == 4 {
            self.ch1.clock_length();
            self.ch2.clock_length();
            self.ch3.clock_length();
            self.ch4.clock_length();
        } else if s == 2 || s == 6 {
            self.ch1.clock_length();
            self.ch2.clock_length();
            self.ch3.clock_length();
            self.ch4.clock_length();
            self.ch1.clock_sweep();
        } else if s == 7 {
            self.ch1.clock_envelope();
            self.ch2.clock_envelope();
            self.ch4.clock_envelope();
        }
        self.frame_seq_step = (self.frame_seq_step + 1) % 8;
    }

    /// Advance the APU by `cycles` M-cycles (as returned by `Cpu::fetch_n_execute`),
    /// returning the samples that fell due: at each sample time, the sum of
    /// the four channel outputs (0-60).
    pub fn update(&mut self, cycles: usize) -> (r: Vec<u8>)
        requires
            old(self).wf(),
            old(self).master_enable ==> (cycles as u32) * 4 <= i32::MAX,
        ensures
            final(self).wf(),
            *final(self) == old(self).update_spec(cycles),
            r@ == old(self).new_samples(cycles),
    {
        let mut out: Vec<u8> = Vec::new();
        if !self.master_enable {
            return out;
        }
        let t_cycles = (cycles as u32) * 4;

        // Tick frame sequencer (fires at 512 Hz = every 32768 T-cycles)
        self.frame_seq_timer = self.frame_seq_timer + t_cycles;
        let ghost total = self.frame_seq_timer as int;
        let ghost mut n: nat = 0;
        while self.frame_seq_timer >= FRAME_SEQ_PERIOD
            invariant
                self.frame_seq_step < 8,
                self.ch1.wf() && self.ch2.wf() && self.ch3.wf() && self.ch4.wf(),
                self.sample_clock < T_CYCLES_PER_SECOND,
                self.frame_seq_timer + n * 32768 == total,
                *self == (Apu { frame_seq_timer: self.frame_seq_timer, ..old(self).sequenced(n) }),
                old(self).master_enable,
                t_cycles == (cycles as u32) * 4,
                self.sample_clock == old(self).sample_clock,
            decreases self.frame_seq_timer,
        {
            self.frame_seq_timer = self.frame_seq_timer - FRAME_SEQ_PERIOD;
            self.clock_frame_sequencer();
            proof {
                assert((n + 1) * 32768 == n * 32768 + 32768) by (nonlinear_arith);
                n = n + 1;
            }
        }
        proof {
            vstd::arithmetic::div_mod::lemma_fundamental_div_mod_converse(
                total,
                32768,
                n as int,
                self.frame_seq_timer as int,
            );
        }
        let ghost a = Apu {
            frame_seq_timer: (total % 32768) as u32,
            ..old(self).sequenced((total / 32768) as nat)
        };
        // Tick all channels and get their current output (0–15)

        let s1 = self.ch1.tick(t_cycles);
        let s2 = self.ch2.tick(t_cycles);
        let s3 = self.ch3.tick(t_cycles);
        let s4 = self.ch4.tick(t_cycles);
        let mix = s1 + s2 + s3 + s4;
        assert(mix == (a.ch1.tick_spec(t_cycles).1 + a.ch2.tick_spec(t_cycles).1 + a.ch3.tick_spec(
            t_cycles).1 + a.ch4.tick_spec(t_cycles).1) as u8);

        // Produce the samples that are due
        self.sample_clock = self.sample_clock + t_cycles as u64 * 44100;
        let ghost clock = self.sample_clock as int;
        let ghost mid = *self;
        let ghost mut m: nat = 0;
        while self.sample_clock >= T_CYCLES_PER_SECOND
            invariant
                mid.wf() || mid.sample_clock >= T_CYCLES_PER_SECOND,
                mid.channels_wf(),
                mid.frame_seq_timer < FRAME_SEQ_PERIOD,
                mid.frame_seq_step < 8,
                *self == (Apu { sample_clock: self.sample_clock, ..mid }),
                self.sample_clock + m * 16_777_216 == clock,
                out@ == Seq::new(m, |i: int| mix),
            decreases self.sample_clock,
        {
            self.sample_clock = self.sample_clock - T_CYCLES_PER_SECOND;
            out.push(mix);
            proof {
                assert((m + 1) * 16_777_216 == m * 16_777_216 + 16_777_216) by (nonlinear_arith);
                m = m + 1;
            }
        }
        proof {
            vstd::arithmetic::div_mod::lemma_fundamental_div_mod_converse(
                clock,
                16_777_216,
                m as int,
                self.sample_clock as int,
            );
        }
        out
    }

    /// NR52: bits 4-6 set, bit 7 the master enable, bits 0-3 the channels'
    /// enables.
    pub open spec fn nr52(&self) -> u8 {
        0x70 | ((if self.master_enable { 1u8 } else { 0u8 }) << 7) | (if self.ch1.enabled { 1u8 } else { 0u8 })
            | ((if self.ch2.enabled { 1u8 } else { 0u8 }) << 1) | ((if self.ch3.enabled { 1u8 } else { 0u8 }) << 2)
            | ((if self.ch4.enabled { 1u8 } else { 0u8 }) << 3)
    }

    /// Wave RAM always reads; with the master enable off NR52 reads 0x70 and
    /// the other sound registers 0xFF; otherwise each register reads through
    /// its channel, the unused ones as 0xFF.
    pub open spec fn read_spec(&self, addr: u16) -> MemRead {
        if 0xFF30 <= addr <= 0xFF3F {
            MemRead::Replace(self.ch3.read_spec(addr))
        } else if !self.master_enable {
            if addr == 0xFF26 {
                MemRead::Replace(0x70)
            } else if 0xFF10 <= addr <= 0xFF3F {
                MemRead::Replace(0xFF)
            } else {
                MemRead::PassThrough
            }
        } else if 0xFF10 <= addr <= 0xFF14 {
            MemRead::Replace(self.ch1.read_spec(addr))
        } else if 0xFF16 <= addr <= 0xFF19 {
            MemRead::Replace(self.ch2.read_spec(addr))
        } else if 0xFF1A <= addr <= 0xFF1E {
            MemRead::Replace(self.ch3.read_spec(addr))
        } else if 0xFF20 <= addr <= 0xFF23 {
            MemRead::Replace(self.ch4.read_spec(addr))
        } else if addr == 0xFF24 {
            MemRead::Replace(self.nr50)
        } else if addr == 0xFF25 {
            MemRead::Replace(self.nr51)
        } else if addr == 0xFF26 {
            MemRead::Replace(self.nr52())
        } else {
            MemRead::Replace(0xFF)
        }
    }

    /// Wave RAM always takes writes; with the master enable off only NR52
    /// does; otherwise the channel registers, NR50 and NR51 take them, and
    /// turning the master enable off resets the channels, NR50 and NR51.
    /// No write reaches RAM.
    pub open spec fn write_spec(&self, addr: u16, val: u8) -> (Apu, MemWrite) {
        let a = if 0xFF30 <= addr <= 0xFF3F {
            Apu { ch3: self.ch3.write_spec(addr, val), ..*self }
        } else if !self.master_enable {
            if addr == 0xFF26 {
                Apu { master_enable: (val & 0x80) != 0, ..*self }
            } else {
                *self
            }
        } else if 0xFF10 <= addr <= 0xFF14 {
            Apu { ch1: self.ch1.write_spec(addr, val), ..*self }
        } else if 0xFF16 <= addr <= 0xFF19 {
            Apu { ch2: self.ch2.write_spec(addr, val), ..*self }
        } else if 0xFF1A <= addr <= 0xFF1E {
            Apu { ch3: self.ch3.write_spec(addr, val), ..*self }
        } else if 0xFF20 <= addr <= 0xFF23 {
            Apu { ch4: self.ch4.write_spec(addr, val), ..*self }
        } else if addr == 0xFF24 {
            Apu { nr50: val, ..*self }
        } else if addr == 0xFF25 {
            Apu { nr51: val, ..*self }
        } else if addr == 0xFF26 {
            if (val & 0x80) == 0 {
                // Power off: reset all channels and registers
                Apu {
                    master_enable: false,
                    ch1: Channel1::new_spec(),
                    ch2: Channel2::new_spec(),
                    ch3: Channel3::new_spec(),
                    ch4: Channel4::new_spec(),
                    nr50: 0,
                    nr51: 0,
                    ..*self
                }
            } else {
                Apu { master_enable: true, ..*self }
            }
        } else {
            *self
        };
        (a, MemWrite::Block)
    }
}

impl MemHandler for Apu {
    open spec fn inv(&self) -> bool {
        self.wf()
    }

    fn on_read(&self, addr: u16) -> (r: MemRead)
        ensures
            r == self.read_spec(addr),
    {
        // Wave RAM is always readable regardless of master enable
        if addr >= 0xFF30 && addr <= 0xFF3F {
            return MemRead::Replace(self.ch3.read_reg(addr));
        }
        if !self.master_enable {
            return match addr {
                0xFF26 => MemRead::Replace(0x70),  // master off, channels off
                0xFF10..=0xFF3F => MemRead::Replace(0xFF),
                _ => MemRead::PassThrough,
            };
        }
        let val = match addr {
            0xFF10..=0xFF14 => self.ch1.read_reg(addr),
            0xFF15 => 0xFF,
            0xFF16..=0xFF19 => self.ch2.read_reg(addr),
            0xFF1A..=0xFF1E => self.ch3.read_reg(addr),
            0xFF1F => 0xFF,
            0xFF20..=0xFF23 => self.ch4.read_reg(addr),
            0xFF24 => self.nr50,
            0xFF25 => self.nr51,
            0xFF26 => {
                0x70 | ((if self.master_enable { 1u8 } else { 0u8 }) << 7) | (if self.ch1.enabled {
                    1u8
                } else {
                    0u8
                }) | ((if self.ch2.enabled { 1u8 } else { 0u8 }) << 1) | ((if self.ch3.enabled {
                    1u8
                } else {
                    0u8
                }) << 2) | ((if self.ch4.enabled { 1u8 } else { 0u8 }) << 3)
            },
            _ => 0xFF,
        };
        MemRead::Replace(val)
    }

    fn on_write(&mut self, addr: u16, val: u8) -> (r: MemWrite)
        ensures
            (*final(self), r) == old(self).write_spec(addr, val),
    {
        // Wave RAM writes always go through regardless of master enable
        if addr >= 0xFF30 && addr <= 0xFF3F {
            self.ch3.write_reg(addr, val);
            return MemWrite::Block;
        }
        // When master is off, only NR52 writes are allowed

        if !self.master_enable {
            if addr == 0xFF26 {
                self.master_enable = (val & 0x80) != 0;
            }
            return MemWrite::Block;
        }
        match addr {
            0xFF10..=0xFF14 => self.ch1.write_reg(addr, val),
            0xFF16..=0xFF19 => self.ch2.write_reg(addr, val),
            0xFF1A..=0xFF1E => self.ch3.write_reg(addr, val),
            0xFF20..=0xFF23 => self.ch4.write_reg(addr, val),
            0xFF24 => self.nr50 = val,
            0xFF25 => self.nr51 = val,
            0xFF26 => {
                let was_enabled = self.master_enable;
                self.master_enable = (val & 0x80) != 0;
                if was_enabled && !self.master_enable {
                    // Power off: reset all channels and registers
                    self.ch1 = Channel1::new();
                    self.ch2 = Channel2::new();
                    self.ch3 = Channel3::new();
                    self.ch4 = Channel4::new();
                    self.nr50 = 0;
                    self.nr51 = 0;
                }
            },
            _ => {},
        }
        MemWrite::Block
    }
}

/// While the sound is powered off, writes to the sound registers are
/// ignored, except NR52 (which can power it back on) and wave RAM.
pub proof fn lemma_powered_off_ignores_writes(a: Apu, addr: u16, val: u8)
    requires
        !a.master_enable,
        addr != 0xFF26,
        !(0xFF30 <= addr <= 0xFF3F),
    ensures
        a.write_spec(addr, val).0 == a,
{
}

/// Powering the sound off resets every channel and the volume and panning
/// registers.
pub proof fn lemma_power_off_resets(a: Apu, val: u8)
    requires
        a.master_enable,
        val & 0x80 == 0,
    ensures
        ({
            let b = a.write_spec(0xFF26, val).0;
            &&& !b.master_enable
            &&& b.ch1 == Channel1::new_spec()
            &&& b.ch2 == Channel2::new_spec()
            &&& b.ch3 == Channel3::new_spec()
            &&& b.ch4 == Channel4::new_spec()
            &&& b.nr50 == 0 && b.nr51 == 0
        }),
{
}

} // verus!
