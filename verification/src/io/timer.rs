use vstd::prelude::*;
use crate::io::interrupt::INT_TIMER;
use crate::mmu::{MemHandler, MemRead, MemWrite};

verus! {

/// Timer & Divider registers.
///
/// 0xFF04 — DIV:  Divider register. Upper byte of a 16-bit internal counter
///                that increments every CPU cycle. Write resets it to 0.
/// 0xFF05 — TIMA: Timer counter. Increments at the frequency set by TAC.
///                On overflow triggers INT_TIMER and reloads from TMA.
/// 0xFF06 — TMA:  Timer Modulo. Loaded into TIMA on overflow.
/// 0xFF07 — TAC:  Timer Control.
///                  bit 2: timer enable (1 = running)
///                  bits 1-0: clock select
///                    00 → CPU/1024  (4096 Hz)
///                    01 → CPU/16    (262144 Hz)
///                    10 → CPU/64    (65536 Hz)
///                    11 → CPU/256   (16384 Hz)
pub struct Timer {
    /// Internal 16-bit counter. DIV = counter >> 8.
    pub counter: u16,
    /// TIMA — Timer Counter (0xFF05)
    pub tima: u8,
    /// TMA — Timer Modulo (0xFF06)
    pub tma: u8,
    /// TAC — Timer Control (0xFF07)
    pub tac: u8,
    /// Accumulated sub-cycles for TIMA
    pub tima_cycles: u32,
}

/// Whether TAC has the timer running (bit 2).
pub open spec fn timer_enabled(tac: u8) -> bool {
    tac & 0x04 != 0
}

/// CPU cycles per TIMA increment selected by TAC bits 0-1.
pub open spec fn tima_period_of(tac: u8) -> u32 {
    let sel = tac & 0x03;
    if sel == 0 {
        1024
    } else if sel == 1 {
        16
    } else if sel == 2 {
        64
    } else {
        256
    }
}

/// TIMA after `n` increments starting from `tima`, reloading from `tma` on
/// every overflow, paired with whether any increment overflowed.
pub open spec fn tima_after(tima: u8, tma: u8, n: nat) -> (u8, bool)
    decreases n,
{
    if n == 0 {
        (tima, false)
    } else {
        let (t, overflowed) = tima_after(tima, tma, (n - 1) as nat);
        if t == 0xFF {
            (tma, true)
        } else {
            ((t + 1) as u8, overflowed)
        }
    }
}

impl Timer {
    pub fn new() -> (r: Self)
        ensures
            r.counter == 0,
            r.tima == 0,
            r.tma == 0,
            r.tac == 0,
            r.tima_cycles == 0,
    {
        Self { counter: 0, tima: 0, tma: 0, tac: 0, tima_cycles: 0 }
    }

    /// The accumulated sub-period cycles never reach the longest period.
    pub open spec fn wf(&self) -> bool {
        self.tima_cycles < 1024
    }

    /// The timer after `cycles` CPU cycles, with the interrupt to request:
    /// the counter always advances; when TAC runs the timer, TIMA counts one
    /// step per period of accumulated cycles, reloading from TMA (and asking
    /// for INT_TIMER) whenever it overflows.
    pub open spec fn update_spec(self, cycles: usize) -> (Timer, u8) {
        let counter = self.counter.wrapping_add(cycles as u32 as u16);
        if timer_enabled(self.tac) {
            let total = self.tima_cycles + (cycles as u32);
            let period = tima_period_of(self.tac) as int;
            let (tima, overflowed) = tima_after(self.tima, self.tma, (total / period) as nat);
            (
                Timer { counter, tima, tima_cycles: (total % period) as u32, ..self },
                if overflowed { INT_TIMER } else { 0 },
            )
        } else {
            (Timer { counter, ..self }, 0)
        }
    }

    /// Advance the timer by `cycles` CPU cycles.
    /// Returns INT_TIMER bitmask if TIMA overflowed, 0 otherwise.
    pub fn update(&mut self, cycles: usize) -> (r: u8)
        requires
            old(self).wf(),
            timer_enabled(old(self).tac) ==> old(self).tima_cycles + (cycles as u32) <= u32::MAX,
        ensures
            final(self).wf(),
            (*final(self), r) == old(self).update_spec(cycles),
    {
        let cycles = cycles as u32;
        let mut interrupt: u8 = 0;

        // DIV increments every CPU cycle (the full 16-bit counter does).
        // It wraps naturally on u16 overflow.
        self.counter = self.counter.wrapping_add(cycles as u16);

        // TIMA only runs when TAC bit 2 is set
        if self.tac & 0x04 != 0 {
            self.tima_cycles += cycles;
            let threshold = self.tima_period();
            let ghost total: int = self.tima_cycles as int;
            let ghost tima0 = self.tima;
            let ghost mut k: nat = 0;

            while self.tima_cycles >= threshold
                invariant
                    threshold == tima_period_of(self.tac),
                    self.tac == old(self).tac,
                    self.tma == old(self).tma,
                    total == old(self).tima_cycles + cycles,
                    tima0 == old(self).tima,
                    self.tima_cycles + k * threshold == total,
                    (self.tima, interrupt == INT_TIMER) == tima_after(tima0, self.tma, k),
                    interrupt == INT_TIMER || interrupt == 0,
                    self.counter == old(self).counter.wrapping_add(cycles as u16),
                decreases self.tima_cycles,
            {
                self.tima_cycles -= threshold;
                if self.tima == 0xFF {
                    self.tima = self.tma;
                    interrupt = INT_TIMER;
                } else {
                    self.tima = self.tima + 1;
                }
                proof {
                    assert((k + 1) * threshold == k * threshold + threshold) by (nonlinear_arith);
                    k = k + 1;
                }
            }
            proof {
                vstd::arithmetic::div_mod::lemma_fundamental_div_mod_converse(
                    total,
                    threshold as int,
                    k as int,
                    self.tima_cycles as int,
                );
            }
        }
        interrupt
    }

    /// Returns the number of CPU cycles per TIMA increment based on TAC bits 0-1.
    fn tima_period(&self) -> (r: u32)
        ensures
            r == tima_period_of(self.tac),
    {
        let sel = self.tac & 0x03;
        if sel == 0 {
            1024
        } else if sel == 1 {
            16
        } else if sel == 2 {
            64
        } else {
            256
        }
    }

    /// DIV reads the counter's upper byte, TAC reads with its unused top five
    /// bits set; other addresses pass through.
    pub open spec fn read_spec(&self, addr: u16) -> MemRead {
        if addr == 0xFF04 {
            MemRead::Replace((self.counter >> 8) as u8)
        } else if addr == 0xFF05 {
            MemRead::Replace(self.tima)
        } else if addr == 0xFF06 {
            MemRead::Replace(self.tma)
        } else if addr == 0xFF07 {
            MemRead::Replace(self.tac | 0xF8)
        } else {
            MemRead::PassThrough
        }
    }

    /// A write to DIV resets the whole counter (and the TIMA sub-cycles);
    /// TIMA and TMA take the value, TAC keeps its low three bits.
    pub open spec fn write_spec(&self, addr: u16, value: u8) -> (Timer, MemWrite) {
        if addr == 0xFF04 {
            (Timer { counter: 0, tima_cycles: 0, ..*self }, MemWrite::Block)
        } else if addr == 0xFF05 {
            (Timer { tima: value, ..*self }, MemWrite::Block)
        } else if addr == 0xFF06 {
            (Timer { tma: value, ..*self }, MemWrite::Block)
        } else if addr == 0xFF07 {
            (Timer { tac: value & 0x07, ..*self }, MemWrite::Block)
        } else {
            (*self, MemWrite::PassThrough)
        }
    }
}

impl MemHandler for Timer {
    open spec fn inv(&self) -> bool {
        self.wf()
    }

    fn on_read(&self, addr: u16) -> (r: MemRead)
        ensures
            r == self.read_spec(addr),
    {
        match addr {
            0xFF04 => MemRead::Replace((self.counter >> 8) as u8),
            0xFF05 => MemRead::Replace(self.tima),
            0xFF06 => MemRead::Replace(self.tma),
            0xFF07 => MemRead::Replace(self.tac | 0xF8),
            _ => MemRead::PassThrough,
        }
    }

    fn on_write(&mut self, addr: u16, value: u8) -> (r: MemWrite)
        ensures
            (*final(self), r) == old(self).write_spec(addr, value),
    {
        match addr {
            // Writing any value to DIV resets the internal counter
            0xFF04 => {
                self.counter = 0;
                self.tima_cycles = 0;
                MemWrite::Block
            },
            0xFF05 => {
                self.tima = value;
                MemWrite::Block
            },
            0xFF06 => {
                self.tma = value;
                MemWrite::Block
            },
            0xFF07 => {
                self.tac = value & 0x07;
                MemWrite::Block
            },
            _ => MemWrite::PassThrough,
        }
    }
}

/// Writing DIV, whatever the value, makes it read 0.
pub proof fn lemma_div_write_resets(t: Timer, value: u8)
    ensures
        t.write_spec(0xFF04, value).0.read_spec(0xFF04) == MemRead::Replace(0),
{
    assert(0u16 >> 8u16 == 0) by (bit_vector);
}

/// Counting `n` and then `m` more TIMA steps is counting `n + m`; an
/// overflow happens in the whole run when it does in either part.
pub proof fn lemma_tima_after_split(tima: u8, tma: u8, n: nat, m: nat)
    ensures
        ({
            let (t1, o1) = tima_after(tima, tma, n);
            let (t2, o2) = tima_after(t1, tma, m);
            tima_after(tima, tma, n + m) == (t2, o1 || o2)
        }),
    decreases m,
{
    if m > 0 {
        lemma_tima_after_split(tima, tma, n, (m - 1) as nat);
    }
}

/// The timer only counts cycles: advancing it by `a` cycles and then by
/// `b` leaves it as advancing it by `a + b` at once, and an overflow is
/// reported by one of the two steps exactly when the single step reports
/// one.
pub proof fn lemma_update_additive(t: Timer, a: usize, b: usize)
    requires
        t.wf(),
        a + b <= u32::MAX - 1024,
    ensures
        ({
            let (t1, r1) = t.update_spec(a);
            let (t2, r2) = t1.update_spec(b);
            let (t3, r3) = t.update_spec((a + b) as usize);
            &&& t2 == t3
            &&& (r1 != 0 || r2 != 0) <==> r3 != 0
        }),
{
    let aa = a as u32;
    let bb = b as u32;
    let ab = (a + b) as usize;
    let x = t.counter;
    assert(x.wrapping_add(aa as u16).wrapping_add(bb as u16) == x.wrapping_add((aa + bb) as u32 as u16))
        by (bit_vector)
        requires
            aa + bb <= 0xFFFF_FFFFu32,
    ;
    if timer_enabled(t.tac) {
        let p = tima_period_of(t.tac) as int;
        let total = t.tima_cycles + aa;
        let q1 = total / p;
        let r1 = total % p;
        let q2 = (r1 + bb) / p;
        let r2 = (r1 + bb) % p;
        vstd::arithmetic::div_mod::lemma_fundamental_div_mod(total, p);
        vstd::arithmetic::div_mod::lemma_fundamental_div_mod(r1 + bb, p);
        assert(total + bb == p * (q1 + q2) + r2) by (nonlinear_arith)
            requires
                total == p * q1 + r1,
                r1 + bb == p * q2 + r2,
        ;
        vstd::arithmetic::div_mod::lemma_fundamental_div_mod_converse(total + bb, p, q1 + q2, r2);
        lemma_tima_after_split(t.tima, t.tma, q1 as nat, q2 as nat);
    }
}

/// Counting up without reaching 0xFF + 1 neither wraps nor overflows.
proof fn lemma_tima_after_no_overflow(tima: u8, tma: u8, n: nat)
    requires
        tima + n <= 0xFF,
    ensures
        tima_after(tima, tma, n) == ((tima + n) as u8, false),
    decreases n,
{
    if n > 0 {
        lemma_tima_after_no_overflow(tima, tma, (n - 1) as nat);
    }
}

/// TIMA counts at the rate TAC bits 1-0 select: once every 1024 CPU cycles
/// for 0, 16 for 1, 64 for 2 and 256 for 3. From a fresh period, with the
/// timer running, `n` periods and up to one cycle short of the next raise
/// TIMA by exactly `n` (short of overflow), with no interrupt.
#[verifier::spinoff_prover]
pub proof fn lemma_tima_rates(t: Timer, n: nat, extra: nat)
    requires
        timer_enabled(t.tac),
        t.tima_cycles == 0,
        t.tima + n <= 0xFF,
    ensures
        ({
            let sel = t.tac & 0x03;
            let period: nat = if sel == 0 {
                1024
            } else if sel == 1 {
                16
            } else if sel == 2 {
                64
            } else {
                256
            };
            extra < period ==> {
                let (u, irq) = t.update_spec((n * period + extra) as usize);
                &&& u.tima == t.tima + n
                &&& irq == 0
            }
        }),
{
    let sel = t.tac & 0x03;
    let period: nat = if sel == 0 {
        1024
    } else if sel == 1 {
        16
    } else if sel == 2 {
        64
    } else {
        256
    };
    if extra < period {
        let tac = t.tac;
        assert(tac & 0x03 <= 3) by (bit_vector);
        assert(tima_period_of(t.tac) == period);
        assert(n * period + extra <= 255 * 1024 + 1023) by (nonlinear_arith)
            requires
                n <= 255,
                period <= 1024,
                extra < period,
        ;
        let total: int = (n * period + extra) as int;
        assert(((total as usize) as u32) as int == total);
        vstd::arithmetic::div_mod::lemma_fundamental_div_mod_converse(total, period as int, n as int, extra as int);
        lemma_tima_after_no_overflow(t.tima, t.tma, n);
    }
}

/// When TIMA passes 0xFF it reloads from TMA and the timer interrupt
/// (bit 2) is requested; with the timer stopped (TAC bit 2 clear) TIMA
/// never moves and nothing is requested. DIV counts every cycle either
/// way: the internal counter advances by the cycles, wrapping at 0x10000.
#[verifier::spinoff_prover]
pub proof fn lemma_tima_overflow_and_stop(t: Timer, cycles: usize)
    requires
        t.wf(),
        cycles <= 0xFFFF,
    ensures
        ({
            let sel = t.tac & 0x03;
            let period: nat = if sel == 0 {
                1024
            } else if sel == 1 {
                16
            } else if sel == 2 {
                64
            } else {
                256
            };
            let (u, irq) = t.update_spec(cycles);
            &&& u.counter == (t.counter + cycles) % 0x10000
            &&& (!timer_enabled(t.tac) ==> u.tima == t.tima && irq == 0)
            &&& (timer_enabled(t.tac) && t.tima == 0xFF && t.tima_cycles == 0 && cycles == period ==> u.tima
                == t.tma && irq == 4)
        }),
{
    assert(cycles as u32 as u16 == cycles);
    let tac = t.tac;
    assert(tac & 0x03 <= 3) by (bit_vector);
    if timer_enabled(t.tac) && t.tima == 0xFF && t.tima_cycles == 0 {
        let p = tima_period_of(t.tac) as int;
        vstd::arithmetic::div_mod::lemma_fundamental_div_mod_converse(p, p, 1, 0);
        reveal_with_fuel(tima_after, 2);
        assert(tima_after(t.tima, t.tma, 1) == (t.tma, true));
    }
}

} // verus!
