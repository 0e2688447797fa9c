//! The whole machine: the CPU and the bus with every device on it, stepped
//! together one instruction at a time.

use vstd::prelude::*;
use crate::cpu::{step_spec, Cpu};
use crate::instr::execute_spec;
use crate::io::apu::Apu;
use crate::io::boot::BootRom;
use crate::io::interrupt::{lowest_pending, vector_of, Interrupt, INT_JOYPAD};
use crate::io::joypad::Joypad;
use crate::io::mbc::cartridge::{has_header, Cartridge};
use crate::io::mbc::mbc::supported_mbc;
use crate::io::ppu::{oam_with_prefix, Ppu};
use crate::io::timer::Timer;
use crate::mmu::{Device, Handler, Mmu};

verus! {

broadcast use crate::mmu::Mmu::lemma_write8_keeps_clock;

/// Game Boy CPU clock speed: 4.194304 MHz
pub const CPU_CLOCK_HZ: u64 = 4_194_304;

/// Frames shown per second.
pub const TARGET_FPS: u64 = 60;

/// CPU cycles in one frame: CPU_CLOCK_HZ / TARGET_FPS, rounded down.
pub const CYCLES_PER_FRAME: usize = 69_905;

/// The PPU's cycle counter stays below this while the machine runs: one
/// mode lasts at most 456 cycles and one step adds at most 24.
pub const PPU_CLOCK_LIMIT: usize = 480;

/// One instruction takes at most 24 cycles, and nothing it writes moves
/// the PPU's cycle counter.
#[verifier::spinoff_prover]
#[verifier::rlimit(40)]
pub proof fn lemma_execute_bounds(code: u16, arg: u16, cpu: Cpu, mmu: Mmu)
    ensures
        4 <= execute_spec(code, arg, cpu, mmu).2.0 <= 24,
        execute_spec(code, arg, cpu, mmu).1.ppu_clock() == mmu.ppu_clock(),
{
}

/// No instruction sets the lower nibble of F.
#[verifier::spinoff_prover]
#[verifier::rlimit(40)]
pub proof fn lemma_execute_keeps_flags_low(code: u16, arg: u16, cpu: Cpu, mmu: Mmu)
    requires
        cpu.f & 0x0F == 0,
    ensures
        execute_spec(code, arg, cpu, mmu).0.f & 0x0F == 0,
{
    broadcast use crate::cpu::lemma_flags_byte_low_nibble, crate::cpu::lemma_upper_nibble_only;

}

/// The lower nibble of F reads 0 in every state the machine reaches from
/// one where it does (as from power-on, F = 0): a machine step never sets
/// those bits.
pub proof fn lemma_flags_low_nibble(cpu: Cpu, mmu: Mmu)
    requires
        cpu.f & 0x0F == 0,
    ensures
        machine_step(cpu, mmu).0.f & 0x0F == 0,
{
    reveal(machine_step);
    let m0 = dma_spec(mmu);
    if !cpu.halted {
        let (code, arg) = crate::cpu::fetch_spec(cpu, m0);
        lemma_execute_keeps_flags_low(code, arg, cpu, m0);
    }
}

/// A whole CPU step, too, takes 4 to 24 cycles and leaves the PPU's cycle
/// counter alone.
pub proof fn lemma_step_bounds(cpu: Cpu, mmu: Mmu)
    ensures
        4 <= step_spec(cpu, mmu).2 <= 24,
        step_spec(cpu, mmu).1.ppu_clock() == mmu.ppu_clock(),
{
    if !cpu.halted {
        let (code, arg) = crate::cpu::fetch_spec(cpu, mmu);
        lemma_execute_bounds(code, arg, cpu, mmu);
    }
}

/// The address ranges the devices answer for, in the order they are
/// registered: the boot ROM before the cartridge, so that it shadows the
/// cartridge's first 256 bytes while it is active.
pub open spec fn memory_map() -> Seq<Handler> {
    seq![
        Handler { lo: 0x0000, hi: 0x00FF, device: Device::BootRom },
        Handler { lo: 0xFF50, hi: 0xFF50, device: Device::BootRom },
        Handler { lo: 0x0000, hi: 0x7FFF, device: Device::Cartridge },
        Handler { lo: 0x8000, hi: 0x9FFF, device: Device::Ppu },
        Handler { lo: 0xFE00, hi: 0xFE9F, device: Device::Ppu },
        Handler { lo: 0xFF40, hi: 0xFF4B, device: Device::Ppu },
        Handler { lo: 0xFF46, hi: 0xFF46, device: Device::Ppu },
        Handler { lo: 0xFF0F, hi: 0xFF0F, device: Device::Interrupt },
        Handler { lo: 0xFFFF, hi: 0xFFFF, device: Device::Interrupt },
        Handler { lo: 0xFF00, hi: 0xFF00, device: Device::Joypad },
        Handler { lo: 0xFF04, hi: 0xFF07, device: Device::Timer },
        Handler { lo: 0xFF10, hi: 0xFF3F, device: Device::Apu },
    ]
}

/// With the devices mapped as `memory_map` lays out, the boot ROM shadows
/// the cartridge's first 256 bytes while it is mapped; once unmapped, those
/// addresses read from the cartridge.
pub proof fn lemma_boot_rom_shadows_cartridge(m: Mmu, addr: u16)
    requires
        m.handlers@ == memory_map(),
        addr <= 0x00FF,
    ensures
        m.boot_rom matches Some(b) && b.active ==> m.read8(addr) == crate::io::boot::boot_byte(addr),
        m.boot_rom matches Some(b) && !b.active && m.cartridge is Some ==> crate::mmu::MemRead::Replace(
            m.read8(addr),
        ) == m.cartridge->0.read_spec(addr),
{
    reveal_with_fuel(Mmu::read_from, 4);
}

/// The bus after a pending OAM DMA: the request is cleared, then the 160
/// bytes from the requested page, as the bus reads them, fill OAM.
pub open spec fn dma_spec(mmu: Mmu) -> Mmu {
    match mmu.ppu {
        Some(p) => match p.pending_dma {
            Some(page) => {
                let m = Mmu { ppu: Some(Ppu { pending_dma: None, ..p }), ..mmu };
                let src = Seq::new(0xA0, |i: int| m.read8((page * 256 + i) as u16));
                Mmu { ppu: Some(Ppu { oam: oam_with_prefix(p.oam, src, 0xA0), pending_dma: None, ..p }), ..m }
            },
            None => mmu,
        },
        None => mmu,
    }
}

/// The bus with interrupt `mask` requested in IF (when there is an
/// interrupt controller and the mask is not empty).
pub open spec fn request_spec(mmu: Mmu, mask: u8) -> Mmu {
    match mmu.interrupt {
        Some(i) => if mask != 0 {
            Mmu { interrupt: Some(Interrupt { if_reg: i.if_reg | mask, ..i }), ..mmu }
        } else {
            mmu
        },
        None => mmu,
    }
}

/// The bus after the PPU, the timer, the APU and the joypad have seen
/// `cycles` cycles go by, with the interrupts they raise requested.
pub open spec fn tick_spec(mmu: Mmu, cycles: usize) -> Mmu {
    let (m1, ppu_irq) = match mmu.ppu {
        Some(p) => {
            let (p2, r) = p.update_spec(cycles);
            (Mmu { ppu: Some(p2), ..mmu }, r)
        },
        None => (mmu, 0u8),
    };
    let m2 = request_spec(m1, ppu_irq);
    let (m3, timer_irq) = match m2.timer {
        Some(t) => {
            let (t2, r) = t.update_spec(cycles);
            (Mmu { timer: Some(t2), ..m2 }, r)
        },
        None => (m2, 0u8),
    };
    let m4 = request_spec(m3, timer_irq);
    let m5 = match m4.apu {
        Some(a) => Mmu { apu: Some(a.update_spec(cycles)), ..m4 },
        None => m4,
    };
    match m5.joypad {
        Some(j) => {
            let m6 = Mmu { joypad: Some(Joypad { prev_keys: j.keys_nibble(), ..j }), ..m5 };
            if j.prev_keys & !j.keys_nibble() != 0 {
                request_spec(m6, INT_JOYPAD)
            } else {
                m6
            }
        },
        None => m5,
    }
}

/// The samples the APU produces over `cycles` cycles.
pub open spec fn audio_spec(mmu: Mmu, cycles: usize) -> Seq<u8> {
    match mmu.apu {
        Some(a) => a.new_samples(cycles),
        None => Seq::empty(),
    }
}

/// Interrupt dispatch: a pending interrupt wakes a halted CPU; with IME set
/// the highest-priority one is acknowledged, PC is pushed and the CPU jumps
/// to its vector, taking 20 cycles.
pub open spec fn dispatch_spec(cpu: Cpu, mmu: Mmu) -> (Cpu, Mmu, usize) {
    match mmu.interrupt {
        Some(i) => if i.pending() == 0 {
            (cpu, mmu, 0)
        } else if !cpu.ime {
            (Cpu { halted: false, ..cpu }, mmu, 0)
        } else {
            let mask = lowest_pending(i.pending());
            let m = Mmu { interrupt: Some(Interrupt { if_reg: i.if_reg & !mask, ..i }), ..mmu };
            let sp = cpu.sp.wrapping_sub(2);
            (
                Cpu { halted: false, ime: false, sp: sp, pc: vector_of(mask), ..cpu },
                m.write16(sp, cpu.pc),
                20,
            )
        },
        None => (cpu, mmu, 0),
    }
}

/// One step of the machine: a pending OAM DMA runs, the CPU executes one
/// instruction, the devices see its cycles go by, and a pending interrupt
/// is dispatched. Gives the CPU, the bus and the cycles taken.
#[verifier::opaque]
pub open spec fn machine_step(cpu: Cpu, mmu: Mmu) -> (Cpu, Mmu, usize) {
    let m0 = dma_spec(mmu);
    let (cpu1, m1, cycles) = step_spec(cpu, m0);
    let m2 = tick_spec(m1, cycles);
    let (cpu3, m3, int_cycles) = dispatch_spec(cpu1, m2);
    (cpu3, m3, (cycles + int_cycles) as usize)
}

/// The emulated machine: the CPU and the bus, which owns the devices.
pub struct Emu {
    pub cpu: Cpu,
    pub mmu: Mmu,
    /// Audio samples produced and not yet handed to the sound output.
    pub audio: Vec<u8>,
}

/// A machine step takes at least 4 cycles and at most 44.
pub proof fn lemma_machine_step_takes_time(cpu: Cpu, mmu: Mmu)
    ensures
        4 <= machine_step(cpu, mmu).2 <= 44,
{
    reveal(machine_step);
    lemma_step_bounds(cpu, dma_spec(mmu));
}

/// The machine after running whole steps from `done` cycles into a frame
/// until the frame's cycles are used up, with the audio produced on the way.
#[verifier::opaque]
pub open spec fn run_frame_from(cpu: Cpu, mmu: Mmu, done: int) -> (Cpu, Mmu, Seq<u8>)
    decreases CYCLES_PER_FRAME + 44 - done,
{
    if done >= CYCLES_PER_FRAME {
        (cpu, mmu, Seq::empty())
    } else {
        let s = machine_step(cpu, mmu);
        proof {
            lemma_machine_step_takes_time(cpu, mmu);
        }
        let rest = run_frame_from(s.0, s.1, done + s.2);
        (rest.0, rest.1, machine_audio(cpu, mmu) + rest.2)
    }
}

/// The audio samples one machine step produces.
#[verifier::opaque]
pub open spec fn machine_audio(cpu: Cpu, mmu: Mmu) -> Seq<u8> {
    let (_cpu1, m1, cycles) = step_spec(cpu, dma_spec(mmu));
    audio_spec(m1, cycles)
}

impl Emu {
    /// The bus is well-formed and the PPU's counter is in range.
    pub open spec fn wf(&self) -> bool {
        &&& self.mmu.wf()
        &&& self.mmu.ppu_clock() < PPU_CLOCK_LIMIT
    }

    /// Power on with the cartridge `rom`: the CPU reset, the bus zeroed with
    /// every device fresh and mapped as `memory_map` lays out, the boot ROM
    /// active.
    pub fn new(rom: Vec<u8>) -> (r: Self)
        requires
            has_header(rom@),
            supported_mbc(rom@[0x147]),
        ensures
            r.wf(),
            r.cpu == (Cpu {
                a: 0,
                f: 0,
                b: 0,
                c: 0,
                d: 0,
                e: 0,
                h: 0,
                l: 0,
                pc: 0,
                sp: 0,
                halted: false,
                ime: false,
                ime_pending: false,
            }),
            r.mmu.handlers@ == memory_map(),
            forall|i: int| 0 <= i < 0x10000 ==> r.mmu.ram[i] == 0,
            r.mmu.boot_rom == Some(BootRom { active: true }),
            r.mmu.interrupt == Some(Interrupt { if_reg: 0, ie_reg: 0 }),
            r.mmu.timer == Some(Timer { counter: 0, tima: 0, tma: 0, tac: 0, tima_cycles: 0 }),
            r.mmu.cartridge matches Some(c) && c.from_image(rom@),
            r.mmu.ppu matches Some(p) && p.fresh(),
            r.mmu.joypad matches Some(j) && j.fresh(),
            r.mmu.apu == Some(Apu::fresh_spec()),
            r.audio@.len() == 0,
    {
        let cpu = Cpu::new();
        let mut mmu = Mmu::new();

        mmu.cartridge = Some(Cartridge::new(rom));
        mmu.boot_rom = Some(BootRom::new());
        mmu.ppu = Some(Ppu::new());
        mmu.interrupt = Some(Interrupt::new());
        mmu.joypad = Some(Joypad::new());
        mmu.timer = Some(Timer::new());
        mmu.apu = Some(Apu::new());

        // Boot ROM must be registered BEFORE cartridge so it takes priority for 0x0000-0x00FF.
        // When boot ROM is inactive it returns PassThrough, falling through to cartridge.
        mmu.add_handler((0x0000, 0x00FF), Device::BootRom);
        mmu.add_handler((0xFF50, 0xFF50), Device::BootRom);

        mmu.add_handler((0x0000, 0x7FFF), Device::Cartridge);

        mmu.add_handler((0x8000, 0x9FFF), Device::Ppu);  // VRAM
        mmu.add_handler((0xFE00, 0xFE9F), Device::Ppu);  // OAM
        mmu.add_handler((0xFF40, 0xFF4B), Device::Ppu);  // LCD Registers
        mmu.add_handler((0xFF46, 0xFF46), Device::Ppu);  // OAM DMA

        mmu.add_handler((0xFF0F, 0xFF0F), Device::Interrupt);  // IF: Interrupt flag
        mmu.add_handler((0xFFFF, 0xFFFF), Device::Interrupt);  // IE: Interrupt enable

        mmu.add_handler((0xFF00, 0xFF00), Device::Joypad);

        mmu.add_handler((0xFF04, 0xFF07), Device::Timer);

        mmu.add_handler((0xFF10, 0xFF3F), Device::Apu);

        Emu { cpu, mmu, audio: Vec::new() }
    }

    /// Run a pending OAM DMA: the 160 bytes from the requested page are
    /// copied into OAM through the bus.
    fn run_dma(&mut self)
        requires
            old(self).wf(),
        ensures
            final(self).wf(),
            final(self).mmu == dma_spec(old(self).mmu),
            final(self).cpu == old(self).cpu,
            final(self).audio == old(self).audio,
    {
        let pending_dma = match &mut self.mmu.ppu {
            Some(p) => p.pending_dma.take(),
            None => None,
        };
        if let Some(page) = pending_dma {
            let ghost m = self.mmu;
            let src_addr = (page as u16) * 256;
            // 0xA0 = 160 bytes, size of DMA (Direct Memory Access) OAM buffer
            let mut src: Vec<u8> = Vec::new();
            let mut i: u16 = 0;
            while i < 0xA0
                invariant
                    self.mmu == m,
                    m.wf(),
                    src_addr == page * 256,
                    i <= 0xA0,
                    src@ == Seq::new(i as nat, |k: int| m.read8((page * 256 + k) as u16)),
                decreases 0xA0 - i,
            {
                let b = self.mmu.get8(src_addr + i);
                src.push(b);
                i = i + 1;
            }
            match &mut self.mmu.ppu {
                Some(p) => p.execute_dma(&src),
                None => {},
            }
        }
    }

    /// Request interrupt `mask` from the interrupt controller.
    fn request(&mut self, mask: u8)
        ensures
            final(self).mmu == request_spec(old(self).mmu, mask),
            final(self).cpu == old(self).cpu,
            final(self).audio == old(self).audio,
    {
        if mask != 0 {
            match &mut self.mmu.interrupt {
                Some(i) => i.request(mask),
                None => {},
            }
        }
    }

    /// Let `cycles` cycles go by for the PPU, the timer, the APU and the
    /// joypad, requesting the interrupts they raise; the APU's new samples
    /// join the audio queue.
    fn tick_devices(&mut self, cycles: usize)
        requires
            old(self).mmu.wf(),
            old(self).mmu.ppu_clock() < PPU_CLOCK_LIMIT,
            cycles <= 24,
        ensures
            final(self).mmu.wf(),
            final(self).mmu.ppu_clock() < PPU_CLOCK_LIMIT,
            final(self).mmu == tick_spec(old(self).mmu, cycles),
            final(self).cpu == old(self).cpu,
            final(self).audio@ == old(self).audio@ + audio_spec(old(self).mmu, cycles),
    {
        // Update PPU
        let ppu_interrupts = match &mut self.mmu.ppu {
            Some(p) => p.update(cycles),
            None => 0,
        };
        self.request(ppu_interrupts);

        // Update timer
        let timer_interrupt = match &mut self.mmu.timer {
            Some(t) => t.update(cycles),
            None => 0,
        };
        self.request(timer_interrupt);

        // Update APU
        let mut samples = match &mut self.mmu.apu {
            Some(a) => a.update(cycles),
            None => Vec::new(),
        };
        self.audio.append(&mut samples);

        // Poll joypad for newly-pressed keys
        let pressed = match &mut self.mmu.joypad {
            Some(j) => j.poll_interrupt(),
            None => false,
        };
        if pressed {
            self.request(INT_JOYPAD);
        }
    }

    /// Dispatch a pending interrupt: wake a halted CPU and, with IME set,
    /// push PC and jump to the interrupt's vector. Returns the cycles taken.
    fn dispatch_interrupt(&mut self) -> (r: usize)
        requires
            old(self).mmu.wf(),
        ensures
            final(self).mmu.wf(),
            (final(self).cpu, final(self).mmu, r) == dispatch_spec(old(self).cpu, old(self).mmu),
            final(self).audio == old(self).audio,
    {
        let vector = match &mut self.mmu.interrupt {
            Some(i) => i.acknowledge(&mut self.cpu),
            None => None,
        };
        match vector {
            Some(v) => {
                // Push PC and jump to vector
                let pc = self.cpu.get_pc();
                self.cpu.push(&mut self.mmu, pc);
                self.cpu.set_pc(v);
                20
            },
            None => 0,
        }
    }

    /// Run one instruction and let the devices follow. Returns the cycles
    /// taken, an interrupt dispatch included.
    pub fn step(&mut self) -> (r: usize)
        requires
            old(self).wf(),
        ensures
            final(self).wf(),
            (final(self).cpu, final(self).mmu, r) == machine_step(old(self).cpu, old(self).mmu),
            final(self).audio@ == old(self).audio@ + machine_audio(old(self).cpu, old(self).mmu),
            4 <= r <= 44,
    {
        proof {
            reveal(machine_step);
            reveal(machine_audio);
        }
        // Execute pending OAM DMA if requested (triggered by write to 0xFF46).
        self.run_dma();

        // Execute one CPU instruction
        proof {
            lemma_step_bounds(self.cpu, self.mmu);
        }
        let cycles = self.cpu.fetch_n_execute(&mut self.mmu);

        self.tick_devices(cycles);

        // Dispatch pending interrupts to the CPU
        let int_cycles = self.dispatch_interrupt();

        cycles + int_cycles
    }

    /// Run one frame's worth of cycles (at least CYCLES_PER_FRAME), whole
    /// instructions at a time.
    pub fn process_frame(&mut self)
        requires
            old(self).wf(),
        ensures
            final(self).wf(),
            (final(self).cpu, final(self).mmu) == ({
                let f = run_frame_from(old(self).cpu, old(self).mmu, 0);
                (f.0, f.1)
            }),
            final(self).audio@ == old(self).audio@ + run_frame_from(old(self).cpu, old(self).mmu, 0).2,
    {
        let ghost target = run_frame_from(self.cpu, self.mmu, 0);
        let ghost audio0 = self.audio@;
        let mut cycles_this_frame: usize = 0;

        while cycles_this_frame < CYCLES_PER_FRAME
            invariant
                self.wf(),
                cycles_this_frame <= CYCLES_PER_FRAME + 44,
                ({
                    let f = run_frame_from(self.cpu, self.mmu, cycles_this_frame as int);
                    &&& f.0 == target.0
                    &&& f.1 == target.1
                    &&& self.audio@ + f.2 == audio0 + target.2
                }),
            decreases CYCLES_PER_FRAME + 44 - cycles_this_frame,
        {
            let ghost c0 = self.cpu;
            let ghost m0 = self.mmu;
            let ghost a0 = self.audio@;
            let cycles = self.step();
            proof {
                reveal_with_fuel(run_frame_from, 1);
                let rest = run_frame_from(self.cpu, self.mmu, cycles_this_frame + cycles);
                assert(run_frame_from(c0, m0, cycles_this_frame as int).2 == machine_audio(c0, m0)
                    + rest.2);
                assert(a0 + (machine_audio(c0, m0) + rest.2) =~= (a0 + machine_audio(c0, m0))
                    + rest.2);
            }
            cycles_this_frame += cycles;
        }
        proof {
            reveal_with_fuel(run_frame_from, 1);
        }
    }
}

/// A pending interrupt always wakes a halted CPU, whether or not IME is
/// set; only with IME set does the CPU jump to its vector.
pub proof fn lemma_interrupt_wakes(cpu: Cpu, mmu: Mmu)
    requires
        mmu.interrupt matches Some(i) && i.pending() != 0,
    ensures
        !dispatch_spec(cpu, mmu).0.halted,
        dispatch_spec(cpu, mmu).0.ime == false,
        cpu.ime <==> dispatch_spec(cpu, mmu).2 == 20,
{
}

} // verus!
