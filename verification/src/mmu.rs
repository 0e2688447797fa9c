use vstd::prelude::*;
use crate::io::boot::BootRom;
use crate::io::interrupt::Interrupt;
use crate::io::timer::Timer;
use crate::io::mbc::cartridge::Cartridge;
use crate::io::ppu::Ppu;
use crate::io::joypad::Joypad;
use crate::io::apu::Apu;

verus! {

/// The variants to control memory read access from the CPU.
pub enum MemRead {
    /// Replaces the value passed from the memory to the CPU.
    Replace(u8),
    /// Shows the actual value passed from the memory to the CPU.
    PassThrough,
}

/// The variants to control memory write access from the CPU.
pub enum MemWrite {
    /// Replaces the value to be written by the CPU to the memory.
    Replace(u8),
    /// Allows to write the value from the CPU to the memory unchanged.
    PassThrough,
    /// Discard the write access from the CPU.
    Block,
}

/// A device that answers for some addresses of the bus.
pub trait MemHandler {
    /// The device's own well-formedness.
    spec fn inv(&self) -> bool;

    /// The function is called when the CPU attempts to read from the memory.
    fn on_read(&self, addr: u16) -> (r: MemRead)
        requires
            self.inv(),
    ;

    /// The function is called when the CPU attempts to write to the memory.
    fn on_write(&mut self, addr: u16, value: u8) -> (r: MemWrite)
        requires
            old(self).inv(),
        ensures
            final(self).inv(),
    ;
}

/// The devices that can be mapped on the bus.
#[derive(Clone, Copy, PartialEq, Eq, Structural)]
pub enum Device {
    BootRom,
    Interrupt,
    Timer,
    Cartridge,
    Ppu,
    Joypad,
    Apu,
}

/// One registration: `device` answers for `lo..=hi`.
#[derive(Clone, Copy)]
pub struct Handler {
    pub lo: u16,
    pub hi: u16,
    pub device: Device,
}

impl Handler {
    pub open spec fn covers(self, addr: u16) -> bool {
        self.lo <= addr <= self.hi
    }
}

/// Echo RAM (0xE000-0xFDFF) holds the same data as 0xC000-0xDDFF.
pub open spec fn is_echo_ram(addr: u16) -> bool {
    0xE000 <= addr <= 0xFDFF
}

/// The RAM cell that backs an address.
pub open spec fn ram_index(addr: u16) -> int {
    if is_echo_ram(addr) {
        addr - 0x2000
    } else {
        addr as int
    }
}

/// The memory bus: 64 KiB of backing RAM, the devices it owns, and the
/// address ranges they answer for, in the order they were registered.
///
/// A read asks every registered device whose range covers the address, in
/// order; the first that answers `Replace` gives the value, and when none
/// does the backing RAM gives it. A write offers the value to the covering
/// devices in order; the first that answers `Block` swallows it, the first
/// that answers `Replace` has its value stored in RAM instead, and when all
/// pass it through the value itself is stored.
pub struct Mmu {
    pub ram: [u8; 0x10000],
    pub handlers: Vec<Handler>,
    pub boot_rom: Option<BootRom>,
    pub interrupt: Option<Interrupt>,
    pub timer: Option<Timer>,
    pub cartridge: Option<Cartridge>,
    pub ppu: Option<Ppu>,
    pub joypad: Option<Joypad>,
    pub apu: Option<Apu>,
}

impl Mmu {
    pub fn new() -> (r: Self)
        ensures
            r.wf(),
            r.handlers@.len() == 0,
            forall|i: int| 0 <= i < 0x10000 ==> r.ram[i] == 0,
            r.boot_rom is None,
            r.interrupt is None,
            r.timer is None,
            r.cartridge is None,
            r.ppu is None,
            r.joypad is None,
            r.apu is None,
    {
        Self {
            ram: [0u8; 0x10000],
            handlers: Vec::new(),
            boot_rom: None,
            interrupt: None,
            timer: None,
            cartridge: None,
            ppu: None,
            joypad: None,
            apu: None,
        }
    }

    /// Every device the bus owns is well-formed.
    pub open spec fn wf(&self) -> bool {
        &&& (self.boot_rom matches Some(d) ==> d.inv())
        &&& (self.interrupt matches Some(d) ==> d.inv())
        &&& (self.timer matches Some(d) ==> d.inv())
        &&& (self.cartridge matches Some(d) ==> d.inv())
        &&& (self.ppu matches Some(d) ==> d.inv())
        &&& (self.joypad matches Some(d) ==> d.inv())
        &&& (self.apu matches Some(d) ==> d.inv())
    }

    /// What `device` answers for a read of `addr`; an absent device passes.
    pub open spec fn device_read(&self, device: Device, addr: u16) -> MemRead {
        match device {
            Device::BootRom => match self.boot_rom {
                Some(d) => d.read_spec(addr),
                None => MemRead::PassThrough,
            },
            Device::Interrupt => match self.interrupt {
                Some(d) => d.read_spec(addr),
                None => MemRead::PassThrough,
            },
            Device::Timer => match self.timer {
                Some(d) => d.read_spec(addr),
                None => MemRead::PassThrough,
            },
            Device::Cartridge => match self.cartridge {
                Some(d) => d.read_spec(addr),
                None => MemRead::PassThrough,
            },
            Device::Ppu => match self.ppu {
                Some(d) => d.read_spec(addr),
                None => MemRead::PassThrough,
            },
            Device::Joypad => match self.joypad {
                Some(d) => d.read_spec(addr),
                None => MemRead::PassThrough,
            },
            Device::Apu => match self.apu {
                Some(d) => d.read_spec(addr),
                None => MemRead::PassThrough,
            },
        }
    }

    /// The bus after offering a write to `device`, and the device's answer.
    pub open spec fn device_write(self, device: Device, addr: u16, value: u8) -> (Mmu, MemWrite) {
        match device {
            Device::BootRom => match self.boot_rom {
                Some(d) => {
                    let (d2, w) = d.write_spec(addr, value);
                    (Mmu { boot_rom: Some(d2), ..self }, w)
                },
                None => (self, MemWrite::PassThrough),
            },
            Device::Interrupt => match self.interrupt {
                Some(d) => {
                    let (d2, w) = d.write_spec(addr, value);
                    (Mmu { interrupt: Some(d2), ..self }, w)
                },
                None => (self, MemWrite::PassThrough),
            },
            Device::Timer => match self.timer {
                Some(d) => {
                    let (d2, w) = d.write_spec(addr, value);
                    (Mmu { timer: Some(d2), ..self }, w)
                },
                None => (self, MemWrite::PassThrough),
            },
            Device::Cartridge => match self.cartridge {
                Some(d) => {
                    let (d2, w) = d.write_spec(addr, value);
                    (Mmu { cartridge: Some(d2), ..self }, w)
                },
                None => (self, MemWrite::PassThrough),
            },
            Device::Ppu => match self.ppu {
                Some(d) => {
                    let (d2, w) = d.write_spec(addr, value);
                    (Mmu { ppu: Some(d2), ..self }, w)
                },
                None => (self, MemWrite::PassThrough),
            },
            Device::Joypad => match self.joypad {
                Some(d) => {
                    let (d2, w) = d.write_spec(addr, value);
                    (Mmu { joypad: Some(d2), ..self }, w)
                },
                None => (self, MemWrite::PassThrough),
            },
            Device::Apu => match self.apu {
                Some(d) => {
                    let (d2, w) = d.write_spec(addr, value);
                    (Mmu { apu: Some(d2), ..self }, w)
                },
                None => (self, MemWrite::PassThrough),
            },
        }
    }

    /// The value read at `addr` when handlers `i..` are still to be asked.
    pub open spec fn read_from(&self, i: nat, addr: u16) -> u8
        decreases self.handlers@.len() - i,
    {
        if i >= self.handlers@.len() {
            self.ram[ram_index(addr)]
        } else {
            let h = self.handlers@[i as int];
            if h.covers(addr) {
                match self.device_read(h.device, addr) {
                    MemRead::Replace(v) => v,
                    MemRead::PassThrough => self.read_from(i + 1, addr),
                }
            } else {
                self.read_from(i + 1, addr)
            }
        }
    }

    /// The byte the CPU sees at `addr`.
    pub open spec fn read8(&self, addr: u16) -> u8 {
        self.read_from(0, addr)
    }

    /// The little-endian 16-bit value at `addr` and the next address
    /// (0xFFFF is followed by 0x0000).
    pub open spec fn read16(&self, addr: u16) -> u16 {
        (self.read8(addr) + 256 * self.read8(addr.wrapping_add(1))) as u16
    }

    /// The bus after storing `value` in the RAM cell that backs `addr`.
    pub open spec fn store(self, addr: u16, value: u8) -> Mmu {
        Mmu { ram: vstd::array::spec_array_update(self.ram, ram_index(addr), value), ..self }
    }

    /// The bus after a write of `value` to `addr` when handlers `hs[i..]` are
    /// still to be offered it.
    pub open spec fn write_from(self, hs: Seq<Handler>, i: nat, addr: u16, value: u8) -> Mmu
        decreases hs.len() - i,
    {
        if i >= hs.len() {
            self.store(addr, value)
        } else if hs[i as int].covers(addr) {
            let (m, w) = self.device_write(hs[i as int].device, addr, value);
            match w {
                MemWrite::Block => m,
                MemWrite::Replace(v) => m.store(addr, v),
                MemWrite::PassThrough => m.write_from(hs, i + 1, addr, value),
            }
        } else {
            self.write_from(hs, i + 1, addr, value)
        }
    }

    /// The bus after the CPU writes `value` to `addr`.
    pub open spec fn write8(self, addr: u16, value: u8) -> Mmu {
        self.write_from(self.handlers@, 0, addr, value)
    }

    /// The bus after the CPU writes the little-endian `value` to `addr` and
    /// the next address.
    pub open spec fn write16(self, addr: u16, value: u16) -> Mmu {
        self.write8(addr, (value % 256) as u8).write8(addr.wrapping_add(1), (value / 256) as u8)
    }

    /// The PPU's mode cycle counter, as held on the bus (0 with no PPU).
    pub open spec fn ppu_clock(self) -> usize {
        match self.ppu {
            Some(p) => p.mode_cycles,
            None => 0,
        }
    }

    /// A write through the bus never moves the PPU's cycle counter.
    pub proof fn lemma_write_from_keeps_clock(self, hs: Seq<Handler>, i: nat, addr: u16, value: u8)
        ensures
            self.write_from(hs, i, addr, value).ppu_clock() == self.ppu_clock(),
        decreases hs.len() - i,
    {
        if i < hs.len() && hs[i as int].covers(addr) {
            let (m, w) = self.device_write(hs[i as int].device, addr, value);
            if w is PassThrough {
                m.lemma_write_from_keeps_clock(hs, i + 1, addr, value);
            }
        } else if i < hs.len() {
            self.lemma_write_from_keeps_clock(hs, i + 1, addr, value);
        }
    }

    pub broadcast proof fn lemma_write8_keeps_clock(self, addr: u16, value: u8)
        ensures
            #[trigger] self.write8(addr, value).ppu_clock() == self.ppu_clock(),
    {
        self.lemma_write_from_keeps_clock(self.handlers@, 0, addr, value);
    }

    /// No registered device answers for `addr`: it is plain RAM.
    pub open spec fn unmapped(self, addr: u16) -> bool {
        forall|i: int| 0 <= i < self.handlers@.len() ==> !(#[trigger] self.handlers@[i]).covers(addr)
    }

    proof fn lemma_read_unmapped(self, i: nat, addr: u16)
        requires
            self.unmapped(addr),
        ensures
            self.read_from(i, addr) == self.ram[ram_index(addr)],
        decreases self.handlers@.len() - i,
    {
        if i < self.handlers@.len() {
            self.lemma_read_unmapped(i + 1, addr);
        }
    }

    proof fn lemma_write_unmapped(self, hs: Seq<Handler>, i: nat, addr: u16, value: u8)
        requires
            forall|k: int| 0 <= k < hs.len() ==> !(#[trigger] hs[k]).covers(addr),
        ensures
            self.write_from(hs, i, addr, value) == self.store(addr, value),
        decreases hs.len() - i,
    {
        if i < hs.len() {
            self.lemma_write_unmapped(hs, i + 1, addr, value);
        }
    }

    /// A write to plain RAM stores the byte in the cell that backs the
    /// address and touches nothing else: no device, no other cell.
    pub proof fn lemma_write_plain_ram(self, addr: u16, value: u8)
        requires
            self.unmapped(addr),
        ensures
            self.write8(addr, value) == self.store(addr, value),
    {
        self.lemma_write_unmapped(self.handlers@, 0, addr, value);
    }

    /// Reading plain RAM gives back what was last written there, also
    /// through its echo: a write to 0xC000-0xDDFF shows at the same offset
    /// of 0xE000-0xFDFF and the other way round. A write elsewhere in RAM
    /// leaves it as it was.
    pub proof fn lemma_read_after_write(self, waddr: u16, raddr: u16, value: u8)
        requires
            self.unmapped(waddr),
            self.unmapped(raddr),
        ensures
            ram_index(raddr) == ram_index(waddr) ==> self.write8(waddr, value).read8(raddr) == value,
            ram_index(raddr) != ram_index(waddr) ==> self.write8(waddr, value).read8(raddr)
                == self.read8(raddr),
    {
        self.lemma_write_plain_ram(waddr, value);
        let m = self.store(waddr, value);
        m.lemma_read_unmapped(0, raddr);
        self.lemma_read_unmapped(0, raddr);
    }

    /// Echo RAM: 0xE000-0xFDFF and 0xC000-0xDDFF are backed by the same
    /// cells.
    pub proof fn lemma_echo_ram(addr: u16)
        requires
            0xE000 <= addr <= 0xFDFF,
        ensures
            ram_index(addr) == ram_index((addr - 0x2000) as u16),
    {
    }

    /// A 16-bit write to plain RAM stores the low byte at `addr` and the high
    /// byte at the next address, shows each at its echo too, and leaves every
    /// other plain-RAM cell as it was.
    pub proof fn lemma_write16_bytes(self, addr: u16, value: u16, other: u16)
        requires
            self.unmapped(addr),
            self.unmapped(addr.wrapping_add(1)),
            self.unmapped(other),
        ensures
            self.write16(addr, value).read8(addr) == value % 256,
            self.write16(addr, value).read8(addr.wrapping_add(1)) == value / 256,
            ram_index(other) == ram_index(addr) ==> self.write16(addr, value).read8(other) == value
                % 256,
            ram_index(other) == ram_index(addr.wrapping_add(1)) ==> self.write16(addr, value).read8(
                other,
            ) == value / 256,
            ram_index(other) != ram_index(addr) && ram_index(other) != ram_index(addr.wrapping_add(1))
                ==> self.write16(addr, value).read8(other) == self.read8(other),
    {
        let a1 = addr.wrapping_add(1);
        let lo = (value % 256) as u8;
        let hi = (value / 256) as u8;
        let m1 = self.write8(addr, lo);
        self.lemma_write_plain_ram(addr, lo);
        m1.lemma_read_after_write(a1, a1, hi);
        m1.lemma_read_after_write(a1, addr, hi);
        m1.lemma_read_after_write(a1, other, hi);
        self.lemma_read_after_write(addr, addr, lo);
        self.lemma_read_after_write(addr, other, lo);
    }

    /// A 16-bit value pushed to plain RAM reads back unchanged.
    pub proof fn lemma_write16_read16(self, addr: u16, value: u16)
        requires
            self.unmapped(addr),
            self.unmapped(addr.wrapping_add(1)),
        ensures
            self.write16(addr, value).read16(addr) == value,
    {
        let a1 = addr.wrapping_add(1);
        let lo = (value % 256) as u8;
        let hi = (value / 256) as u8;
        let m1 = self.write8(addr, lo);
        self.lemma_write_plain_ram(addr, lo);
        m1.lemma_write_plain_ram(a1, hi);
        m1.lemma_read_after_write(a1, a1, hi);
        m1.lemma_read_after_write(a1, addr, hi);
        self.lemma_read_after_write(addr, addr, lo);
    }

    /// Register `device` for every address in `range.0..=range.1`, after the
    /// devices registered before it.
    pub fn add_handler(&mut self, range: (u16, u16), device: Device)
        ensures
            final(self).handlers@ == old(self).handlers@.push(
                Handler { lo: range.0, hi: range.1, device },
            ),
            *final(self) == (Mmu { handlers: final(self).handlers, ..*old(self) }),
    {
        self.handlers.push(Handler { lo: range.0, hi: range.1, device });
    }

    fn device_on_read(&self, device: Device, addr: u16) -> (r: MemRead)
        requires
            self.wf(),
        ensures
            r == self.device_read(device, addr),
    {
        match device {
            Device::BootRom => match &self.boot_rom {
                Some(d) => d.on_read(addr),
                None => MemRead::PassThrough,
            },
            Device::Interrupt => match &self.interrupt {
                Some(d) => d.on_read(addr),
                None => MemRead::PassThrough,
            },
            Device::Timer => match &self.timer {
                Some(d) => d.on_read(addr),
                None => MemRead::PassThrough,
            },
            Device::Cartridge => match &self.cartridge {
                Some(d) => d.on_read(addr),
                None => MemRead::PassThrough,
            },
            Device::Ppu => match &self.ppu {
                Some(d) => d.on_read(addr),
                None => MemRead::PassThrough,
            },
            Device::Joypad => match &self.joypad {
                Some(d) => d.on_read(addr),
                None => MemRead::PassThrough,
            },
            Device::Apu => match &self.apu {
                Some(d) => d.on_read(addr),
                None => MemRead::PassThrough,
            },
        }
    }

    fn device_on_write(&mut self, device: Device, addr: u16, value: u8) -> (r: MemWrite)
        requires
            old(self).wf(),
        ensures
            final(self).wf(),
            (*final(self), r) == old(self).device_write(device, addr, value),
    {
        match device {
            Device::BootRom => match &mut self.boot_rom {
                Some(d) => d.on_write(addr, value),
                None => MemWrite::PassThrough,
            },
            Device::Interrupt => match &mut self.interrupt {
                Some(d) => d.on_write(addr, value),
                None => MemWrite::PassThrough,
            },
            Device::Timer => match &mut self.timer {
                Some(d) => d.on_write(addr, value),
                None => MemWrite::PassThrough,
            },
            Device::Cartridge => match &mut self.cartridge {
                Some(d) => d.on_write(addr, value),
                None => MemWrite::PassThrough,
            },
            Device::Ppu => match &mut self.ppu {
                Some(d) => d.on_write(addr, value),
                None => MemWrite::PassThrough,
            },
            Device::Joypad => match &mut self.joypad {
                Some(d) => d.on_write(addr, value),
                None => MemWrite::PassThrough,
            },
            Device::Apu => match &mut self.apu {
                Some(d) => d.on_write(addr, value),
                None => MemWrite::PassThrough,
            },
        }
    }

    fn ram_index_of(addr: u16) -> (r: usize)
        ensures
            r == ram_index(addr),
            r < 0x10000,
    {
        if addr >= 0xE000 && addr <= 0xFDFF {
            // Echo RAM sector, it's same content that C000-DDFF sector
            (addr - 0x2000) as usize
        } else {
            addr as usize
        }
    }

    fn store_ram(&mut self, addr: u16, value: u8)
        ensures
            *final(self) == old(self).store(addr, value),
    {
        let idx = Self::ram_index_of(addr);
        self.ram[idx] = value;
    }

    pub fn get8(&self, addr: u16) -> (r: u8)
        requires
            self.wf(),
        ensures
            r == self.read8(addr),
    {
        let mut i: usize = 0;
        while i < self.handlers.len()
            invariant
                self.wf(),
                i <= self.handlers@.len(),
                self.read_from(i as nat, addr) == self.read8(addr),
            decreases self.handlers@.len() - i,
        {
            let h = self.handlers[i];
            if h.lo <= addr && addr <= h.hi {
                match self.device_on_read(h.device, addr) {
                    MemRead::Replace(value) => return value,
                    MemRead::PassThrough => {},
                }
            }
            i = i + 1;
        }
        self.ram[Self::ram_index_of(addr)]
    }

    pub fn set8(&mut self, addr: u16, v: u8)
        requires
            old(self).wf(),
        ensures
            final(self).wf(),
            *final(self) == old(self).write8(addr, v),
    {
        let ghost hs = self.handlers@;
        let ghost target = old(self).write8(addr, v);
        let mut pending = true;
        let mut i: usize = 0;
        while i < self.handlers.len()
            invariant
                self.wf(),
                self.handlers@ == hs,
                i <= hs.len(),
                pending ==> self.write_from(hs, i as nat, addr, v) == target,
                !pending ==> *self == target,
            decreases hs.len() - i,
        {
            let h = self.handlers[i];
            if pending && h.lo <= addr && addr <= h.hi {
                match self.device_on_write(h.device, addr, v) {
                    MemWrite::Replace(value) => {
                        self.store_ram(addr, value);
                        pending = false;
                    },
                    MemWrite::Block => {
                        pending = false;
                    },
                    MemWrite::PassThrough => {},
                }
            }
            i = i + 1;
        }
        if pending {
            self.store_ram(addr, v);
        }
    }

    pub fn get16(&self, addr: u16) -> (r: u16)
        requires
            self.wf(),
        ensures
            r == self.read16(addr),
    {
        let l = self.get8(addr) as u16;
        let h = self.get8(addr.wrapping_add(1)) as u16;
        h * 256 + l
    }

    pub fn set16(&mut self, addr: u16, v: u16)
        requires
            old(self).wf(),
        ensures
            final(self).wf(),
            *final(self) == old(self).write16(addr, v),
    {
        self.set8(addr, (v % 256) as u8);
        self.set8(addr.wrapping_add(1), (v / 256) as u8);
    }
}

} // verus!
