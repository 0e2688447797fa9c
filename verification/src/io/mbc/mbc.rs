use vstd::prelude::*;
use crate::mmu::{MemRead, MemWrite};

verus! {

/// A memory bank controller: maps the cartridge ROM and RAM into
/// 0x0000-0x7FFF and 0xA000-0xBFFF, and takes bank-switching writes.
pub trait Mbc {
    /// The controller's own well-formedness.
    spec fn inv(&self) -> bool;

    fn get_name(&self) -> &str;

    fn on_read(&self, addr: u16) -> MemRead
        requires
            self.inv(),
    ;

    fn on_write(&mut self, addr: u16, value: u8) -> (r: MemWrite)
        requires
            old(self).inv(),
        ensures
            final(self).inv(),
    ;
}

/// The byte at `offset` of `bytes`, or 0xFF past its end (open bus).
pub open spec fn byte_or_ff(bytes: Seq<u8>, offset: int) -> u8 {
    if 0 <= offset < bytes.len() {
        bytes[offset]
    } else {
        0xFF
    }
}

/// Whether a write to the RAM-enable register enables RAM.
pub open spec fn enables_ram(value: u8) -> bool {
    value & 0x0F == 0x0A
}

/// The bank-register fields keep their widths.
pub proof fn lemma_bank_masks(value: u8, bank: u16)
    ensures
        value & 0x1F < 32,
        value & 0x03 < 4,
        value & 0x7F < 128,
        value & 0x0F < 16,
        (bank & 0x100) | (value as u16) < 0x200,
        (bank & 0x0FF) | (((value as u16) & 0x01) << 8) < 0x200,
{
    assert(value & 0x1F < 32 && value & 0x03 < 4 && value & 0x7F < 128 && value & 0x0F < 16
        && (bank & 0x100) | (value as u16) < 0x200 && (bank & 0x0FF) | (((value as u16) & 0x01) << 8)
        < 0x200) by (bit_vector);
}

fn rom_byte(rom: &Vec<u8>, offset: usize) -> (r: u8)
    ensures
        r == byte_or_ff(rom@, offset as int),
{
    if offset < rom.len() {
        rom[offset]
    } else {
        0xFF
    }
}

// ---------------------------------------------------------------------------
// ROM only
// ---------------------------------------------------------------------------

/// A cartridge without a controller: 32 KiB of ROM, writes ignored.
pub struct MbcNone {
    pub rom: Vec<u8>,
}

impl MbcNone {
    pub fn new(rom: Vec<u8>) -> (r: Self)
        ensures
            r.rom == rom,
            r.inv(),
    {
        Self { rom }
    }

    /// 0x0000-0x7FFF read the image; an image shorter than 32 KiB reads
    /// 0xFF past its end, as the banked controllers do.
    pub open spec fn read_spec(&self, addr: u16) -> MemRead {
        if addr <= 0x7FFF {
            MemRead::Replace(byte_or_ff(self.rom@, addr as int))
        } else {
            MemRead::PassThrough
        }
    }
}

impl Mbc for MbcNone {
    open spec fn inv(&self) -> bool {
        true
    }

    fn get_name(&self) -> (r: &str)
        ensures
            r@ == "ROM Only"@,
    {
        "ROM Only"
    }

    fn on_read(&self, addr: u16) -> (r: MemRead)
        ensures
            r == self.read_spec(addr),
    {
        if addr <= 0x7FFF {
            MemRead::Replace(rom_byte(&self.rom, addr as usize))
        } else {
            MemRead::PassThrough
        }
    }

    fn on_write(&mut self, _addr: u16, _value: u8) -> (r: MemWrite)
        ensures
            *final(self) == *old(self),
            r == MemWrite::Block,
    {
        // Writes to ROM space are silently ignored (no MBC to handle bank switching)
        MemWrite::Block
    }
}

// ---------------------------------------------------------------------------
// MBC1
// ---------------------------------------------------------------------------
// Supports up to 2MB ROM (128 banks of 16KB) and 32KB RAM (4 banks of 8KB).
//
// Memory map:
//   0x0000-0x3FFF  ROM bank 0 (fixed)
//   0x4000-0x7FFF  Switchable ROM bank
//   0xA000-0xBFFF  Switchable RAM bank (if enabled)
//
// Write registers:
//   0x0000-0x1FFF  RAM enable  (0x0A = enable, anything else = disable)
//   0x2000-0x3FFF  ROM bank low 5 bits  (0 treated as 1)
//   0x4000-0x5FFF  Upper 2 bits — RAM bank OR upper ROM bank bits
//   0x6000-0x7FFF  Banking mode  (0 = ROM mode, 1 = RAM mode)
pub struct Mbc1 {
    pub rom: Vec<u8>,
    pub ram: [u8; 0x8000],
    /// lower 5 bits of ROM bank
    pub rom_bank_lo: u8,
    /// upper 2 bits (RAM bank or upper ROM bank)
    pub bank_hi: u8,
    pub ram_enabled: bool,
    /// false = ROM banking mode, true = RAM banking mode
    pub ram_mode: bool,
}

impl Mbc1 {
    pub fn new(rom: Vec<u8>) -> (r: Self)
        ensures
            r.rom == rom,
            forall|i: int| 0 <= i < 0x8000 ==> r.ram[i] == 0,
            r.rom_bank_lo == 1,
            r.bank_hi == 0,
            !r.ram_enabled,
            !r.ram_mode,
            r.inv(),
    {
        Self {
            rom,
            ram: [0; 0x8000],  // 32KB max
            rom_bank_lo: 1,
            bank_hi: 0,
            ram_enabled: false,
            ram_mode: false,
        }
    }

    /// Effective ROM bank for the 0x4000-0x7FFF window: banks 0x00, 0x20,
    /// 0x40 and 0x60 are remapped to the next bank.
    pub open spec fn rom_bank_spec(&self) -> int {
        let bank: int = if self.ram_mode {
            self.rom_bank_lo as int
        } else {
            self.bank_hi * 32 + self.rom_bank_lo
        };
        if bank == 0x00 || bank == 0x20 || bank == 0x40 || bank == 0x60 {
            bank + 1
        } else {
            bank
        }
    }

    /// Effective RAM bank.
    pub open spec fn ram_bank_spec(&self) -> int {
        if self.ram_mode {
            self.bank_hi as int
        } else {
            0
        }
    }

    /// Effective ROM bank for the 0x4000-0x7FFF window.
    fn rom_bank(&self) -> (r: usize)
        requires
            self.inv(),
        ensures
            r == self.rom_bank_spec(),
            r < 128,
    {
        let bank = if self.ram_mode {
            self.rom_bank_lo as usize
        } else {
            (self.bank_hi as usize) * 32 + (self.rom_bank_lo as usize)
        };
        // Banks 0x00, 0x20, 0x40, 0x60 are remapped to the next bank
        if bank == 0x00 || bank == 0x20 || bank == 0x40 || bank == 0x60 {
            bank + 1
        } else {
            bank
        }
    }

    /// Effective RAM bank.
    fn ram_bank(&self) -> (r: usize)
        requires
            self.inv(),
        ensures
            r == self.ram_bank_spec(),
            r < 4,
    {
        if self.ram_mode {
            self.bank_hi as usize
        } else {
            0
        }
    }

    pub open spec fn read_spec(&self, addr: u16) -> MemRead {
        if addr <= 0x3FFF {
            MemRead::Replace(byte_or_ff(self.rom@, addr as int))
        } else if addr <= 0x7FFF {
            MemRead::Replace(byte_or_ff(self.rom@, self.rom_bank_spec() * 0x4000 + (addr - 0x4000)))
        } else if 0xA000 <= addr <= 0xBFFF {
            if self.ram_enabled {
                MemRead::Replace(self.ram[self.ram_bank_spec() * 0x2000 + (addr - 0xA000)])
            } else {
                MemRead::Replace(0xFF)
            }
        } else {
            MemRead::PassThrough
        }
    }

    pub open spec fn write_spec(&self, addr: u16, value: u8) -> Mbc1 {
        if addr <= 0x1FFF {
            Mbc1 { ram_enabled: enables_ram(value), ..*self }
        } else if addr <= 0x3FFF {
            let lo = value & 0x1F;
            Mbc1 { rom_bank_lo: if lo == 0 { 1 } else { lo }, ..*self }
        } else if addr <= 0x5FFF {
            Mbc1 { bank_hi: value & 0x03, ..*self }
        } else if addr <= 0x7FFF {
            Mbc1 { ram_mode: value & 0x01 != 0, ..*self }
        } else if 0xA000 <= addr <= 0xBFFF && self.ram_enabled {
            Mbc1 {
                ram: vstd::array::spec_array_update(
                    self.ram,
                    self.ram_bank_spec() * 0x2000 + (addr - 0xA000),
                    value,
                ),
                ..*self
            }
        } else {
            *self
        }
    }
}

impl Mbc for Mbc1 {
    open spec fn inv(&self) -> bool {
        self.rom_bank_lo < 32 && self.bank_hi < 4
    }

    fn get_name(&self) -> (r: &str)
        ensures
            r@ == "MBC1"@,
    {
        "MBC1"
    }

    fn on_read(&self, addr: u16) -> (r: MemRead)
        ensures
            r == self.read_spec(addr),
    {
        match addr {
            0x0000..=0x3FFF => MemRead::Replace(rom_byte(&self.rom, addr as usize)),
            0x4000..=0x7FFF => {
                let offset = self.rom_bank() * 0x4000 + (addr as usize - 0x4000);
                MemRead::Replace(rom_byte(&self.rom, offset))
            },
            0xA000..=0xBFFF => {
                if self.ram_enabled {
                    let offset = self.ram_bank() * 0x2000 + (addr as usize - 0xA000);
                    MemRead::Replace(self.ram[offset])
                } else {
                    MemRead::Replace(0xFF)
                }
            },
            _ => MemRead::PassThrough,
        }
    }

    fn on_write(&mut self, addr: u16, value: u8) -> (r: MemWrite)
        ensures
            *final(self) == old(self).write_spec(addr, value),
            r == MemWrite::Block,
    {
        proof {
            lemma_bank_masks(value, 0);
        }
        match addr {
            0x0000..=0x1FFF => {
                self.ram_enabled = value & 0x0F == 0x0A;
            },
            0x2000..=0x3FFF => {
                let lo = value & 0x1F;
                self.rom_bank_lo = if lo == 0 {
                    1
                } else {
                    lo
                };
            },
            0x4000..=0x5FFF => {
                self.bank_hi = value & 0x03;
            },
            0x6000..=0x7FFF => {
                self.ram_mode = value & 0x01 != 0;
            },
            0xA000..=0xBFFF => {
                if self.ram_enabled {
                    let offset = self.ram_bank() * 0x2000 + (addr as usize - 0xA000);
                    self.ram[offset] = value;
                }
            },
            _ => {},
        }
        MemWrite::Block
    }
}

// ---------------------------------------------------------------------------
// MBC3
// ---------------------------------------------------------------------------
// Supports up to 2MB ROM (128 banks) and 32KB RAM (4 banks).
// Has an optional real-time clock (stubbed — reads return 0).
//
// Write registers:
//   0x0000-0x1FFF  RAM/RTC enable
//   0x2000-0x3FFF  ROM bank (7 bits, 0 treated as 1)
//   0x4000-0x5FFF  RAM bank (0-3) or RTC register select (0x08-0x0C)
//   0x6000-0x7FFF  Latch clock data (ignored)
pub struct Mbc3 {
    pub rom: Vec<u8>,
    pub ram: [u8; 0x8000],
    pub rom_bank: u8,
    pub ram_bank: u8,
    pub ram_enabled: bool,
}

impl Mbc3 {
    pub fn new(rom: Vec<u8>) -> (r: Self)
        ensures
            r.rom == rom,
            forall|i: int| 0 <= i < 0x8000 ==> r.ram[i] == 0,
            r.rom_bank == 1,
            r.ram_bank == 0,
            !r.ram_enabled,
    {
        Self { rom, ram: [0; 0x8000], rom_bank: 1, ram_bank: 0, ram_enabled: false }
    }

    pub open spec fn read_spec(&self, addr: u16) -> MemRead {
        if addr <= 0x3FFF {
            MemRead::Replace(byte_or_ff(self.rom@, addr as int))
        } else if addr <= 0x7FFF {
            MemRead::Replace(byte_or_ff(self.rom@, self.rom_bank * 0x4000 + (addr - 0x4000)))
        } else if 0xA000 <= addr <= 0xBFFF {
            if self.ram_enabled && self.ram_bank <= 0x03 {
                MemRead::Replace(self.ram[self.ram_bank * 0x2000 + (addr - 0xA000)])
            } else if self.ram_enabled {
                // RTC registers — stub, return 0
                MemRead::Replace(0x00)
            } else {
                MemRead::Replace(0xFF)
            }
        } else {
            MemRead::PassThrough
        }
    }

    pub open spec fn write_spec(&self, addr: u16, value: u8) -> Mbc3 {
        if addr <= 0x1FFF {
            Mbc3 { ram_enabled: enables_ram(value), ..*self }
        } else if addr <= 0x3FFF {
            let bank = value & 0x7F;
            Mbc3 { rom_bank: if bank == 0 { 1 } else { bank }, ..*self }
        } else if addr <= 0x5FFF {
            Mbc3 { ram_bank: value, ..*self }
        } else if 0xA000 <= addr <= 0xBFFF && self.ram_enabled && self.ram_bank <= 0x03 {
            Mbc3 {
                ram: vstd::array::spec_array_update(
                    self.ram,
                    self.ram_bank * 0x2000 + (addr - 0xA000),
                    value,
                ),
                ..*self
            }
        } else {
            *self
        }
    }
}

impl Mbc for Mbc3 {
    open spec fn inv(&self) -> bool {
        true
    }

    fn get_name(&self) -> (r: &str)
        ensures
            r@ == "MBC3"@,
    {
        "MBC3"
    }

    fn on_read(&self, addr: u16) -> (r: MemRead)
        ensures
            r == self.read_spec(addr),
    {
        match addr {
            0x0000..=0x3FFF => MemRead::Replace(rom_byte(&self.rom, addr as usize)),
            0x4000..=0x7FFF => {
                let offset = self.rom_bank as usize * 0x4000 + (addr as usize - 0x4000);
                MemRead::Replace(rom_byte(&self.rom, offset))
            },
            0xA000..=0xBFFF => {
                if self.ram_enabled && self.ram_bank <= 0x03 {
                    let offset = self.ram_bank as usize * 0x2000 + (addr as usize - 0xA000);
                    MemRead::Replace(self.ram[offset])
                } else if self.ram_enabled {
                    // RTC registers — stub, return 0
                    MemRead::Replace(0x00)
                } else {
                    MemRead::Replace(0xFF)
                }
            },
            _ => MemRead::PassThrough,
        }
    }

    fn on_write(&mut self, addr: u16, value: u8) -> (r: MemWrite)
        ensures
            *final(self) == old(self).write_spec(addr, value),
            r == MemWrite::Block,
    {
        match addr {
            0x0000..=0x1FFF => {
                self.ram_enabled = value & 0x0F == 0x0A;
            },
            0x2000..=0x3FFF => {
                let bank = value & 0x7F;
                self.rom_bank = if bank == 0 {
                    1
                } else {
                    bank
                };
            },
            0x4000..=0x5FFF => {
                self.ram_bank = value;
            },
            0x6000..=0x7FFF => {
                // RTC latch — ignored
            },
            0xA000..=0xBFFF => {
                if self.ram_enabled && self.ram_bank <= 0x03 {
                    let offset = self.ram_bank as usize * 0x2000 + (addr as usize - 0xA000);
                    self.ram[offset] = value;
                }
            },
            _ => {},
        }
        MemWrite::Block
    }
}

// ---------------------------------------------------------------------------
// MBC5
// ---------------------------------------------------------------------------
// Supports up to 8MB ROM (512 banks of 16KB) and 128KB RAM (16 banks of 8KB).
// Unlike MBC1, bank 0 is accessible in the 0x4000-0x7FFF window.
//
// Write registers:
//   0x0000-0x1FFF  RAM enable
//   0x2000-0x2FFF  ROM bank lower 8 bits
//   0x3000-0x3FFF  ROM bank bit 8 (upper bit)
//   0x4000-0x5FFF  RAM bank (0-0x0F)
pub struct Mbc5 {
    pub rom: Vec<u8>,
    pub ram: [u8; 0x20000],
    /// 9-bit bank number (0-511)
    pub rom_bank: u16,
    pub ram_bank: u8,
    pub ram_enabled: bool,
}

impl Mbc5 {
    pub fn new(rom: Vec<u8>) -> (r: Self)
        ensures
            r.rom == rom,
            forall|i: int| 0 <= i < 0x20000 ==> r.ram[i] == 0,
            r.rom_bank == 1,
            r.ram_bank == 0,
            !r.ram_enabled,
            r.inv(),
    {
        Self {
            rom,
            ram: [0; 0x20000],  // 128KB max
            rom_bank: 1,
            ram_bank: 0,
            ram_enabled: false,
        }
    }

    pub open spec fn read_spec(&self, addr: u16) -> MemRead {
        if addr <= 0x3FFF {
            MemRead::Replace(byte_or_ff(self.rom@, addr as int))
        } else if addr <= 0x7FFF {
            MemRead::Replace(byte_or_ff(self.rom@, self.rom_bank * 0x4000 + (addr - 0x4000)))
        } else if 0xA000 <= addr <= 0xBFFF {
            if self.ram_enabled {
                MemRead::Replace(self.ram[self.ram_bank * 0x2000 + (addr - 0xA000)])
            } else {
                MemRead::Replace(0xFF)
            }
        } else {
            MemRead::PassThrough
        }
    }

    pub open spec fn write_spec(&self, addr: u16, value: u8) -> Mbc5 {
        if addr <= 0x1FFF {
            Mbc5 { ram_enabled: enables_ram(value), ..*self }
        } else if addr <= 0x2FFF {
            Mbc5 { rom_bank: (self.rom_bank & 0x100) | value as u16, ..*self }
        } else if addr <= 0x3FFF {
            Mbc5 { rom_bank: (self.rom_bank & 0x0FF) | (((value as u16) & 0x01) << 8), ..*self }
        } else if addr <= 0x5FFF {
            Mbc5 { ram_bank: value & 0x0F, ..*self }
        } else if 0xA000 <= addr <= 0xBFFF && self.ram_enabled {
            Mbc5 {
                ram: vstd::array::spec_array_update(
                    self.ram,
                    self.ram_bank * 0x2000 + (addr - 0xA000),
                    value,
                ),
                ..*self
            }
        } else {
            *self
        }
    }
}

impl Mbc for Mbc5 {
    open spec fn inv(&self) -> bool {
        self.rom_bank < 0x200 && self.ram_bank < 16
    }

    fn get_name(&self) -> (r: &str)
        ensures
            r@ == "MBC5"@,
    {
        "MBC5"
    }

    fn on_read(&self, addr: u16) -> (r: MemRead)
        ensures
            r == self.read_spec(addr),
    {
        match addr {
            0x0000..=0x3FFF => MemRead::Replace(rom_byte(&self.rom, addr as usize)),
            0x4000..=0x7FFF => {
                let offset = self.rom_bank as usize * 0x4000 + (addr as usize - 0x4000);
                MemRead::Replace(rom_byte(&self.rom, offset))
            },
            0xA000..=0xBFFF => {
                if self.ram_enabled {
                    let offset = self.ram_bank as usize * 0x2000 + (addr as usize - 0xA000);
                    MemRead::Replace(self.ram[offset])
                } else {
                    MemRead::Replace(0xFF)
                }
            },
            _ => MemRead::PassThrough,
        }
    }

    fn on_write(&mut self, addr: u16, value: u8) -> (r: MemWrite)
        ensures
            *final(self) == old(self).write_spec(addr, value),
            r == MemWrite::Block,
    {
        proof {
            lemma_bank_masks(value, self.rom_bank);
        }
        match addr {
            0x0000..=0x1FFF => {
                self.ram_enabled = value & 0x0F == 0x0A;
            },
            0x2000..=0x2FFF => {
                self.rom_bank = (self.rom_bank & 0x100) | value as u16;
            },
            0x3000..=0x3FFF => {
                self.rom_bank = (self.rom_bank & 0x0FF) | (((value as u16) & 0x01) << 8);
            },
            0x4000..=0x5FFF => {
                self.ram_bank = value & 0x0F;
            },
            0xA000..=0xBFFF => {
                if self.ram_enabled {
                    let offset = self.ram_bank as usize * 0x2000 + (addr as usize - 0xA000);
                    self.ram[offset] = value;
                }
            },
            _ => {},
        }
        MemWrite::Block
    }
}


// ---------------------------------------------------------------------------
// Choosing the controller
// ---------------------------------------------------------------------------

/// The cartridge types (header byte 0x147) with a supported controller.
pub open spec fn supported_mbc(code: u8) -> bool {
    code == 0x00 || (0x01 <= code <= 0x03) || (0x0F <= code <= 0x13) || (0x19 <= code <= 0x1E)
}

/// Whether cartridge type `code` has a supported controller.
pub fn is_supported_mbc(code: u8) -> (r: bool)
    ensures
        r == supported_mbc(code),
{
    code == 0x00 || (0x01 <= code && code <= 0x03) || (0x0F <= code && code <= 0x13) || (0x19 <= code
        && code <= 0x1E)
}

/// The controller of a cartridge.
pub enum MbcType {
    RomOnly(MbcNone),
    Mbc1(Mbc1),
    Mbc3(Mbc3),
    Mbc5(Mbc5),
}

/// The controller for cartridge type `code`, holding `rom`:
/// 0x00 ROM only; 0x01-0x03 MBC1; 0x0F-0x13 MBC3; 0x19-0x1E MBC5.
pub fn new(code: u8, rom: Vec<u8>) -> (r: MbcType)
    requires
        supported_mbc(code),
    ensures
        r.fresh_for(code, rom@),
        r.inv(),
{
    match code {
        0x00 => MbcType::RomOnly(MbcNone::new(rom)),
        0x01 | 0x02 | 0x03 => MbcType::Mbc1(Mbc1::new(rom)),
        0x0f | 0x10 | 0x11 | 0x12 | 0x13 => MbcType::Mbc3(Mbc3::new(rom)),
        _ => MbcType::Mbc5(Mbc5::new(rom)),
    }
}

impl MbcType {
    /// The controller that type `code` selects, just as built: holding
    /// `rom`, RAM zeroed and disabled, ROM bank 1 switched in.
    pub open spec fn fresh_for(self, code: u8, rom: Seq<u8>) -> bool {
        match self {
            MbcType::RomOnly(m) => code == 0x00 && m.rom@ == rom,
            MbcType::Mbc1(m) => {
                &&& 0x01 <= code <= 0x03
                &&& m.rom@ == rom
                &&& (forall|i: int| 0 <= i < 0x8000 ==> m.ram[i] == 0)
                &&& m.rom_bank_lo == 1 && m.bank_hi == 0 && !m.ram_enabled && !m.ram_mode
            },
            MbcType::Mbc3(m) => {
                &&& 0x0F <= code <= 0x13
                &&& m.rom@ == rom
                &&& (forall|i: int| 0 <= i < 0x8000 ==> m.ram[i] == 0)
                &&& m.rom_bank == 1 && m.ram_bank == 0 && !m.ram_enabled
            },
            MbcType::Mbc5(m) => {
                &&& 0x19 <= code <= 0x1E
                &&& m.rom@ == rom
                &&& (forall|i: int| 0 <= i < 0x20000 ==> m.ram[i] == 0)
                &&& m.rom_bank == 1 && m.ram_bank == 0 && !m.ram_enabled
            },
        }
    }

    pub open spec fn read_spec(&self, addr: u16) -> MemRead {
        match self {
            MbcType::RomOnly(m) => m.read_spec(addr),
            MbcType::Mbc1(m) => m.read_spec(addr),
            MbcType::Mbc3(m) => m.read_spec(addr),
            MbcType::Mbc5(m) => m.read_spec(addr),
        }
    }

    pub open spec fn write_spec(&self, addr: u16, value: u8) -> MbcType {
        match self {
            MbcType::RomOnly(m) => MbcType::RomOnly(*m),
            MbcType::Mbc1(m) => MbcType::Mbc1(m.write_spec(addr, value)),
            MbcType::Mbc3(m) => MbcType::Mbc3(m.write_spec(addr, value)),
            MbcType::Mbc5(m) => MbcType::Mbc5(m.write_spec(addr, value)),
        }
    }

    /// The controller's name.
    pub open spec fn name_spec(&self) -> Seq<char> {
        match self {
            MbcType::RomOnly(_) => "ROM Only"@,
            MbcType::Mbc1(_) => "MBC1"@,
            MbcType::Mbc3(_) => "MBC3"@,
            MbcType::Mbc5(_) => "MBC5"@,
        }
    }
}

impl Mbc for MbcType {
    open spec fn inv(&self) -> bool {
        match self {
            MbcType::RomOnly(m) => m.inv(),
            MbcType::Mbc1(m) => m.inv(),
            MbcType::Mbc3(m) => m.inv(),
            MbcType::Mbc5(m) => m.inv(),
        }
    }

    fn get_name(&self) -> (r: &str)
        ensures
            r@ == self.name_spec(),
    {
        match self {
            MbcType::RomOnly(m) => m.get_name(),
            MbcType::Mbc1(m) => m.get_name(),
            MbcType::Mbc3(m) => m.get_name(),
            MbcType::Mbc5(m) => m.get_name(),
        }
    }

    fn on_read(&self, addr: u16) -> (r: MemRead)
        ensures
            r == self.read_spec(addr),
    {
        match self {
            MbcType::RomOnly(m) => m.on_read(addr),
            MbcType::Mbc1(m) => m.on_read(addr),
            MbcType::Mbc3(m) => m.on_read(addr),
            MbcType::Mbc5(m) => m.on_read(addr),
        }
    }

    fn on_write(&mut self, addr: u16, value: u8) -> (r: MemWrite)
        ensures
            *final(self) == old(self).write_spec(addr, value),
            r == MemWrite::Block,
    {
        match self {
            MbcType::RomOnly(m) => m.on_write(addr, value),
            MbcType::Mbc1(m) => m.on_write(addr, value),
            MbcType::Mbc3(m) => m.on_write(addr, value),
            MbcType::Mbc5(m) => m.on_write(addr, value),
        }
    }
}

impl MbcType {
    /// Whether the external RAM at 0xA000-0xBFFF is switched on.
    pub open spec fn ram_enabled_spec(&self) -> bool {
        match self {
            MbcType::RomOnly(_) => false,
            MbcType::Mbc1(m) => m.ram_enabled,
            MbcType::Mbc3(m) => m.ram_enabled,
            MbcType::Mbc5(m) => m.ram_enabled,
        }
    }

    /// Whether the external RAM at 0xA000-0xBFFF holds bytes now: it is on
    /// and, on MBC3, a RAM bank (not a clock register) is selected.
    pub open spec fn ram_ready(&self) -> bool {
        match self {
            MbcType::RomOnly(_) => false,
            MbcType::Mbc1(m) => m.ram_enabled,
            MbcType::Mbc3(m) => m.ram_enabled && m.ram_bank <= 0x03,
            MbcType::Mbc5(m) => m.ram_enabled,
        }
    }
}

/// Cartridge RAM gives back what was written to it, as long as it is on.
pub proof fn lemma_ram_read_after_write(c: MbcType, addr: u16, value: u8)
    requires
        c.inv(),
        c.ram_ready(),
        0xA000 <= addr <= 0xBFFF,
    ensures
        c.write_spec(addr, value).read_spec(addr) == MemRead::Replace(value),
{
}

/// While a controller's RAM is off, writes to it change nothing and reads
/// give 0xFF.
pub proof fn lemma_ram_off(c: MbcType, addr: u16, value: u8)
    requires
        !(c is RomOnly),
        !c.ram_enabled_spec(),
        0xA000 <= addr <= 0xBFFF,
    ensures
        c.write_spec(addr, value) == c,
        c.read_spec(addr) == MemRead::Replace(0xFF),
{
}

/// ROM bank 0 can never be switched into 0x4000-0x7FFF on MBC1 and MBC3:
/// asking for it selects bank 1.
pub proof fn lemma_bank_zero_is_one(c: MbcType, addr: u16)
    requires
        0x2000 <= addr <= 0x3FFF,
        c is Mbc1 || c is Mbc3,
    ensures
        c.write_spec(addr, 0) matches MbcType::Mbc1(m) ==> m.rom_bank_lo == 1,
        c.write_spec(addr, 0) matches MbcType::Mbc3(m) ==> m.rom_bank == 1,
{
    assert(0u8 & 0x1F == 0 && 0u8 & 0x7F == 0) by (bit_vector);
}

/// MBC1 ROM banking. 0x0000-0x3FFF always shows bank 0. In ROM banking
/// mode, 0x4000-0x7FFF shows bank `hi * 32 + lo`, where `hi` is the two low
/// bits last written to 0x4000-0x5FFF and `lo` the five low bits last
/// written to 0x2000-0x3FFF (0 selecting 1), in whichever order the two
/// were written; in RAM banking mode it shows bank `lo` alone.
#[verifier::spinoff_prover]
pub proof fn lemma_mbc1_rom_banks(m: Mbc1, h: u8, l: u8, addr: u16)
    requires
        0x4000 <= addr <= 0x7FFF,
    ensures
        ({
            let lo: int = if l & 0x1F == 0 { 1 } else { (l & 0x1F) as int };
            let bank: int = if m.ram_mode { lo } else { (h & 0x03) * 32 + lo };
            let a = m.write_spec(0x4000, h).write_spec(0x2000, l);
            let b = m.write_spec(0x2000, l).write_spec(0x4000, h);
            &&& a.read_spec(addr) == MemRead::Replace(byte_or_ff(m.rom@, bank * 0x4000 + (addr - 0x4000)))
            &&& b.read_spec(addr) == MemRead::Replace(byte_or_ff(m.rom@, bank * 0x4000 + (addr - 0x4000)))
            &&& a.read_spec((addr - 0x4000) as u16) == MemRead::Replace(byte_or_ff(m.rom@, addr - 0x4000))
        }),
{
    assert(l & 0x1F < 32 && h & 0x03 < 4) by (bit_vector);
}

/// MBC3 ROM banking: 0x4000-0x7FFF shows the bank given by the seven low
/// bits last written to 0x2000-0x3FFF (0 selecting 1).
#[verifier::spinoff_prover]
pub proof fn lemma_mbc3_rom_banks(m: Mbc3, l: u8, addr: u16)
    requires
        0x4000 <= addr <= 0x7FFF,
    ensures
        ({
            let bank: int = if l & 0x7F == 0 { 1 } else { (l & 0x7F) as int };
            m.write_spec(0x2000, l).read_spec(addr) == MemRead::Replace(
                byte_or_ff(m.rom@, bank * 0x4000 + (addr - 0x4000)),
            )
        }),
{
}

/// MBC5 ROM banking: 0x4000-0x7FFF shows bank `h * 256 + l`, `l` the byte
/// last written to 0x2000-0x2FFF and `h` bit 0 of the last write to
/// 0x3000-0x3FFF; bank 0 can be selected.
#[verifier::spinoff_prover]
pub proof fn lemma_mbc5_rom_banks(m: Mbc5, h: u8, l: u8, addr: u16)
    requires
        0x4000 <= addr <= 0x7FFF,
    ensures
        ({
            let bank: int = (h & 0x01) * 256 + l;
            let a = m.write_spec(0x2000, l).write_spec(0x3000, h);
            let b = m.write_spec(0x3000, h).write_spec(0x2000, l);
            &&& a.read_spec(addr) == MemRead::Replace(byte_or_ff(m.rom@, bank * 0x4000 + (addr - 0x4000)))
            &&& b.read_spec(addr) == MemRead::Replace(byte_or_ff(m.rom@, bank * 0x4000 + (addr - 0x4000)))
        }),
{
    let r = m.rom_bank;
    assert((((r & 0x100) | (l as u16)) & 0x0FF) | (((h as u16) & 0x01) << 8) == ((h & 0x01) as u16) * 256
        + (l as u16)) by (bit_vector);
    assert((((r & 0x0FF) | (((h as u16) & 0x01) << 8)) & 0x100) | (l as u16) == ((h & 0x01) as u16) * 256
        + (l as u16)) by (bit_vector);
}

/// Cartridge RAM at 0xA000-0xBFFF. It answers only after a value with low
/// nibble 0xA was written to 0x0000-0x1FFF (reads give 0xFF otherwise).
/// MBC1 shows RAM bank `h` (the two low bits last written to
/// 0x4000-0x5FFF) in RAM banking mode (bit 0 of the last write to
/// 0x6000-0x7FFF set) and bank 0 in ROM banking mode; MBC5 shows bank `h`'s
/// low four bits.
#[verifier::spinoff_prover]
pub proof fn lemma_ram_banks(m1: Mbc1, m5: Mbc5, h: u8, mode: u8, e: u8, addr: u16)
    requires
        0xA000 <= addr <= 0xBFFF,
    ensures
        ({
            let a = m1.write_spec(0x6000, mode).write_spec(0x4000, h).write_spec(0x0000, e);
            let bank: int = if mode & 0x01 != 0 { (h & 0x03) as int } else { 0 };
            a.read_spec(addr) == MemRead::Replace(
                if e & 0x0F == 0x0A { m1.ram[bank * 0x2000 + (addr - 0xA000)] } else { 0xFF },
            )
        }),
        ({
            let b = m5.write_spec(0x4000, h).write_spec(0x0000, e);
            b.read_spec(addr) == MemRead::Replace(
                if e & 0x0F == 0x0A { m5.ram[(h & 0x0F) * 0x2000 + (addr - 0xA000)] } else { 0xFF },
            )
        }),
{
}

/// MBC3 RAM: after a value with low nibble 0xA was written to
/// 0x0000-0x1FFF, 0xA000-0xBFFF shows RAM bank `b` (the last value written
/// to 0x4000-0x5FFF) for `b` up to 3, and reads 0 for a clock register;
/// reads give 0xFF otherwise.
#[verifier::spinoff_prover]
pub proof fn lemma_mbc3_ram_banks(m: Mbc3, b: u8, e: u8, addr: u16)
    requires
        0xA000 <= addr <= 0xBFFF,
    ensures
        ({
            let a = m.write_spec(0x4000, b).write_spec(0x0000, e);
            a.read_spec(addr) == MemRead::Replace(
                if e & 0x0F != 0x0A { 0xFF } else if b <= 3 { m.ram[b * 0x2000 + (addr - 0xA000)] } else { 0x00 },
            )
        }),
{
}

} // verus!
