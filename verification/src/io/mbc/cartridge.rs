use vstd::prelude::*;
use crate::io::mbc::mbc::{is_supported_mbc, new as new_mbc, supported_mbc, Mbc, MbcType};
use crate::mmu::{MemHandler, MemRead, MemWrite};

verus! {

/// The text that `String::from_utf8_lossy` makes of some bytes.
pub uninterp spec fn lossy_utf8(bytes: Seq<u8>) -> Seq<char>;

/// Whether every byte is ASCII.
pub open spec fn all_ascii(bytes: Seq<u8>) -> bool {
    forall|i: int| 0 <= i < bytes.len() ==> bytes[i] < 0x80
}

/// The characters that ASCII bytes stand for.
pub open spec fn ascii_chars(bytes: Seq<u8>) -> Seq<char> {
    Seq::new(bytes.len(), |i: int| bytes[i] as char)
}

/// Calls `String::from_utf8_lossy`. Claimed: the result is the function's
/// (deterministic) text for the bytes, and bytes that are all ASCII, being
/// valid UTF-8, come out as the same characters one for one.
#[verifier::external_body]
fn parse_title(bytes: &[u8]) -> (r: String)
    ensures
        r@ == lossy_utf8(bytes@),
        all_ascii(bytes@) ==> r@ == ascii_chars(bytes@),
{
    String::from_utf8_lossy(bytes).to_string()
}

/// Colour support declared by the header byte 0x143.
#[derive(Clone, Copy, Debug, PartialEq, Eq, Structural)]
pub enum Cgb {
    Cgb,
    CgbOnly,
    Unknown,
}

pub open spec fn cgb_of(flag: u8) -> Cgb {
    if flag == 0x80 {
        Cgb::Cgb
    } else if flag == 0xC0 {
        Cgb::CgbOnly
    } else {
        Cgb::Unknown
    }
}

fn parse_cgb(cgb_flag: &u8) -> (r: Cgb)
    ensures
        r == cgb_of(*cgb_flag),
{
    match cgb_flag {
        0x80 => Cgb::Cgb,
        0xC0 => Cgb::CgbOnly,
        _ => Cgb::Unknown,
    }
}

/// A cartridge: the fields of its header and its bank controller.
pub struct Cartridge {
    pub title: String,
    pub cgb: Cgb,
    pub sgb: bool,
    pub mbc: MbcType,
    pub rom_size: u8,
    pub ram_size: u8,
}

/// The header bytes a cartridge image must hold (through 0x149).
pub open spec fn has_header(rom: Seq<u8>) -> bool {
    rom.len() >= 0x14A
}

/// The description of the ROM size code (header byte 0x148).
pub open spec fn rom_size_text(code: u8) -> Seq<char> {
    if code == 0x00 {
        "32KByte (no ROM banking)"@
    } else if code == 0x01 {
        "64KByte (4 banks)"@
    } else if code == 0x02 {
        "128KByte (8 banks)"@
    } else if code == 0x03 {
        "256KByte (16 banks)"@
    } else if code == 0x04 {
        "512KByte (32 banks)"@
    } else if code == 0x05 {
        "1MByte (64 banks)  - only 63 banks used by Mbc1"@
    } else if code == 0x06 {
        "2MByte (128 banks) - only 125 banks used by Mbc1"@
    } else if code == 0x07 {
        "4MByte (256 banks)"@
    } else if code == 0x52 {
        "1.1MByte (72 banks)"@
    } else if code == 0x53 {
        "1.2MByte (80 banks)"@
    } else if code == 0x54 {
        "1.5MByte (96 banks)"@
    } else {
        "Unknown"@
    }
}

/// The description of the RAM size code (header byte 0x149).
pub open spec fn ram_size_text(code: u8) -> Seq<char> {
    if code == 0x00 {
        "None"@
    } else if code == 0x01 {
        "2 KBytes"@
    } else if code == 0x02 {
        "8 Kbytes"@
    } else if code == 0x03 {
        "32 KBytes (4 banks of 8KBytes each)"@
    } else {
        "Unknown"@
    }
}

/// Whether a ROM image can be loaded: it holds the whole header and its
/// cartridge type names a controller this library implements.
pub fn is_loadable(rom: &[u8]) -> (r: bool)
    ensures
        r == (has_header(rom@) && supported_mbc(rom@[0x147])),
{
    rom.len() >= 0x14A && is_supported_mbc(rom[0x147])
}

impl Cartridge {
    /// Reads the header of a ROM image: the title (0x134-0x143), the colour
    /// flag (0x143), the Super Game Boy flag (0x146), the cartridge type
    /// (0x147), which picks the controller, and the ROM and RAM size codes
    /// (0x148, 0x149).
    /// The cartridge as read from the image `rom`: its header fields, and
    /// the controller its type selects, fresh, holding the image.
    pub open spec fn from_image(self, rom: Seq<u8>) -> bool {
        &&& self.title@ == lossy_utf8(rom.subrange(0x134, 0x144))
        &&& all_ascii(rom.subrange(0x134, 0x144)) ==> self.title@ == ascii_chars(rom.subrange(0x134, 0x144))
        &&& self.cgb == cgb_of(rom[0x143])
        &&& self.sgb == (rom[0x146] == 0x03)
        &&& self.mbc.fresh_for(rom[0x147], rom)
        &&& self.rom_size == rom[0x148]
        &&& self.ram_size == rom[0x149]
    }

    pub fn new(rom: Vec<u8>) -> (r: Self)
        requires
            has_header(rom@),
            supported_mbc(rom@[0x147]),
        ensures
            r.from_image(rom@),
            r.mbc.inv(),
    {
        let mut title_bytes: Vec<u8> = Vec::new();
        let mut i: usize = 0x134;
        while i < 0x144
            invariant
                0x134 <= i <= 0x144,
                rom@.len() >= 0x14A,
                title_bytes@ == rom@.subrange(0x134, i as int),
            decreases 0x144 - i,
        {
            title_bytes.push(rom[i]);
            i = i + 1;
        }
        let title = parse_title(title_bytes.as_slice());
        let cgb = parse_cgb(&rom[0x143]);
        let sgb = rom[0x146] == 0x03;
        let code = rom[0x147];
        let rom_size = rom[0x148];
        let ram_size = rom[0x149];
        let mbc = new_mbc(code, rom);
        Self { title, cgb, sgb, mbc, rom_size, ram_size }
    }

    /// The name of the cartridge's controller.
    pub fn mbc_name(&self) -> (r: &str)
        ensures
            r@ == self.mbc.name_spec(),
    {
        self.mbc.get_name()
    }

    /// The description of the ROM size.
    pub fn rom_size_name(&self) -> (r: &'static str)
        ensures
            r@ == rom_size_text(self.rom_size),
    {
        match self.rom_size {
            0x00 => "32KByte (no ROM banking)",
            0x01 => "64KByte (4 banks)",
            0x02 => "128KByte (8 banks)",
            0x03 => "256KByte (16 banks)",
            0x04 => "512KByte (32 banks)",
            0x05 => "1MByte (64 banks)  - only 63 banks used by Mbc1",
            0x06 => "2MByte (128 banks) - only 125 banks used by Mbc1",
            0x07 => "4MByte (256 banks)",
            0x52 => "1.1MByte (72 banks)",
            0x53 => "1.2MByte (80 banks)",
            0x54 => "1.5MByte (96 banks)",
            _ => "Unknown",
        }
    }

    /// The description of the RAM size.
    pub fn ram_size_name(&self) -> (r: &'static str)
        ensures
            r@ == ram_size_text(self.ram_size),
    {
        match self.ram_size {
            0x00 => "None",
            0x01 => "2 KBytes",
            0x02 => "8 Kbytes",
            0x03 => "32 KBytes (4 banks of 8KBytes each)",
            _ => "Unknown",
        }
    }

    /// Reads are the controller's.
    pub open spec fn read_spec(&self, addr: u16) -> MemRead {
        self.mbc.read_spec(addr)
    }

    /// Writes go to the controller, which keeps them all from RAM.
    pub open spec fn write_spec(&self, addr: u16, value: u8) -> (Cartridge, MemWrite) {
        (Cartridge { mbc: self.mbc.write_spec(addr, value), ..*self }, MemWrite::Block)
    }
}

impl MemHandler for Cartridge {
    open spec fn inv(&self) -> bool {
        self.mbc.inv()
    }

    fn on_read(&self, addr: u16) -> (r: MemRead)
        ensures
            r == self.read_spec(addr),
    {
        self.mbc.on_read(addr)
    }

    fn on_write(&mut self, addr: u16, value: u8) -> (r: MemWrite)
        ensures
            (*final(self), r) == old(self).write_spec(addr, value),
    {
        self.mbc.on_write(addr, value)
    }
}

} // verus!
