use gb_emu::io::mbc::cartridge::{is_loadable, Cartridge, Cgb};
use gb_emu::io::mbc::mbc::{new as new_mbc, Mbc, MbcType};
use gb_emu::mmu::{MemHandler, MemRead};

fn rom_image(kind: u8, banks: usize) -> Vec<u8> {
    let mut rom = vec![0u8; 0x4000 * banks];
    for bank in 0..banks {
        rom[bank * 0x4000] = bank as u8;
        rom[bank * 0x4000 + 1] = (bank >> 8) as u8;
    }
    rom[0x134..0x13E].copy_from_slice(b"POKEMON RE");
    rom[0x143] = 0x80;
    rom[0x146] = 0x03;
    rom[0x147] = kind;
    rom[0x148] = 0x05;
    rom[0x149] = 0x03;
    rom
}

fn read(c: &impl MemHandler, addr: u16) -> u8 {
    match c.on_read(addr) {
        MemRead::Replace(v) => v,
        MemRead::PassThrough => panic!("expected the cartridge to answer"),
    }
}

#[test]
fn header_fields_are_parsed() {
    let cart = Cartridge::new(rom_image(0x13, 4));
    // The title spans 0x134-0x143; its last byte is the colour flag 0x80,
    // which is not UTF-8 on its own and becomes a replacement character.
    assert_eq!(cart.title, "POKEMON RE\0\0\0\0\0\u{FFFD}");
    assert_eq!(cart.cgb, Cgb::Cgb);
    assert!(cart.sgb);
    assert_eq!(cart.mbc_name(), "MBC3");
    assert_eq!(cart.rom_size_name(), "1MByte (64 banks)  - only 63 banks used by Mbc1");
    assert_eq!(cart.ram_size_name(), "32 KBytes (4 banks of 8KBytes each)");
}

#[test]
fn title_with_invalid_utf8_is_replaced_lossily() {
    let mut rom = rom_image(0x00, 2);
    rom[0x134] = 0xFF; // not valid UTF-8
    let cart = Cartridge::new(rom);
    assert!(cart.title.starts_with('\u{FFFD}'));
    assert_eq!(cart.mbc_name(), "ROM Only");
    assert_eq!(cart.cgb, Cgb::Cgb);
}

#[test]
fn unknown_size_codes_and_cgb_flag() {
    let mut rom = rom_image(0x19, 4);
    rom[0x143] = 0xC0;
    rom[0x146] = 0x00;
    rom[0x148] = 0x99;
    rom[0x149] = 0x42;
    let cart = Cartridge::new(rom);
    assert_eq!(cart.cgb, Cgb::CgbOnly);
    assert!(!cart.sgb);
    assert_eq!(cart.mbc_name(), "MBC5");
    assert_eq!(cart.rom_size_name(), "Unknown");
    assert_eq!(cart.ram_size_name(), "Unknown");
}

#[test]
fn rom_only_maps_32k_and_ignores_writes() {
    let mut cart = Cartridge::new(rom_image(0x00, 2));
    assert_eq!(read(&cart, 0x0134), b'P');
    assert_eq!(read(&cart, 0x4000), 1); // second bank, fixed
    cart.on_write(0x2000, 0x02);
    assert_eq!(read(&cart, 0x4000), 1);
    assert_eq!(read(&cart, 0x0134), b'P');
    assert!(matches!(cart.on_read(0xA000), MemRead::PassThrough));
}

#[test]
fn mbc1_switches_rom_banks_and_maps_bank_zero_to_one() {
    let mut mbc = new_mbc(0x01, rom_image(0x01, 8));
    assert_eq!(mbc.get_name(), "MBC1");
    assert!(matches!(mbc.on_read(0x4000), MemRead::Replace(1)));
    mbc.on_write(0x2000, 0x03);
    assert!(matches!(mbc.on_read(0x4000), MemRead::Replace(3)));
    mbc.on_write(0x2000, 0x00); // bank 0 is read as bank 1
    assert!(matches!(mbc.on_read(0x4000), MemRead::Replace(1)));
    assert!(matches!(mbc.on_read(0x0000), MemRead::Replace(0)));
}

#[test]
fn mbc1_ram_needs_enabling_and_reads_back() {
    let mut mbc = new_mbc(0x03, rom_image(0x03, 2));
    assert!(matches!(mbc.on_read(0xA000), MemRead::Replace(0xFF)));
    mbc.on_write(0xA000, 0x12); // ignored while RAM is off
    mbc.on_write(0x0000, 0x0A); // RAM on
    assert!(matches!(mbc.on_read(0xA000), MemRead::Replace(0x00)));
    mbc.on_write(0xA000, 0x12);
    assert!(matches!(mbc.on_read(0xA000), MemRead::Replace(0x12)));
    // RAM banking mode, bank 2: a different cell.
    mbc.on_write(0x6000, 0x01);
    mbc.on_write(0x4000, 0x02);
    assert!(matches!(mbc.on_read(0xA000), MemRead::Replace(0x00)));
    mbc.on_write(0xBFFF, 0x34);
    assert!(matches!(mbc.on_read(0xBFFF), MemRead::Replace(0x34)));
    mbc.on_write(0x0000, 0x00); // RAM off
    assert!(matches!(mbc.on_read(0xBFFF), MemRead::Replace(0xFF)));
}

#[test]
fn mbc3_rtc_registers_read_zero() {
    let mut mbc = new_mbc(0x10, rom_image(0x10, 4));
    mbc.on_write(0x0000, 0x0A);
    mbc.on_write(0x4000, 0x08); // RTC seconds register
    mbc.on_write(0xA000, 0x55); // not stored
    assert!(matches!(mbc.on_read(0xA000), MemRead::Replace(0x00)));
    mbc.on_write(0x4000, 0x01);
    mbc.on_write(0xA000, 0x55);
    assert!(matches!(mbc.on_read(0xA000), MemRead::Replace(0x55)));
    mbc.on_write(0x2000, 0x02);
    assert!(matches!(mbc.on_read(0x4000), MemRead::Replace(2)));
}

#[test]
fn mbc5_has_nine_bit_rom_banks_and_bank_zero() {
    let mut mbc = new_mbc(0x1B, rom_image(0x1B, 4));
    mbc.on_write(0x2000, 0x00);
    assert!(matches!(mbc.on_read(0x4000), MemRead::Replace(0))); // bank 0 is allowed
    mbc.on_write(0x2000, 0x02);
    assert!(matches!(mbc.on_read(0x4000), MemRead::Replace(2)));
    mbc.on_write(0x3000, 0x01); // bank 0x102: past the image
    assert!(matches!(mbc.on_read(0x4000), MemRead::Replace(0xFF)));
    match &mbc {
        MbcType::Mbc5(m) => assert_eq!(m.rom_bank, 0x102),
        _ => panic!("expected MBC5"),
    }
}

#[test]
fn short_rom_only_image_loads_and_reads_ff_past_its_end() {
    let cart = Cartridge::new(rom_image(0x00, 1)); // 16 KiB image
    assert_eq!(read(&cart, 0x0134), b'P');
    assert_eq!(read(&cart, 0x4000), 0xFF);
}

#[test]
fn loadable_images_need_a_header_and_a_known_controller() {
    assert!(is_loadable(&rom_image(0x00, 2)));
    assert!(is_loadable(&rom_image(0x1E, 2)));
    assert!(!is_loadable(&rom_image(0x05, 2))); // MBC2
    assert!(!is_loadable(&rom_image(0xFC, 2)));
    assert!(!is_loadable(&vec![0u8; 0x149]));
}
