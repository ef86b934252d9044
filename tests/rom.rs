use nes_core::cartridge::{Cartridge, RomError};
use nes_core::ppu_bus::Mirroring;
use nes_core::rom::{load_cartridge, parse_ines};

fn image(prg_banks: u8, chr_banks: u8, flags6: u8, flags7: u8) -> Vec<u8> {
    let mut b = vec![0x4e, 0x45, 0x53, 0x1a, prg_banks, chr_banks, flags6, flags7];
    b.resize(16, 0);
    if flags6 & 4 != 0 {
        b.resize(16 + 512, 0xaa);
    }
    let start = b.len();
    b.resize(start + prg_banks as usize * 0x4000, 0);
    b[start] = 0x12;
    let chr_start = b.len();
    b.resize(chr_start + chr_banks as usize * 0x2000, 0);
    if chr_banks > 0 {
        b[chr_start] = 0x34;
    }
    b
}

#[test]
fn ines_header_fields() {
    let img = parse_ines(&image(2, 1, 0x41, 0x00)).unwrap();
    assert_eq!(img.mapper, 4);
    assert_eq!(img.mirroring, Mirroring::Vertical);
    assert_eq!(img.prg_rom.len(), 0x8000);
    assert_eq!(img.chr_rom.len(), 0x2000);
    assert_eq!(img.prg_rom[0], 0x12);
    assert_eq!(img.chr_rom[0], 0x34);
    assert!(!img.has_trainer);
    assert!(!img.battery);
}

#[test]
fn ines_trainer_and_flags() {
    let img = parse_ines(&image(1, 0, 0x0e, 0x40)).unwrap();
    assert!(img.has_trainer);
    assert!(img.battery);
    assert_eq!(img.mirroring, Mirroring::FourScreen);
    assert_eq!(img.mapper, 0x40);
    assert_eq!(img.prg_rom[0], 0x12);
}

#[test]
fn ines_errors() {
    assert!(matches!(parse_ines(&vec![0x4e, 0x45]), Err(RomError::Truncated)));
    let mut bad = image(1, 1, 0, 0);
    bad[3] = 0;
    assert!(matches!(parse_ines(&bad), Err(RomError::BadMagic)));
    let mut short = image(1, 1, 0, 0);
    short.pop();
    assert!(matches!(parse_ines(&short), Err(RomError::Truncated)));
    assert!(matches!(load_cartridge(&image(1, 1, 0x10, 0)), Err(RomError::UnsupportedMapper)));
    assert!(matches!(load_cartridge(&image(3, 1, 0, 0)), Err(RomError::BadBankCount)));
}

#[test]
fn nrom_prg_mirroring_and_chr_ram() {
    let cart = load_cartridge(&image(1, 0, 0, 0)).unwrap();
    assert!(cart.chr_is_ram);
    assert_eq!(cart.chr.len(), 0x2000);
    // 16 KiB is mirrored across 0x8000-0xFFFF
    assert_eq!(cart.cpu_read(0x8000), 0x12);
    assert_eq!(cart.cpu_read(0xc000), 0x12);
    assert!(matches!(
        Cartridge::new(vec![0; 0x8000], vec![0; 0x2000], Mirroring::Horizontal, 1),
        Err(RomError::UnsupportedMapper)
    ));
}
