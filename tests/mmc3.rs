use nes_core::cartridge::{Cartridge, Mapper};
use nes_core::mmc3::{calc_chr_bank_register_idx, Mmc3PpuMemory};
use nes_core::ppu_bus::Mirroring;

fn mmc3_cart(prg_len: usize, chr_len: usize) -> Cartridge {
    Cartridge::new(vec![0u8; prg_len], vec![0u8; chr_len], Mirroring::Horizontal, 4).unwrap()
}

fn ppu_read(cart: &mut Cartridge, addr: u16) -> u8 {
    let mut irq: i8 = 0;
    cart.ppu_read(addr, 0, &mut irq)
}

fn cpu_write(cart: &mut Cartridge, addr: u16, val: u8) {
    let mut irq: i8 = 0;
    cart.cpu_write(addr, val, &mut irq);
}

#[test]
fn test_calc_chr_bank_register_idx() {
    assert_eq!(calc_chr_bank_register_idx(0x1fff, true), 1);
    assert_eq!(calc_chr_bank_register_idx(0x1c00, true), 1);
    assert_eq!(calc_chr_bank_register_idx(0x1800, true), 1);
    assert_eq!(calc_chr_bank_register_idx(0x1bff, true), 1);

    assert_eq!(calc_chr_bank_register_idx(0x17ff, true), 0);
    assert_eq!(calc_chr_bank_register_idx(0x1400, true), 0);
    assert_eq!(calc_chr_bank_register_idx(0x13ff, true), 0);
    assert_eq!(calc_chr_bank_register_idx(0x1000, true), 0);

    assert_eq!(calc_chr_bank_register_idx(0x0fff, true), 5);
    assert_eq!(calc_chr_bank_register_idx(0x0c00, true), 5);

    assert_eq!(calc_chr_bank_register_idx(0x0bff, true), 4);
    assert_eq!(calc_chr_bank_register_idx(0x0800, true), 4);

    assert_eq!(calc_chr_bank_register_idx(0x07ff, true), 3);
    assert_eq!(calc_chr_bank_register_idx(0x0400, true), 3);

    assert_eq!(calc_chr_bank_register_idx(0x03ff, true), 2);
    assert_eq!(calc_chr_bank_register_idx(0x0000, true), 2);
}

#[test]
fn test_ppu_calc_addr() {
    let mut cart = mmc3_cart(1024 * 128, 1024 * 128);
    assert_eq!(cart.chr.len() / 0x400, 128);
    assert_eq!(cart.prg_rom.len() / 0x2000, 16);

    // enable prg ram
    cpu_write(&mut cart, 0xa001, 0x80);
    match cart.mapper {
        Mapper::Mmc3(m) => assert!(m.prg_ram_enable),
        Mapper::Nrom => panic!("expected an MMC3 cartridge"),
    }

    // disable prg ram
    cpu_write(&mut cart, 0xa001, 0);
    cpu_write(&mut cart, 0x6000, 0xff);
    assert_ne!(cart.cpu_read(0x6000), 0xff);

    // r0 reads
    cart.chr[21 * 0x400 + 0x3ff] = 0xaa;
    cpu_write(&mut cart, 0x8000, 0);
    cpu_write(&mut cart, 0x8001, 21);
    assert_eq!(ppu_read(&mut cart, 0x7ff), 0xaa);
    assert_ne!(ppu_read(&mut cart, 0x3ff), 0xaa);
    cpu_write(&mut cart, 0x8000, 0x80);
    match cart.mapper {
        Mapper::Mmc3(m) => assert!(m.a12_invert),
        Mapper::Nrom => panic!("expected an MMC3 cartridge"),
    }
    assert_eq!(ppu_read(&mut cart, 0x17ff), 0xaa);
    assert_ne!(ppu_read(&mut cart, 0x13ff), 0xaa);
    assert_ne!(ppu_read(&mut cart, 0x7ff), 0xaa);

    // r2 reads
    cart.chr[0x7f * 0x400 + 0xff] = 0xbb;
    cpu_write(&mut cart, 0x8000, 2);
    cpu_write(&mut cart, 0x8001, 0xff);
    assert_eq!(ppu_read(&mut cart, 0x10ff), 0xbb);
    assert_ne!(ppu_read(&mut cart, 0x0ff), 0xbb);
    cpu_write(&mut cart, 0x8000, 0x80);
    assert_eq!(ppu_read(&mut cart, 0x0ff), 0xbb);

    // fixed prg bank (last bank)
    let n_banks = cart.prg_rom.len() / 0x2000;
    cart.prg_rom[(n_banks - 1) * 0x2000 + 0x30] = 0xcc;
    assert_eq!(cart.cpu_read(0xe030), 0xcc);
    cpu_write(&mut cart, 0x8000, 0x40);
    assert_eq!(cart.cpu_read(0xe030), 0xcc);
    cpu_write(&mut cart, 0x8000, 0);

    // second to last bank
    cart.prg_rom[(n_banks - 2) * 0x2000 + 0x55] = 0xdd;
    assert_eq!(cart.cpu_read(0xc055), 0xdd);
    cpu_write(&mut cart, 0x8000, 0x40);
    assert_eq!(cart.cpu_read(0x8055), 0xdd);
    cpu_write(&mut cart, 0x8000, 0);

    // r6 reads
    cart.prg_rom[8 * 0x2000 + 0xff] = 0xee;
    cpu_write(&mut cart, 0x8000, 6);
    cpu_write(&mut cart, 0x8001, 8);
    assert_eq!(cart.cpu_read(0x80ff), 0xee);
    cpu_write(&mut cart, 0x8000, 0x40);
    assert_eq!(cart.cpu_read(0xc0ff), 0xee);

    // r3 reads
    cart.chr[12 * 0x400] = 0xff;
    cpu_write(&mut cart, 0x8000, 3);
    cpu_write(&mut cart, 0x8001, 12);
    assert_eq!(ppu_read(&mut cart, 0x1400), 0xff);
    cpu_write(&mut cart, 0x8000, 0x80);
    assert_eq!(ppu_read(&mut cart, 0x400), 0xff);

    // r1 reads
    cart.chr[33 * 0x400 + 0x3ff] = 0x99;
    cpu_write(&mut cart, 0x8000, 1);
    cpu_write(&mut cart, 0x8001, 33);
    assert_eq!(ppu_read(&mut cart, 0xfff), 0x99);
    assert_ne!(ppu_read(&mut cart, 0xbff), 0x99);
    cpu_write(&mut cart, 0x8000, 0x80);
    assert_eq!(ppu_read(&mut cart, 0x1fff), 0x99);
    assert_ne!(ppu_read(&mut cart, 0x1bff), 0x99);
    assert_ne!(ppu_read(&mut cart, 0xfff), 0x99);
}

#[test]
fn mmc3_bank_select_r6() {
    let mut cart = mmc3_cart(16 * 0x2000, 0x2000);
    cart.prg_rom[8 * 0x2000 + 0xff] = 0x11;
    cart.prg_rom[14 * 0x2000 + 0xff] = 0x22;
    // swap off, select r6, r6 = 8
    cpu_write(&mut cart, 0x8000, 6);
    cpu_write(&mut cart, 0x8001, 8);
    assert_eq!(cart.cpu_read(0x80ff), 0x11);
    // swap on: 0x8000 now holds the second-to-last bank
    cpu_write(&mut cart, 0x8000, 0x46);
    assert_eq!(cart.cpu_read(0x80ff), 0x22);
    assert_eq!(cart.cpu_read(0xc0ff), 0x11);
}

#[test]
fn mmc3_bank_registers_are_masked() {
    let mut cart = mmc3_cart(4 * 0x2000, 0x2000);
    cart.prg_rom[3 * 0x2000 + 7] = 0x5a;
    cart.prg_rom[1 * 0x2000 + 7] = 0x6b;
    cpu_write(&mut cart, 0x8000, 6);
    // 0xff & (4 - 1) == 3
    cpu_write(&mut cart, 0x8001, 0xff);
    assert_eq!(cart.cpu_read(0x8007), 0x5a);
    cpu_write(&mut cart, 0x8000, 7);
    // 0x0d & 3 == 1
    cpu_write(&mut cart, 0x8001, 0x0d);
    assert_eq!(cart.cpu_read(0xa007), 0x6b);
}

#[test]
fn mmc3_mirroring_register() {
    let mut cart = mmc3_cart(0x8000, 0x2000);
    cpu_write(&mut cart, 0xa000, 0);
    assert_eq!(cart.mirroring, Mirroring::Vertical);
    cpu_write(&mut cart, 0xa000, 1);
    assert_eq!(cart.mirroring, Mirroring::Horizontal);
}

#[test]
fn mmc3_prg_ram_protect() {
    let mut cart = mmc3_cart(0x8000, 0x2000);
    cpu_write(&mut cart, 0xa001, 0x80);
    cpu_write(&mut cart, 0x6123, 0x42);
    assert_eq!(cart.cpu_read(0x6123), 0x42);
    // enabled but write-protected
    cpu_write(&mut cart, 0xa001, 0xc0);
    cpu_write(&mut cart, 0x6123, 0x99);
    assert_eq!(cart.cpu_read(0x6123), 0x42);
}

#[test]
fn a12_rising_edges_clock_the_counter() {
    let mut m = Mmc3PpuMemory::new();
    m.irq_latch = 2;
    m.irq_enable = true;
    let mut irq: i8 = 0;
    // first edge: counter 0 -> reload to 2
    m.observe_access(0x0000, 0, &mut irq);
    m.observe_access(0x1000, 20, &mut irq);
    assert_eq!(m.irq_counter, 2);
    // a high access right after does not clock again
    m.observe_access(0x1008, 22, &mut irq);
    assert_eq!(m.irq_counter, 2);
    // a short low pulse is filtered out
    m.observe_access(0x0000, 24, &mut irq);
    m.observe_access(0x1000, 26, &mut irq);
    assert_eq!(m.irq_counter, 2);
    // a long low period: 2 -> 1
    m.observe_access(0x0000, 30, &mut irq);
    m.observe_access(0x1000, 60, &mut irq);
    assert_eq!(m.irq_counter, 1);
    assert_eq!(irq, 0);
    // 1 -> 0 with IRQs enabled asserts the line
    m.observe_access(0x0000, 70, &mut irq);
    m.observe_access(0x1000, 100, &mut irq);
    assert_eq!(m.irq_counter, 0);
    assert_eq!(irq, 1);
    assert!(m.irq_asserted);
}

#[test]
fn mmc3_irq_disable_deasserts() {
    let mut cart = mmc3_cart(0x8000, 0x2000);
    let mut irq: i8 = 0;
    cart.cpu_write(0xc000, 0, &mut irq);
    cart.cpu_write(0xe001, 0, &mut irq);
    cart.observe_ppu_access(0x1000, 100, &mut irq);
    assert_eq!(irq, 1);
    cart.cpu_write(0xe000, 0, &mut irq);
    assert_eq!(irq, 0);
    // a second disable does not deassert again
    cart.cpu_write(0xe000, 0, &mut irq);
    assert_eq!(irq, 0);
}

#[test]
fn mmc3_starts_cleared() {
    let cart = mmc3_cart(0x8000, 0x2000);
    match cart.mapper {
        Mapper::Mmc3(m) => {
            assert_eq!(m.r, [0u8; 8]);
            assert!(!m.prg_banks_swapped && !m.a12_invert);
            assert!(!m.prg_ram_enable && !m.prg_ram_protect);
            assert_eq!(m.ppu_memory.irq_counter, 0);
            assert!(!m.ppu_memory.irq_enable);
        }
        Mapper::Nrom => panic!("expected an MMC3 cartridge"),
    }
}

#[test]
fn a12_edge_through_a_pattern_read_raises_irq() {
    let mut cart = mmc3_cart(0x8000, 0x2000);
    let mut irq: i8 = 0;
    cart.cpu_write(0xc000, 0, &mut irq);
    cart.cpu_write(0xe001, 0, &mut irq);
    let _ = cart.ppu_read(0x0010, 5, &mut irq);
    assert_eq!(irq, 0);
    let _ = cart.ppu_read(0x1010, 40, &mut irq);
    assert_eq!(irq, 1);
}
