use nes_core::cartridge::Cartridge;
use nes_core::ppu::Ppu;
use nes_core::ppu_bus::{calc_ppu_nametable_addr, calc_ppu_palette_addr, Mirroring};
use nes_core::vram_addr::{increment_by, pack_fields, ScrollRegs, VramAddrRegister};

fn nrom() -> Cartridge {
    Cartridge::new(vec![0u8; 0x8000], vec![], Mirroring::Vertical, 0).unwrap()
}

fn write_reg(ppu: &mut Ppu, cart: &mut Cartridge, index: u8, val: u8) -> bool {
    let mut nmi = false;
    let mut irq: i8 = 0;
    ppu.write_register_by_index(index, val, cart, &mut nmi, &mut irq);
    nmi
}

fn read_reg(ppu: &mut Ppu, cart: &mut Cartridge, index: u8) -> u8 {
    let mut irq: i8 = 0;
    ppu.read_register_by_index(index, cart, &mut irq)
}

#[test]
fn test_registers() {
    let mut cart = nrom();
    let mut ppu = Ppu::new();
    ppu.ppuctrl = 0b00000011;
    assert_eq!(ppu.get_base_nametable_addr(), 0x2c00);
    ppu.ppuctrl = 0b00001000;
    assert_eq!(ppu.get_8x8_sprite_pattern_table_addr(), 0x1000);
    ppu.ppuctrl = 0b00010000;
    assert_eq!(ppu.get_background_pattern_table_addr(), 0x1000);
    ppu.ppumask = 0b00000100;
    assert!(ppu.is_sprites_left_column_enable());
    ppu.ppumask = 0b00000010;
    assert!(ppu.is_background_left_column_enable());
    ppu.ppumask = 0b00010000;
    assert!(ppu.is_sprites_enable());
    ppu.ppumask = 0b00001000;
    assert!(ppu.is_background_enable());
    ppu.ppustatus = 0b00100000;
    assert!(ppu.is_sprite_overflow());
    ppu.ppustatus = 0b11011111;
    assert!(ppu.is_sprite_overflow() == false);
    ppu.set_sprite_overflow(true);
    assert_eq!(ppu.ppustatus, 0xff);

    ppu.ppumask = 0;
    let x_coord = 0b00110_011;
    let y_coord = 0b10001_101;
    write_reg(&mut ppu, &mut cart, 5, x_coord);
    write_reg(&mut ppu, &mut cart, 5, y_coord);
    write_reg(&mut ppu, &mut cart, 0, 0b00000011);
    assert_eq!(ppu.scroll.t.inner, 0b101_11_10001_00110);
    assert_eq!(ppu.get_fine_x_scroll(), x_coord & 0b111);
    assert_eq!((ppu.scroll.t.inner >> 12) as u8, y_coord & 0b111);

    write_reg(&mut ppu, &mut cart, 6, 0x21);
    write_reg(&mut ppu, &mut cart, 6, 0x0f);
    assert_eq!(ppu.scroll.v.get_addr(), 0x210f);
    assert_eq!(ppu.scroll.v.inner, 0x210f | (ppu.scroll.t.inner & !0x3fff));

    write_reg(&mut ppu, &mut cart, 6, 0x4f);
    write_reg(&mut ppu, &mut cart, 6, 0xe8);
    // address is mirrored down
    assert_eq!(ppu.scroll.v.inner, 0x4fe8 % 0x4000);
}

#[test]
fn test_increment_vram_addr() {
    let v = VramAddrRegister::new(0);
    assert_eq!(increment_by(v, true).inner, 32);
    assert_eq!(increment_by(v, false).inner, 1);
    assert_eq!(increment_by(VramAddrRegister::new(0x3fff), false).inner, 0);
    assert_eq!(increment_by(VramAddrRegister::new(0x3fe0), true).inner, 0);
    assert_eq!(increment_by(VramAddrRegister::new(0x200a), false).inner, 0x200b);
}

#[test]
fn test_increment_vram_addr_xy() {
    let mut v = VramAddrRegister::new(0b01_01010_11111);
    v.increment_coarse_x();
    // increment overflows into bit 10
    assert_eq!(v.inner, 0b00_01010_00000);

    // coarse y = 31, fine y = 7: wraps without switching nametable
    let mut v = VramAddrRegister::new(0b111_10_11111_01010);
    v.increment_y();
    assert_eq!(v.inner, 0b000_10_00000_01010);

    // coarse y = 29, fine y = 7: switches nametable
    let mut v = VramAddrRegister::new(0b111_10_11101_01010);
    v.increment_y();
    assert_eq!(v.inner, 0b000_00_00000_01010);

    // fine y = 6: only fine y moves
    let mut v = VramAddrRegister::new(0b110_10_11111_01010);
    v.increment_y();
    assert_eq!(v.inner, 0b111_10_11111_01010);
}

#[test]
fn coarse_x_increment_without_wrap() {
    let mut v = VramAddrRegister::new(pack_fields(5, 2, 17, 12));
    v.increment_coarse_x();
    assert_eq!(v.inner, pack_fields(5, 2, 17, 13));
    let mut v = VramAddrRegister::new(pack_fields(5, 3, 17, 31));
    v.increment_coarse_x();
    assert_eq!(v.inner, pack_fields(5, 2, 17, 0));
}

#[test]
fn fine_y_increment_coarse_y_30() {
    let mut v = VramAddrRegister::new(pack_fields(7, 1, 30, 4));
    v.increment_y();
    assert_eq!(v.inner, pack_fields(0, 1, 0, 4));
    let mut v = VramAddrRegister::new(pack_fields(7, 1, 12, 4));
    v.increment_y();
    assert_eq!(v.inner, pack_fields(0, 1, 13, 4));
}

#[test]
fn test_temp_to_current_vram_transfer() {
    let mut v = VramAddrRegister::new(0b10_10000_00000);
    v.transfer_horizontal_bits(VramAddrRegister::new(0b01_00000_10101));
    assert_eq!(v.inner, 0b11_10000_10101);

    let mut v = VramAddrRegister::new(0b01_00000_10000);
    v.transfer_vertical_bits(VramAddrRegister::new(0b10_10101_00000));
    assert_eq!(v.inner, 0b11_10101_10000);
}

#[test]
fn test_misc_bits() {
    let ppu = Ppu::new();
    assert!(ppu.even_frame);
    let mut s = ScrollRegs::new();
    s.write_scroll(0b101);
    assert_eq!(s.fine_x, 0b101);
    assert!(s.w);
}

#[test]
fn scroll_then_addr_packing() {
    let mut s = ScrollRegs::new();
    s.write_ctrl(0b10);
    s.write_scroll(0x7d);
    s.write_scroll(0x5e);
    assert_eq!(s.fine_x, 0x7d % 8);
    assert_eq!(s.t.inner, pack_fields(0x5e % 8, 0b10, 0x5e / 8, 0x7d / 8));
    assert!(!s.w);
    s.write_addr(0xed);
    assert!(s.w);
    assert_eq!(s.t.inner, 0b010_11_01000_00000 | (pack_fields(0x5e % 8, 0b10, 0x5e / 8, 0x7d / 8) & 0xff));
    s.write_addr(0xf0);
    assert_eq!(s.v.inner, (0xed & 0x3f) << 8 | 0xf0);
    assert_eq!(s.t, s.v);
    assert!(!s.w);
}

#[test]
fn test_write_2007() {
    let mut cart = nrom();
    let mut ppu = Ppu::new();
    ppu.current_scanline = 222;
    // increment mode 32
    write_reg(&mut ppu, &mut cart, 0, 0b100);
    write_reg(&mut ppu, &mut cart, 7, 0xee);
    assert_eq!(ppu.scroll.v.inner, 32);
    ppu.scroll.v = VramAddrRegister::new(0);
    // first read gives the stale buffer, the second the byte
    assert_eq!(read_reg(&mut ppu, &mut cart, 7), 0);
    assert_eq!(read_reg(&mut ppu, &mut cart, 7), 0xee);
}

#[test]
fn ppudata_round_trip_through_buffer() {
    let mut cart = nrom();
    let mut ppu = Ppu::new();
    write_reg(&mut ppu, &mut cart, 6, 0x24);
    write_reg(&mut ppu, &mut cart, 6, 0x10);
    write_reg(&mut ppu, &mut cart, 7, 0xab);
    write_reg(&mut ppu, &mut cart, 7, 0xcd);
    write_reg(&mut ppu, &mut cart, 6, 0x24);
    write_reg(&mut ppu, &mut cart, 6, 0x10);
    let _ = read_reg(&mut ppu, &mut cart, 7);
    assert_eq!(read_reg(&mut ppu, &mut cart, 7), 0xab);
    assert_eq!(read_reg(&mut ppu, &mut cart, 7), 0xcd);
    // vertical mirroring: 0x2410 and 0x2c10 are the same byte
    assert_eq!(cart.nametables[calc_ppu_nametable_addr(0x2c10, Mirroring::Vertical)], 0xab);
}

#[test]
fn palette_read_is_direct_and_mirrored() {
    let mut cart = nrom();
    let mut ppu = Ppu::new();
    write_reg(&mut ppu, &mut cart, 6, 0x3f);
    write_reg(&mut ppu, &mut cart, 6, 0x10);
    write_reg(&mut ppu, &mut cart, 7, 0x2a);
    // $3F10 mirrors $3F00, and $3F20 repeats the palette
    for addr in [0x3f00u16, 0x3f10, 0x3f20, 0x3ff0] {
        write_reg(&mut ppu, &mut cart, 6, (addr >> 8) as u8);
        write_reg(&mut ppu, &mut cart, 6, addr as u8);
        assert_eq!(read_reg(&mut ppu, &mut cart, 7), 0x2a);
    }
    assert_eq!(calc_ppu_palette_addr(0x3f14), 4);
    assert_eq!(calc_ppu_palette_addr(0x3f15), 0x15);
    assert_eq!(calc_ppu_palette_addr(0x3f3c), 0x0c);
}

#[test]
fn nametable_mirroring_offsets() {
    assert_eq!(calc_ppu_nametable_addr(0x2400, Mirroring::Horizontal), 0);
    assert_eq!(calc_ppu_nametable_addr(0x2800, Mirroring::Horizontal), 0x400);
    assert_eq!(calc_ppu_nametable_addr(0x2800, Mirroring::Vertical), 0);
    assert_eq!(calc_ppu_nametable_addr(0x2c01, Mirroring::Vertical), 0x401);
    assert_eq!(calc_ppu_nametable_addr(0x2c01, Mirroring::FourScreen), 0xc01);
    assert_eq!(calc_ppu_nametable_addr(0x3123, Mirroring::FourScreen), 0x123);
}

#[test]
fn test_write_2003_read_2004() {
    let mut cart = nrom();
    let mut ppu = Ppu::new();
    write_reg(&mut ppu, &mut cart, 3, 0xff);
    ppu.oam.primary.set_byte(0xff, 0xee);
    assert_eq!(read_reg(&mut ppu, &mut cart, 4), 0xee);
    // OAMDATA writes step OAMADDR
    write_reg(&mut ppu, &mut cart, 3, 0x10);
    write_reg(&mut ppu, &mut cart, 4, 0x77);
    assert_eq!(ppu.oamaddr, 0x11);
    write_reg(&mut ppu, &mut cart, 3, 0x10);
    assert_eq!(read_reg(&mut ppu, &mut cart, 4), 0x77);
}

#[test]
fn test_read_2002() {
    let mut cart = nrom();
    let mut ppu = Ppu::new();
    ppu.set_vblank(true);
    write_reg(&mut ppu, &mut cart, 5, 0x11);
    assert!(ppu.scroll.w);
    assert_eq!(read_reg(&mut ppu, &mut cart, 2), 0x80);
    assert!(!ppu.scroll.w);
    assert!(!ppu.is_vblank());
    // write-only registers read 0
    assert_eq!(read_reg(&mut ppu, &mut cart, 0), 0);
    assert_eq!(read_reg(&mut ppu, &mut cart, 5), 0);
}

#[test]
fn test_write_2000() {
    let mut cart = nrom();
    let mut ppu = Ppu::new();
    let nmi = write_reg(&mut ppu, &mut cart, 0, 0xff);
    assert_eq!(ppu.scroll.t.inner, 0b11_00000_00000);
    assert!(!nmi);
    // enabling NMI during VBlank raises it
    let mut ppu = Ppu::new();
    ppu.set_vblank(true);
    assert!(write_reg(&mut ppu, &mut cart, 0, 0x80));
}

#[test]
fn oam_dma_rotates_from_oamaddr() {
    let mut ppu = Ppu::new();
    ppu.oamaddr = 0xfe;
    let bytes: Vec<u8> = (0..=255u8).collect();
    ppu.write_oamdma(&bytes);
    assert_eq!(ppu.oamaddr, 0xfe);
    assert_eq!(ppu.oam.primary.get_byte(0xfe), 0);
    assert_eq!(ppu.oam.primary.get_byte(0xff), 1);
    assert_eq!(ppu.oam.primary.get_byte(0), 2);
    assert_eq!(ppu.oam.primary.get_byte(0xfd), 255);
}

#[test]
fn catch_up_reaches_target_exactly() {
    let mut cart = nrom();
    let mut ppu = Ppu::new();
    let mut nmi = false;
    let mut irq: i8 = 0;
    ppu.catch_up(1000, &mut cart, &mut nmi, &mut irq);
    assert_eq!(ppu.cycle_count, 3000);
    // already past the target: nothing happens
    ppu.catch_up(900, &mut cart, &mut nmi, &mut irq);
    assert_eq!(ppu.cycle_count, 3000);
    // 3000 dots from (-1, 0): line 7, dot 3000 - 8 * 341 = 272
    assert_eq!(ppu.current_scanline, 7);
    assert_eq!(ppu.current_scanline_dot, 272);
}

#[test]
fn vblank_and_nmi_at_line_241() {
    let mut cart = nrom();
    let mut ppu = Ppu::new();
    let mut nmi = false;
    let mut irq: i8 = 0;
    ppu.ppuctrl = 0x80;
    // line 241 dot 1 is (241 + 1) * 341 + 1 dots after (-1, 0)
    let dot = 242 * 341 + 1;
    ppu.catch_up(dot / 3, &mut cart, &mut nmi, &mut irq);
    while ppu.cycle_count < dot {
        ppu.tick(&mut cart, &mut nmi, &mut irq);
        ppu.cycle_count += 1;
    }
    assert!(!ppu.is_vblank());
    assert!(!nmi);
    ppu.tick(&mut cart, &mut nmi, &mut irq);
    assert!(ppu.is_vblank());
    assert!(nmi);
    assert!(ppu.frame_done);
}

#[test]
fn odd_frame_skips_a_dot_when_rendering() {
    let mut cart = nrom();
    let mut nmi = false;
    let mut irq: i8 = 0;
    let mut ppu = Ppu::new();
    ppu.ppumask = 0x08;
    ppu.even_frame = false;
    ppu.current_scanline = -1;
    ppu.current_scanline_dot = 339;
    ppu.tick(&mut cart, &mut nmi, &mut irq);
    assert_eq!((ppu.current_scanline, ppu.current_scanline_dot), (0, 0));
    // even frame: dot 340 is kept
    let mut ppu = Ppu::new();
    ppu.ppumask = 0x08;
    ppu.current_scanline = -1;
    ppu.current_scanline_dot = 339;
    ppu.tick(&mut cart, &mut nmi, &mut irq);
    assert_eq!((ppu.current_scanline, ppu.current_scanline_dot), (-1, 340));
}

#[test]
fn sprite_zero_hit_on_overlap_line() {
    let mut cart = nrom();
    let mut nmi = false;
    let mut irq: i8 = 0;
    // tile 1: a solid row pattern (low plane all set) in table 0
    for row in 0..8 {
        cart.chr[16 + row] = 0xff;
    }
    // background: tile 1 at coarse (x 2, y 5), i.e. pixels x 16-23, y 40-47
    cart.nametables[5 * 32 + 2] = 1;
    // sprite 0 at x 20, top line y + 1 = 44, tile 1
    let mut ppu = Ppu::new();
    for (i, b) in [43u8, 1, 0, 20].iter().enumerate() {
        ppu.oam.primary.set_byte(i as u8, *b);
    }
    // move the other sprites off screen
    for i in 4..256 {
        ppu.oam.primary.set_byte(i as u8, 0xff);
    }
    ppu.ppumask = 0x1e;
    let mut hit_line = None;
    let target: u64 = 262 * 341;
    while ppu.cycle_count < target {
        ppu.tick(&mut cart, &mut nmi, &mut irq);
        ppu.cycle_count += 1;
        if hit_line.is_none() && ppu.is_sprite_zero_hit() {
            hit_line = Some(ppu.current_scanline);
        }
    }
    assert_eq!(hit_line, Some(44));
}

#[test]
fn sprite_overflow_with_nine_sprites() {
    let mut cart = nrom();
    let mut nmi = false;
    let mut irq: i8 = 0;
    let mut ppu = Ppu::new();
    for i in 0..64u8 {
        let y = if i < 9 { 10 } else { 0xff };
        ppu.oam.primary.set_byte(i * 4, y);
    }
    ppu.ppumask = 0x18;
    while ppu.cycle_count < 30 * 341 {
        ppu.tick(&mut cart, &mut nmi, &mut irq);
        ppu.cycle_count += 1;
    }
    assert!(ppu.is_sprite_overflow());
    assert_eq!(ppu.oam.secondary.entries.len(), 0);
}

#[test]
fn backdrop_and_greyscale_pixels() {
    let mut cart = nrom();
    let mut nmi = false;
    let mut irq: i8 = 0;
    cart.palettes[0] = 0x16;
    let mut ppu = Ppu::new();
    ppu.catch_up(400, &mut cart, &mut nmi, &mut irq);
    // rendering off: every visible pixel is the backdrop colour 0x16
    assert_eq!(ppu.framebuffer[0], nes_core::colors::get_color_from_index(0x16));
    ppu.ppumask = 0x01;
    ppu.catch_up(800, &mut cart, &mut nmi, &mut irq);
    assert_eq!(ppu.framebuffer[256 * 5], nes_core::colors::get_color_from_index(0x10));
    assert_eq!(nes_core::colors::get_color_from_index(0x0f), 0xff000000);
    assert_eq!(nes_core::colors::get_color_from_index(0x30), 0xffffffff);
    assert_eq!(nes_core::colors::get_color_from_index(0x41), 0xff001b87);
}

#[test]
fn rendering_is_judged_by_the_vblank_flag() {
    let mut cart = nrom();
    let mut ppu = Ppu::new();
    ppu.ppumask = 0x18;
    ppu.current_scanline = 250;
    // VBlank flag clear (as after a $2002 read): counts as rendering
    write_reg(&mut ppu, &mut cart, 3, 0x20);
    write_reg(&mut ppu, &mut cart, 4, 0x99);
    assert_eq!(ppu.oamaddr, 0x20);
    assert_eq!(ppu.oam.primary.get_byte(0x20), 0);
    // with the flag set, OAMDATA writes go through
    ppu.set_vblank(true);
    write_reg(&mut ppu, &mut cart, 4, 0x99);
    assert_eq!(ppu.oamaddr, 0x21);
    assert_eq!(ppu.oam.primary.get_byte(0x20), 0x99);
}

#[test]
fn ppudata_while_rendering_steps_coarse_x_and_y() {
    let mut cart = nrom();
    let mut ppu = Ppu::new();
    ppu.ppumask = 0x08;
    ppu.scroll.v = VramAddrRegister::new(pack_fields(2, 0, 4, 31));
    write_reg(&mut ppu, &mut cart, 7, 0x55);
    assert_eq!(ppu.scroll.v.inner, pack_fields(3, 1, 4, 0));
}
