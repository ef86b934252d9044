use nes_core::bus::CpuBus;
use nes_core::cartridge::Cartridge;
use nes_core::cpu::Cpu;
use nes_core::ppu_bus::Mirroring;
use nes_core::vram_addr::VramAddrRegister;

/// A machine whose program sits in RAM at 0 (CHR RAM, NROM).
fn machine(program: &[u8]) -> (Cpu, CpuBus) {
    let cart = Cartridge::new(vec![0u8; 0x4000], vec![], Mirroring::Horizontal, 0).unwrap();
    let mut bus = CpuBus::new(cart);
    bus.ram[..program.len()].copy_from_slice(program);
    (Cpu::new(0), bus)
}

fn run(cpu: &mut Cpu, bus: &mut CpuBus, n: usize) {
    for _ in 0..n {
        cpu.step(bus).unwrap();
    }
}

fn write_2007(cpu: &mut Cpu, bus: &mut CpuBus) {
    // LDA #ee; STA $2007 with increment 32, rendering off
    bus.ram[..5].copy_from_slice(&[0xa9, 0xee, 0x8d, 0x07, 0x20]);
    bus.ppu.ppumask = 0;
    bus.ppu.current_scanline = 222;
    bus.ppu.ppuctrl = 0b100;
    cpu.pc = 0;
    run(cpu, bus, 2);
    assert_eq!(bus.ppu.scroll.v.inner, 32);
    bus.ppu.scroll.v = VramAddrRegister::new(0);
    assert_eq!(bus.read(0x2007, cpu), 0);
    assert_eq!(bus.read(0x2007, cpu), 0xee);
}

fn write_2000(cpu: &mut Cpu, bus: &mut CpuBus) {
    // LDA #ff; STA $2000
    bus.ram[..5].copy_from_slice(&[0xa9, 0xff, 0x8d, 0x00, 0x20]);
    cpu.pc = 0;
    run(cpu, bus, 2);
    assert_eq!(bus.ppu.scroll.t.inner, 0b11_00000_00000);
}

fn read_2002(cpu: &mut Cpu, bus: &mut CpuBus) {
    // LDA $2002
    bus.ram[..3].copy_from_slice(&[0xad, 0x02, 0x20]);
    bus.ppu.scroll.w = true;
    cpu.pc = 0;
    run(cpu, bus, 1);
    assert!(!bus.ppu.scroll.w);
}

fn write_2005(cpu: &mut Cpu, bus: &mut CpuBus) {
    // LDA #7d; STA $2005; LDA #5e; STA $2005
    bus.ram[..10].copy_from_slice(&[0xa9, 0x7d, 0x8d, 0x05, 0x20, 0xa9, 0x5e, 0x8d, 0x05, 0x20]);
    cpu.pc = 0;
    run(cpu, bus, 2);
    assert_eq!(bus.ppu.get_fine_x_scroll(), 0b101);
    assert!(bus.ppu.scroll.w);
    assert_eq!(bus.ppu.scroll.t.inner, 0b00_00000_01111);
    run(cpu, bus, 2);
    assert_eq!(bus.ppu.scroll.t.inner >> 12, 0b110);
    assert!(!bus.ppu.scroll.w);
    assert_eq!(bus.ppu.scroll.t.inner, 0b110_00_01011_01111);
}

fn write_2006(cpu: &mut Cpu, bus: &mut CpuBus) {
    // LDA #ed; STA $2006; LDA #f0; STA $2006
    bus.ram[..10].copy_from_slice(&[0xa9, 0xed, 0x8d, 0x06, 0x20, 0xa9, 0xf0, 0x8d, 0x06, 0x20]);
    // set bit 14 of t
    bus.ppu.scroll.t = VramAddrRegister::new(bus.ppu.scroll.t.inner | 0b0100000000000000);
    cpu.pc = 0;
    run(cpu, bus, 2);
    assert!(bus.ppu.scroll.w);
    // bit 14 cleared, bits 8-13 from the value written
    assert_eq!(bus.ppu.scroll.t.inner, 0b010_11_01000_00000);
    run(cpu, bus, 2);
    assert!(!bus.ppu.scroll.w);
    assert_eq!(bus.ppu.scroll.t.inner, 0b010_11_01111_10000);
    assert_eq!(bus.ppu.scroll.t.inner, bus.ppu.scroll.v.inner);
}

fn write_2003_read_2004(cpu: &mut Cpu, bus: &mut CpuBus) {
    // LDA #ff; STA $2003; LDA $2004
    bus.ram[..8].copy_from_slice(&[0xa9, 0xff, 0x8d, 0x03, 0x20, 0xad, 0x04, 0x20]);
    cpu.pc = 0;
    run(cpu, bus, 2);
    bus.ppu.oam.primary.set_byte(0xff, 0xee);
    run(cpu, bus, 1);
    assert_eq!(cpu.a, 0xee);
}

#[test]
fn test_all() {
    let checks: [fn(&mut Cpu, &mut CpuBus); 6] =
        [write_2007, write_2000, read_2002, write_2005, write_2006, write_2003_read_2004];
    for check in checks.iter() {
        let (mut cpu, mut bus) = machine(&[]);
        check(&mut cpu, &mut bus);
    }
}

#[test]
fn test_write_2005() {
    let (mut cpu, mut bus) = machine(&[]);
    write_2005(&mut cpu, &mut bus);
}

#[test]
fn test_write_2006() {
    let (mut cpu, mut bus) = machine(&[]);
    write_2006(&mut cpu, &mut bus);
}
