use nes_core::alu::{adc, compare, sbc, shift, ShiftKind, FLAG_C, FLAG_N, FLAG_V, FLAG_Z};
use nes_core::bus::{Controller, CpuBus, TestCpuAddressBus};
use nes_core::cartridge::Cartridge;
use nes_core::cpu::{branch_target, decode, index_abs, indirect_hi_addr, Cpu, CpuError};
use nes_core::ppu_bus::Mirroring;

/// A 32 KiB NROM image with `program` at 0x8000, NMI at 0x9000, IRQ at
/// 0xA000.
fn machine(program: &[u8]) -> (Cpu, CpuBus) {
    let mut prg = vec![0xeau8; 0x8000];
    prg[..program.len()].copy_from_slice(program);
    prg[0x7ffa] = 0x00;
    prg[0x7ffb] = 0x90;
    prg[0x7ffc] = 0x00;
    prg[0x7ffd] = 0x80;
    prg[0x7ffe] = 0x00;
    prg[0x7fff] = 0xa0;
    let cart = Cartridge::new(prg, vec![0u8; 0x2000], Mirroring::Horizontal, 0).unwrap();
    let mut bus = CpuBus::new(cart);
    let mut cpu = Cpu::new(0);
    cpu.reset(&mut bus);
    cpu.cycle_count = 0;
    (cpu, bus)
}

fn cycles_of(cpu: &mut Cpu, bus: &mut CpuBus) -> u64 {
    let before = cpu.cycle_count;
    cpu.step(bus).unwrap();
    cpu.cycle_count - before
}

#[test]
fn instr_timing() {
    // LDA $0200; LDA $02F0,X (X=0x0F, same page); LDA $02F0,X (X=0x10, crosses);
    // STA $0200,X; INC $0200; JSR $8020; ... $8020: RTS
    let mut program = vec![
        0xad, 0x00, 0x02, 0xa2, 0x0f, 0xbd, 0xf0, 0x02, 0xa2, 0x10, 0xbd, 0xf0, 0x02, 0x9d,
        0x00, 0x02, 0xee, 0x00, 0x02, 0x20, 0x20, 0x80,
    ];
    program.resize(0x20, 0xea);
    program.push(0x60);
    let (mut cpu, mut bus) = machine(&program);
    assert_eq!(cpu.pc, 0x8000);
    assert_eq!(cycles_of(&mut cpu, &mut bus), 4);
    assert_eq!(cycles_of(&mut cpu, &mut bus), 2);
    assert_eq!(cycles_of(&mut cpu, &mut bus), 4);
    assert_eq!(cycles_of(&mut cpu, &mut bus), 2);
    assert_eq!(cycles_of(&mut cpu, &mut bus), 5);
    assert_eq!(cycles_of(&mut cpu, &mut bus), 5);
    assert_eq!(cycles_of(&mut cpu, &mut bus), 6);
    assert_eq!(cycles_of(&mut cpu, &mut bus), 6);
    assert_eq!(cpu.pc, 0x8020);
    assert_eq!(cycles_of(&mut cpu, &mut bus), 6);
    assert_eq!(cpu.pc, 0x8016);
}

#[test]
fn cpu_timing_test6() {
    // LDX #5; loop: DEX; BNE loop; then a NOP
    let (mut cpu, mut bus) = machine(&[0xa2, 0x05, 0xca, 0xd0, 0xfd, 0xea]);
    while cpu.pc != 0x8005 {
        cpu.step(&mut bus).unwrap();
    }
    assert_eq!(cpu.cycle_count, 2 + 5 * 2 + 4 * 3 + 2);
    assert_eq!(cpu.x, 0);
}

#[test]
fn branch_timing_tests() {
    // BNE not taken (Z set after LDA #0): 2 cycles
    let (mut cpu, mut bus) = machine(&[0xa9, 0x00, 0xd0, 0x10]);
    cpu.step(&mut bus).unwrap();
    assert_eq!(cycles_of(&mut cpu, &mut bus), 2);
    assert_eq!(cpu.pc, 0x8004);
    // BEQ taken within the page: 3 cycles
    let (mut cpu, mut bus) = machine(&[0xa9, 0x00, 0xf0, 0x10]);
    cpu.step(&mut bus).unwrap();
    assert_eq!(cycles_of(&mut cpu, &mut bus), 3);
    assert_eq!(cpu.pc, 0x8014);
    // BEQ taken backwards across a page: 4 cycles
    let (mut cpu, mut bus) = machine(&[0xa9, 0x00, 0xf0, 0x80]);
    cpu.step(&mut bus).unwrap();
    assert_eq!(cycles_of(&mut cpu, &mut bus), 4);
    assert_eq!(cpu.pc, 0x7f84);
}

#[test]
fn adc_sbc_flags() {
    let (r, p) = adc(0x50, 0x50, 0);
    assert_eq!(r, 0xa0);
    assert!(p & FLAG_V != 0 && p & FLAG_N != 0 && p & FLAG_C == 0);
    let (r, p) = adc(0xff, 0x01, 0);
    assert_eq!(r, 0);
    assert!(p & FLAG_C != 0 && p & FLAG_Z != 0 && p & FLAG_V == 0);
    let (r, p) = sbc(0x50, 0xf0, FLAG_C);
    assert_eq!(r, 0x60);
    assert!(p & FLAG_C == 0 && p & FLAG_V == 0);
    let (r, p) = sbc(0x50, 0x30, FLAG_C);
    assert_eq!(r, 0x20);
    assert!(p & FLAG_C != 0);
    let p = compare(0x40, 0x40, 0);
    assert!(p & FLAG_Z != 0 && p & FLAG_C != 0);
    let p = compare(0x10, 0x20, 0);
    assert!(p & FLAG_C == 0 && p & FLAG_N != 0);
    assert_eq!(shift(ShiftKind::Ror, 0x01, FLAG_C), (0x80, FLAG_C | FLAG_N));
    assert_eq!(shift(ShiftKind::Asl, 0x81, 0), (0x02, FLAG_C));
}

#[test]
fn addressing_helpers() {
    assert_eq!(index_abs(0x02f0, 0x10), (0x0300, true));
    assert_eq!(index_abs(0xfff0, 0x20), (0x0010, true));
    assert_eq!(index_abs(0x0200, 0x10), (0x0210, false));
    assert_eq!(indirect_hi_addr(0x02ff), 0x0200);
    assert_eq!(branch_target(0x8004, 0xfe), (0x8002, false));
    assert_eq!(branch_target(0x80fe, 0x04), (0x8102, true));
    assert!(decode(0x02).is_none());
    assert!(decode(0xa9).is_some());
}

#[test]
fn jmp_indirect_wraps_within_page() {
    // JMP ($02FF): low byte from $02FF, high byte from $0200
    let (mut cpu, mut bus) = machine(&[0x6c, 0xff, 0x02]);
    bus.ram[0x2ff] = 0x34;
    bus.ram[0x200] = 0x12;
    bus.ram[0x300] = 0x56;
    cpu.step(&mut bus).unwrap();
    assert_eq!(cpu.pc, 0x1234);
}

#[test]
fn undocumented_opcode_is_an_error() {
    let (mut cpu, mut bus) = machine(&[0x02]);
    assert_eq!(cpu.step(&mut bus), Err(CpuError::UnsupportedOpcode(0x02)));
}

#[test]
fn nmi_is_serviced_before_the_next_instruction() {
    let (mut cpu, mut bus) = machine(&[0xea]);
    cpu.nmi_edge = true;
    let sp = cpu.sp;
    cpu.step(&mut bus).unwrap();
    assert!(!cpu.nmi_edge);
    // the NOP at 0x9000 ran
    assert_eq!(cpu.pc, 0x9001);
    assert_eq!(cpu.sp, sp.wrapping_sub(3));
    assert_eq!(bus.ram[0x100 + sp as usize], 0x80);
    assert_eq!(bus.ram[0x100 + sp as usize - 1], 0x00);
    // pushed P has B clear
    assert_eq!(bus.ram[0x100 + sp as usize - 2] & 0x10, 0);
    assert!(cpu.p & 0x04 != 0);
}

#[test]
fn irq_waits_for_i_clear() {
    let (mut cpu, mut bus) = machine(&[0xea, 0x58, 0xea]);
    cpu.irq_level = 1;
    cpu.step(&mut bus).unwrap();
    assert_eq!(cpu.pc, 0x8001);
    cpu.p = cpu.p & !0x04;
    cpu.step(&mut bus).unwrap();
    assert_eq!(cpu.pc, 0xa001);
}

#[test]
fn brk_pushes_b_and_rti_returns() {
    // BRK at 0x8000; handler at 0xA000: RTI
    let mut program = vec![0x00, 0xff, 0xea];
    program.resize(0x2000, 0xea);
    program.push(0x40);
    let (mut cpu, mut bus) = machine(&program);
    let sp = cpu.sp;
    cpu.step(&mut bus).unwrap();
    assert_eq!(bus.ram[0x100 + sp as usize - 2] & 0x10, 0x10);
    assert_eq!(cpu.pc, 0xa000);
    // RTI returns past the padding byte
    cpu.step(&mut bus).unwrap();
    assert_eq!(cpu.pc, 0x8002);
    assert_eq!(cpu.sp, sp);
}

#[test]
fn ram_is_mirrored_every_2k() {
    let (mut cpu, mut bus) = machine(&[]);
    bus.write(0x0801, 0x5a, &mut cpu);
    assert_eq!(bus.read(0x0001, &mut cpu), 0x5a);
    assert_eq!(bus.read(0x1801, &mut cpu), 0x5a);
}

#[test]
fn ppu_register_window_mirrors() {
    let (mut cpu, mut bus) = machine(&[]);
    // 0x3FFD selects PPUSCROLL like 0x2005
    bus.write(0x3ffd, 0x11, &mut cpu);
    assert!(bus.ppu.scroll.w);
    assert_eq!(bus.ppu.scroll.fine_x, 1);
    // 0x2A02 reads PPUSTATUS like 0x2002 and clears w
    bus.ppu.set_vblank(true);
    assert_eq!(bus.read(0x2a02, &mut cpu), 0x80);
    assert!(!bus.ppu.scroll.w);
    assert!(!bus.ppu.is_vblank());
}

#[test]
fn register_access_catches_the_ppu_up() {
    let (mut cpu, mut bus) = machine(&[]);
    cpu.cycle_count = 100;
    let _ = bus.read(0x2002, &mut cpu);
    assert_eq!(bus.ppu.cycle_count, 300);
}

#[test]
fn oamdma_copies_a_page() {
    let (mut cpu, mut bus) = machine(&[]);
    for i in 0..256usize {
        bus.ram[0x300 + i] = i as u8;
    }
    bus.ppu.oamaddr = 4;
    cpu.cycle_count = 10;
    bus.write(0x4014, 0x03, &mut cpu);
    assert_eq!(cpu.cycle_count, 10 + 513);
    assert_eq!(bus.ppu.oam.primary.get_byte(4), 0);
    assert_eq!(bus.ppu.oam.primary.get_byte(3), 255);
    assert_eq!(bus.ppu.oamaddr, 4);
    cpu.cycle_count = 11;
    bus.write(0x4014, 0x03, &mut cpu);
    assert_eq!(cpu.cycle_count, 11 + 514);
}

#[test]
fn controller_shift_register() {
    let mut c = Controller::new();
    c.set_state(0b1000_0101);
    c.write(1);
    assert_eq!(c.read(), 1);
    c.write(0);
    let bits: Vec<u8> = (0..8).map(|_| c.read()).collect();
    assert_eq!(bits, vec![1, 0, 1, 0, 0, 0, 0, 1]);
    assert_eq!(c.read(), 1);
    assert_eq!(c.read(), 1);
}

#[test]
fn test_bus_captures_report() {
    // LDA #$48 ; STA $6004 ; LDA #$69 ; STA $6005 ; LDA #0 ; STA $6000
    let program = [
        0xa9, 0x48, 0x8d, 0x04, 0x60, 0xa9, 0x69, 0x8d, 0x05, 0x60, 0xa9, 0x00, 0x8d, 0x00,
        0x60,
    ];
    let (mut cpu, bus) = machine(&program);
    let mut test_bus = TestCpuAddressBus::new(bus);
    assert_eq!(test_bus.read(0x6000, &mut cpu), 0xff);
    for _ in 0..6 {
        cpu.step(&mut test_bus).unwrap();
    }
    assert_eq!(test_bus.read(0x6000, &mut cpu), 0);
    assert_eq!(test_bus.output_text(), b"Hi".to_vec());
}

#[test]
fn run_frame_stops_at_vblank() {
    // an endless loop: JMP $8000
    let (mut cpu, mut bus) = machine(&[0x4c, 0x00, 0x80]);
    let n = cpu.run_frame(&mut bus, 100_000).unwrap();
    assert!(n > 0 && n < 100_000);
    assert!(bus.ppu.is_vblank());
    assert_eq!(bus.ppu.current_scanline, 241);
}

#[test]
fn adc_then_sbc_restores_accumulator() {
    for (a, m) in [(0x00u8, 0x00u8), (0x7f, 0x01), (0xff, 0xff), (0x12, 0xf0)] {
        let (s, p) = adc(a, m, 0);
        let (back, _) = sbc(s, m, p | FLAG_C);
        assert_eq!(back, a);
    }
}
