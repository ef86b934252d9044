use vstd::prelude::*;
use crate::alu::{
    with_flag, with_nz, adc_spec, sbc_spec, compare_spec, bit_spec, FLAG_C, FLAG_Z, FLAG_I, FLAG_D, FLAG_B, FLAG_U, FLAG_V, FLAG_N, ShiftKind, adc, sbc, compare,
    bit_test, shift, set_flag, set_nz,
};

verus! {

/// The 6502 register file, cycle counter and interrupt inputs.
#[derive(Clone, Copy, Debug)]
pub struct Cpu {
    pub pc: u16,
    pub a: u8,
    pub x: u8,
    pub y: u8,
    /// Low byte of the stack pointer; the stack lives at 0x100-0x1FF.
    pub sp: u8,
    /// Status N V _ B D I Z C.
    pub p: u8,
    pub cycle_count: u64,
    /// Edge-triggered NMI, set by the PPU and cleared on dispatch.
    pub nmi_edge: bool,
    /// Level-sensitive IRQ: asserted while positive.
    pub irq_level: i8,
}

#[derive(Clone, Copy, Debug, PartialEq, Eq, Structural)]
pub enum CpuError {
    UnsupportedOpcode(u8),
}

/// The CPU's view of memory: the only gateway for reads and writes. An
/// access may advance the clock (OAM DMA) and raise interrupts, but leaves
/// the registers alone.
pub trait MemoryMap: Sized {
    spec fn wf(&self) -> bool;

    /// The byte at `addr` where reading has no side effect (RAM and PRG).
    spec fn peek(&self, addr: u16) -> u8;

    fn read_cpu(&mut self, addr: u16, cpu: &mut Cpu) -> (r: u8)
        requires
            old(self).wf(),
        ensures
            final(self).wf(),
            regs_kept(*old(cpu), *final(cpu)),
            side_effect_free(addr) ==> r == old(self).peek(addr) && *final(self) == *old(self)
                && *final(cpu) == *old(cpu),
    ;

    fn write_cpu(&mut self, addr: u16, val: u8, cpu: &mut Cpu)
        requires
            old(self).wf(),
        ensures
            final(self).wf(),
            regs_kept(*old(cpu), *final(cpu)),
            addr < 0x2000 ==> *final(cpu) == *old(cpu) && forall|a: u16|
                side_effect_free(a) ==> #[trigger] final(self).peek(a) == (if a < 0x2000 && a
                    % 0x800 == addr % 0x800 {
                    val
                } else {
                    old(self).peek(a)
                }),
    ;

    /// Brings everything clocked by the CPU up to its cycle count.
    fn sync_devices(&mut self, cpu: &mut Cpu)
        requires
            old(self).wf(),
        ensures
            final(self).wf(),
            regs_kept(*old(cpu), *final(cpu)),
    ;

    /// Whether a frame has been completed since the mark was cleared.
    spec fn frame_done(&self) -> bool;

    fn is_frame_done(&self) -> (r: bool)
        ensures
            r == self.frame_done(),
    ;

    fn clear_frame_done(&mut self)
        requires
            old(self).wf(),
        ensures
            final(self).wf(),
            !final(self).frame_done(),
    ;
}

/// Addresses whose reads change nothing: internal RAM and PRG ROM.
pub open spec fn side_effect_free(addr: u16) -> bool {
    addr < 0x2000 || addr >= 0x8000
}

/// The registers are unchanged and the clock has not gone back.
pub open spec fn regs_kept(a: Cpu, b: Cpu) -> bool {
    &&& b.pc == a.pc
    &&& b.a == a.a
    &&& b.x == a.x
    &&& b.y == a.y
    &&& b.sp == a.sp
    &&& b.p == a.p
    &&& b.cycle_count >= a.cycle_count
}

#[derive(Clone, Copy, Debug, PartialEq, Eq, Structural)]
pub enum Op {
    Adc,
    And,
    Asl,
    Bcc,
    Bcs,
    Beq,
    Bit,
    Bmi,
    Bne,
    Bpl,
    Brk,
    Bvc,
    Bvs,
    Clc,
    Cld,
    Cli,
    Clv,
    Cmp,
    Cpx,
    Cpy,
    Dec,
    Dex,
    Dey,
    Eor,
    Inc,
    Inx,
    Iny,
    Jmp,
    Jsr,
    Lda,
    Ldx,
    Ldy,
    Lsr,
    Nop,
    Ora,
    Pha,
    Php,
    Pla,
    Plp,
    Rol,
    Ror,
    Rti,
    Rts,
    Sbc,
    Sec,
    Sed,
    Sei,
    Sta,
    Stx,
    Sty,
    Tax,
    Tay,
    Tsx,
    Txa,
    Txs,
    Tya,
}

/// Addressing modes.
#[derive(Clone, Copy, Debug, PartialEq, Eq, Structural)]
pub enum Mode {
    Imp,
    Acc,
    Imm,
    Zp,
    Zpx,
    Zpy,
    Abs,
    Absx,
    Absy,
    Ind,
    Izx,
    Izy,
    Rel,
}

/// The 151 documented opcodes.
pub open spec fn documented(op: u8) -> bool {
    op == 0x00
        || op == 0x01
        || op == 0x05
        || op == 0x06
        || op == 0x08
        || op == 0x09
        || op == 0x0a
        || op == 0x0d
        || op == 0x0e
        || op == 0x10
        || op == 0x11
        || op == 0x15
        || op == 0x16
        || op == 0x18
        || op == 0x19
        || op == 0x1d
        || op == 0x1e
        || op == 0x20
        || op == 0x21
        || op == 0x24
        || op == 0x25
        || op == 0x26
        || op == 0x28
        || op == 0x29
        || op == 0x2a
        || op == 0x2c
        || op == 0x2d
        || op == 0x2e
        || op == 0x30
        || op == 0x31
        || op == 0x35
        || op == 0x36
        || op == 0x38
        || op == 0x39
        || op == 0x3d
        || op == 0x3e
        || op == 0x40
        || op == 0x41
        || op == 0x45
        || op == 0x46
        || op == 0x48
        || op == 0x49
        || op == 0x4a
        || op == 0x4c
        || op == 0x4d
        || op == 0x4e
        || op == 0x50
        || op == 0x51
        || op == 0x55
        || op == 0x56
        || op == 0x58
        || op == 0x59
        || op == 0x5d
        || op == 0x5e
        || op == 0x60
        || op == 0x61
        || op == 0x65
        || op == 0x66
        || op == 0x68
        || op == 0x69
        || op == 0x6a
        || op == 0x6c
        || op == 0x6d
        || op == 0x6e
        || op == 0x70
        || op == 0x71
        || op == 0x75
        || op == 0x76
        || op == 0x78
        || op == 0x79
        || op == 0x7d
        || op == 0x7e
        || op == 0x81
        || op == 0x84
        || op == 0x85
        || op == 0x86
        || op == 0x88
        || op == 0x8a
        || op == 0x8c
        || op == 0x8d
        || op == 0x8e
        || op == 0x90
        || op == 0x91
        || op == 0x94
        || op == 0x95
        || op == 0x96
        || op == 0x98
        || op == 0x99
        || op == 0x9a
        || op == 0x9d
        || op == 0xa0
        || op == 0xa1
        || op == 0xa2
        || op == 0xa4
        || op == 0xa5
        || op == 0xa6
        || op == 0xa8
        || op == 0xa9
        || op == 0xaa
        || op == 0xac
        || op == 0xad
        || op == 0xae
        || op == 0xb0
        || op == 0xb1
        || op == 0xb4
        || op == 0xb5
        || op == 0xb6
        || op == 0xb8
        || op == 0xb9
        || op == 0xba
        || op == 0xbc
        || op == 0xbd
        || op == 0xbe
        || op == 0xc0
        || op == 0xc1
        || op == 0xc4
        || op == 0xc5
        || op == 0xc6
        || op == 0xc8
        || op == 0xc9
        || op == 0xca
        || op == 0xcc
        || op == 0xcd
        || op == 0xce
        || op == 0xd0
        || op == 0xd1
        || op == 0xd5
        || op == 0xd6
        || op == 0xd8
        || op == 0xd9
        || op == 0xdd
        || op == 0xde
        || op == 0xe0
        || op == 0xe1
        || op == 0xe4
        || op == 0xe5
        || op == 0xe6
        || op == 0xe8
        || op == 0xe9
        || op == 0xea
        || op == 0xec
        || op == 0xed
        || op == 0xee
        || op == 0xf0
        || op == 0xf1
        || op == 0xf5
        || op == 0xf6
        || op == 0xf8
        || op == 0xf9
        || op == 0xfd
        || op == 0xfe
}

/// Operation, addressing mode and base cycle count of each documented
/// opcode.
pub open spec fn decode_spec(opcode: u8) -> Option<(Op, Mode, u8)> {
    match opcode {
        0x00 => Some((Op::Brk, Mode::Imp, 7)),
        0x01 => Some((Op::Ora, Mode::Izx, 6)),
        0x05 => Some((Op::Ora, Mode::Zp, 3)),
        0x06 => Some((Op::Asl, Mode::Zp, 5)),
        0x08 => Some((Op::Php, Mode::Imp, 3)),
        0x09 => Some((Op::Ora, Mode::Imm, 2)),
        0x0a => Some((Op::Asl, Mode::Acc, 2)),
        0x0d => Some((Op::Ora, Mode::Abs, 4)),
        0x0e => Some((Op::Asl, Mode::Abs, 6)),
        0x10 => Some((Op::Bpl, Mode::Rel, 2)),
        0x11 => Some((Op::Ora, Mode::Izy, 5)),
        0x15 => Some((Op::Ora, Mode::Zpx, 4)),
        0x16 => Some((Op::Asl, Mode::Zpx, 6)),
        0x18 => Some((Op::Clc, Mode::Imp, 2)),
        0x19 => Some((Op::Ora, Mode::Absy, 4)),
        0x1d => Some((Op::Ora, Mode::Absx, 4)),
        0x1e => Some((Op::Asl, Mode::Absx, 7)),
        0x20 => Some((Op::Jsr, Mode::Abs, 6)),
        0x21 => Some((Op::And, Mode::Izx, 6)),
        0x24 => Some((Op::Bit, Mode::Zp, 3)),
        0x25 => Some((Op::And, Mode::Zp, 3)),
        0x26 => Some((Op::Rol, Mode::Zp, 5)),
        0x28 => Some((Op::Plp, Mode::Imp, 4)),
        0x29 => Some((Op::And, Mode::Imm, 2)),
        0x2a => Some((Op::Rol, Mode::Acc, 2)),
        0x2c => Some((Op::Bit, Mode::Abs, 4)),
        0x2d => Some((Op::And, Mode::Abs, 4)),
        0x2e => Some((Op::Rol, Mode::Abs, 6)),
        0x30 => Some((Op::Bmi, Mode::Rel, 2)),
        0x31 => Some((Op::And, Mode::Izy, 5)),
        0x35 => Some((Op::And, Mode::Zpx, 4)),
        0x36 => Some((Op::Rol, Mode::Zpx, 6)),
        0x38 => Some((Op::Sec, Mode::Imp, 2)),
        0x39 => Some((Op::And, Mode::Absy, 4)),
        0x3d => Some((Op::And, Mode::Absx, 4)),
        0x3e => Some((Op::Rol, Mode::Absx, 7)),
        0x40 => Some((Op::Rti, Mode::Imp, 6)),
        0x41 => Some((Op::Eor, Mode::Izx, 6)),
        0x45 => Some((Op::Eor, Mode::Zp, 3)),
        0x46 => Some((Op::Lsr, Mode::Zp, 5)),
        0x48 => Some((Op::Pha, Mode::Imp, 3)),
        0x49 => Some((Op::Eor, Mode::Imm, 2)),
        0x4a => Some((Op::Lsr, Mode::Acc, 2)),
        0x4c => Some((Op::Jmp, Mode::Abs, 3)),
        0x4d => Some((Op::Eor, Mode::Abs, 4)),
        0x4e => Some((Op::Lsr, Mode::Abs, 6)),
        0x50 => Some((Op::Bvc, Mode::Rel, 2)),
        0x51 => Some((Op::Eor, Mode::Izy, 5)),
        0x55 => Some((Op::Eor, Mode::Zpx, 4)),
        0x56 => Some((Op::Lsr, Mode::Zpx, 6)),
        0x58 => Some((Op::Cli, Mode::Imp, 2)),
        0x59 => Some((Op::Eor, Mode::Absy, 4)),
        0x5d => Some((Op::Eor, Mode::Absx, 4)),
        0x5e => Some((Op::Lsr, Mode::Absx, 7)),
        0x60 => Some((Op::Rts, Mode::Imp, 6)),
        0x61 => Some((Op::Adc, Mode::Izx, 6)),
        0x65 => Some((Op::Adc, Mode::Zp, 3)),
        0x66 => Some((Op::Ror, Mode::Zp, 5)),
        0x68 => Some((Op::Pla, Mode::Imp, 4)),
        0x69 => Some((Op::Adc, Mode::Imm, 2)),
        0x6a => Some((Op::Ror, Mode::Acc, 2)),
        0x6c => Some((Op::Jmp, Mode::Ind, 5)),
        0x6d => Some((Op::Adc, Mode::Abs, 4)),
        0x6e => Some((Op::Ror, Mode::Abs, 6)),
        0x70 => Some((Op::Bvs, Mode::Rel, 2)),
        0x71 => Some((Op::Adc, Mode::Izy, 5)),
        0x75 => Some((Op::Adc, Mode::Zpx, 4)),
        0x76 => Some((Op::Ror, Mode::Zpx, 6)),
        0x78 => Some((Op::Sei, Mode::Imp, 2)),
        0x79 => Some((Op::Adc, Mode::Absy, 4)),
        0x7d => Some((Op::Adc, Mode::Absx, 4)),
        0x7e => Some((Op::Ror, Mode::Absx, 7)),
        0x81 => Some((Op::Sta, Mode::Izx, 6)),
        0x84 => Some((Op::Sty, Mode::Zp, 3)),
        0x85 => Some((Op::Sta, Mode::Zp, 3)),
        0x86 => Some((Op::Stx, Mode::Zp, 3)),
        0x88 => Some((Op::Dey, Mode::Imp, 2)),
        0x8a => Some((Op::Txa, Mode::Imp, 2)),
        0x8c => Some((Op::Sty, Mode::Abs, 4)),
        0x8d => Some((Op::Sta, Mode::Abs, 4)),
        0x8e => Some((Op::Stx, Mode::Abs, 4)),
        0x90 => Some((Op::Bcc, Mode::Rel, 2)),
        0x91 => Some((Op::Sta, Mode::Izy, 6)),
        0x94 => Some((Op::Sty, Mode::Zpx, 4)),
        0x95 => Some((Op::Sta, Mode::Zpx, 4)),
        0x96 => Some((Op::Stx, Mode::Zpy, 4)),
        0x98 => Some((Op::Tya, Mode::Imp, 2)),
        0x99 => Some((Op::Sta, Mode::Absy, 5)),
        0x9a => Some((Op::Txs, Mode::Imp, 2)),
        0x9d => Some((Op::Sta, Mode::Absx, 5)),
        0xa0 => Some((Op::Ldy, Mode::Imm, 2)),
        0xa1 => Some((Op::Lda, Mode::Izx, 6)),
        0xa2 => Some((Op::Ldx, Mode::Imm, 2)),
        0xa4 => Some((Op::Ldy, Mode::Zp, 3)),
        0xa5 => Some((Op::Lda, Mode::Zp, 3)),
        0xa6 => Some((Op::Ldx, Mode::Zp, 3)),
        0xa8 => Some((Op::Tay, Mode::Imp, 2)),
        0xa9 => Some((Op::Lda, Mode::Imm, 2)),
        0xaa => Some((Op::Tax, Mode::Imp, 2)),
        0xac => Some((Op::Ldy, Mode::Abs, 4)),
        0xad => Some((Op::Lda, Mode::Abs, 4)),
        0xae => Some((Op::Ldx, Mode::Abs, 4)),
        0xb0 => Some((Op::Bcs, Mode::Rel, 2)),
        0xb1 => Some((Op::Lda, Mode::Izy, 5)),
        0xb4 => Some((Op::Ldy, Mode::Zpx, 4)),
        0xb5 => Some((Op::Lda, Mode::Zpx, 4)),
        0xb6 => Some((Op::Ldx, Mode::Zpy, 4)),
        0xb8 => Some((Op::Clv, Mode::Imp, 2)),
        0xb9 => Some((Op::Lda, Mode::Absy, 4)),
        0xba => Some((Op::Tsx, Mode::Imp, 2)),
        0xbc => Some((Op::Ldy, Mode::Absx, 4)),
        0xbd => Some((Op::Lda, Mode::Absx, 4)),
        0xbe => Some((Op::Ldx, Mode::Absy, 4)),
        0xc0 => Some((Op::Cpy, Mode::Imm, 2)),
        0xc1 => Some((Op::Cmp, Mode::Izx, 6)),
        0xc4 => Some((Op::Cpy, Mode::Zp, 3)),
        0xc5 => Some((Op::Cmp, Mode::Zp, 3)),
        0xc6 => Some((Op::Dec, Mode::Zp, 5)),
        0xc8 => Some((Op::Iny, Mode::Imp, 2)),
        0xc9 => Some((Op::Cmp, Mode::Imm, 2)),
        0xca => Some((Op::Dex, Mode::Imp, 2)),
        0xcc => Some((Op::Cpy, Mode::Abs, 4)),
        0xcd => Some((Op::Cmp, Mode::Abs, 4)),
        0xce => Some((Op::Dec, Mode::Abs, 6)),
        0xd0 => Some((Op::Bne, Mode::Rel, 2)),
        0xd1 => Some((Op::Cmp, Mode::Izy, 5)),
        0xd5 => Some((Op::Cmp, Mode::Zpx, 4)),
        0xd6 => Some((Op::Dec, Mode::Zpx, 6)),
        0xd8 => Some((Op::Cld, Mode::Imp, 2)),
        0xd9 => Some((Op::Cmp, Mode::Absy, 4)),
        0xdd => Some((Op::Cmp, Mode::Absx, 4)),
        0xde => Some((Op::Dec, Mode::Absx, 7)),
        0xe0 => Some((Op::Cpx, Mode::Imm, 2)),
        0xe1 => Some((Op::Sbc, Mode::Izx, 6)),
        0xe4 => Some((Op::Cpx, Mode::Zp, 3)),
        0xe5 => Some((Op::Sbc, Mode::Zp, 3)),
        0xe6 => Some((Op::Inc, Mode::Zp, 5)),
        0xe8 => Some((Op::Inx, Mode::Imp, 2)),
        0xe9 => Some((Op::Sbc, Mode::Imm, 2)),
        0xea => Some((Op::Nop, Mode::Imp, 2)),
        0xec => Some((Op::Cpx, Mode::Abs, 4)),
        0xed => Some((Op::Sbc, Mode::Abs, 4)),
        0xee => Some((Op::Inc, Mode::Abs, 6)),
        0xf0 => Some((Op::Beq, Mode::Rel, 2)),
        0xf1 => Some((Op::Sbc, Mode::Izy, 5)),
        0xf5 => Some((Op::Sbc, Mode::Zpx, 4)),
        0xf6 => Some((Op::Inc, Mode::Zpx, 6)),
        0xf8 => Some((Op::Sed, Mode::Imp, 2)),
        0xf9 => Some((Op::Sbc, Mode::Absy, 4)),
        0xfd => Some((Op::Sbc, Mode::Absx, 4)),
        0xfe => Some((Op::Inc, Mode::Absx, 7)),
        _ => None,
    }
}

/// Operation, addressing mode and base cycle count of an opcode; `None`
/// for the undocumented ones.
pub fn decode(opcode: u8) -> (r: Option<(Op, Mode, u8)>)
    ensures
        r == decode_spec(opcode),
        r is Some <==> documented(opcode),
        r is Some ==> 2 <= r->Some_0.2 <= 7,
{
    match opcode {
        0x00 => Some((Op::Brk, Mode::Imp, 7)),
        0x01 => Some((Op::Ora, Mode::Izx, 6)),
        0x05 => Some((Op::Ora, Mode::Zp, 3)),
        0x06 => Some((Op::Asl, Mode::Zp, 5)),
        0x08 => Some((Op::Php, Mode::Imp, 3)),
        0x09 => Some((Op::Ora, Mode::Imm, 2)),
        0x0a => Some((Op::Asl, Mode::Acc, 2)),
        0x0d => Some((Op::Ora, Mode::Abs, 4)),
        0x0e => Some((Op::Asl, Mode::Abs, 6)),
        0x10 => Some((Op::Bpl, Mode::Rel, 2)),
        0x11 => Some((Op::Ora, Mode::Izy, 5)),
        0x15 => Some((Op::Ora, Mode::Zpx, 4)),
        0x16 => Some((Op::Asl, Mode::Zpx, 6)),
        0x18 => Some((Op::Clc, Mode::Imp, 2)),
        0x19 => Some((Op::Ora, Mode::Absy, 4)),
        0x1d => Some((Op::Ora, Mode::Absx, 4)),
        0x1e => Some((Op::Asl, Mode::Absx, 7)),
        0x20 => Some((Op::Jsr, Mode::Abs, 6)),
        0x21 => Some((Op::And, Mode::Izx, 6)),
        0x24 => Some((Op::Bit, Mode::Zp, 3)),
        0x25 => Some((Op::And, Mode::Zp, 3)),
        0x26 => Some((Op::Rol, Mode::Zp, 5)),
        0x28 => Some((Op::Plp, Mode::Imp, 4)),
        0x29 => Some((Op::And, Mode::Imm, 2)),
        0x2a => Some((Op::Rol, Mode::Acc, 2)),
        0x2c => Some((Op::Bit, Mode::Abs, 4)),
        0x2d => Some((Op::And, Mode::Abs, 4)),
        0x2e => Some((Op::Rol, Mode::Abs, 6)),
        0x30 => Some((Op::Bmi, Mode::Rel, 2)),
        0x31 => Some((Op::And, Mode::Izy, 5)),
        0x35 => Some((Op::And, Mode::Zpx, 4)),
        0x36 => Some((Op::Rol, Mode::Zpx, 6)),
        0x38 => Some((Op::Sec, Mode::Imp, 2)),
        0x39 => Some((Op::And, Mode::Absy, 4)),
        0x3d => Some((Op::And, Mode::Absx, 4)),
        0x3e => Some((Op::Rol, Mode::Absx, 7)),
        0x40 => Some((Op::Rti, Mode::Imp, 6)),
        0x41 => Some((Op::Eor, Mode::Izx, 6)),
        0x45 => Some((Op::Eor, Mode::Zp, 3)),
        0x46 => Some((Op::Lsr, Mode::Zp, 5)),
        0x48 => Some((Op::Pha, Mode::Imp, 3)),
        0x49 => Some((Op::Eor, Mode::Imm, 2)),
        0x4a => Some((Op::Lsr, Mode::Acc, 2)),
        0x4c => Some((Op::Jmp, Mode::Abs, 3)),
        0x4d => Some((Op::Eor, Mode::Abs, 4)),
        0x4e => Some((Op::Lsr, Mode::Abs, 6)),
        0x50 => Some((Op::Bvc, Mode::Rel, 2)),
        0x51 => Some((Op::Eor, Mode::Izy, 5)),
        0x55 => Some((Op::Eor, Mode::Zpx, 4)),
        0x56 => Some((Op::Lsr, Mode::Zpx, 6)),
        0x58 => Some((Op::Cli, Mode::Imp, 2)),
        0x59 => Some((Op::Eor, Mode::Absy, 4)),
        0x5d => Some((Op::Eor, Mode::Absx, 4)),
        0x5e => Some((Op::Lsr, Mode::Absx, 7)),
        0x60 => Some((Op::Rts, Mode::Imp, 6)),
        0x61 => Some((Op::Adc, Mode::Izx, 6)),
        0x65 => Some((Op::Adc, Mode::Zp, 3)),
        0x66 => Some((Op::Ror, Mode::Zp, 5)),
        0x68 => Some((Op::Pla, Mode::Imp, 4)),
        0x69 => Some((Op::Adc, Mode::Imm, 2)),
        0x6a => Some((Op::Ror, Mode::Acc, 2)),
        0x6c => Some((Op::Jmp, Mode::Ind, 5)),
        0x6d => Some((Op::Adc, Mode::Abs, 4)),
        0x6e => Some((Op::Ror, Mode::Abs, 6)),
        0x70 => Some((Op::Bvs, Mode::Rel, 2)),
        0x71 => Some((Op::Adc, Mode::Izy, 5)),
        0x75 => Some((Op::Adc, Mode::Zpx, 4)),
        0x76 => Some((Op::Ror, Mode::Zpx, 6)),
        0x78 => Some((Op::Sei, Mode::Imp, 2)),
        0x79 => Some((Op::Adc, Mode::Absy, 4)),
        0x7d => Some((Op::Adc, Mode::Absx, 4)),
        0x7e => Some((Op::Ror, Mode::Absx, 7)),
        0x81 => Some((Op::Sta, Mode::Izx, 6)),
        0x84 => Some((Op::Sty, Mode::Zp, 3)),
        0x85 => Some((Op::Sta, Mode::Zp, 3)),
        0x86 => Some((Op::Stx, Mode::Zp, 3)),
        0x88 => Some((Op::Dey, Mode::Imp, 2)),
        0x8a => Some((Op::Txa, Mode::Imp, 2)),
        0x8c => Some((Op::Sty, Mode::Abs, 4)),
        0x8d => Some((Op::Sta, Mode::Abs, 4)),
        0x8e => Some((Op::Stx, Mode::Abs, 4)),
        0x90 => Some((Op::Bcc, Mode::Rel, 2)),
        0x91 => Some((Op::Sta, Mode::Izy, 6)),
        0x94 => Some((Op::Sty, Mode::Zpx, 4)),
        0x95 => Some((Op::Sta, Mode::Zpx, 4)),
        0x96 => Some((Op::Stx, Mode::Zpy, 4)),
        0x98 => Some((Op::Tya, Mode::Imp, 2)),
        0x99 => Some((Op::Sta, Mode::Absy, 5)),
        0x9a => Some((Op::Txs, Mode::Imp, 2)),
        0x9d => Some((Op::Sta, Mode::Absx, 5)),
        0xa0 => Some((Op::Ldy, Mode::Imm, 2)),
        0xa1 => Some((Op::Lda, Mode::Izx, 6)),
        0xa2 => Some((Op::Ldx, Mode::Imm, 2)),
        0xa4 => Some((Op::Ldy, Mode::Zp, 3)),
        0xa5 => Some((Op::Lda, Mode::Zp, 3)),
        0xa6 => Some((Op::Ldx, Mode::Zp, 3)),
        0xa8 => Some((Op::Tay, Mode::Imp, 2)),
        0xa9 => Some((Op::Lda, Mode::Imm, 2)),
        0xaa => Some((Op::Tax, Mode::Imp, 2)),
        0xac => Some((Op::Ldy, Mode::Abs, 4)),
        0xad => Some((Op::Lda, Mode::Abs, 4)),
        0xae => Some((Op::Ldx, Mode::Abs, 4)),
        0xb0 => Some((Op::Bcs, Mode::Rel, 2)),
        0xb1 => Some((Op::Lda, Mode::Izy, 5)),
        0xb4 => Some((Op::Ldy, Mode::Zpx, 4)),
        0xb5 => Some((Op::Lda, Mode::Zpx, 4)),
        0xb6 => Some((Op::Ldx, Mode::Zpy, 4)),
        0xb8 => Some((Op::Clv, Mode::Imp, 2)),
        0xb9 => Some((Op::Lda, Mode::Absy, 4)),
        0xba => Some((Op::Tsx, Mode::Imp, 2)),
        0xbc => Some((Op::Ldy, Mode::Absx, 4)),
        0xbd => Some((Op::Lda, Mode::Absx, 4)),
        0xbe => Some((Op::Ldx, Mode::Absy, 4)),
        0xc0 => Some((Op::Cpy, Mode::Imm, 2)),
        0xc1 => Some((Op::Cmp, Mode::Izx, 6)),
        0xc4 => Some((Op::Cpy, Mode::Zp, 3)),
        0xc5 => Some((Op::Cmp, Mode::Zp, 3)),
        0xc6 => Some((Op::Dec, Mode::Zp, 5)),
        0xc8 => Some((Op::Iny, Mode::Imp, 2)),
        0xc9 => Some((Op::Cmp, Mode::Imm, 2)),
        0xca => Some((Op::Dex, Mode::Imp, 2)),
        0xcc => Some((Op::Cpy, Mode::Abs, 4)),
        0xcd => Some((Op::Cmp, Mode::Abs, 4)),
        0xce => Some((Op::Dec, Mode::Abs, 6)),
        0xd0 => Some((Op::Bne, Mode::Rel, 2)),
        0xd1 => Some((Op::Cmp, Mode::Izy, 5)),
        0xd5 => Some((Op::Cmp, Mode::Zpx, 4)),
        0xd6 => Some((Op::Dec, Mode::Zpx, 6)),
        0xd8 => Some((Op::Cld, Mode::Imp, 2)),
        0xd9 => Some((Op::Cmp, Mode::Absy, 4)),
        0xdd => Some((Op::Cmp, Mode::Absx, 4)),
        0xde => Some((Op::Dec, Mode::Absx, 7)),
        0xe0 => Some((Op::Cpx, Mode::Imm, 2)),
        0xe1 => Some((Op::Sbc, Mode::Izx, 6)),
        0xe4 => Some((Op::Cpx, Mode::Zp, 3)),
        0xe5 => Some((Op::Sbc, Mode::Zp, 3)),
        0xe6 => Some((Op::Inc, Mode::Zp, 5)),
        0xe8 => Some((Op::Inx, Mode::Imp, 2)),
        0xe9 => Some((Op::Sbc, Mode::Imm, 2)),
        0xea => Some((Op::Nop, Mode::Imp, 2)),
        0xec => Some((Op::Cpx, Mode::Abs, 4)),
        0xed => Some((Op::Sbc, Mode::Abs, 4)),
        0xee => Some((Op::Inc, Mode::Abs, 6)),
        0xf0 => Some((Op::Beq, Mode::Rel, 2)),
        0xf1 => Some((Op::Sbc, Mode::Izy, 5)),
        0xf5 => Some((Op::Sbc, Mode::Zpx, 4)),
        0xf6 => Some((Op::Inc, Mode::Zpx, 6)),
        0xf8 => Some((Op::Sed, Mode::Imp, 2)),
        0xf9 => Some((Op::Sbc, Mode::Absy, 4)),
        0xfd => Some((Op::Sbc, Mode::Absx, 4)),
        0xfe => Some((Op::Inc, Mode::Absx, 7)),
        _ => None,
    }
}

/// The effect of a flag, transfer, increment or no-op instruction.
pub open spec fn implied_spec(op: Op, c: Cpu) -> Cpu {
    match op {
        Op::Clc => Cpu { p: with_flag(c.p, FLAG_C, false), ..c },
        Op::Sec => Cpu { p: with_flag(c.p, FLAG_C, true), ..c },
        Op::Cli => Cpu { p: with_flag(c.p, FLAG_I, false), ..c },
        Op::Sei => Cpu { p: with_flag(c.p, FLAG_I, true), ..c },
        Op::Cld => Cpu { p: with_flag(c.p, FLAG_D, false), ..c },
        Op::Sed => Cpu { p: with_flag(c.p, FLAG_D, true), ..c },
        Op::Clv => Cpu { p: with_flag(c.p, FLAG_V, false), ..c },
        Op::Inx => Cpu { x: ((c.x + 1) % 256) as u8, p: with_nz(c.p, ((c.x + 1) % 256) as u8), ..c },
        Op::Iny => Cpu { y: ((c.y + 1) % 256) as u8, p: with_nz(c.p, ((c.y + 1) % 256) as u8), ..c },
        Op::Dex => Cpu { x: ((c.x + 255) % 256) as u8, p: with_nz(c.p, ((c.x + 255) % 256) as u8), ..c },
        Op::Dey => Cpu { y: ((c.y + 255) % 256) as u8, p: with_nz(c.p, ((c.y + 255) % 256) as u8), ..c },
        Op::Tax => Cpu { x: c.a, p: with_nz(c.p, c.a), ..c },
        Op::Tay => Cpu { y: c.a, p: with_nz(c.p, c.a), ..c },
        Op::Txa => Cpu { a: c.x, p: with_nz(c.p, c.x), ..c },
        Op::Tya => Cpu { a: c.y, p: with_nz(c.p, c.y), ..c },
        Op::Tsx => Cpu { x: c.sp, p: with_nz(c.p, c.sp), ..c },
        Op::Txs => Cpu { sp: c.x, ..c },
        _ => c,
    }
}

/// The instructions that touch only registers and flags.
pub open spec fn is_register_op(op: Op) -> bool {
    op == Op::Clc || op == Op::Sec || op == Op::Cli || op == Op::Sei || op == Op::Cld || op
        == Op::Sed || op == Op::Clv || op == Op::Inx || op == Op::Iny || op == Op::Dex || op
        == Op::Dey || op == Op::Tax || op == Op::Tay || op == Op::Txa || op == Op::Tya || op
        == Op::Tsx || op == Op::Txs || op == Op::Nop
}

/// The instructions that read one operand.
pub open spec fn is_read_op(op: Op) -> bool {
    op == Op::Lda || op == Op::Ldx || op == Op::Ldy || op == Op::Adc || op == Op::Sbc || op
        == Op::And || op == Op::Ora || op == Op::Eor || op == Op::Cmp || op == Op::Cpx || op
        == Op::Cpy || op == Op::Bit
}

pub open spec fn is_branch(op: Op) -> bool {
    op == Op::Bpl || op == Op::Bmi || op == Op::Bvc || op == Op::Bvs || op == Op::Bcc || op
        == Op::Bcs || op == Op::Bne || op == Op::Beq
}

/// Whether a branch is taken with status `p`.
pub open spec fn branch_taken_spec(op: Op, p: u8) -> bool {
    match op {
        Op::Bpl => p & FLAG_N == 0,
        Op::Bmi => p & FLAG_N != 0,
        Op::Bvc => p & FLAG_V == 0,
        Op::Bvs => p & FLAG_V != 0,
        Op::Bcc => p & FLAG_C == 0,
        Op::Bcs => p & FLAG_C != 0,
        Op::Bne => p & FLAG_Z == 0,
        _ => p & FLAG_Z != 0,
    }
}

/// The target of a relative branch from `pc` by the signed `offset`.
pub open spec fn branch_target_spec(pc: u16, offset: u8) -> u16 {
    ((pc + (if offset >= 128 {
        offset - 256
    } else {
        offset as int
    }) + 0x10000) % 0x10000) as u16
}

/// The register and flag effect of an instruction that read operand `m`.
pub open spec fn read_op_spec(op: Op, c: Cpu, m: u8) -> Cpu {
    match op {
        Op::Lda => Cpu { a: m, p: with_nz(c.p, m), ..c },
        Op::Ldx => Cpu { x: m, p: with_nz(c.p, m), ..c },
        Op::Ldy => Cpu { y: m, p: with_nz(c.p, m), ..c },
        Op::Adc => Cpu { a: adc_spec(c.a, m, c.p).0, p: adc_spec(c.a, m, c.p).1, ..c },
        Op::Sbc => Cpu { a: sbc_spec(c.a, m, c.p).0, p: sbc_spec(c.a, m, c.p).1, ..c },
        Op::And => Cpu { a: c.a & m, p: with_nz(c.p, c.a & m), ..c },
        Op::Ora => Cpu { a: c.a | m, p: with_nz(c.p, c.a | m), ..c },
        Op::Eor => Cpu { a: c.a ^ m, p: with_nz(c.p, c.a ^ m), ..c },
        Op::Cmp => Cpu { p: compare_spec(c.a, m, c.p), ..c },
        Op::Cpx => Cpu { p: compare_spec(c.x, m, c.p), ..c },
        Op::Cpy => Cpu { p: compare_spec(c.y, m, c.p), ..c },
        Op::Bit => Cpu { p: bit_spec(c.a, m, c.p), ..c },
        _ => c,
    }
}

/// `b` equals `a` in PC, A, X, Y, SP and P.
pub open spec fn same_registers(a: Cpu, b: Cpu) -> bool {
    b.pc == a.pc && b.a == a.a && b.x == a.x && b.y == a.y && b.sp == a.sp && b.p == a.p
}

/// Little-endian word from two bytes.
pub fn word(lo: u8, hi: u8) -> (r: u16)
    ensures
        r == lo + hi * 256,
{
    lo as u16 + hi as u16 * 256
}

/// Absolute indexed address, and whether it left the base's page.
pub fn index_abs(base: u16, idx: u8) -> (r: (u16, bool))
    ensures
        r.0 == (base + idx) % 0x10000,
        r.1 == (base / 256 != r.0 / 256),
{
    let ea = ((base as u32 + idx as u32) % 0x10000) as u16;
    (ea, base / 256 != ea / 256)
}

/// Zero-page indexed address: wraps within page 0.
pub fn index_zp(b: u8, idx: u8) -> (r: u8)
    ensures
        r == (b + idx) % 256,
{
    ((b as u16 + idx as u16) % 256) as u8
}

/// Where JMP (ind) reads the high byte of its target: the byte after `ptr`
/// within the same page.
pub fn indirect_hi_addr(ptr: u16) -> (r: u16)
    ensures
        r == (ptr / 256) * 256 + (ptr % 256 + 1) % 256,
{
    (ptr / 256) * 256 + (ptr % 256 + 1) % 256
}

/// A relative branch: the target, `pc` plus the signed offset, and whether
/// it is in another page than `pc`.
pub fn branch_target(pc: u16, offset: u8) -> (r: (u16, bool))
    ensures
        r.0 == (pc + (if offset >= 128 {
            offset - 256
        } else {
            offset as int
        }) + 0x10000) % 0x10000,
        r.1 == (pc / 256 != r.0 / 256),
{
    let t: u32 = if offset >= 128 {
        (pc as u32 + offset as u32 + 0x10000 - 256) % 0x10000
    } else {
        (pc as u32 + offset as u32) % 0x10000
    };
    let t = t as u16;
    (t, pc / 256 != t / 256)
}

/// Whether a branch opcode's condition holds for status `p`.
pub fn branch_taken(op: Op, p: u8) -> (r: bool)
    ensures
        op == Op::Bpl ==> r == (p & FLAG_N == 0),
        op == Op::Bmi ==> r == (p & FLAG_N != 0),
        op == Op::Bvc ==> r == (p & FLAG_V == 0),
        op == Op::Bvs ==> r == (p & FLAG_V != 0),
        op == Op::Bcc ==> r == (p & FLAG_C == 0),
        op == Op::Bcs ==> r == (p & FLAG_C != 0),
        op == Op::Bne ==> r == (p & FLAG_Z == 0),
        op == Op::Beq ==> r == (p & FLAG_Z != 0),
        r == branch_taken_spec(op, p),
{
    match op {
        Op::Bpl => p & FLAG_N == 0,
        Op::Bmi => p & FLAG_N != 0,
        Op::Bvc => p & FLAG_V == 0,
        Op::Bvs => p & FLAG_V != 0,
        Op::Bcc => p & FLAG_C == 0,
        Op::Bcs => p & FLAG_C != 0,
        Op::Bne => p & FLAG_Z == 0,
        _ => p & FLAG_Z != 0,
    }
}

impl Cpu {
    /// The power-on state with the program counter at `pc`: interrupts
    /// disabled, stack pointer 0xFD.
    pub fn new(pc: u16) -> (r: Self)
        ensures
            r.pc == pc,
            r.sp == 0xfd,
            r.p == 0x24,
            r.cycle_count == 0,
            !r.nmi_edge,
            r.irq_level == 0,
    {
        Cpu { pc, a: 0, x: 0, y: 0, sp: 0xfd, p: 0x24, cycle_count: 0, nmi_edge: false, irq_level: 0 }
    }

    /// One clock cycle (saturating at the counter's limit).
    fn tick(&mut self)
        ensures
            final(self).cycle_count == (if old(self).cycle_count < u64::MAX {
                old(self).cycle_count + 1
            } else {
                old(self).cycle_count as int
            }),
            final(self).pc == old(self).pc,
            final(self).a == old(self).a,
            final(self).x == old(self).x,
            final(self).y == old(self).y,
            final(self).sp == old(self).sp,
            final(self).p == old(self).p,
            final(self).nmi_edge == old(self).nmi_edge,
            final(self).irq_level == old(self).irq_level,
    {
        if self.cycle_count < u64::MAX {
            self.cycle_count = self.cycle_count + 1;
        }
    }

    /// Makes the clock read at least `c0 + n`.
    fn sync(&mut self, c0: u64, n: u64)
        ensures
            final(self).cycle_count >= old(self).cycle_count,
            c0 as int + n <= u64::MAX ==> final(self).cycle_count >= c0 + n,
            final(self).pc == old(self).pc,
            final(self).a == old(self).a,
            final(self).x == old(self).x,
            final(self).y == old(self).y,
            final(self).sp == old(self).sp,
            final(self).nmi_edge == old(self).nmi_edge,
            final(self).irq_level == old(self).irq_level,
            final(self).p == old(self).p,
    {
        if c0 <= u64::MAX - n && self.cycle_count < c0 + n {
            self.cycle_count = c0 + n;
        }
    }

    /// A bus read that takes one cycle.
    fn read<M: MemoryMap>(&mut self, bus: &mut M, addr: u16) -> (r: u8)
        requires
            old(bus).wf(),
        ensures
            final(bus).wf(),
            regs_kept(*old(self), *final(self)),
            final(self).nmi_edge == old(self).nmi_edge || !side_effect_free(addr),
            final(self).irq_level == old(self).irq_level || !side_effect_free(addr),
            side_effect_free(addr) ==> r == old(bus).peek(addr) && *final(bus) == *old(bus),
    {
        let v = bus.read_cpu(addr, self);
        self.tick();
        v
    }

    /// A bus write that takes one cycle.
    fn write<M: MemoryMap>(&mut self, bus: &mut M, addr: u16, val: u8)
        requires
            old(bus).wf(),
        ensures
            final(bus).wf(),
            regs_kept(*old(self), *final(self)),
            addr < 0x2000 ==> final(self).nmi_edge == old(self).nmi_edge && final(self).irq_level
                == old(self).irq_level && forall|a: u16|
                side_effect_free(a) ==> #[trigger] final(bus).peek(a) == (if a < 0x2000 && a
                    % 0x800 == addr % 0x800 {
                    val
                } else {
                    old(bus).peek(a)
                }),
    {
        bus.write_cpu(addr, val, self);
        self.tick();
    }

    /// Reads the byte at `pc` and steps `pc`.
    fn fetch<M: MemoryMap>(&mut self, bus: &mut M) -> (r: u8)
        requires
            old(bus).wf(),
        ensures
            final(bus).wf(),
            final(self).pc == (old(self).pc + 1) % 0x10000,
            regs_kept(*old(self), Cpu { pc: old(self).pc, ..*final(self) }),
            side_effect_free(old(self).pc) ==> r == old(bus).peek(old(self).pc) && *final(bus)
                == *old(bus) && final(self).nmi_edge == old(self).nmi_edge && final(self).irq_level
                == old(self).irq_level,
    {
        let v = self.read(bus, self.pc);
        self.pc = self.pc.wrapping_add(1);
        v
    }

    /// Pushes a byte at 0x100 + sp; sp wraps within page 1.
    fn push<M: MemoryMap>(&mut self, bus: &mut M, val: u8)
        requires
            old(bus).wf(),
        ensures
            final(bus).wf(),
            final(self).sp == (old(self).sp + 255) % 256,
            regs_kept(*old(self), Cpu { sp: old(self).sp, ..*final(self) }),
            final(self).nmi_edge == old(self).nmi_edge,
            final(self).irq_level == old(self).irq_level,
            forall|a: u16|
                side_effect_free(a) ==> #[trigger] final(bus).peek(a) == (if a < 0x2000 && a
                    % 0x800 == 0x100 + old(self).sp {
                    val
                } else {
                    old(bus).peek(a)
                }),
    {
        self.write(bus, 0x100 + self.sp as u16, val);
        self.sp = self.sp.wrapping_sub(1);
    }

    /// Pulls a byte: sp steps up within page 1, then 0x100 + sp is read.
    fn pull<M: MemoryMap>(&mut self, bus: &mut M) -> (r: u8)
        requires
            old(bus).wf(),
        ensures
            final(bus).wf(),
            final(self).sp == (old(self).sp + 1) % 256,
            regs_kept(*old(self), Cpu { sp: old(self).sp, ..*final(self) }),
    {
        self.sp = self.sp.wrapping_add(1);
        self.read(bus, 0x100 + self.sp as u16)
    }

    /// Interrupt sequence: pushes PC and P (B set only for BRK), sets I, and
    /// loads PC from `vector`.
    fn interrupt<M: MemoryMap>(&mut self, bus: &mut M, vector: u16, brk: bool)
        requires
            old(bus).wf(),
            vector == 0xfffa || vector == 0xfffe,
        ensures
            final(bus).wf(),
            final(self).sp == (old(self).sp + 253) % 256,
            final(self).p & FLAG_I != 0,
            final(self).p == with_flag(old(self).p, FLAG_I, true),
            final(self).a == old(self).a,
            final(self).x == old(self).x,
            final(self).y == old(self).y,
            final(self).cycle_count >= old(self).cycle_count,
            final(self).nmi_edge == old(self).nmi_edge,
            final(self).irq_level == old(self).irq_level,
            final(self).pc == old(bus).peek(vector) + old(bus).peek((vector + 1) as u16) * 256,
            final(bus).peek((0x100 + old(self).sp) as u16) == old(self).pc / 256,
            final(bus).peek((0x100 + (old(self).sp + 255) % 256) as u16) == old(self).pc % 256,
            final(bus).peek((0x100 + (old(self).sp + 254) % 256) as u16) == with_flag(
                with_flag(old(self).p, FLAG_B, brk),
                FLAG_U,
                true,
            ),
    {
        let ghost b0 = *bus;
        let ghost sp0 = self.sp;
        let pc = self.pc;
        self.push(bus, (pc / 256) as u8);
        self.push(bus, (pc % 256) as u8);
        let pushed = set_flag(set_flag(self.p, FLAG_B, brk), FLAG_U, true);
        self.push(bus, pushed);
        let p0 = self.p;
        let p = set_flag(p0, FLAG_I, true);
        self.p = p;
        assert(p & FLAG_I != 0) by (bit_vector)
            requires
                p == p0 | FLAG_I,
        ;
        let ghost b3 = *bus;
        let lo = self.read(bus, vector);
        let hi = self.read(bus, vector + 1);
        self.pc = word(lo, hi);
        proof {
            assert(side_effect_free(vector) && side_effect_free((vector + 1) as u16));
            let a0 = (0x100 + sp0) as u16;
            let a1 = (0x100 + (sp0 + 255) % 256) as u16;
            let a2 = (0x100 + (sp0 + 254) % 256) as u16;
            assert(side_effect_free(a0) && side_effect_free(a1) && side_effect_free(a2));
            assert(b3.peek(vector) == b0.peek(vector));
            assert(b3.peek((vector + 1) as u16) == b0.peek((vector + 1) as u16));
            assert(b3.peek(a0) == pc / 256);
            assert(b3.peek(a1) == pc % 256);
            assert(b3.peek(a2) == pushed);
        }
    }

    /// Resolves the effective address of a memory operand, reading operand
    /// bytes after the opcode; also says whether indexing crossed a page.
    fn resolve<M: MemoryMap>(&mut self, bus: &mut M, mode: Mode) -> (r: (u16, bool))
        requires
            old(bus).wf(),
        ensures
            final(bus).wf(),
            final(self).a == old(self).a,
            final(self).x == old(self).x,
            final(self).y == old(self).y,
            final(self).sp == old(self).sp,
            final(self).p == old(self).p,
            final(self).cycle_count >= old(self).cycle_count,
            mode == Mode::Imm ==> r.0 == old(self).pc && *final(self) == (Cpu {
                pc: ((old(self).pc + 1) % 0x10000) as u16,
                ..*old(self)
            }) && *final(bus) == *old(bus),
    {
        match mode {
            Mode::Imm => {
                let addr = self.pc;
                self.pc = self.pc.wrapping_add(1);
                (addr, false)
            },
            Mode::Zp => {
                let b = self.fetch(bus);
                (b as u16, false)
            },
            Mode::Zpx => {
                let b = self.fetch(bus);
                self.tick();
                (index_zp(b, self.x) as u16, false)
            },
            Mode::Zpy => {
                let b = self.fetch(bus);
                self.tick();
                (index_zp(b, self.y) as u16, false)
            },
            Mode::Abs => {
                let lo = self.fetch(bus);
                let hi = self.fetch(bus);
                (word(lo, hi), false)
            },
            Mode::Absx => {
                let lo = self.fetch(bus);
                let hi = self.fetch(bus);
                index_abs(word(lo, hi), self.x)
            },
            Mode::Absy => {
                let lo = self.fetch(bus);
                let hi = self.fetch(bus);
                index_abs(word(lo, hi), self.y)
            },
            Mode::Ind => {
                let lo = self.fetch(bus);
                let hi = self.fetch(bus);
                let ptr = word(lo, hi);
                let tlo = self.read(bus, ptr);
                let thi = self.read(bus, indirect_hi_addr(ptr));
                (word(tlo, thi), false)
            },
            Mode::Izx => {
                let b = self.fetch(bus);
                self.tick();
                let ptr = index_zp(b, self.x);
                let lo = self.read(bus, ptr as u16);
                let hi = self.read(bus, index_zp(ptr, 1) as u16);
                (word(lo, hi), false)
            },
            Mode::Izy => {
                let b = self.fetch(bus);
                let lo = self.read(bus, b as u16);
                let hi = self.read(bus, index_zp(b, 1) as u16);
                index_abs(word(lo, hi), self.y)
            },
            _ => (0, false),
        }
    }

    /// Loads the program counter from the reset vector at 0xFFFC.
    pub fn reset<M: MemoryMap>(&mut self, bus: &mut M)
        requires
            old(bus).wf(),
        ensures
            final(bus).wf(),
            *final(bus) == *old(bus),
            final(self).pc == old(bus).peek(0xfffc) + old(bus).peek(0xfffd) * 256,
            final(self).x == old(self).x,
            final(self).y == old(self).y,
            final(self).nmi_edge == old(self).nmi_edge,
            final(self).irq_level == old(self).irq_level,
            final(self).a == old(self).a,
            final(self).sp == old(self).sp,
            final(self).p == old(self).p,
    {
        let lo = self.read(bus, 0xfffc);
        let hi = self.read(bus, 0xfffd);
        self.pc = word(lo, hi);
    }

    /// Runs instructions until the PPU completes a frame, at most
    /// `max_instructions` of them; returns how many ran, or the first
    /// error. The frame mark is cleared first, so a count below the limit
    /// means a frame was completed (and the mark is left set).
    pub fn run_frame<M: MemoryMap>(&mut self, bus: &mut M, max_instructions: u32) -> (r: Result<u32, CpuError>)
        requires
            old(bus).wf(),
        ensures
            final(bus).wf(),
            r is Ok ==> r->Ok_0 <= max_instructions,
            max_instructions > 0 && r is Ok ==> r->Ok_0 >= 1,
            r is Ok && r->Ok_0 < max_instructions ==> final(bus).frame_done(),
            r is Err ==> !documented(r->Err_0->UnsupportedOpcode_0),
            final(self).cycle_count >= old(self).cycle_count,
    {
        bus.clear_frame_done();
        let mut n: u32 = 0;
        while n < max_instructions
            invariant
                bus.wf(),
                n <= max_instructions,
                self.cycle_count >= old(self).cycle_count,
            decreases max_instructions - n,
        {
            match self.step(bus) {
                Ok(()) => {},
                Err(e) => {
                    return Err(e);
                },
            }
            bus.sync_devices(self);
            n = n + 1;
            if bus.is_frame_done() {
                return Ok(n);
            }
        }
        Ok(n)
    }

    /// Services a pending interrupt: a latched NMI first (the edge is
    /// cleared), else an asserted IRQ while I is clear. Either pushes PC and
    /// P with B clear, sets I, loads PC from its vector (0xFFFA or 0xFFFE)
    /// and takes 7 cycles. Without one, nothing changes.
    pub fn service_interrupts<M: MemoryMap>(&mut self, bus: &mut M) -> (serviced: bool)
        requires
            old(bus).wf(),
        ensures
            final(bus).wf(),
            serviced == (old(self).nmi_edge || (old(self).irq_level > 0 && old(self).p & FLAG_I
                == 0)),
            serviced ==> {
                &&& final(self).sp == (old(self).sp + 253) % 256
                &&& final(self).p & FLAG_I != 0
                &&& final(self).a == old(self).a
                &&& final(self).x == old(self).x
                &&& final(self).y == old(self).y
                &&& old(self).cycle_count <= u64::MAX - 7 ==> final(self).cycle_count
                    >= old(self).cycle_count + 7
            },
            !serviced ==> *final(self) == *old(self) && *final(bus) == *old(bus),
            final(self).cycle_count >= old(self).cycle_count,
            serviced ==> {
                let vector: u16 = if old(self).nmi_edge {
                    0xfffa
                } else {
                    0xfffe
                };
                &&& !final(self).nmi_edge
                &&& final(self).irq_level == old(self).irq_level
                &&& final(self).p == with_flag(old(self).p, FLAG_I, true)
                &&& final(self).pc == old(bus).peek(vector) + old(bus).peek((vector + 1) as u16)
                    * 256
                &&& final(bus).peek((0x100 + old(self).sp) as u16) == old(self).pc / 256
                &&& final(bus).peek((0x100 + (old(self).sp + 255) % 256) as u16) == old(self).pc
                    % 256
                &&& final(bus).peek((0x100 + (old(self).sp + 254) % 256) as u16) == with_flag(
                    with_flag(old(self).p, FLAG_B, false),
                    FLAG_U,
                    true,
                )
            },
    {
        if self.nmi_edge {
            self.nmi_edge = false;
            let c0 = self.cycle_count;
            self.interrupt(bus, 0xfffa, false);
            self.sync(c0, 7);
            true
        } else if self.irq_level > 0 && self.p & FLAG_I == 0 {
            let c0 = self.cycle_count;
            self.interrupt(bus, 0xfffe, false);
            self.sync(c0, 7);
            true
        } else {
            false
        }
    }

    /// Executes one instruction, after servicing a pending NMI, or an IRQ
    /// when I is clear. The clock advances by the instruction's cycles,
    /// with the page-cross and branch penalties. An undocumented opcode is
    /// an error, with `pc` past it.
    pub fn step<M: MemoryMap>(&mut self, bus: &mut M) -> (r: Result<(), CpuError>)
        requires
            old(bus).wf(),
        ensures
            final(bus).wf(),
            final(self).cycle_count >= old(self).cycle_count,
            old(self).cycle_count <= u64::MAX - 16 ==> final(self).cycle_count >= old(
                self,
            ).cycle_count + 2,
            r is Err ==> !documented(r->Err_0->UnsupportedOpcode_0),
            ({
                let pending = old(self).nmi_edge || (old(self).irq_level > 0 && old(self).p
                    & FLAG_I == 0);
                let pc = old(self).pc;
                let op = old(bus).peek(pc);
                let pc1 = ((pc + 1) % 0x10000) as u16;
                let after_opcode = Cpu { pc: pc1, ..*old(self) };
                !pending && side_effect_free(pc) ==> match decode_spec(op) {
                    None => r == Err::<(), CpuError>(CpuError::UnsupportedOpcode(op))
                        && same_registers(*final(self), after_opcode),
                    Some(d) => {
                        &&& r is Ok
                        &&& is_register_op(d.0) ==> same_registers(
                            *final(self),
                            implied_spec(d.0, after_opcode),
                        )
                        &&& is_read_op(d.0) && d.1 == Mode::Imm && side_effect_free(pc1)
                            ==> same_registers(
                            *final(self),
                            read_op_spec(
                                d.0,
                                Cpu { pc: ((pc1 + 1) % 0x10000) as u16, ..*old(self) },
                                old(bus).peek(pc1),
                            ),
                        )
                        &&& is_branch(d.0) && side_effect_free(pc1) ==> {
                            let next = ((pc1 + 1) % 0x10000) as u16;
                            &&& final(self).pc == (if branch_taken_spec(d.0, old(self).p) {
                                branch_target_spec(next, old(bus).peek(pc1))
                            } else {
                                next
                            })
                            &&& final(self).a == old(self).a
                            &&& final(self).x == old(self).x
                            &&& final(self).y == old(self).y
                            &&& final(self).sp == old(self).sp
                            &&& final(self).p == old(self).p
                        }
                    },
                }
            }),
            (old(self).nmi_edge || (old(self).irq_level > 0 && old(self).p & FLAG_I == 0))
                && old(self).cycle_count <= u64::MAX - 32 ==> final(self).cycle_count >= old(
                self,
            ).cycle_count + 9,
    {
        self.service_interrupts(bus);
        let c0 = self.cycle_count;
        let opcode = self.fetch(bus);
        match decode(opcode) {
            None => {
                self.sync(c0, 2);
                Err(CpuError::UnsupportedOpcode(opcode))
            },
            Some((op, mode, cycles)) => {
                let extra = self.execute(bus, op, mode);
                self.sync(c0, cycles as u64 + extra as u64);
                Ok(())
            },
        }
    }

    /// Carries out a decoded instruction whose opcode has been fetched;
    /// returns the penalty cycles (page crossing, taken branch).
    fn execute<M: MemoryMap>(&mut self, bus: &mut M, op: Op, mode: Mode) -> (extra: u8)
        requires
            old(bus).wf(),
        ensures
            final(bus).wf(),
            final(self).cycle_count >= old(self).cycle_count,
            extra <= 2,
            is_register_op(op) ==> same_registers(*final(self), implied_spec(op, *old(self)))
                && *final(bus) == *old(bus),
            is_read_op(op) && mode == Mode::Imm && side_effect_free(old(self).pc) ==> same_registers(
                *final(self),
                read_op_spec(
                    op,
                    Cpu { pc: ((old(self).pc + 1) % 0x10000) as u16, ..*old(self) },
                    old(bus).peek(old(self).pc),
                ),
            ),
            is_branch(op) && side_effect_free(old(self).pc) ==> {
                let next = ((old(self).pc + 1) % 0x10000) as u16;
                &&& final(self).pc == (if branch_taken_spec(op, old(self).p) {
                    branch_target_spec(next, old(bus).peek(old(self).pc))
                } else {
                    next
                })
                &&& final(self).a == old(self).a
                &&& final(self).x == old(self).x
                &&& final(self).y == old(self).y
                &&& final(self).sp == old(self).sp
                &&& final(self).p == old(self).p
            },
    {
        match op {
            Op::Lda | Op::Ldx | Op::Ldy | Op::Adc | Op::Sbc | Op::And | Op::Ora | Op::Eor
            | Op::Cmp | Op::Cpx | Op::Cpy | Op::Bit => {
                let (addr, crossed) = self.resolve(bus, mode);
                let penalty: u8 = if crossed && (mode == Mode::Absx || mode == Mode::Absy || mode
                    == Mode::Izy) {
                    1
                } else {
                    0
                };
                if penalty == 1 {
                    self.tick();
                }
                let m = self.read(bus, addr);
                self.apply_read_op(op, m);
                penalty
            },
            Op::Sta | Op::Stx | Op::Sty => {
                let (addr, _) = self.resolve(bus, mode);
                if mode == Mode::Absx || mode == Mode::Absy || mode == Mode::Izy {
                    self.tick();
                }
                let v = match op {
                    Op::Sta => self.a,
                    Op::Stx => self.x,
                    _ => self.y,
                };
                self.write(bus, addr, v);
                0
            },
            Op::Asl | Op::Lsr | Op::Rol | Op::Ror | Op::Inc | Op::Dec => {
                if mode == Mode::Acc {
                    let kind = match op {
                        Op::Asl => ShiftKind::Asl,
                        Op::Lsr => ShiftKind::Lsr,
                        Op::Rol => ShiftKind::Rol,
                        _ => ShiftKind::Ror,
                    };
                    let (r, p) = shift(kind, self.a, self.p);
                    self.a = r;
                    self.p = p;
                } else {
                    let (addr, _) = self.resolve(bus, mode);
                    if mode == Mode::Absx {
                        self.tick();
                    }
                    let m = self.read(bus, addr);
                    self.write(bus, addr, m);
                    let (r, p) = match op {
                        Op::Inc => {
                            let r = m.wrapping_add(1);
                            (r, set_nz(self.p, r))
                        },
                        Op::Dec => {
                            let r = m.wrapping_sub(1);
                            (r, set_nz(self.p, r))
                        },
                        Op::Asl => shift(ShiftKind::Asl, m, self.p),
                        Op::Lsr => shift(ShiftKind::Lsr, m, self.p),
                        Op::Rol => shift(ShiftKind::Rol, m, self.p),
                        _ => shift(ShiftKind::Ror, m, self.p),
                    };
                    self.p = p;
                    self.write(bus, addr, r);
                }
                0
            },
            Op::Bpl | Op::Bmi | Op::Bvc | Op::Bvs | Op::Bcc | Op::Bcs | Op::Bne | Op::Beq => {
                let offset = self.fetch(bus);
                if branch_taken(op, self.p) {
                    let (target, crossed) = branch_target(self.pc, offset);
                    self.pc = target;
                    if crossed {
                        2
                    } else {
                        1
                    }
                } else {
                    0
                }
            },
            Op::Jmp => {
                let (addr, _) = self.resolve(bus, mode);
                self.pc = addr;
                0
            },
            Op::Jsr => {
                let lo = self.fetch(bus);
                self.tick();
                let ret = self.pc;
                self.push(bus, (ret / 256) as u8);
                self.push(bus, (ret % 256) as u8);
                let hi = self.read(bus, self.pc);
                self.pc = word(lo, hi);
                0
            },
            Op::Rts => {
                self.tick();
                self.tick();
                let lo = self.pull(bus);
                let hi = self.pull(bus);
                self.pc = word(lo, hi).wrapping_add(1);
                0
            },
            Op::Rti => {
                self.tick();
                let p = self.pull(bus);
                self.p = set_flag(set_flag(p, FLAG_B, false), FLAG_U, true);
                let lo = self.pull(bus);
                let hi = self.pull(bus);
                self.pc = word(lo, hi);
                0
            },
            Op::Brk => {
                self.pc = self.pc.wrapping_add(1);
                self.interrupt(bus, 0xfffe, true);
                0
            },
            Op::Pha => {
                self.tick();
                let a = self.a;
                self.push(bus, a);
                0
            },
            Op::Php => {
                self.tick();
                let p = set_flag(set_flag(self.p, FLAG_B, true), FLAG_U, true);
                self.push(bus, p);
                0
            },
            Op::Pla => {
                self.tick();
                let v = self.pull(bus);
                self.a = v;
                self.p = set_nz(self.p, v);
                0
            },
            Op::Plp => {
                self.tick();
                let v = self.pull(bus);
                self.p = set_flag(set_flag(v, FLAG_B, false), FLAG_U, true);
                0
            },
            _ => {
                self.apply_implied(op);
                0
            },
        }
    }

    /// The register and flag effect of an operation that reads operand `m`.
    pub fn apply_read_op(&mut self, op: Op, m: u8)
        ensures
            *final(self) == read_op_spec(op, *old(self), m),
    {
        match op {
            Op::Lda => {
                self.a = m;
                self.p = set_nz(self.p, m);
            },
            Op::Ldx => {
                self.x = m;
                self.p = set_nz(self.p, m);
            },
            Op::Ldy => {
                self.y = m;
                self.p = set_nz(self.p, m);
            },
            Op::Adc => {
                let (r, p) = adc(self.a, m, self.p);
                self.a = r;
                self.p = p;
            },
            Op::Sbc => {
                let (r, p) = sbc(self.a, m, self.p);
                self.a = r;
                self.p = p;
            },
            Op::And => {
                self.a = self.a & m;
                self.p = set_nz(self.p, self.a);
            },
            Op::Ora => {
                self.a = self.a | m;
                self.p = set_nz(self.p, self.a);
            },
            Op::Eor => {
                self.a = self.a ^ m;
                self.p = set_nz(self.p, self.a);
            },
            Op::Cmp => {
                self.p = compare(self.a, m, self.p);
            },
            Op::Cpx => {
                self.p = compare(self.x, m, self.p);
            },
            Op::Cpy => {
                self.p = compare(self.y, m, self.p);
            },
            Op::Bit => {
                self.p = bit_test(self.a, m, self.p);
            },
            _ => {},
        }
    }

    /// Flag, transfer, increment and no-op instructions.
    pub fn apply_implied(&mut self, op: Op)
        ensures
            *final(self) == implied_spec(op, *old(self)),
    {
        match op {
            Op::Clc => self.p = set_flag(self.p, FLAG_C, false),
            Op::Sec => self.p = set_flag(self.p, FLAG_C, true),
            Op::Cli => self.p = set_flag(self.p, FLAG_I, false),
            Op::Sei => self.p = set_flag(self.p, FLAG_I, true),
            Op::Cld => self.p = set_flag(self.p, FLAG_D, false),
            Op::Sed => self.p = set_flag(self.p, FLAG_D, true),
            Op::Clv => self.p = set_flag(self.p, FLAG_V, false),
            Op::Inx => {
                self.x = self.x.wrapping_add(1);
                self.p = set_nz(self.p, self.x);
            },
            Op::Iny => {
                self.y = self.y.wrapping_add(1);
                self.p = set_nz(self.p, self.y);
            },
            Op::Dex => {
                self.x = self.x.wrapping_sub(1);
                self.p = set_nz(self.p, self.x);
            },
            Op::Dey => {
                self.y = self.y.wrapping_sub(1);
                self.p = set_nz(self.p, self.y);
            },
            Op::Tax => {
                self.x = self.a;
                self.p = set_nz(self.p, self.x);
            },
            Op::Tay => {
                self.y = self.a;
                self.p = set_nz(self.p, self.y);
            },
            Op::Txa => {
                self.a = self.x;
                self.p = set_nz(self.p, self.a);
            },
            Op::Tya => {
                self.a = self.y;
                self.p = set_nz(self.p, self.a);
            },
            Op::Tsx => {
                self.x = self.sp;
                self.p = set_nz(self.p, self.x);
            },
            Op::Txs => self.sp = self.x,
            _ => {},
        }
    }
}

} // verus!
