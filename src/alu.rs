use vstd::prelude::*;

verus! {

pub const FLAG_C: u8 = 0x01;

pub const FLAG_Z: u8 = 0x02;

pub const FLAG_I: u8 = 0x04;

pub const FLAG_D: u8 = 0x08;

pub const FLAG_B: u8 = 0x10;

pub const FLAG_U: u8 = 0x20;

pub const FLAG_V: u8 = 0x40;

pub const FLAG_N: u8 = 0x80;

/// `p` with the flag bits of `mask` set or cleared.
pub open spec fn with_flag(p: u8, mask: u8, on: bool) -> u8 {
    if on {
        p | mask
    } else {
        p & !mask
    }
}

pub fn set_flag(p: u8, mask: u8, on: bool) -> (r: u8)
    ensures
        r == with_flag(p, mask, on),
{
    if on {
        p | mask
    } else {
        p & !mask
    }
}

/// Whether flag `mask` is set in `p`.
pub open spec fn flag(p: u8, mask: u8) -> bool {
    p & mask != 0
}

/// `p` with Z and N describing `v`: Z when zero, N when bit 7 is set.
pub open spec fn with_nz(p: u8, v: u8) -> u8 {
    with_flag(with_flag(p, FLAG_Z, v == 0), FLAG_N, v >= 128)
}

pub fn set_nz(p: u8, v: u8) -> (r: u8)
    ensures
        r == with_nz(p, v),
{
    set_flag(set_flag(p, FLAG_Z, v == 0), FLAG_N, v >= 128)
}

/// Two's-complement overflow of `a + m`: operands of one sign, result of
/// the other.
pub open spec fn overflows(a: u8, m: u8, r: u8) -> bool {
    (a >= 128) == (m >= 128) && (r >= 128) != (a >= 128)
}

/// Binary add with carry (decimal mode is never used): result, and `p`
/// with C (carry out), V, Z and N.
pub open spec fn adc_spec(a: u8, m: u8, p: u8) -> (u8, u8) {
    let sum = a + m + (if flag(p, FLAG_C) {
        1int
    } else {
        0
    });
    let r = (sum % 256) as u8;
    (r, with_nz(with_flag(with_flag(p, FLAG_C, sum > 255), FLAG_V, overflows(a, m, r)), r))
}

pub fn adc(a: u8, m: u8, p: u8) -> (r: (u8, u8))
    ensures
        r == adc_spec(a, m, p),
{
    let carry: u16 = if p & FLAG_C != 0 {
        1
    } else {
        0
    };
    let sum: u16 = a as u16 + m as u16 + carry;
    let r = (sum % 256) as u8;
    let v = (a >= 128) == (m >= 128) && (r >= 128) != (a >= 128);
    let p1 = set_flag(set_flag(p, FLAG_C, sum > 255), FLAG_V, v);
    (r, set_nz(p1, r))
}

/// Subtract with borrow: `a + !m + C`, flags as for the add.
pub open spec fn sbc_spec(a: u8, m: u8, p: u8) -> (u8, u8) {
    adc_spec(a, (255 - m) as u8, p)
}

pub fn sbc(a: u8, m: u8, p: u8) -> (r: (u8, u8))
    ensures
        r == sbc_spec(a, m, p),
{
    adc(a, 255 - m, p)
}

/// Compare: C when `reg >= m`, Z and N from `reg - m`.
pub open spec fn compare_spec(reg: u8, m: u8, p: u8) -> u8 {
    with_nz(with_flag(p, FLAG_C, reg >= m), ((reg - m + 256) % 256) as u8)
}

pub fn compare(reg: u8, m: u8, p: u8) -> (r: u8)
    ensures
        r == compare_spec(reg, m, p),
{
    let diff = ((reg as u16 + 256 - m as u16) % 256) as u8;
    set_nz(set_flag(p, FLAG_C, reg >= m), diff)
}

/// BIT: Z from `a & m`, N and V copied from bits 7 and 6 of `m`.
pub open spec fn bit_spec(a: u8, m: u8, p: u8) -> u8 {
    with_flag(with_flag(with_flag(p, FLAG_Z, a & m == 0), FLAG_N, m & 0x80 != 0), FLAG_V, m & 0x40 != 0)
}

pub fn bit_test(a: u8, m: u8, p: u8) -> (r: u8)
    ensures
        r == bit_spec(a, m, p),
{
    set_flag(set_flag(set_flag(p, FLAG_Z, a & m == 0), FLAG_N, m & 0x80 != 0), FLAG_V, m & 0x40 != 0)
}

/// The shifts and rotates, as (result, p): ASL and ROL move bit 7 into C,
/// LSR and ROR move bit 0 into C; the rotates shift the old C in.
pub open spec fn shift_spec(kind: ShiftKind, v: u8, p: u8) -> (u8, u8) {
    let c_in: int = if flag(p, FLAG_C) {
        1
    } else {
        0
    };
    let (r, c_out) = match kind {
        ShiftKind::Asl => ((v * 2) % 256, v >= 128),
        ShiftKind::Rol => ((v * 2) % 256 + c_in, v >= 128),
        ShiftKind::Lsr => (v as int / 2, v % 2 == 1),
        ShiftKind::Ror => (v as int / 2 + c_in * 128, v % 2 == 1),
    };
    (r as u8, with_nz(with_flag(p, FLAG_C, c_out), r as u8))
}

#[derive(Clone, Copy, Debug, PartialEq, Eq, Structural)]
pub enum ShiftKind {
    Asl,
    Lsr,
    Rol,
    Ror,
}

pub fn shift(kind: ShiftKind, v: u8, p: u8) -> (r: (u8, u8))
    ensures
        r == shift_spec(kind, v, p),
{
    let c_in: u8 = if p & FLAG_C != 0 {
        1
    } else {
        0
    };
    let (r, c_out): (u8, bool) = match kind {
        ShiftKind::Asl => (((v as u16 * 2) % 256) as u8, v >= 128),
        ShiftKind::Rol => (((v as u16 * 2) % 256) as u8 + c_in, v >= 128),
        ShiftKind::Lsr => (v / 2, v % 2 == 1),
        ShiftKind::Ror => (v / 2 + c_in * 128, v % 2 == 1),
    };
    (r, set_nz(set_flag(p, FLAG_C, c_out), r))
}

/// Subtracting with SBC after SEC undoes adding with ADC after CLC: for
/// all `a`, `m`, `(a + m) - m == a`, carry set on the way back.
pub proof fn lemma_adc_sbc_round_trip(a: u8, m: u8, p: u8)
    requires
        !flag(p, FLAG_C),
    ensures
        ({
            let (s, p1) = adc_spec(a, m, p);
            sbc_spec(s, m, with_flag(p1, FLAG_C, true)).0 == a
        }),
{
    let (s, p1) = adc_spec(a, m, p);
    let q = with_flag(p1, FLAG_C, true);
    assert(flag(q, FLAG_C)) by (bit_vector)
        requires
            q == p1 | 1u8,
    ;
    assert(!flag(p, FLAG_C));
}

} // verus!
