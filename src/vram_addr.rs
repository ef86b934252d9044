use vstd::prelude::*;

verus! {

/// Coarse x: the tile column, bits 0-4 of a packed VRAM address.
pub open spec fn coarse_x_of(v: u16) -> u16 {
    v & 0x1f
}

/// Coarse y: the tile row, bits 5-9.
pub open spec fn coarse_y_of(v: u16) -> u16 {
    (v >> 5u16) & 0x1f
}

/// Nametable select, bits 10-11.
pub open spec fn nt_select_of(v: u16) -> u16 {
    (v >> 10u16) & 0x3
}

/// Fine y: the pixel row within a tile, bits 12-14.
pub open spec fn fine_y_of(v: u16) -> u16 {
    (v >> 12u16) & 0x7
}

/// The packed layout fine_y(3) | nt_select(2) | coarse_y(5) | coarse_x(5).
pub open spec fn pack(fine_y: u16, nt: u16, coarse_y: u16, coarse_x: u16) -> u16 {
    (fine_y << 12u16) | (nt << 10u16) | (coarse_y << 5u16) | coarse_x
}

pub proof fn lemma_unpack(v: u16)
    by (bit_vector)
    requires
        v < 0x8000,
    ensures
        coarse_x_of(v) < 32,
        coarse_y_of(v) < 32,
        nt_select_of(v) < 4,
        fine_y_of(v) < 8,
        v == pack(fine_y_of(v), nt_select_of(v), coarse_y_of(v), coarse_x_of(v)),
{
}

pub proof fn lemma_pack(fine_y: u16, nt: u16, coarse_y: u16, coarse_x: u16)
    by (bit_vector)
    requires
        fine_y < 8,
        nt < 4,
        coarse_y < 32,
        coarse_x < 32,
    ensures
        pack(fine_y, nt, coarse_y, coarse_x) < 0x8000,
        coarse_x_of(pack(fine_y, nt, coarse_y, coarse_x)) == coarse_x,
        coarse_y_of(pack(fine_y, nt, coarse_y, coarse_x)) == coarse_y,
        nt_select_of(pack(fine_y, nt, coarse_y, coarse_x)) == nt,
        fine_y_of(pack(fine_y, nt, coarse_y, coarse_x)) == fine_y,
{
}

proof fn lemma_toggle_bit(x: u16, b: u16)
    by (bit_vector)
    requires
        x < 4,
        b == 1 || b == 2,
    ensures
        (x ^ b) < 4,
        (x ^ b) & b != x & b,
        (x ^ b) & (3u16 - b) as u16 == x & (3u16 - b) as u16,
{
}

/// Builds a packed VRAM address from its four fields.
pub fn pack_fields(fine_y: u8, nt: u8, coarse_y: u8, coarse_x: u8) -> (r: u16)
    requires
        fine_y < 8,
        nt < 4,
        coarse_y < 32,
        coarse_x < 32,
    ensures
        r == pack(fine_y as u16, nt as u16, coarse_y as u16, coarse_x as u16),
        r < 0x8000,
        coarse_x_of(r) == coarse_x as u16,
        coarse_y_of(r) == coarse_y as u16,
        nt_select_of(r) == nt as u16,
        fine_y_of(r) == fine_y as u16,
{
    proof {
        lemma_pack(fine_y as u16, nt as u16, coarse_y as u16, coarse_x as u16);
    }
    ((fine_y as u16) << 12u16) | ((nt as u16) << 10u16) | ((coarse_y as u16) << 5u16) | (
    coarse_x as u16)
}

/// `v` one tile to the right (what `increment_coarse_x` does).
pub open spec fn coarse_x_stepped(v: VramAddrRegister) -> VramAddrRegister {
    VramAddrRegister {
        inner: pack(
            v.fine_y(),
            if v.coarse_x() == 31 {
                v.nt_select() ^ 1
            } else {
                v.nt_select()
            },
            v.coarse_y(),
            ((v.coarse_x() + 1) % 32) as u16,
        ),
    }
}

/// `v` one pixel row down (what `increment_y` does).
pub open spec fn y_stepped(v: VramAddrRegister) -> VramAddrRegister {
    VramAddrRegister {
        inner: pack(
            ((v.fine_y() + 1) % 8) as u16,
            if v.fine_y() == 7 && v.coarse_y() == 29 {
                v.nt_select() ^ 2
            } else {
                v.nt_select()
            },
            if v.fine_y() < 7 {
                v.coarse_y()
            } else if v.coarse_y() >= 29 {
                0
            } else {
                (v.coarse_y() + 1) as u16
            },
            v.coarse_x(),
        ),
    }
}

/// `v` with the horizontal bits (coarse x, nametable bit 0) of `t`.
pub open spec fn horizontal_copied(v: VramAddrRegister, t: VramAddrRegister) -> VramAddrRegister {
    VramAddrRegister {
        inner: pack(v.fine_y(), (v.nt_select() & 2) | (t.nt_select() & 1), v.coarse_y(), t.coarse_x()),
    }
}

/// `v` with the vertical bits (fine y, coarse y, nametable bit 1) of `t`.
pub open spec fn vertical_copied(v: VramAddrRegister, t: VramAddrRegister) -> VramAddrRegister {
    VramAddrRegister {
        inner: pack(t.fine_y(), (t.nt_select() & 2) | (v.nt_select() & 1), t.coarse_y(), v.coarse_x()),
    }
}

/// The step of `v` after a PPUDATA access while rendering: a coarse x and
/// a y increment.
pub open spec fn rendering_stepped(v: VramAddrRegister) -> VramAddrRegister {
    y_stepped(coarse_x_stepped(v))
}

/// The PPU's 15-bit VRAM address register (`v` or `t`).
#[derive(Clone, Copy, Debug, PartialEq, Eq, Structural)]
pub struct VramAddrRegister {
    pub inner: u16,
}

impl VramAddrRegister {
    /// Bit 15 is never set.
    pub open spec fn wf(self) -> bool {
        self.inner < 0x8000
    }

    pub open spec fn coarse_x(self) -> u16 {
        coarse_x_of(self.inner)
    }

    pub open spec fn coarse_y(self) -> u16 {
        coarse_y_of(self.inner)
    }

    pub open spec fn nt_select(self) -> u16 {
        nt_select_of(self.inner)
    }

    pub open spec fn fine_y(self) -> u16 {
        fine_y_of(self.inner)
    }

    pub fn new(inner: u16) -> (r: Self)
        requires
            inner < 0x8000,
        ensures
            r.inner == inner,
            r.wf(),
    {
        VramAddrRegister { inner }
    }

    /// The 14-bit address that the PPU bus sees.
    pub fn get_addr(self) -> (r: u16)
        ensures
            r == self.inner & 0x3fff,
            r < 0x4000,
    {
        let v = self.inner;
        let r = v & 0x3fff;
        assert(r < 0x4000) by (bit_vector)
            requires
                r == v & 0x3fff,
        ;
        r
    }

    pub fn get_coarse_x(self) -> (r: u8)
        requires
            self.wf(),
        ensures
            r as u16 == self.coarse_x(),
            r < 32,
    {
        proof {
            lemma_unpack(self.inner);
        }
        (self.inner & 0x1f) as u8
    }

    pub fn get_coarse_y(self) -> (r: u8)
        requires
            self.wf(),
        ensures
            r as u16 == self.coarse_y(),
            r < 32,
    {
        proof {
            lemma_unpack(self.inner);
        }
        ((self.inner >> 5u16) & 0x1f) as u8
    }

    pub fn get_nametable_select(self) -> (r: u8)
        requires
            self.wf(),
        ensures
            r as u16 == self.nt_select(),
            r < 4,
    {
        proof {
            lemma_unpack(self.inner);
        }
        ((self.inner >> 10u16) & 0x3) as u8
    }

    pub fn get_fine_y(self) -> (r: u8)
        requires
            self.wf(),
        ensures
            r as u16 == self.fine_y(),
            r < 8,
    {
        proof {
            lemma_unpack(self.inner);
        }
        ((self.inner >> 12u16) & 0x7) as u8
    }

    pub fn set_coarse_x(&mut self, coarse_x: u8)
        requires
            old(self).wf(),
            coarse_x < 32,
        ensures
            final(self).wf(),
            final(self).inner == pack(old(self).fine_y(), old(self).nt_select(), old(self).coarse_y(), coarse_x as u16),
            final(self).coarse_x() == coarse_x as u16,
            final(self).coarse_y() == old(self).coarse_y(),
            final(self).nt_select() == old(self).nt_select(),
            final(self).fine_y() == old(self).fine_y(),
    {
        let fy = self.get_fine_y();
        let nt = self.get_nametable_select();
        let cy = self.get_coarse_y();
        self.inner = pack_fields(fy, nt, cy, coarse_x);
    }

    pub fn set_coarse_y(&mut self, coarse_y: u8)
        requires
            old(self).wf(),
            coarse_y < 32,
        ensures
            final(self).wf(),
            final(self).inner == pack(old(self).fine_y(), old(self).nt_select(), coarse_y as u16, old(self).coarse_x()),
            final(self).coarse_x() == old(self).coarse_x(),
            final(self).coarse_y() == coarse_y as u16,
            final(self).nt_select() == old(self).nt_select(),
            final(self).fine_y() == old(self).fine_y(),
    {
        let fy = self.get_fine_y();
        let nt = self.get_nametable_select();
        let cx = self.get_coarse_x();
        self.inner = pack_fields(fy, nt, coarse_y, cx);
    }

    pub fn set_nametable_select(&mut self, select: u8)
        requires
            old(self).wf(),
            select < 4,
        ensures
            final(self).wf(),
            final(self).inner == pack(old(self).fine_y(), select as u16, old(self).coarse_y(), old(self).coarse_x()),
            final(self).coarse_x() == old(self).coarse_x(),
            final(self).coarse_y() == old(self).coarse_y(),
            final(self).nt_select() == select as u16,
            final(self).fine_y() == old(self).fine_y(),
    {
        let fy = self.get_fine_y();
        let cy = self.get_coarse_y();
        let cx = self.get_coarse_x();
        self.inner = pack_fields(fy, select, cy, cx);
    }

    pub fn set_fine_y(&mut self, fine_y: u8)
        requires
            old(self).wf(),
            fine_y < 8,
        ensures
            final(self).wf(),
            final(self).inner == pack(fine_y as u16, old(self).nt_select(), old(self).coarse_y(), old(self).coarse_x()),
            final(self).coarse_x() == old(self).coarse_x(),
            final(self).coarse_y() == old(self).coarse_y(),
            final(self).nt_select() == old(self).nt_select(),
            final(self).fine_y() == fine_y as u16,
    {
        let nt = self.get_nametable_select();
        let cy = self.get_coarse_y();
        let cx = self.get_coarse_x();
        self.inner = pack_fields(fine_y, nt, cy, cx);
    }

    /// Moves one tile to the right: coarse x wraps mod 32 and, on wrapping,
    /// switches to the horizontally adjacent nametable.
    pub fn increment_coarse_x(&mut self)
        requires
            old(self).wf(),
        ensures
            *final(self) == coarse_x_stepped(*old(self)),
            final(self).wf(),
            final(self).coarse_x() == ((old(self).coarse_x() + 1) % 32) as u16,
            final(self).nt_select() == (if old(self).coarse_x() == 31 {
                old(self).nt_select() ^ 1
            } else {
                old(self).nt_select()
            }),
            final(self).coarse_y() == old(self).coarse_y(),
            final(self).fine_y() == old(self).fine_y(),
    {
        let cx = self.get_coarse_x();
        let nt = self.get_nametable_select();
        if cx == 31 {
            proof {
                lemma_toggle_bit(nt as u16, 1);
            }
            self.set_coarse_x(0);
            self.set_nametable_select(nt ^ 1);
        } else {
            self.set_coarse_x(cx + 1);
        }
        proof {
            lemma_unpack(self.inner);
        }
    }

    /// Moves one pixel row down: fine y wraps mod 8; on its overflow coarse y
    /// goes 29 -> 0 switching to the vertically adjacent nametable, and
    /// 30, 31 -> 0 without switching.
    pub fn increment_y(&mut self)
        requires
            old(self).wf(),
        ensures
            *final(self) == y_stepped(*old(self)),
            final(self).wf(),
            final(self).fine_y() == ((old(self).fine_y() + 1) % 8) as u16,
            final(self).coarse_x() == old(self).coarse_x(),
            final(self).coarse_y() == (if old(self).fine_y() < 7 {
                old(self).coarse_y()
            } else if old(self).coarse_y() >= 29 {
                0
            } else {
                (old(self).coarse_y() + 1) as u16
            }),
            final(self).nt_select() == (if old(self).fine_y() == 7 && old(self).coarse_y()
                == 29 {
                old(self).nt_select() ^ 2
            } else {
                old(self).nt_select()
            }),
    {
        let fy = self.get_fine_y();
        if fy == 7 {
            self.set_fine_y(0);
            let cy = self.get_coarse_y();
            if cy == 29 {
                let nt = self.get_nametable_select();
                proof {
                    lemma_toggle_bit(nt as u16, 2);
                }
                self.set_coarse_y(0);
                self.set_nametable_select(nt ^ 2);
            } else if cy == 31 || cy == 30 {
                self.set_coarse_y(0);
            } else {
                self.set_coarse_y(cy + 1);
            }
        } else {
            self.set_fine_y(fy + 1);
        }
        proof {
            lemma_unpack(self.inner);
        }
    }

    /// Copies the horizontal bits (coarse x and nametable bit 0) of `t`.
    pub fn transfer_horizontal_bits(&mut self, t: VramAddrRegister)
        requires
            old(self).wf(),
            t.wf(),
        ensures
            *final(self) == horizontal_copied(*old(self), t),
            final(self).wf(),
            final(self).coarse_x() == t.coarse_x(),
            final(self).nt_select() & 1 == t.nt_select() & 1,
            final(self).nt_select() & 2 == old(self).nt_select() & 2,
            final(self).coarse_y() == old(self).coarse_y(),
            final(self).fine_y() == old(self).fine_y(),
    {
        let nt = (self.get_nametable_select() & 2) | (t.get_nametable_select() & 1);
        let cx = t.get_coarse_x();
        proof {
            let a = old(self).nt_select();
            let b = t.nt_select();
            assert(((a & 2) | (b & 1)) < 4 && ((a & 2) | (b & 1)) & 1 == b & 1 && ((a & 2) | (b
                & 1)) & 2 == a & 2) by (bit_vector)
                requires
                    a < 4,
                    b < 4,
            ;
        }
        self.set_nametable_select(nt);
        self.set_coarse_x(cx);
        proof {
            lemma_unpack(self.inner);
        }
    }

    /// Copies the vertical bits (fine y, coarse y and nametable bit 1) of `t`.
    pub fn transfer_vertical_bits(&mut self, t: VramAddrRegister)
        requires
            old(self).wf(),
            t.wf(),
        ensures
            *final(self) == vertical_copied(*old(self), t),
            final(self).wf(),
            final(self).coarse_x() == old(self).coarse_x(),
            final(self).nt_select() & 1 == old(self).nt_select() & 1,
            final(self).nt_select() & 2 == t.nt_select() & 2,
            final(self).coarse_y() == t.coarse_y(),
            final(self).fine_y() == t.fine_y(),
    {
        let nt = (t.get_nametable_select() & 2) | (self.get_nametable_select() & 1);
        proof {
            let a = t.nt_select();
            let b = old(self).nt_select();
            assert(((a & 2) | (b & 1)) < 4 && ((a & 2) | (b & 1)) & 1 == b & 1 && ((a & 2) | (b
                & 1)) & 2 == a & 2) by (bit_vector)
                requires
                    a < 4,
                    b < 4,
            ;
        }
        self.set_nametable_select(nt);
        self.set_coarse_y(t.get_coarse_y());
        self.set_fine_y(t.get_fine_y());
        proof {
            lemma_unpack(self.inner);
        }
    }
}

/// `v` plus 1 or 32, within the 14-bit PPU address space.
pub open spec fn incremented(v: VramAddrRegister, increment_32: bool) -> VramAddrRegister {
    VramAddrRegister {
        inner: ((v.inner as int + if increment_32 {
            32int
        } else {
            1
        }) % 0x4000) as u16,
    }
}

pub fn increment_by(v: VramAddrRegister, increment_32: bool) -> (r: VramAddrRegister)
    ensures
        r == incremented(v, increment_32),
        r.wf(),
{
    let inc: u16 = if increment_32 { 32 } else { 1 };
    VramAddrRegister { inner: ((v.inner as u32 + inc as u32) % 0x4000) as u16 }
}

/// The scroll state shared by PPUCTRL, PPUSCROLL and PPUADDR: the current
/// address `v`, the temporary address `t`, fine x and the write toggle `w`.
#[derive(Clone, Copy, Debug, PartialEq, Eq, Structural)]
pub struct ScrollRegs {
    pub v: VramAddrRegister,
    pub t: VramAddrRegister,
    pub fine_x: u8,
    pub w: bool,
}

impl ScrollRegs {
    pub open spec fn wf(self) -> bool {
        self.v.wf() && self.t.wf() && self.fine_x < 8
    }

    pub fn new() -> (r: Self)
        ensures
            r.wf(),
            r.v.inner == 0,
            r.t.inner == 0,
            r.fine_x == 0,
            !r.w,
    {
        ScrollRegs { v: VramAddrRegister { inner: 0 }, t: VramAddrRegister { inner: 0 }, fine_x: 0, w: false }
    }

    /// PPUCTRL: its low 2 bits become the nametable select of `t`.
    pub fn write_ctrl(&mut self, val: u8)
        requires
            old(self).wf(),
        ensures
            *final(self) == ctrl_write(*old(self), val),
            final(self).wf(),
    {
        self.t.set_nametable_select(val % 4);
    }

    /// PPUSCROLL: the first write sets fine x and coarse x, the second fine y
    /// and coarse y; each toggles `w`.
    pub fn write_scroll(&mut self, val: u8)
        requires
            old(self).wf(),
        ensures
            *final(self) == scroll_write(*old(self), val),
            final(self).wf(),
    {
        if !self.w {
            self.fine_x = val % 8;
            self.t.set_coarse_x(val / 8);
        } else {
            self.t.set_fine_y(val % 8);
            self.t.set_coarse_y(val / 8);
        }
        self.w = !self.w;
    }

    /// PPUADDR: the first write sets the high 6 bits of `t` and clears bit 14,
    /// the second its low byte and copies `t` to `v`; each toggles `w`.
    pub fn write_addr(&mut self, val: u8)
        requires
            old(self).wf(),
        ensures
            *final(self) == addr_write(*old(self), val),
            final(self).wf(),
    {
        if !self.w {
            self.t = VramAddrRegister { inner: (val as u16 % 64) * 256 + self.t.inner % 256 };
        } else {
            self.t = VramAddrRegister { inner: (self.t.inner / 256) * 256 + val as u16 };
            self.v = self.t;
        }
        self.w = !self.w;
    }
}

pub open spec fn ctrl_write(s: ScrollRegs, val: u8) -> ScrollRegs {
    ScrollRegs {
        t: VramAddrRegister { inner: pack(s.t.fine_y(), (val % 4) as u16, s.t.coarse_y(), s.t.coarse_x()) },
        ..s
    }
}

pub open spec fn scroll_write(s: ScrollRegs, val: u8) -> ScrollRegs {
    if !s.w {
        ScrollRegs {
            fine_x: val % 8,
            t: VramAddrRegister { inner: pack(s.t.fine_y(), s.t.nt_select(), s.t.coarse_y(), (val / 8) as u16) },
            w: true,
            ..s
        }
    } else {
        ScrollRegs {
            t: VramAddrRegister { inner: pack((val % 8) as u16, s.t.nt_select(), (val / 8) as u16, s.t.coarse_x()) },
            w: false,
            ..s
        }
    }
}

pub open spec fn addr_write(s: ScrollRegs, val: u8) -> ScrollRegs {
    if !s.w {
        ScrollRegs {
            t: VramAddrRegister { inner: ((val % 64) * 256 + s.t.inner % 256) as u16 },
            w: true,
            ..s
        }
    } else {
        let t = VramAddrRegister { inner: ((s.t.inner / 256) * 256 + val) as u16 };
        ScrollRegs { t, v: t, w: false, ..s }
    }
}

/// Two PPUSCROLL writes (x, then y) from a cleared toggle leave `t` packed
/// as fine_y = y % 8, coarse_y = y / 8, coarse_x = x / 8 with the nametable
/// select kept, and fine x = x % 8; two PPUADDR writes after them (hi, then
/// lo) leave `v == t == (hi & 0x3F) << 8 | lo`, and the toggle cleared.
pub proof fn lemma_scroll_then_addr(s: ScrollRegs, x: u8, y: u8, hi: u8, lo: u8)
    requires
        s.wf(),
        !s.w,
    ensures
        ({
            let s2 = scroll_write(scroll_write(s, x), y);
            &&& s2.t.inner == pack((y % 8) as u16, s.t.nt_select(), (y / 8) as u16, (x / 8) as u16)
            &&& s2.t.fine_y() == y % 8
            &&& s2.t.coarse_y() == y / 8
            &&& s2.t.coarse_x() == x / 8
            &&& s2.t.nt_select() == s.t.nt_select()
            &&& s2.fine_x == x % 8
            &&& !s2.w
            &&& s2.v == s.v
        }),
        ({
            let s4 = addr_write(addr_write(scroll_write(scroll_write(s, x), y), hi), lo);
            &&& s4.v.inner == (hi % 64) * 256 + lo
            &&& s4.t == s4.v
            &&& !s4.w
        }),
{
    lemma_unpack(s.t.inner);
    let s1 = scroll_write(s, x);
    lemma_pack(s.t.fine_y(), s.t.nt_select(), s.t.coarse_y(), (x / 8) as u16);
    let s2 = scroll_write(s1, y);
    lemma_pack((y % 8) as u16, s.t.nt_select(), (y / 8) as u16, (x / 8) as u16);
    let s3 = addr_write(s2, hi);
    assert(s3.t.inner % 256 == s2.t.inner % 256);
}

} // verus!
