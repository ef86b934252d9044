use vstd::prelude::*;
use crate::cartridge::Cartridge;
use crate::vram_addr::VramAddrRegister;

verus! {

/// A 16-bit background shift register: the high byte holds the tile being
/// drawn, the low byte the next one.
#[derive(Clone, Copy, Debug, PartialEq, Eq, Structural)]
pub struct TileBitPlanes {
    pub bits: u16,
}

/// Bit `i` (0 = least significant) of a 16-bit value.
pub open spec fn bit_of(v: u16, i: u16) -> u16 {
    (v >> i) & 1
}

pub proof fn lemma_bit_of_small(v: u16, i: u16)
    by (bit_vector)
    ensures
        ((v >> i) & 1) < 2,
{
}

impl TileBitPlanes {
    pub fn to_u16(self) -> (r: u16)
        ensures
            r == self.bits,
    {
        self.bits
    }

    /// Moves the next tile's byte into the high byte and clears the low one.
    pub fn shift_by_eight(&mut self)
        ensures
            final(self).bits == (old(self).bits % 256) * 256,
    {
        self.bits = (self.bits % 256) * 256;
    }

    /// Stores a pattern byte in the (cleared) low byte.
    pub fn load_low(&mut self, b: u8)
        ensures
            final(self).bits == (old(self).bits / 256) * 256 + b,
    {
        self.bits = (self.bits / 256) * 256 + b as u16;
    }

    /// The bit that a pixel `offset` (0-15) positions from the left uses.
    pub fn bit_at(self, offset: u16) -> (r: u8)
        requires
            offset < 16,
        ensures
            r as u16 == bit_of(self.bits, (15 - offset) as u16),
            r < 2,
    {
        proof {
            lemma_bit_of_small(self.bits, (15 - offset) as u16);
        }
        ((self.bits >> (15 - offset)) & 1) as u8
    }
}

/// The background pipeline: two pattern shift registers and the palette
/// indices of the two tiles they hold (current in bits 2-3, next in 0-1).
#[derive(Clone, Copy, Debug)]
pub struct BgDrawState {
    pub tile_bitplanes_hi: TileBitPlanes,
    pub tile_bitplanes_lo: TileBitPlanes,
    pub tile_palette_indices: u8,
}

/// Address of the attribute byte for the tile that `v` points at.
pub open spec fn attribute_addr(v: VramAddrRegister) -> int {
    0x23c0 + v.nt_select() * 0x400 + (v.coarse_y() / 4) * 8 + v.coarse_x() / 4
}

/// The 2-bit palette of a tile, picked from its attribute byte by the
/// tile's quadrant within the 32x32-pixel attribute block.
pub open spec fn palette_from_attribute(attr: u8, coarse_x: int, coarse_y: int) -> int {
    let shift = ((coarse_y / 2) % 2) * 4 + ((coarse_x / 2) % 2) * 2;
    if shift == 0 {
        attr as int % 4
    } else if shift == 2 {
        (attr as int / 4) % 4
    } else if shift == 4 {
        (attr as int / 16) % 4
    } else {
        (attr as int / 64) % 4
    }
}

/// The 2-bit colour and palette of the background pixel `offset` positions
/// (0-15) into the two tiles held.
pub open spec fn bg_pixel_of(s: BgDrawState, offset: u16) -> (int, int) {
    let color = bit_of(s.tile_bitplanes_lo.bits, (15 - offset) as u16) + 2 * bit_of(
        s.tile_bitplanes_hi.bits,
        (15 - offset) as u16,
    );
    let palette = if offset < 8 {
        (s.tile_palette_indices as int / 4) % 4
    } else {
        s.tile_palette_indices as int % 4
    };
    (color as int, palette)
}

impl BgDrawState {
    pub fn new() -> (r: Self)
        ensures
            r.tile_bitplanes_hi.bits == 0,
            r.tile_bitplanes_lo.bits == 0,
            r.tile_palette_indices == 0,
    {
        BgDrawState {
            tile_bitplanes_hi: TileBitPlanes { bits: 0 },
            tile_bitplanes_lo: TileBitPlanes { bits: 0 },
            tile_palette_indices: 0,
        }
    }

    /// Shifts both registers and the palette indices by one tile.
    pub fn shift_tile_data_by_8(&mut self)
        ensures
            final(self).tile_bitplanes_hi.bits == (old(self).tile_bitplanes_hi.bits % 256) * 256,
            final(self).tile_bitplanes_lo.bits == (old(self).tile_bitplanes_lo.bits % 256) * 256,
            final(self).tile_palette_indices == (old(self).tile_palette_indices % 4) * 4,
    {
        self.tile_bitplanes_hi.shift_by_eight();
        self.tile_bitplanes_lo.shift_by_eight();
        self.tile_palette_indices = (self.tile_palette_indices % 4) * 4;
    }

    /// Places a fetched tile in the low bytes and its palette in bits 0-1.
    pub fn store_tile(&mut self, lo: u8, hi: u8, palette: u8)
        requires
            palette < 4,
        ensures
            final(self).tile_bitplanes_lo.bits == (old(self).tile_bitplanes_lo.bits / 256) * 256
                + lo,
            final(self).tile_bitplanes_hi.bits == (old(self).tile_bitplanes_hi.bits / 256) * 256
                + hi,
            final(self).tile_palette_indices == (old(self).tile_palette_indices / 4) * 4
                + palette,
    {
        self.tile_bitplanes_lo.load_low(lo);
        self.tile_bitplanes_hi.load_low(hi);
        self.tile_palette_indices = (self.tile_palette_indices / 4) * 4 + palette;
    }

    /// The colour (0-3) and palette (0-3) of the background pixel at
    /// `offset` (fine x plus position within the tile).
    pub fn pixel(&self, offset: u16) -> (r: (u8, u8))
        requires
            offset < 16,
        ensures
            (r.0 as int, r.1 as int) == bg_pixel_of(*self, offset),
            r.0 < 4,
            r.1 < 4,
    {
        let lo = self.tile_bitplanes_lo.bit_at(offset);
        let hi = self.tile_bitplanes_hi.bit_at(offset);
        let palette = if offset < 8 {
            (self.tile_palette_indices / 4) % 4
        } else {
            self.tile_palette_indices % 4
        };
        (lo + 2 * hi, palette)
    }

    /// Fetches the tile that `v` points at: its index from the nametable, its
    /// palette from the attribute table, and the two pattern bytes of row
    /// fine y from the background pattern table; stores them as the next
    /// tile.
    pub fn fetch_current_tile_data(
        &mut self,
        cycle: u64,
        background_pattern_table_addr: u16,
        v: VramAddrRegister,
        cart: &mut Cartridge,
        irq_level: &mut i8,
    )
        requires
            old(cart).wf(),
            v.wf(),
            background_pattern_table_addr == 0 || background_pattern_table_addr == 0x1000,
        ensures
            final(cart).wf(),
            final(cart).same_memory(*old(cart)),
            old(cart).is_nrom() ==> *final(irq_level) == *old(irq_level),
            ({
                let tile = old(cart).ppu_peek((0x2000 + v.inner % 0x1000) as u16);
                let pt = background_pattern_table_addr + tile * 16 + v.fine_y();
                let attr = old(cart).ppu_peek(attribute_addr(v) as u16);
                &&& final(self).tile_bitplanes_lo.bits == (old(self).tile_bitplanes_lo.bits
                    / 256) * 256 + old(cart).ppu_peek(pt as u16)
                &&& final(self).tile_bitplanes_hi.bits == (old(self).tile_bitplanes_hi.bits
                    / 256) * 256 + old(cart).ppu_peek((pt + 8) as u16)
                &&& final(self).tile_palette_indices == (old(self).tile_palette_indices / 4) * 4
                    + palette_from_attribute(attr, v.coarse_x() as int, v.coarse_y() as int)
            }),
    {
        let ghost c0 = *cart;
        let nt_addr = 0x2000 + v.inner % 0x1000;
        let tile = cart.ppu_read(nt_addr, cycle, irq_level);
        let fine_y = v.get_fine_y() as u16;
        let cx = v.get_coarse_x() as u16;
        let cy = v.get_coarse_y() as u16;
        let nt = v.get_nametable_select() as u16;
        let pt = background_pattern_table_addr + tile as u16 * 16 + fine_y;
        let lo = cart.ppu_read(pt, cycle, irq_level);
        let hi = cart.ppu_read(pt + 8, cycle, irq_level);
        let attr_addr = 0x23c0 + nt * 0x400 + (cy / 4) * 8 + cx / 4;
        let attr = cart.ppu_read(attr_addr, cycle, irq_level);
        proof {
            lemma_same_memory_peek(c0, *cart, nt_addr);
            lemma_same_memory_peek(c0, *cart, pt);
            lemma_same_memory_peek(c0, *cart, (pt + 8) as u16);
            lemma_same_memory_peek(c0, *cart, attr_addr);
        }
        let shift = ((cy / 2) % 2) * 4 + ((cx / 2) % 2) * 2;
        let palette = if shift == 0 {
            attr % 4
        } else if shift == 2 {
            (attr / 4) % 4
        } else if shift == 4 {
            (attr / 16) % 4
        } else {
            (attr / 64) % 4
        };
        self.store_tile(lo, hi, palette);
    }
}

/// Two cartridges with the same memory and banking read alike on the PPU
/// bus.
pub proof fn lemma_same_memory_peek(a: Cartridge, b: Cartridge, addr: u16)
    requires
        a.same_memory(b),
    ensures
        a.ppu_peek(addr) == b.ppu_peek(addr),
{
}

} // verus!
