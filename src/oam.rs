use vstd::prelude::*;
use crate::cartridge::Cartridge;
use crate::bg::lemma_same_memory_peek;

verus! {

/// One sprite as stored in OAM.
#[derive(Clone, Copy, Debug, PartialEq, Eq, Structural)]
pub struct OamEntry {
    pub y: u8,
    pub tile_index: u8,
    pub attributes: u8,
    pub x: u8,
}

/// The 64 sprites of primary OAM, as the 256 bytes that OAMDATA and OAMDMA
/// write.
pub struct PrimaryOam {
    pub bytes: Vec<u8>,
}

/// The sprites found for the next scanline (at most 8).
pub struct SecondaryOam {
    pub entries: Vec<OamEntry>,
}

/// A sprite's row, fetched for the scanline being drawn.
#[derive(Clone, Copy, Debug)]
pub struct SpriteRenderData {
    pub x: u8,
    pub tile_bitplane_lo: u8,
    pub tile_bitplane_hi: u8,
    pub attributes: u8,
    pub is_sprite_zero: bool,
}

/// What the sprite layer shows at one pixel.
#[derive(Clone, Copy, Debug, PartialEq, Eq, Structural)]
pub struct SpriteInfo {
    pub color_index: u8,
    pub palette_index: u8,
    pub is_in_front: bool,
    pub is_sprite_zero: bool,
}

pub struct Oam {
    pub primary: PrimaryOam,
    pub secondary: SecondaryOam,
    /// Whether the first entry of secondary OAM is sprite 0.
    pub sprite_zero_found: bool,
    /// The 8 sprite slots of the scanline being drawn.
    pub current_sprites_data: Vec<SpriteRenderData>,
}

pub open spec fn entry_at(bytes: Seq<u8>, i: int) -> OamEntry {
    OamEntry {
        y: bytes[4 * i],
        tile_index: bytes[4 * i + 1],
        attributes: bytes[4 * i + 2],
        x: bytes[4 * i + 3],
    }
}

/// A sprite at `y` is drawn on the scanline after `scanline` when that
/// scanline lies in `[y + 1, y + 1 + height)`.
pub open spec fn in_range(y: u8, scanline: int, height: int) -> bool {
    0 <= scanline - y < height
}

/// Indices, in OAM order, of the sprites among the first `k` that are in
/// range for the scanline after `scanline`.
pub open spec fn hits(bytes: Seq<u8>, scanline: int, height: int, k: int) -> Seq<int>
    decreases k,
{
    if k <= 0 {
        seq![]
    } else if in_range(bytes[4 * (k - 1)], scanline, height) {
        hits(bytes, scanline, height, k - 1).push(k - 1)
    } else {
        hits(bytes, scanline, height, k - 1)
    }
}

pub proof fn lemma_hits_bounds(bytes: Seq<u8>, scanline: int, height: int, k: int)
    requires
        k >= 0,
    ensures
        hits(bytes, scanline, height, k).len() <= k,
        forall|j: int|
            0 <= j < hits(bytes, scanline, height, k).len() ==> 0 <= #[trigger] hits(
                bytes,
                scanline,
                height,
                k,
            )[j] < k,
    decreases k,
{
    if k > 0 {
        lemma_hits_bounds(bytes, scanline, height, k - 1);
    }
}

/// No sprite is in range for the line after the pre-render line's -1.
pub proof fn lemma_no_hits_before_line_0(bytes: Seq<u8>, height: int, k: int)
    ensures
        hits(bytes, -1, height, k).len() == 0,
    decreases k,
{
    if k > 0 {
        lemma_no_hits_before_line_0(bytes, height, k - 1);
    }
}

/// Bit `i` of a byte.
pub open spec fn bit8(v: u8, i: u8) -> u8 {
    (v >> i) & 1
}

pub proof fn lemma_bit8_small(v: u8, i: u8)
    by (bit_vector)
    ensures
        ((v >> i) & 1) < 2,
{
}

/// The 2-bit colour that a sprite row shows at screen column `x`
/// (0 where it does not cover `x`); attribute bit 6 flips horizontally.
pub open spec fn sprite_color(d: SpriteRenderData, x: int) -> int {
    let off = x - d.x;
    if 0 <= off < 8 {
        let shift = (if d.attributes & 0x40 != 0 {
            off
        } else {
            7 - off
        }) as u8;
        bit8(d.tile_bitplane_lo, shift) + 2 * bit8(d.tile_bitplane_hi, shift)
    } else {
        0
    }
}

pub open spec fn sprite_info_of(d: SpriteRenderData, x: int) -> SpriteInfo {
    SpriteInfo {
        color_index: sprite_color(d, x) as u8,
        palette_index: ((d.attributes % 4) + 4) as u8,
        is_in_front: d.attributes & 0x20 == 0,
        is_sprite_zero: d.is_sprite_zero,
    }
}

/// The first slot at or after `i` whose pixel at `x` is opaque.
pub open spec fn first_opaque(data: Seq<SpriteRenderData>, x: int, i: int) -> Option<int>
    decreases data.len() - i,
{
    if i >= data.len() || i < 0 {
        None
    } else if sprite_color(data[i], x) != 0 {
        Some(i)
    } else {
        first_opaque(data, x, i + 1)
    }
}

/// What the sprite layer shows at column `x`.
pub open spec fn sprite_at(data: Seq<SpriteRenderData>, x: int) -> Option<SpriteInfo> {
    match first_opaque(data, x, 0) {
        Some(i) => Some(sprite_info_of(data[i], x)),
        None => None,
    }
}

/// The pattern-table address of row `row` (0 = top) of a sprite, for 8x8
/// sprites from `table8`, for 8x16 sprites from the table that bit 0 of the
/// tile index selects; attribute bit 7 flips vertically.
pub open spec fn sprite_row_addr(e: OamEntry, row: int, height: int, table8: int) -> int {
    let flip = e.attributes >= 128;
    if height == 8 {
        let r = if flip {
            7 - row
        } else {
            row
        };
        table8 + e.tile_index * 16 + r
    } else {
        let r = if flip {
            15 - row
        } else {
            row
        };
        let top = e.tile_index - e.tile_index % 2;
        let tile = top + (if r >= 8 {
            1int
        } else {
            0
        });
        (e.tile_index % 2) * 0x1000 + tile * 16 + r % 8
    }
}

impl PrimaryOam {
    pub open spec fn wf(self) -> bool {
        self.bytes@.len() == 256
    }

    pub fn new() -> (r: Self)
        ensures
            r.wf(),
            r.bytes@ == Seq::new(256, |i: int| 0u8),
    {
        let v = vec![0u8; 256];
        assert(v@ =~= Seq::new(256, |i: int| 0u8));
        PrimaryOam { bytes: v }
    }

    pub fn get_byte(&self, index: u8) -> (r: u8)
        requires
            self.wf(),
        ensures
            r == self.bytes@[index as int],
    {
        self.bytes[index as usize]
    }

    pub fn set_byte(&mut self, index: u8, val: u8)
        requires
            old(self).wf(),
        ensures
            final(self).wf(),
            final(self).bytes@ == old(self).bytes@.update(index as int, val),
    {
        self.bytes.set(index as usize, val);
    }

    pub fn get_entry(&self, i: usize) -> (r: OamEntry)
        requires
            self.wf(),
            i < 64,
        ensures
            r == entry_at(self.bytes@, i as int),
    {
        OamEntry {
            y: self.bytes[4 * i],
            tile_index: self.bytes[4 * i + 1],
            attributes: self.bytes[4 * i + 2],
            x: self.bytes[4 * i + 3],
        }
    }
}

impl Oam {
    pub open spec fn wf(self) -> bool {
        &&& self.primary.wf()
        &&& self.secondary.entries@.len() <= 8
        &&& self.current_sprites_data@.len() == 8
    }

    pub fn new() -> (r: Self)
        ensures
            r.wf(),
            r.primary.bytes@ == Seq::new(256, |i: int| 0u8),
            r.secondary.entries@.len() == 0,
            !r.sprite_zero_found,
    {
        let mut data: Vec<SpriteRenderData> = Vec::new();
        let mut i: usize = 0;
        while i < 8
            invariant
                data@.len() == i,
                i <= 8,
            decreases 8 - i,
        {
            data.push(
                SpriteRenderData {
                    x: 0,
                    tile_bitplane_lo: 0,
                    tile_bitplane_hi: 0,
                    attributes: 0,
                    is_sprite_zero: false,
                },
            );
            i = i + 1;
        }
        Oam {
            primary: PrimaryOam::new(),
            secondary: SecondaryOam { entries: Vec::new() },
            sprite_zero_found: false,
            current_sprites_data: data,
        }
    }

    /// Sprite evaluation: scans primary OAM in order and copies the first 8
    /// sprites in range for the scanline after `scanline` into secondary
    /// OAM. Returns whether a ninth one was in range (sprite overflow).
    pub fn eval_next_scanline_sprite(&mut self, scanline: i16, sprite_height: u8) -> (overflow:
        bool)
        requires
            old(self).wf(),
            -1 <= scanline <= 239,
            sprite_height == 8 || sprite_height == 16,
        ensures
            final(self).wf(),
            final(self).primary.bytes@ == old(self).primary.bytes@,
            final(self).current_sprites_data@ == old(self).current_sprites_data@,
            ({
                let h = hits(old(self).primary.bytes@, scanline as int, sprite_height as int, 64);
                &&& final(self).secondary.entries@.len() == (if h.len() < 8 {
                    h.len() as int
                } else {
                    8
                })
                &&& forall|j: int|
                    0 <= j < final(self).secondary.entries@.len()
                        ==> #[trigger] final(self).secondary.entries@[j] == entry_at(
                        old(self).primary.bytes@,
                        h[j],
                    )
                &&& final(self).sprite_zero_found == (h.len() > 0 && h[0] == 0)
                &&& overflow == (h.len() > 8)
            }),
    {
        let ghost bytes = self.primary.bytes@;
        let ghost s = scanline as int;
        let ghost hh = sprite_height as int;
        let mut found: Vec<OamEntry> = Vec::new();
        let mut overflow = false;
        let mut zero = false;
        let mut i: usize = 0;
        while i < 64
            invariant
                self.primary.bytes@ == bytes,
                self.primary.wf(),
                s == scanline as int,
                hh == sprite_height as int,
                i <= 64,
                found@.len() == (if hits(bytes, s, hh, i as int).len() < 8 {
                    hits(bytes, s, hh, i as int).len() as int
                } else {
                    8
                }),
                forall|j: int|
                    0 <= j < found@.len() ==> #[trigger] found@[j] == entry_at(
                        bytes,
                        hits(bytes, s, hh, i as int)[j],
                    ),
                zero == (hits(bytes, s, hh, i as int).len() > 0 && hits(
                    bytes,
                    s,
                    hh,
                    i as int,
                )[0] == 0),
                overflow == (hits(bytes, s, hh, i as int).len() > 8),
            decreases 64 - i,
        {
            let e = self.primary.get_entry(i);
            let off = scanline as i32 - e.y as i32;
            proof {
                lemma_hits_bounds(bytes, s, hh, i as int);
            }
            if 0 <= off && off < sprite_height as i32 {
                if found.len() < 8 {
                    if i == 0 {
                        zero = true;
                    }
                    found.push(e);
                } else {
                    overflow = true;
                }
            }
            assert(hits(bytes, s, hh, i as int + 1) == if in_range(bytes[4 * i as int], s, hh) {
                hits(bytes, s, hh, i as int).push(i as int)
            } else {
                hits(bytes, s, hh, i as int)
            });
            i = i + 1;
        }
        self.secondary.entries = found;
        self.sprite_zero_found = zero;
        overflow
    }

    /// Sprite fetch for slot `slot` (0-7) of the next scanline: the row of
    /// the slot's sprite that the next scanline crosses, read from the
    /// pattern tables at `cycle`; an empty slot reads tile 0xFF and stays
    /// transparent.
    pub fn fetch_next_scanline_sprite_data(
        &mut self,
        slot: usize,
        scanline: i16,
        sprite_height: u8,
        table8: u16,
        cart: &mut Cartridge,
        cycle: u64,
        irq_level: &mut i8,
    )
        requires
            old(self).wf(),
            old(cart).wf(),
            slot < 8,
            -1 <= scanline <= 239,
            sprite_height == 8 || sprite_height == 16,
            table8 == 0 || table8 == 0x1000,
        ensures
            final(self).wf(),
            final(self).primary.bytes@ == old(self).primary.bytes@,
            final(self).secondary.entries@ == old(self).secondary.entries@,
            final(self).sprite_zero_found == old(self).sprite_zero_found,
            final(cart).wf(),
            final(cart).same_memory(*old(cart)),
            old(cart).is_nrom() ==> *final(irq_level) == *old(irq_level),
            final(self).current_sprites_data@.len() == 8,
            forall|j: int|
                0 <= j < 8 && j != slot ==> #[trigger] final(self).current_sprites_data@[j]
                    == old(self).current_sprites_data@[j],
            ({
                let d = final(self).current_sprites_data@[slot as int];
                if slot < old(self).secondary.entries@.len() && in_range(
                    old(self).secondary.entries@[slot as int].y,
                    scanline as int,
                    sprite_height as int,
                ) {
                    let e = old(self).secondary.entries@[slot as int];
                    let a = sprite_row_addr(
                        e,
                        scanline - e.y,
                        sprite_height as int,
                        table8 as int,
                    );
                    &&& d.x == e.x
                    &&& d.attributes == e.attributes
                    &&& d.is_sprite_zero == (slot == 0 && old(self).sprite_zero_found)
                    &&& d.tile_bitplane_lo == old(cart).ppu_peek(a as u16)
                    &&& d.tile_bitplane_hi == old(cart).ppu_peek((a + 8) as u16)
                } else {
                    &&& d.tile_bitplane_lo == 0
                    &&& d.tile_bitplane_hi == 0
                }
            }),
    {
        let ghost c0 = *cart;
        let in_range_slot = slot < self.secondary.entries.len() && {
            let y = self.secondary.entries[slot].y as i32;
            0 <= scanline as i32 - y && (scanline as i32 - y) < sprite_height as i32
        };
        if in_range_slot {
            let e = self.secondary.entries[slot];
            let row = (scanline as i32 - e.y as i32) as u16;
            let flip = e.attributes >= 128;
            let addr: u16 = if sprite_height == 8 {
                let r = if flip {
                    7 - row
                } else {
                    row
                };
                table8 + e.tile_index as u16 * 16 + r
            } else {
                let r = if flip {
                    15 - row
                } else {
                    row
                };
                let top = e.tile_index as u16 - e.tile_index as u16 % 2;
                let tile = top + if r >= 8 {
                    1
                } else {
                    0
                };
                (e.tile_index as u16 % 2) * 0x1000 + tile * 16 + r % 8
            };
            let lo = cart.ppu_read(addr, cycle, irq_level);
            let hi = cart.ppu_read(addr + 8, cycle, irq_level);
            proof {
                lemma_same_memory_peek(c0, *cart, addr);
            }
            self.current_sprites_data.set(
                slot,
                SpriteRenderData {
                    x: e.x,
                    tile_bitplane_lo: lo,
                    tile_bitplane_hi: hi,
                    attributes: e.attributes,
                    is_sprite_zero: slot == 0 && self.sprite_zero_found,
                },
            );
        } else {
            let addr: u16 = if sprite_height == 8 {
                table8 + 0xff0
            } else {
                0x1fe0
            };
            let _ = cart.ppu_read(addr, cycle, irq_level);
            let _ = cart.ppu_read(addr + 8, cycle, irq_level);
            self.current_sprites_data.set(
                slot,
                SpriteRenderData {
                    x: 0xff,
                    tile_bitplane_lo: 0,
                    tile_bitplane_hi: 0,
                    attributes: 0,
                    is_sprite_zero: false,
                },
            );
        }
    }

    /// The colour of one sprite slot at screen column `x`.
    pub fn sprite_color_at(d: SpriteRenderData, x: u16) -> (r: u8)
        ensures
            r as int == sprite_color(d, x as int),
            r < 4,
    {
        if x >= d.x as u16 && x - (d.x as u16) < 8 {
            let off = (x - d.x as u16) as u8;
            let shift = if d.attributes & 0x40 != 0 {
                off
            } else {
                7 - off
            };
            proof {
                lemma_bit8_small(d.tile_bitplane_lo, shift);
                lemma_bit8_small(d.tile_bitplane_hi, shift);
            }
            ((d.tile_bitplane_lo >> shift) & 1) + 2 * ((d.tile_bitplane_hi >> shift) & 1)
        } else {
            0
        }
    }

    /// The sprite pixel at screen column `x`: the first slot, in OAM order,
    /// that covers `x` with a non-transparent colour.
    pub fn get_sprite_at_dot_info(&self, x: u16) -> (r: Option<SpriteInfo>)
        requires
            self.wf(),
        ensures
            r == sprite_at(self.current_sprites_data@, x as int),
            r is Some ==> r->Some_0.color_index < 4 && r->Some_0.palette_index < 8,
    {
        let mut i: usize = 0;
        while i < 8
            invariant
                self.wf(),
                i <= 8,
                first_opaque(self.current_sprites_data@, x as int, 0) == first_opaque(
                    self.current_sprites_data@,
                    x as int,
                    i as int,
                ),
            decreases 8 - i,
        {
            let d = self.current_sprites_data[i];
            let c = Self::sprite_color_at(d, x);
            if c != 0 {
                return Some(
                    SpriteInfo {
                        color_index: c,
                        palette_index: d.attributes % 4 + 4,
                        is_in_front: d.attributes & 0x20 == 0,
                        is_sprite_zero: d.is_sprite_zero,
                    },
                );
            }
            i = i + 1;
        }
        None
    }
}

} // verus!
