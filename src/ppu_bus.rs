use vstd::prelude::*;

verus! {

/// How the four logical nametables map onto cartridge VRAM.
#[derive(Clone, Copy, Debug, PartialEq, Eq, Structural)]
pub enum Mirroring {
    Horizontal,
    Vertical,
    FourScreen,
}

/// Index into the 32 bytes of palette RAM for a PPU address in
/// 0x3F00-0x3FFF: the low 5 bits, with $10/$14/$18/$1C folded onto
/// $00/$04/$08/$0C.
pub open spec fn palette_index(addr: u16) -> int {
    let i = addr as int % 32;
    if i >= 16 && i % 4 == 0 {
        i - 16
    } else {
        i
    }
}

/// Two palette addresses that name the same byte of palette RAM: equal in
/// their low 5 bits, or a backdrop entry of the sprite half and its
/// background counterpart.
pub open spec fn palette_mirrors(a: u16, b: u16) -> bool {
    let i = a as int % 32;
    let j = b as int % 32;
    i == j || (i % 4 == 0 && j % 4 == 0 && (i - j == 16 || j - i == 16))
}

/// Offset into a 4 KiB nametable store for a PPU address in 0x2000-0x3EFF.
/// Horizontal mirroring drops bit 10, vertical drops bit 11.
pub open spec fn nametable_index(addr: u16, m: Mirroring) -> int {
    let i = addr as int % 0x1000;
    match m {
        Mirroring::Horizontal => (i / 0x800) * 0x400 + i % 0x400,
        Mirroring::Vertical => i % 0x800,
        Mirroring::FourScreen => i,
    }
}

pub fn calc_ppu_palette_addr(addr: u16) -> (r: u16)
    ensures
        r as int == palette_index(addr),
        r < 32,
{
    let i = addr % 32;
    if i >= 16 && i % 4 == 0 {
        i - 16
    } else {
        i
    }
}

pub fn calc_ppu_nametable_addr(addr: u16, m: Mirroring) -> (r: usize)
    ensures
        r as int == nametable_index(addr, m),
        r < 0x1000,
{
    let i = (addr % 0x1000) as usize;
    match m {
        Mirroring::Horizontal => (i / 0x800) * 0x400 + i % 0x400,
        Mirroring::Vertical => i % 0x800,
        Mirroring::FourScreen => i,
    }
}

/// Any two mirrors of a palette entry select the same byte of palette RAM.
pub proof fn lemma_palette_mirrors_share_entry(a: u16, b: u16)
    requires
        palette_mirrors(a, b),
    ensures
        palette_index(a) == palette_index(b),
{
}

/// Writing `v` at palette address `a`, then reading any mirror `b` of `a`,
/// returns `v`.
pub proof fn lemma_palette_write_read(palettes: Seq<u8>, a: u16, v: u8, b: u16)
    requires
        palettes.len() == 32,
        palette_mirrors(a, b),
    ensures
        palettes.update(palette_index(a), v)[palette_index(b)] == v,
{
    lemma_palette_mirrors_share_entry(a, b);
}

} // verus!
