use vstd::prelude::*;
use crate::cartridge::{Cartridge, RomError};
use crate::ppu_bus::Mirroring;

verus! {

/// An iNES (v1) image split into header fields and ROM contents.
pub struct RomImage {
    pub mapper: u8,
    pub mirroring: Mirroring,
    pub has_trainer: bool,
    pub battery: bool,
    pub prg_rom: Vec<u8>,
    pub chr_rom: Vec<u8>,
}

pub open spec fn has_magic(b: Seq<u8>) -> bool {
    b[0] == 0x4e && b[1] == 0x45 && b[2] == 0x53 && b[3] == 0x1a
}

/// Mirroring from header byte 6: bit 3 four-screen, else bit 0 vertical.
pub open spec fn mirroring_of(flags6: u8) -> Mirroring {
    if (flags6 / 8) % 2 == 1 {
        Mirroring::FourScreen
    } else if flags6 % 2 == 1 {
        Mirroring::Vertical
    } else {
        Mirroring::Horizontal
    }
}

/// Byte offset of PRG ROM: after the 16-byte header and the optional
/// 512-byte trainer.
pub open spec fn prg_start(b: Seq<u8>) -> int {
    16 + if (b[6] / 4) % 2 == 1 {
        512int
    } else {
        0
    }
}

pub open spec fn prg_size(b: Seq<u8>) -> int {
    b[4] * 0x4000
}

pub open spec fn chr_size(b: Seq<u8>) -> int {
    b[5] * 0x2000
}

/// Copies `len` bytes of `b` from `start`.
fn copy_range(b: &Vec<u8>, start: usize, len: usize) -> (r: Vec<u8>)
    requires
        start + len <= b@.len(),
    ensures
        r@ == b@.subrange(start as int, start + len),
{
    let mut r: Vec<u8> = Vec::new();
    let mut i: usize = 0;
    let n = b.len();
    while i < len
        invariant
            start + len <= b@.len(),
            n == b@.len(),
            i <= len,
            r@ == b@.subrange(start as int, start + i),
        decreases len - i,
    {
        r.push(b[start + i]);
        i = i + 1;
        assert(r@ =~= b@.subrange(start as int, start + i));
    }
    r
}

/// Parses an iNES image: the magic "NES\x1A", the PRG and CHR bank
/// counts, flags 6 (mirroring, battery, trainer, four-screen, mapper low
/// nibble) and flags 7 (mapper high nibble), then the trainer, PRG and CHR.
pub fn parse_ines(b: &Vec<u8>) -> (r: Result<RomImage, RomError>)
    ensures
        b@.len() < 16 ==> r == Err::<RomImage, RomError>(RomError::Truncated),
        b@.len() >= 16 && !has_magic(b@) ==> r == Err::<RomImage, RomError>(RomError::BadMagic),
        b@.len() >= 16 && has_magic(b@) && b@.len() < prg_start(b@) + prg_size(b@) + chr_size(b@)
            ==> r == Err::<RomImage, RomError>(RomError::Truncated),
        b@.len() >= 16 && has_magic(b@) && b@.len() >= prg_start(b@) + prg_size(b@) + chr_size(b@)
            ==> {
            &&& r is Ok
            &&& r->Ok_0.mapper == b@[6] / 16 + (b@[7] / 16) * 16
            &&& r->Ok_0.mirroring == mirroring_of(b@[6])
            &&& r->Ok_0.battery == ((b@[6] / 2) % 2 == 1)
            &&& r->Ok_0.has_trainer == ((b@[6] / 4) % 2 == 1)
            &&& r->Ok_0.prg_rom@ == b@.subrange(prg_start(b@), prg_start(b@) + prg_size(b@))
            &&& r->Ok_0.chr_rom@ == b@.subrange(
                prg_start(b@) + prg_size(b@),
                prg_start(b@) + prg_size(b@) + chr_size(b@),
            )
        },
{
    if b.len() < 16 {
        return Err(RomError::Truncated);
    }
    if !(b[0] == 0x4e && b[1] == 0x45 && b[2] == 0x53 && b[3] == 0x1a) {
        return Err(RomError::BadMagic);
    }
    let flags6 = b[6];
    let flags7 = b[7];
    let has_trainer = (flags6 / 4) % 2 == 1;
    let start: usize = if has_trainer {
        16 + 512
    } else {
        16
    };
    let prg = b[4] as usize * 0x4000;
    let chr = b[5] as usize * 0x2000;
    if b.len() < start + prg + chr {
        return Err(RomError::Truncated);
    }
    let mirroring = if (flags6 / 8) % 2 == 1 {
        Mirroring::FourScreen
    } else if flags6 % 2 == 1 {
        Mirroring::Vertical
    } else {
        Mirroring::Horizontal
    };
    Ok(
        RomImage {
            mapper: flags6 / 16 + (flags7 / 16) * 16,
            mirroring,
            has_trainer,
            battery: (flags6 / 2) % 2 == 1,
            prg_rom: copy_range(b, start, prg),
            chr_rom: copy_range(b, start + prg, chr),
        },
    )
}

/// Whether `b` is a complete iNES image with its magic.
pub open spec fn is_complete_image(b: Seq<u8>) -> bool {
    b.len() >= 16 && has_magic(b) && b.len() >= prg_start(b) + prg_size(b) + chr_size(b)
}

pub open spec fn mapper_of(b: Seq<u8>) -> int {
    b[6] / 16 + (b[7] / 16) * 16
}

/// Parses an iNES image and builds its cartridge: mapper 0 or 4, with PRG
/// and CHR sizes that the mapper supports (no CHR ROM gives CHR RAM).
pub fn load_cartridge(b: &Vec<u8>) -> (r: Result<Cartridge, RomError>)
    ensures
        r is Ok ==> r->Ok_0.wf(),
        b@.len() < 16 ==> r == Err::<Cartridge, RomError>(RomError::Truncated),
        b@.len() >= 16 && !has_magic(b@) ==> r == Err::<Cartridge, RomError>(RomError::BadMagic),
        b@.len() >= 16 && has_magic(b@) && !is_complete_image(b@) ==> r == Err::<
            Cartridge,
            RomError,
        >(RomError::Truncated),
        is_complete_image(b@) && mapper_of(b@) != 0 && mapper_of(b@) != 4 ==> r == Err::<
            Cartridge,
            RomError,
        >(RomError::UnsupportedMapper),
        is_complete_image(b@) && (mapper_of(b@) == 0 || mapper_of(b@) == 4) ==> {
            let nrom = mapper_of(b@) == 0;
            let ok = crate::cartridge::prg_len_ok(prg_size(b@), nrom) && (chr_size(b@) == 0
                || crate::cartridge::chr_len_ok(chr_size(b@), nrom));
            &&& ok ==> r is Ok && r->Ok_0.prg_rom@ == b@.subrange(
                prg_start(b@),
                prg_start(b@) + prg_size(b@),
            ) && r->Ok_0.mirroring == mirroring_of(b@[6]) && r->Ok_0.is_nrom() == nrom
            &&& !ok ==> r == Err::<Cartridge, RomError>(RomError::BadBankCount)
        },
{
    match parse_ines(b) {
        Err(e) => Err(e),
        Ok(img) => Cartridge::new(img.prg_rom, img.chr_rom, img.mirroring, img.mapper),
    }
}

} // verus!
