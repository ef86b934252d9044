use vstd::prelude::*;
use crate::mmc3::{
    Mmc3CpuMemory, prg_bank_of, chr_bank_of, observed_access,
    register_written,
};
use crate::ppu_bus::{
    Mirroring, palette_index, nametable_index, calc_ppu_palette_addr, calc_ppu_nametable_addr,
};

verus! {

/// Why a ROM image cannot be loaded.
#[derive(Clone, Copy, Debug, PartialEq, Eq, Structural)]
pub enum RomError {
    BadMagic,
    Truncated,
    UnsupportedMapper,
    BadBankCount,
}

#[derive(Clone, Copy, Debug)]
pub enum Mapper {
    Nrom,
    Mmc3(Mmc3CpuMemory),
}

/// Everything outside the CPU and PPU chips: PRG ROM and RAM, CHR ROM or
/// RAM, nametable VRAM, palette RAM and the mapper's registers.
pub struct Cartridge {
    pub prg_rom: Vec<u8>,
    pub prg_ram: Vec<u8>,
    pub chr: Vec<u8>,
    pub chr_is_ram: bool,
    pub mirroring: Mirroring,
    pub nametables: Vec<u8>,
    pub palettes: Vec<u8>,
    pub mapper: Mapper,
}

/// Valid PRG ROM sizes: 16 or 32 KiB for NROM; 16-512 KiB, a power of two,
/// for MMC3.
pub open spec fn prg_len_ok(len: int, nrom: bool) -> bool {
    if nrom {
        len == 0x4000 || len == 0x8000
    } else {
        len == 0x4000 || len == 0x8000 || len == 0x10000 || len == 0x20000 || len == 0x40000
            || len == 0x80000
    }
}

/// Valid CHR sizes: 8 KiB for NROM; 8-256 KiB, a power of two, for MMC3.
pub open spec fn chr_len_ok(len: int, nrom: bool) -> bool {
    if nrom {
        len == 0x2000
    } else {
        len == 0x2000 || len == 0x4000 || len == 0x8000 || len == 0x10000 || len == 0x20000
            || len == 0x40000
    }
}

impl Cartridge {
    pub open spec fn is_nrom(self) -> bool {
        self.mapper is Nrom
    }

    pub open spec fn wf(self) -> bool {
        &&& prg_len_ok(self.prg_rom@.len() as int, self.is_nrom())
        &&& chr_len_ok(self.chr@.len() as int, self.is_nrom())
        &&& self.prg_ram@.len() == 0x2000
        &&& self.nametables@.len() == 0x1000
        &&& self.palettes@.len() == 32
        &&& match self.mapper {
            Mapper::Nrom => true,
            Mapper::Mmc3(m) => m.wf(),
        }
    }

    pub open spec fn prg_bank_count(self) -> u32 {
        (self.prg_rom@.len() / 0x2000) as u32
    }

    pub open spec fn chr_bank_count(self) -> u32 {
        (self.chr@.len() / 0x400) as u32
    }

    /// Offset into CHR memory of a pattern-table address (< 0x2000).
    pub open spec fn chr_offset(self, addr: u16) -> int {
        match self.mapper {
            Mapper::Nrom => addr as int,
            Mapper::Mmc3(m) => chr_bank_of(m, addr, self.chr_bank_count()) * 0x400 + addr
                as int % 0x400,
        }
    }

    /// Offset into PRG ROM of a CPU address in 0x8000-0xFFFF.
    pub open spec fn prg_offset(self, addr: u16) -> int {
        match self.mapper {
            Mapper::Nrom => (addr as int - 0x8000) % (self.prg_rom@.len() as int),
            Mapper::Mmc3(m) => prg_bank_of(m, addr, self.prg_bank_count()) * 0x2000 + addr
                as int % 0x2000,
        }
    }

    pub open spec fn prg_ram_readable(self) -> bool {
        match self.mapper {
            Mapper::Nrom => true,
            Mapper::Mmc3(m) => m.prg_ram_enable,
        }
    }

    pub open spec fn prg_ram_writable(self) -> bool {
        match self.mapper {
            Mapper::Nrom => true,
            Mapper::Mmc3(m) => m.prg_ram_enable && !m.prg_ram_protect,
        }
    }

    /// The byte that the CPU reads at `addr` (0x4020-0xFFFF): PRG RAM at
    /// 0x6000-0x7FFF when enabled, PRG ROM from 0x8000, else 0.
    pub open spec fn cpu_peek(self, addr: u16) -> u8 {
        if addr >= 0x8000 {
            self.prg_rom@[self.prg_offset(addr)]
        } else if addr >= 0x6000 && self.prg_ram_readable() {
            self.prg_ram@[addr as int - 0x6000]
        } else {
            0
        }
    }

    /// The byte that the PPU reads at `addr` (taken mod 0x4000).
    pub open spec fn ppu_peek(self, addr: u16) -> u8 {
        let a = (addr % 0x4000) as u16;
        if a >= 0x3f00 {
            self.palettes@[palette_index(a)]
        } else if a >= 0x2000 {
            self.nametables@[nametable_index(a, self.mirroring)]
        } else {
            self.chr@[self.chr_offset(a)]
        }
    }

    /// The effect of a PPU bus access at `addr` and `cycle` on the mapper's
    /// IRQ block and the IRQ line (MMC3); NROM observes nothing.
    pub open spec fn observed(self, new: Cartridge, addr: u16, cycle: u64, oirq: i8, nirq: i8) -> bool {
        match (self.mapper, new.mapper) {
            (Mapper::Mmc3(x), Mapper::Mmc3(y)) => observed_access(
                x.ppu_memory,
                y.ppu_memory,
                addr,
                cycle,
                oirq,
                nirq,
            ),
            (Mapper::Nrom, Mapper::Nrom) => nirq == oirq,
            _ => false,
        }
    }

    /// The mapper's banking state (everything but its IRQ block).
    pub open spec fn banking_eq(self, other: Cartridge) -> bool {
        match (self.mapper, other.mapper) {
            (Mapper::Nrom, Mapper::Nrom) => true,
            (Mapper::Mmc3(x), Mapper::Mmc3(y)) => {
                &&& x.r == y.r
                &&& x.bank_register_to_update == y.bank_register_to_update
                &&& x.prg_banks_swapped == y.prg_banks_swapped
                &&& x.a12_invert == y.a12_invert
                &&& x.prg_ram_enable == y.prg_ram_enable
                &&& x.prg_ram_protect == y.prg_ram_protect
            },
            _ => false,
        }
    }

    /// Same contents and banking; only the mapper's IRQ block may differ.
    pub open spec fn same_memory(self, other: Cartridge) -> bool {
        &&& self.prg_rom@ == other.prg_rom@
        &&& self.prg_ram@ == other.prg_ram@
        &&& self.chr@ == other.chr@
        &&& self.chr_is_ram == other.chr_is_ram
        &&& self.mirroring == other.mirroring
        &&& self.nametables@ == other.nametables@
        &&& self.palettes@ == other.palettes@
        &&& self.banking_eq(other)
    }

    /// The effect of a CPU write of `val` at `addr` (0x4020-0xFFFF): PRG RAM
    /// when writable, the MMC3 registers from 0x8000; the ROMs, CHR and
    /// VRAM are untouched.
    pub open spec fn cpu_written(self, new: Cartridge, addr: u16, val: u8, oirq: i8, nirq: i8) -> bool {
        &&& new.prg_rom@ == self.prg_rom@
        &&& new.chr@ == self.chr@
        &&& new.chr_is_ram == self.chr_is_ram
        &&& new.nametables@ == self.nametables@
        &&& new.palettes@ == self.palettes@
        &&& new.is_nrom() == self.is_nrom()
        &&& if 0x6000 <= addr < 0x8000 && self.prg_ram_writable() {
            new.prg_ram@ == self.prg_ram@.update(addr as int - 0x6000, val)
        } else {
            new.prg_ram@ == self.prg_ram@
        }
        &&& if addr >= 0x8000 {
            match (self.mapper, new.mapper) {
                (Mapper::Mmc3(o), Mapper::Mmc3(f)) => register_written(
                    o,
                    f,
                    addr,
                    val,
                    self.mirroring,
                    new.mirroring,
                    oirq,
                    nirq,
                ),
                (Mapper::Nrom, Mapper::Nrom) => new.mirroring == self.mirroring && nirq == oirq,
                _ => false,
            }
        } else {
            new.banking_eq(self) && new.mirroring == self.mirroring && nirq == oirq && new.mapper
                == self.mapper
        }
    }

    /// `new` is this cartridge after a PPU write of `val` at `addr`.
    pub open spec fn wrote_ppu(self, new: Cartridge, addr: u16, val: u8) -> bool {
        &&& new.prg_rom@ == self.prg_rom@
        &&& new.prg_ram@ == self.prg_ram@
        &&& new.mirroring == self.mirroring
        &&& new.chr_is_ram == self.chr_is_ram
        &&& new.banking_eq(self)
        &&& new.is_nrom() == self.is_nrom()
        &&& {
            let a = (addr % 0x4000) as u16;
            if a >= 0x3f00 {
                &&& new.palettes@ == self.palettes@.update(palette_index(a), val)
                &&& new.nametables@ == self.nametables@
                &&& new.chr@ == self.chr@
            } else if a >= 0x2000 {
                &&& new.nametables@ == self.nametables@.update(
                    nametable_index(a, self.mirroring),
                    val,
                )
                &&& new.palettes@ == self.palettes@
                &&& new.chr@ == self.chr@
            } else {
                &&& new.chr@ == (if self.chr_is_ram {
                    self.chr@.update(self.chr_offset(a), val)
                } else {
                    self.chr@
                })
                &&& new.palettes@ == self.palettes@
                &&& new.nametables@ == self.nametables@
            }
        }
    }

    /// Builds a cartridge for mapper 0 (NROM) or 4 (MMC3). An empty `chr`
    /// gives 8 KiB of CHR RAM.
    pub fn new(prg_rom: Vec<u8>, chr: Vec<u8>, mirroring: Mirroring, mapper_number: u8) -> (r:
        Result<Cartridge, RomError>)
        ensures
            mapper_number != 0 && mapper_number != 4 ==> r == Err::<Cartridge, RomError>(
                RomError::UnsupportedMapper),
            (mapper_number == 0 || mapper_number == 4) ==> {
                let nrom = mapper_number == 0;
                let chr_ok = chr@.len() == 0 || chr_len_ok(chr@.len() as int, nrom);
                if prg_len_ok(prg_rom@.len() as int, nrom) && chr_ok {
                    &&& r is Ok
                    &&& r->Ok_0.wf()
                    &&& r->Ok_0.is_nrom() == nrom
                    &&& r->Ok_0.prg_rom@ == prg_rom@
                    &&& r->Ok_0.chr_is_ram == (chr@.len() == 0)
                    &&& chr@.len() != 0 ==> r->Ok_0.chr@ == chr@
                    &&& chr@.len() == 0 ==> r->Ok_0.chr@ == Seq::new(0x2000, |i: int| 0u8)
                    &&& r->Ok_0.mirroring == mirroring
                    &&& r->Ok_0.prg_ram@ == Seq::new(0x2000, |i: int| 0u8)
                    &&& r->Ok_0.nametables@ == Seq::new(0x1000, |i: int| 0u8)
                    &&& r->Ok_0.palettes@ == Seq::new(32, |i: int| 0u8)
                    &&& match r->Ok_0.mapper {
                        Mapper::Nrom => nrom,
                        Mapper::Mmc3(m) => {
                            &&& !nrom
                            &&& m.r@ == seq![0u8, 0u8, 0u8, 0u8, 0u8, 0u8, 0u8, 0u8]
                            &&& m.bank_register_to_update == 0
                            &&& !m.prg_banks_swapped
                            &&& !m.a12_invert
                            &&& !m.prg_ram_enable
                            &&& !m.prg_ram_protect
                            &&& m.ppu_memory.irq_latch == 0
                            &&& m.ppu_memory.irq_counter == 0
                            &&& !m.ppu_memory.irq_reload
                            &&& !m.ppu_memory.irq_enable
                            &&& !m.ppu_memory.irq_asserted
                        },
                    }
                } else {
                    r == Err::<Cartridge, RomError>(RomError::BadBankCount)
                }
            },
    {
        if mapper_number != 0 && mapper_number != 4 {
            return Err(RomError::UnsupportedMapper);
        }
        let nrom = mapper_number == 0;
        let plen = prg_rom.len();
        let prg_ok = if nrom {
            plen == 0x4000 || plen == 0x8000
        } else {
            plen == 0x4000 || plen == 0x8000 || plen == 0x10000 || plen == 0x20000 || plen
                == 0x40000 || plen == 0x80000
        };
        let clen = chr.len();
        let chr_ok = clen == 0 || if nrom {
            clen == 0x2000
        } else {
            clen == 0x2000 || clen == 0x4000 || clen == 0x8000 || clen == 0x10000 || clen
                == 0x20000 || clen == 0x40000
        };
        if !prg_ok || !chr_ok {
            return Err(RomError::BadBankCount);
        }
        let chr_is_ram = clen == 0;
        let chr = if chr_is_ram {
            let v = vec![0u8; 0x2000];
            assert(v@ =~= Seq::new(0x2000, |i: int| 0u8));
            v
        } else {
            chr
        };
        let mapper = if nrom {
            Mapper::Nrom
        } else {
            Mapper::Mmc3(Mmc3CpuMemory::new())
        };
        let prg_ram = vec![0u8; 0x2000];
        let nametables = vec![0u8; 0x1000];
        let palettes = vec![0u8; 32];
        assert(prg_ram@ =~= Seq::new(0x2000, |i: int| 0u8));
        assert(nametables@ =~= Seq::new(0x1000, |i: int| 0u8));
        assert(palettes@ =~= Seq::new(32, |i: int| 0u8));
        Ok(Cartridge { prg_rom, prg_ram, chr, chr_is_ram, mirroring, nametables, palettes, mapper })
    }

    /// Offset into CHR memory of a pattern-table address.
    pub fn chr_offset_of(&self, addr: u16) -> (r: usize)
        requires
            self.wf(),
            addr < 0x2000,
        ensures
            r as int == self.chr_offset(addr),
            r < self.chr@.len(),
    {
        match &self.mapper {
            Mapper::Nrom => addr as usize,
            Mapper::Mmc3(m) => {
                let n = (self.chr.len() / 0x400) as u32;
                let bank = m.chr_bank(addr, n);
                bank as usize * 0x400 + (addr % 0x400) as usize
            },
        }
    }

    /// Offset into PRG ROM of a CPU address in 0x8000-0xFFFF.
    pub fn prg_offset_of(&self, addr: u16) -> (r: usize)
        requires
            self.wf(),
            addr >= 0x8000,
        ensures
            r as int == self.prg_offset(addr),
            r < self.prg_rom@.len(),
    {
        match &self.mapper {
            Mapper::Nrom => (addr - 0x8000) as usize % self.prg_rom.len(),
            Mapper::Mmc3(m) => {
                let n = (self.prg_rom.len() / 0x2000) as u32;
                let bank = m.prg_bank(addr, n);
                bank as usize * 0x2000 + (addr % 0x2000) as usize
            },
        }
    }

    /// A CPU read of the cartridge area (0x4020-0xFFFF).
    pub fn cpu_read(&self, addr: u16) -> (r: u8)
        requires
            self.wf(),
        ensures
            r == self.cpu_peek(addr),
    {
        if addr >= 0x8000 {
            let i = self.prg_offset_of(addr);
            self.prg_rom[i]
        } else if addr >= 0x6000 {
            let readable = match &self.mapper {
                Mapper::Nrom => true,
                Mapper::Mmc3(m) => m.prg_ram_enable,
            };
            if readable {
                self.prg_ram[(addr - 0x6000) as usize]
            } else {
                0
            }
        } else {
            0
        }
    }

    /// A CPU write to the cartridge area: PRG RAM when writable, mapper
    /// registers from 0x8000.
    pub fn cpu_write(&mut self, addr: u16, val: u8, irq_level: &mut i8)
        requires
            old(self).wf(),
        ensures
            final(self).wf(),
            old(self).cpu_written(*final(self), addr, val, *old(irq_level), *final(irq_level)),
    {
        if addr >= 0x8000 {
            match &mut self.mapper {
                Mapper::Nrom => {},
                Mapper::Mmc3(m) => {
                    m.write_register(addr, val, &mut self.mirroring, irq_level);
                },
            }
        } else if addr >= 0x6000 {
            let writable = match &self.mapper {
                Mapper::Nrom => true,
                Mapper::Mmc3(m) => m.prg_ram_enable && !m.prg_ram_protect,
            };
            if writable {
                self.prg_ram.set((addr - 0x6000) as usize, val);
            }
        }
    }

    /// Lets the mapper observe a PPU bus access (MMC3's A12 edge filter).
    pub fn observe_ppu_access(&mut self, addr: u16, cycle: u64, irq_level: &mut i8)
        requires
            old(self).wf(),
        ensures
            final(self).wf(),
            final(self).same_memory(*old(self)),
            old(self).is_nrom() ==> *final(irq_level) == *old(irq_level),
            old(self).observed(*final(self), addr, cycle, *old(irq_level), *final(irq_level)),
    {
        match &mut self.mapper {
            Mapper::Nrom => {},
            Mapper::Mmc3(m) => {
                m.ppu_memory.observe_access(addr, cycle, irq_level);
            },
        }
    }

    /// A PPU read: pattern tables through the mapper, nametables with
    /// mirroring, palette RAM with its mirrors. The access is timestamped
    /// with `cycle` for the mapper.
    pub fn ppu_read(&mut self, addr: u16, cycle: u64, irq_level: &mut i8) -> (r: u8)
        requires
            old(self).wf(),
        ensures
            final(self).wf(),
            final(self).same_memory(*old(self)),
            r == old(self).ppu_peek(addr),
            old(self).observed(*final(self), (addr % 0x4000) as u16, cycle, *old(irq_level), *final(irq_level)),
            old(self).is_nrom() ==> *final(irq_level) == *old(irq_level),
    {
        let a = addr % 0x4000;
        self.observe_ppu_access(a, cycle, irq_level);
        if a >= 0x3f00 {
            self.palettes[calc_ppu_palette_addr(a) as usize]
        } else if a >= 0x2000 {
            self.nametables[calc_ppu_nametable_addr(a, self.mirroring)]
        } else {
            let i = self.chr_offset_of(a);
            self.chr[i]
        }
    }

    /// A PPU write: palette RAM, nametables, or CHR when it is RAM.
    pub fn ppu_write(&mut self, addr: u16, val: u8, cycle: u64, irq_level: &mut i8)
        requires
            old(self).wf(),
        ensures
            final(self).wf(),
            final(self).prg_rom@ == old(self).prg_rom@,
            final(self).prg_ram@ == old(self).prg_ram@,
            final(self).mirroring == old(self).mirroring,
            final(self).chr_is_ram == old(self).chr_is_ram,
            final(self).banking_eq(*old(self)),
            old(self).is_nrom() ==> *final(irq_level) == *old(irq_level),
            old(self).wrote_ppu(*final(self), addr, val),
            old(self).observed(*final(self), (addr % 0x4000) as u16, cycle, *old(irq_level), *final(irq_level)),
    {
        let a = addr % 0x4000;
        self.observe_ppu_access(a, cycle, irq_level);
        if a >= 0x3f00 {
            self.palettes.set(calc_ppu_palette_addr(a) as usize, val);
        } else if a >= 0x2000 {
            let i = calc_ppu_nametable_addr(a, self.mirroring);
            self.nametables.set(i, val);
        } else if self.chr_is_ram {
            let i = self.chr_offset_of(a);
            self.chr.set(i, val);
        }
    }
}

} // verus!
