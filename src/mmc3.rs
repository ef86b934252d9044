use vstd::prelude::*;

verus! {

/// PPU cycles that A12 must have stayed low before a rising edge clocks the
/// scanline counter.
pub const A12_LOW_CYCLES: u64 = 10;

/// Bank counts that a cartridge can have: powers of two from 2 to 256.
pub open spec fn is_bank_count(n: u32) -> bool {
    n == 2 || n == 4 || n == 8 || n == 16 || n == 32 || n == 64 || n == 128 || n == 256
}

/// A bank register masked by a power-of-two bank count stays in bounds, also
/// with its low bit forced to 1 or 0 (the halves of a 2 KiB CHR bank).
pub proof fn lemma_bank_mask_in_bounds(v: u32, n: u32)
    by (bit_vector)
    requires
        n == 2 || n == 4 || n == 8 || n == 16 || n == 32 || n == 64 || n == 128 || n == 256,
    ensures
        (v & (n - 1) as u32) < n,
        ((v & (n - 1) as u32) | 1) < n,
        ((v & (n - 1) as u32) & 0xfffffffe) < n,
{
}

/// The bank register that serves a CHR address (0x0000-0x1FFF): r0/r1 for
/// the 2 KiB half, r2-r5 for the 1 KiB half; `a12_invert` swaps the halves.
pub open spec fn chr_register(addr: u16, a12_invert: bool) -> int {
    let a12 = addr as int >= 0x1000;
    if a12 == a12_invert {
        (addr as int / 0x800) % 2
    } else if a12_invert {
        addr as int / 0x400 + 2
    } else {
        addr as int / 0x400 - 2
    }
}

pub fn calc_chr_bank_register_idx(addr: u16, a12_invert: bool) -> (r: u8)
    requires
        addr < 0x2000,
    ensures
        r as int == chr_register(addr, a12_invert),
        r < 6,
{
    let a12 = addr >= 0x1000;
    if a12 == a12_invert {
        ((addr / 0x800) % 2) as u8
    } else if a12_invert {
        (addr / 0x400 + 2) as u8
    } else {
        (addr / 0x400 - 2) as u8
    }
}

/// The MMC3 scanline counter and the A12 edge filter that clocks it: the
/// part of the mapper that watches the PPU bus.
#[derive(Clone, Copy, Debug)]
pub struct Mmc3PpuMemory {
    pub irq_latch: u8,
    pub irq_counter: u8,
    pub irq_reload: bool,
    pub irq_enable: bool,
    /// Whether the mapper currently holds the CPU's IRQ line.
    pub irq_asserted: bool,
    pub prev_a12_high: bool,
    pub last_a12_high: u64,
}

/// Counter value after one clock.
pub open spec fn next_counter(s: Mmc3PpuMemory) -> u8 {
    if s.irq_counter == 0 || s.irq_reload {
        s.irq_latch
    } else {
        (s.irq_counter - 1) as u8
    }
}

/// Whether an access at `addr` and `cycle` is a filtered rising edge of A12.
pub open spec fn is_a12_clock(s: Mmc3PpuMemory, addr: u16, cycle: u64) -> bool {
    (addr as int / 0x1000) % 2 == 1 && !s.prev_a12_high && cycle >= s.last_a12_high
        && cycle - s.last_a12_high >= A12_LOW_CYCLES
}

/// The effect of one PPU bus access at `addr` and `cycle` on the scanline
/// counter block (`o` to `f`) and the IRQ line: a filtered rising edge of
/// A12 clocks the counter, reaching zero with IRQs enabled asserts the line.
pub open spec fn observed_access(
    o: Mmc3PpuMemory,
    f: Mmc3PpuMemory,
    addr: u16,
    cycle: u64,
    oirq: i8,
    firq: i8,
) -> bool {
    let a12 = (addr as int / 0x1000) % 2 == 1;
    &&& f.prev_a12_high == a12
    &&& f.last_a12_high == (if a12 {
        cycle
    } else {
        o.last_a12_high
    })
    &&& f.irq_latch == o.irq_latch
    &&& f.irq_enable == o.irq_enable
    &&& if is_a12_clock(o, addr, cycle) {
        &&& f.irq_counter == next_counter(o)
        &&& !f.irq_reload
        &&& f.irq_asserted == (o.irq_asserted || (next_counter(o) == 0 && o.irq_enable))
        &&& firq == (if !o.irq_asserted && f.irq_asserted && oirq < i8::MAX {
            oirq + 1
        } else {
            oirq as int
        })
    } else {
        &&& f.irq_counter == o.irq_counter
        &&& f.irq_reload == o.irq_reload
        &&& f.irq_asserted == o.irq_asserted
        &&& firq == oirq
    }
}

impl Mmc3PpuMemory {
    pub fn new() -> (r: Self)
        ensures
            r.irq_latch == 0,
            r.irq_counter == 0,
            !r.irq_reload,
            !r.irq_enable,
            !r.irq_asserted,
            !r.prev_a12_high,
            r.last_a12_high == 0,
    {
        Mmc3PpuMemory {
            irq_latch: 0,
            irq_counter: 0,
            irq_reload: false,
            irq_enable: false,
            irq_asserted: false,
            prev_a12_high: false,
            last_a12_high: 0,
        }
    }

    /// One clock of the scanline counter: reload from the latch when zero or
    /// when a reload was requested, else count down; reaching zero with IRQs
    /// enabled asserts the CPU's IRQ line.
    pub fn clock_counter(&mut self, irq_level: &mut i8)
        ensures
            final(self).irq_counter == next_counter(*old(self)),
            !final(self).irq_reload,
            final(self).irq_latch == old(self).irq_latch,
            final(self).irq_enable == old(self).irq_enable,
            final(self).prev_a12_high == old(self).prev_a12_high,
            final(self).last_a12_high == old(self).last_a12_high,
            final(self).irq_asserted == (old(self).irq_asserted || (next_counter(*old(self))
                == 0 && old(self).irq_enable)),
            *final(irq_level) == (if !old(self).irq_asserted && final(self).irq_asserted
                && *old(irq_level) < i8::MAX {
                *old(irq_level) + 1
            } else {
                *old(irq_level) as int
            }),
    {
        if self.irq_counter == 0 || self.irq_reload {
            self.irq_counter = self.irq_latch;
            self.irq_reload = false;
        } else {
            self.irq_counter = self.irq_counter - 1;
        }
        if self.irq_counter == 0 && self.irq_enable && !self.irq_asserted {
            self.irq_asserted = true;
            if *irq_level < i8::MAX {
                *irq_level = *irq_level + 1;
            }
        }
    }

    /// Observes one PPU bus access: a rising edge of A12 that follows at
    /// least `A12_LOW_CYCLES` cycles after A12 was last high clocks the
    /// counter.
    pub fn observe_access(&mut self, addr: u16, cycle: u64, irq_level: &mut i8)
        ensures
            observed_access(*old(self), *final(self), addr, cycle, *old(irq_level), *final(irq_level)),
    {
        let a12 = (addr / 0x1000) % 2 == 1;
        if a12 {
            if !self.prev_a12_high && cycle >= self.last_a12_high && cycle - self.last_a12_high
                >= A12_LOW_CYCLES {
                self.clock_counter(irq_level);
            }
            self.last_a12_high = cycle;
        }
        self.prev_a12_high = a12;
    }
}

/// The MMC3 mapper: bank-select registers, control bits and the scanline
/// counter, one owned value seen from the CPU bus (PRG windows and register
/// writes) and from the PPU bus (CHR windows and A12 edges).
#[derive(Clone, Copy, Debug)]
pub struct Mmc3CpuMemory {
    /// Bank registers r0-r7; masked against the bank count only when used.
    pub r: [u8; 8],
    pub bank_register_to_update: u8,
    pub prg_banks_swapped: bool,
    pub a12_invert: bool,
    pub prg_ram_enable: bool,
    pub prg_ram_protect: bool,
    pub ppu_memory: Mmc3PpuMemory,
}

/// The 8 KiB PRG bank mapped at a CPU address in 0x8000-0xFFFF, for `n`
/// banks.
pub open spec fn prg_bank_of(m: Mmc3CpuMemory, addr: u16, n: u32) -> int {
    let window = (addr as int - 0x8000) / 0x2000;
    let r6 = (m.r[6] as u32 & (n - 1) as u32) as int;
    let r7 = (m.r[7] as u32 & (n - 1) as u32) as int;
    if window == 0 {
        if m.prg_banks_swapped {
            n - 2
        } else {
            r6
        }
    } else if window == 1 {
        r7
    } else if window == 2 {
        if m.prg_banks_swapped {
            r6
        } else {
            n - 2
        }
    } else {
        n - 1
    }
}

/// The 1 KiB CHR bank mapped at a PPU address in 0x0000-0x1FFF, for `n`
/// banks: a 2 KiB register selects an even/odd pair of banks.
pub open spec fn chr_bank_of(m: Mmc3CpuMemory, addr: u16, n: u32) -> int {
    let k = chr_register(addr, m.a12_invert);
    let base = m.r[k] as u32 & (n - 1) as u32;
    if k < 2 {
        if (addr as int / 0x400) % 2 == 1 {
            (base | 1) as int
        } else {
            (base & 0xfffffffe) as int
        }
    } else {
        base as int
    }
}

/// The effect of a CPU write of `val` at `addr` (0x8000-0xFFFF) on the
/// mapper (`o` to `f`), the mirroring and the IRQ line.
pub open spec fn register_written(
    o: Mmc3CpuMemory,
    f: Mmc3CpuMemory,
    addr: u16,
    val: u8,
    om: crate::ppu_bus::Mirroring,
    fm: crate::ppu_bus::Mirroring,
    oirq: i8,
    firq: i8,
) -> bool {
    let window = (addr as int - 0x8000) / 0x2000;
    let even = addr % 2 == 0;
    let irq_block = o.ppu_memory;
    &&& window == 3 && even ==> firq == (if o.ppu_memory.irq_asserted && oirq > i8::MIN {
        oirq - 1
    } else {
        oirq as int
    })
    &&& !(window == 3 && even) ==> firq == oirq
    &&& window == 1 && even ==> fm == (if om == crate::ppu_bus::Mirroring::FourScreen {
        om
    } else if val % 2 == 1 {
        crate::ppu_bus::Mirroring::Horizontal
    } else {
        crate::ppu_bus::Mirroring::Vertical
    })
    &&& !(window == 1 && even) ==> fm == om
    &&& if window == 0 && even {
        f == Mmc3CpuMemory {
            bank_register_to_update: val % 8,
            prg_banks_swapped: val & 0x40 != 0,
            a12_invert: val & 0x80 != 0,
            ..o
        }
    } else if window == 0 {
        f.r@ == o.r@.update(o.bank_register_to_update as int, val) && f == Mmc3CpuMemory {
            r: f.r,
            ..o
        }
    } else if window == 1 && even {
        f == o
    } else if window == 1 {
        f == Mmc3CpuMemory {
            prg_ram_protect: val & 0x40 != 0,
            prg_ram_enable: val & 0x80 != 0,
            ..o
        }
    } else if window == 2 && even {
        f == Mmc3CpuMemory { ppu_memory: Mmc3PpuMemory { irq_latch: val, ..irq_block }, ..o }
    } else if window == 2 {
        f == Mmc3CpuMemory { ppu_memory: Mmc3PpuMemory { irq_reload: true, ..irq_block }, ..o }
    } else if even {
        f == Mmc3CpuMemory {
            ppu_memory: Mmc3PpuMemory { irq_enable: false, irq_asserted: false, ..irq_block },
            ..o
        }
    } else {
        f == Mmc3CpuMemory { ppu_memory: Mmc3PpuMemory { irq_enable: true, ..irq_block }, ..o }
    }
}

impl Mmc3CpuMemory {
    pub fn new() -> (r: Self)
        ensures
            r.r@ == seq![0u8; 8],
            r.bank_register_to_update == 0,
            !r.prg_banks_swapped,
            !r.a12_invert,
            !r.prg_ram_enable,
            !r.prg_ram_protect,
            r.ppu_memory == (Mmc3PpuMemory {
                irq_latch: 0,
                irq_counter: 0,
                irq_reload: false,
                irq_enable: false,
                irq_asserted: false,
                prev_a12_high: false,
                last_a12_high: 0,
            }),
    {
        Mmc3CpuMemory {
            r: [0u8; 8],
            bank_register_to_update: 0,
            prg_banks_swapped: false,
            a12_invert: false,
            prg_ram_enable: false,
            prg_ram_protect: false,
            ppu_memory: Mmc3PpuMemory::new(),
        }
    }

    pub open spec fn wf(self) -> bool {
        self.bank_register_to_update < 8
    }

    /// PRG bank for a CPU address in 0x8000-0xFFFF.
    pub fn prg_bank(&self, addr: u16, n: u32) -> (r: u32)
        requires
            addr >= 0x8000,
            is_bank_count(n),
        ensures
            r as int == prg_bank_of(*self, addr, n),
            r < n,
    {
        proof {
            lemma_bank_mask_in_bounds(self.r[6] as u32, n);
            lemma_bank_mask_in_bounds(self.r[7] as u32, n);
        }
        let window = (addr - 0x8000) / 0x2000;
        if window == 0 {
            if self.prg_banks_swapped {
                n - 2
            } else {
                self.r[6] as u32 & (n - 1)
            }
        } else if window == 1 {
            self.r[7] as u32 & (n - 1)
        } else if window == 2 {
            if self.prg_banks_swapped {
                self.r[6] as u32 & (n - 1)
            } else {
                n - 2
            }
        } else {
            n - 1
        }
    }

    /// CHR bank for a PPU address in 0x0000-0x1FFF.
    pub fn chr_bank(&self, addr: u16, n: u32) -> (r: u32)
        requires
            addr < 0x2000,
            is_bank_count(n),
        ensures
            r as int == chr_bank_of(*self, addr, n),
            r < n,
    {
        let k = calc_chr_bank_register_idx(addr, self.a12_invert);
        let base = self.r[k as usize] as u32 & (n - 1);
        proof {
            lemma_bank_mask_in_bounds(self.r[k as int] as u32, n);
        }
        if k < 2 {
            if (addr / 0x400) % 2 == 1 {
                base | 1
            } else {
                base & 0xfffffffe
            }
        } else {
            base
        }
    }

    /// A CPU write to 0x8000-0xFFFF: bank select/data, mirroring, PRG RAM
    /// control, IRQ latch/reload and IRQ disable/enable, chosen by the 8 KiB
    /// window and the low address bit.
    pub fn write_register(&mut self, addr: u16, val: u8, mirroring: &mut crate::ppu_bus::Mirroring, irq_level: &mut i8)
        requires
            addr >= 0x8000,
            old(self).wf(),
        ensures
            final(self).wf(),
            register_written(*old(self), *final(self), addr, val, *old(mirroring), *final(mirroring), *old(irq_level), *final(irq_level)),
    {
        let window = (addr - 0x8000) / 0x2000;
        let even = addr % 2 == 0;
        if window == 0 {
            if even {
                self.bank_register_to_update = val % 8;
                self.prg_banks_swapped = val & 0x40 != 0;
                self.a12_invert = val & 0x80 != 0;
            } else {
                self.r[self.bank_register_to_update as usize] = val;
            }
        } else if window == 1 {
            if even {
                if *mirroring != crate::ppu_bus::Mirroring::FourScreen {
                    *mirroring = if val % 2 == 1 {
                        crate::ppu_bus::Mirroring::Horizontal
                    } else {
                        crate::ppu_bus::Mirroring::Vertical
                    };
                }
            } else {
                self.prg_ram_protect = val & 0x40 != 0;
                self.prg_ram_enable = val & 0x80 != 0;
            }
        } else if window == 2 {
            if even {
                self.ppu_memory.irq_latch = val;
            } else {
                self.ppu_memory.irq_reload = true;
            }
        } else {
            if even {
                self.ppu_memory.irq_enable = false;
                if self.ppu_memory.irq_asserted {
                    self.ppu_memory.irq_asserted = false;
                    if *irq_level > i8::MIN {
                        *irq_level = *irq_level - 1;
                    }
                }
            } else {
                self.ppu_memory.irq_enable = true;
            }
        }
    }
}

} // verus!
