use vstd::prelude::*;
use crate::cartridge::Cartridge;
use crate::cpu::{Cpu, MemoryMap, regs_kept};
use crate::oam::bit8;
use crate::ppu::Ppu;

verus! {

/// A standard controller: an 8-bit shift register of buttons (A, B,
/// Select, Start, Up, Down, Left, Right from bit 0).
#[derive(Clone, Copy, Debug)]
pub struct Controller {
    pub buttons: u8,
    pub latched: u8,
    pub index: u8,
    pub strobe: bool,
}

impl Controller {
    pub fn new() -> (r: Self)
        ensures
            r.buttons == 0,
            r.latched == 0,
            r.index == 0,
            !r.strobe,
    {
        Controller { buttons: 0, latched: 0, index: 0, strobe: false }
    }

    /// The host sets the pressed buttons.
    pub fn set_state(&mut self, bits: u8)
        ensures
            *final(self) == (Controller { buttons: bits, ..*old(self) }),
    {
        self.buttons = bits;
    }

    /// The effect of a write of `val` to 0x4016.
    pub open spec fn written(self, new: Controller, val: u8) -> bool {
        &&& new.strobe == (val % 2 == 1)
        &&& new.buttons == self.buttons
        &&& self.strobe && val % 2 == 0 ==> new.latched == self.buttons && new.index == 0
        &&& !(self.strobe && val % 2 == 0) ==> new.latched == self.latched && new.index
            == self.index
    }

    /// The effect of a read of 0x4016 that returned `r`.
    pub open spec fn was_read(self, new: Controller, r: u8) -> bool {
        &&& self.strobe ==> r == self.buttons % 2 && new == self
        &&& !self.strobe && self.index < 8 ==> r == bit8(self.latched, self.index) && new
            == Controller { index: (self.index + 1) as u8, ..self }
        &&& !self.strobe && self.index >= 8 ==> r == 1 && new == self
    }

    /// A write to 0x4016: bit 0 is the strobe; its falling edge latches the
    /// buttons and restarts the shift.
    pub fn write(&mut self, val: u8)
        ensures
            old(self).written(*final(self), val),
    {
        let s = val % 2 == 1;
        if self.strobe && !s {
            self.latched = self.buttons;
            self.index = 0;
        }
        self.strobe = s;
    }

    /// A read of 0x4016: while strobing, button A; else the next latched
    /// bit, and 1 once all 8 are out.
    pub fn read(&mut self) -> (r: u8)
        ensures
            old(self).was_read(*final(self), r),
    {
        if self.strobe {
            self.buttons % 2
        } else if self.index < 8 {
            proof {
                crate::oam::lemma_bit8_small(self.latched, self.index);
            }
            let r = (self.latched >> self.index) & 1;
            self.index = self.index + 1;
            r
        } else {
            1
        }
    }
}

/// The CPU address bus: internal RAM, the PPU, the cartridge and the
/// controller port.
pub struct CpuBus {
    pub ram: Vec<u8>,
    pub ppu: Ppu,
    pub cart: Cartridge,
    pub controller: Controller,
}

/// PPU register selected by a CPU address in 0x2000-0x3FFF: the window of
/// eight registers repeats every 8 bytes.
pub open spec fn ppu_register_index(addr: u16) -> int {
    (addr - 0x2000) % 8
}

/// A read at 0x2000 + k, for any k in [0, 0x1FFF], selects the same
/// register as a read at 0x2000 + (k & 7).
pub proof fn lemma_ppu_window_mirrors(k: u16)
    requires
        k <= 0x1fff,
    ensures
        ppu_register_index((0x2000 + k) as u16) == ppu_register_index((0x2000 + (k & 7)) as u16),
        0 <= ppu_register_index((0x2000 + k) as u16) < 8,
{
    assert(k & 7 == k % 8) by (bit_vector);
}

impl CpuBus {
    pub open spec fn bus_wf(self) -> bool {
        &&& self.ram@.len() == 0x800
        &&& self.ppu.wf()
        &&& self.cart.wf()
    }

    /// The byte that OAM DMA copies from `addr`: RAM (mirrored every 2 KiB)
    /// or the cartridge; the I/O region reads as 0.
    pub open spec fn dma_peek(self, addr: u16) -> u8 {
        if addr < 0x2000 {
            self.ram@[addr as int % 0x800]
        } else if addr >= 0x4020 {
            self.cart.cpu_peek(addr)
        } else {
            0
        }
    }

    pub fn new(cart: Cartridge) -> (r: Self)
        requires
            cart.wf(),
        ensures
            r.bus_wf(),
            r.ram@ == Seq::new(0x800, |i: int| 0u8),
            r.cart == cart,
            r.controller == (Controller { buttons: 0, latched: 0, index: 0, strobe: false }),
            r.ppu.is_fresh(),
    {
        let ram = vec![0u8; 0x800];
        assert(ram@ =~= Seq::new(0x800, |i: int| 0u8));
        CpuBus { ram, ppu: Ppu::new(), cart, controller: Controller::new() }
    }

    /// Runs the PPU up to three times the CPU's clock.
    pub fn catch_up_ppu(&mut self, cpu: &mut Cpu)
        requires
            old(self).bus_wf(),
        ensures
            final(self).bus_wf(),
            regs_kept(*old(cpu), *final(cpu)),
            final(cpu).cycle_count == old(cpu).cycle_count,
            final(self).ram@ == old(self).ram@,
            final(self).cart.same_memory(old(self).cart),
            final(self).controller == old(self).controller,
            Ppu::caught_up(
                old(self).ppu,
                final(self).ppu,
                old(self).cart,
                final(self).cart,
                old(cpu).nmi_edge,
                final(cpu).nmi_edge,
                old(cpu).cycle_count,
            ),
            old(cpu).cycle_count <= u64::MAX / 3 ==> final(self).ppu.cycle_count >= 3 * old(
                cpu,
            ).cycle_count,
            final(self).ppu.oamaddr == old(self).ppu.oamaddr,
            final(self).ppu.oam.primary.bytes@ == old(self).ppu.oam.primary.bytes@,
    {
        if cpu.cycle_count <= u64::MAX / 3 {
            self.ppu.catch_up(cpu.cycle_count, &mut self.cart, &mut cpu.nmi_edge, &mut cpu.irq_level);
        }
    }

    fn dma_byte(&self, addr: u16) -> (r: u8)
        requires
            self.bus_wf(),
        ensures
            r == self.dma_peek(addr),
    {
        if addr < 0x2000 {
            self.ram[(addr % 0x800) as usize]
        } else if addr >= 0x4020 {
            self.cart.cpu_read(addr)
        } else {
            0
        }
    }

    /// OAM DMA from page `page`: the PPU is caught up, then the 256 bytes at
    /// `page << 8` land in OAM from OAMADDR on (wrapping), and the CPU is
    /// charged 513 cycles, 514 when its clock was odd.
    pub fn oamdma(&mut self, page: u8, cpu: &mut Cpu)
        requires
            old(self).bus_wf(),
        ensures
            final(self).bus_wf(),
            regs_kept(*old(cpu), *final(cpu)),
            final(self).ram@ == old(self).ram@,
            final(self).controller == old(self).controller,
            final(self).cart.same_memory(old(self).cart),
            final(self).ppu.oamaddr == old(self).ppu.oamaddr,
            forall|i: int|
                0 <= i < 256 ==> #[trigger] final(self).ppu.oam.primary.bytes@[(old(
                    self,
                ).ppu.oamaddr + i) % 256] == old(self).dma_peek((page * 256 + i) as u16),
            final(cpu).cycle_count == (if old(cpu).cycle_count <= u64::MAX - 514 {
                old(cpu).cycle_count + 513 + old(cpu).cycle_count % 2
            } else {
                old(cpu).cycle_count as int
            }),
    {
        self.catch_up_ppu(cpu);
        let ghost mid = *self;
        let base = page as u16 * 256;
        let mut bytes: Vec<u8> = Vec::new();
        let mut i: u16 = 0;
        while i < 256
            invariant
                self.bus_wf(),
                i <= 256,
                base == page * 256,
                bytes@.len() == i,
                forall|j: int| 0 <= j < i ==> #[trigger] bytes@[j] == self.dma_peek((base + j) as u16),
            decreases 256 - i,
        {
            let b = self.dma_byte(base + i);
            bytes.push(b);
            i = i + 1;
        }
        proof {
            assert forall|j: int| 0 <= j < 256 implies #[trigger] bytes@[j] == old(self).dma_peek(
                (page * 256 + j) as u16,
            ) by {
                assert(mid.ram@ == old(self).ram@);
                assert(mid.cart.cpu_peek((base + j) as u16) == old(self).cart.cpu_peek(
                    (base + j) as u16,
                ));
            }
        }
        self.ppu.write_oamdma(&bytes);
        assert forall|i: int| 0 <= i < 256 implies #[trigger] self.ppu.oam.primary.bytes@[(old(
            self,
        ).ppu.oamaddr + i) % 256] == old(self).dma_peek((page * 256 + i) as u16) by {
            assert(bytes@[i] == old(self).dma_peek((page * 256 + i) as u16));
        }
        let extra: u64 = 513 + cpu.cycle_count % 2;
        if cpu.cycle_count <= u64::MAX - 514 {
            cpu.cycle_count = cpu.cycle_count + extra;
        }
    }

    /// A CPU read: RAM mirrored every 2 KiB below 0x2000; the PPU registers
    /// (caught up first) in 0x2000-0x3FFF, mirrored every 8 bytes; the
    /// controller at 0x4016; the cartridge from 0x4020; 0 elsewhere.
    pub fn read(&mut self, addr: u16, cpu: &mut Cpu) -> (r: u8)
        requires
            old(self).bus_wf(),
        ensures
            final(self).bus_wf(),
            regs_kept(*old(cpu), *final(cpu)),
            final(cpu).cycle_count == old(cpu).cycle_count,
            final(self).ram@ == old(self).ram@,
            addr < 0x2000 ==> r == old(self).ram@[addr as int % 0x800] && final(self).ppu == old(
                self,
            ).ppu && final(self).cart == old(self).cart && *final(cpu) == *old(cpu),
            0x2000 <= addr < 0x4000 ==> exists|p: Ppu, c: Cartridge|
                {
                    &&& p.wf()
                    &&& c.wf()
                    &&& Ppu::caught_up(
                        old(self).ppu,
                        p,
                        old(self).cart,
                        c,
                        old(cpu).nmi_edge,
                        final(cpu).nmi_edge,
                        old(cpu).cycle_count,
                    )
                    &&& #[trigger] Ppu::register_read(
                        p,
                        final(self).ppu,
                        c,
                        final(self).cart,
                        ppu_register_index(addr) as u8,
                        r,
                    )
                },
            addr >= 0x4020 ==> r == old(self).cart.cpu_peek(addr) && final(self).ppu == old(
                self,
            ).ppu,
            addr >= 0x4000 && addr < 0x4020 && addr != 0x4016 ==> r == 0,
            (addr < 0x2000 || addr >= 0x4020) ==> *final(self) == *old(self) && *final(cpu)
                == *old(cpu),
            addr == 0x4016 ==> old(self).controller.was_read(final(self).controller, r),
            addr != 0x4016 ==> final(self).controller == old(self).controller,
            addr >= 0x4000 ==> final(self).ppu == old(self).ppu && final(self).cart == old(
                self,
            ).cart,
    {
        if addr < 0x2000 {
            self.ram[(addr % 0x800) as usize]
        } else if addr < 0x4000 {
            self.catch_up_ppu(cpu);
            let ghost p = self.ppu;
            let ghost c = self.cart;
            let r = self.ppu.read_register_by_index(((addr - 0x2000) % 8) as u8, &mut self.cart, &mut cpu.irq_level);
            assert(Ppu::register_read(p, self.ppu, c, self.cart, ppu_register_index(addr) as u8, r));
            r
        } else if addr == 0x4016 {
            self.controller.read()
        } else if addr >= 0x4020 {
            self.cart.cpu_read(addr)
        } else {
            0
        }
    }

    /// A CPU write: RAM, the PPU registers (caught up first), OAM DMA at
    /// 0x4014, the controller strobe at 0x4016, the cartridge from 0x4020.
    pub fn write(&mut self, addr: u16, val: u8, cpu: &mut Cpu)
        requires
            old(self).bus_wf(),
        ensures
            final(self).bus_wf(),
            regs_kept(*old(cpu), *final(cpu)),
            addr < 0x2000 ==> final(self).ram@ == old(self).ram@.update(addr as int % 0x800, val)
                && final(self).ppu == old(self).ppu && final(self).cart == old(self).cart
                && *final(cpu) == *old(cpu),
            addr >= 0x2000 ==> final(self).ram@ == old(self).ram@,
            0x2000 <= addr < 0x4000 ==> exists|p: Ppu, c: Cartridge, nmi: bool|
                {
                    &&& p.wf()
                    &&& c.wf()
                    &&& Ppu::caught_up(
                        old(self).ppu,
                        p,
                        old(self).cart,
                        c,
                        old(cpu).nmi_edge,
                        nmi,
                        old(cpu).cycle_count,
                    )
                    &&& #[trigger] Ppu::register_write(
                        p,
                        final(self).ppu,
                        c,
                        final(self).cart,
                        nmi,
                        final(cpu).nmi_edge,
                        ppu_register_index(addr) as u8,
                        val,
                    )
                },
            addr == 0x4014 ==> forall|i: int|
                0 <= i < 256 ==> #[trigger] final(self).ppu.oam.primary.bytes@[(old(
                    self,
                ).ppu.oamaddr + i) % 256] == old(self).dma_peek((val * 256 + i) as u16),
            addr != 0x4014 ==> final(cpu).cycle_count == old(cpu).cycle_count,
            addr == 0x4016 ==> old(self).controller.written(final(self).controller, val),
            addr != 0x4016 ==> final(self).controller == old(self).controller,
            addr >= 0x4020 ==> old(self).cart.cpu_written(
                final(self).cart,
                addr,
                val,
                old(cpu).irq_level,
                final(cpu).irq_level,
            ) && final(self).ppu == old(self).ppu,
    {
        if addr < 0x2000 {
            self.ram.set((addr % 0x800) as usize, val);
        } else if addr < 0x4000 {
            self.catch_up_ppu(cpu);
            let ghost p = self.ppu;
            let ghost c = self.cart;
            let ghost nmi = cpu.nmi_edge;
            self.ppu.write_register_by_index(((addr - 0x2000) % 8) as u8, val, &mut self.cart, &mut cpu.nmi_edge, &mut cpu.irq_level);
            assert(Ppu::register_write(p, self.ppu, c, self.cart, nmi, cpu.nmi_edge, ppu_register_index(addr) as u8, val));
        } else if addr == 0x4014 {
            self.oamdma(val, cpu);
        } else if addr == 0x4016 {
            self.controller.write(val);
        } else if addr >= 0x4020 {
            self.cart.cpu_write(addr, val, &mut cpu.irq_level);
        }
    }
}

impl MemoryMap for CpuBus {
    open spec fn wf(&self) -> bool {
        self.bus_wf()
    }

    open spec fn peek(&self, addr: u16) -> u8 {
        self.dma_peek(addr)
    }

    fn read_cpu(&mut self, addr: u16, cpu: &mut Cpu) -> (r: u8) {
        self.read(addr, cpu)
    }

    fn write_cpu(&mut self, addr: u16, val: u8, cpu: &mut Cpu) {
        self.write(addr, val, cpu)
    }

    fn sync_devices(&mut self, cpu: &mut Cpu) {
        self.catch_up_ppu(cpu)
    }

    open spec fn frame_done(&self) -> bool {
        self.ppu.frame_done
    }

    fn is_frame_done(&self) -> (r: bool) {
        self.ppu.frame_done
    }

    fn clear_frame_done(&mut self) {
        self.ppu.frame_done = false;
    }
}

/// A bus that also captures what a test ROM reports: the status byte
/// written to 0x6000 and the text written from 0x6004 on (256 bytes).
pub struct TestCpuAddressBus {
    pub bus: CpuBus,
    pub test_output: Vec<u8>,
    pub test_status: Option<u8>,
}

impl TestCpuAddressBus {
    pub open spec fn test_wf(self) -> bool {
        self.bus.bus_wf() && self.test_output@.len() == 0x100
    }

    pub fn new(bus: CpuBus) -> (r: Self)
        requires
            bus.bus_wf(),
        ensures
            r.test_wf(),
            r.test_status is None,
            r.test_output@ == Seq::new(0x100, |i: int| 0u8),
    {
        let out = vec![0u8; 0x100];
        assert(out@ =~= Seq::new(0x100, |i: int| 0u8));
        TestCpuAddressBus { bus, test_output: out, test_status: None }
    }

    /// Reads of the report area come from the capture (0x6000 reads 0xFF
    /// until a status is written); everything else goes to the bus.
    pub fn read(&mut self, addr: u16, cpu: &mut Cpu) -> (r: u8)
        requires
            old(self).test_wf(),
        ensures
            final(self).test_wf(),
            regs_kept(*old(cpu), *final(cpu)),
            final(self).test_output@ == old(self).test_output@,
            final(self).test_status == old(self).test_status,
            0x6004 <= addr < 0x6104 ==> r == old(self).test_output@[addr - 0x6004],
            (addr < 0x2000 || addr >= 0x8000) ==> r == old(self).bus.dma_peek(addr)
                && *final(self) == *old(self) && *final(cpu) == *old(cpu),
            addr == 0x6000 ==> r == (match old(self).test_status {
                Some(s) => s,
                None => 0xffu8,
            }),
    {
        if 0x6004 <= addr && addr < 0x6104 {
            self.test_output[(addr - 0x6004) as usize]
        } else if addr == 0x6000 {
            match self.test_status {
                Some(s) => s,
                None => 0xff,
            }
        } else {
            self.bus.read(addr, cpu)
        }
    }

    /// Writes to the report area are captured, and every write goes on to
    /// the bus.
    pub fn write(&mut self, addr: u16, val: u8, cpu: &mut Cpu)
        requires
            old(self).test_wf(),
        ensures
            final(self).test_wf(),
            regs_kept(*old(cpu), *final(cpu)),
            0x6004 <= addr < 0x6104 ==> final(self).test_output@ == old(self).test_output@.update(
                addr - 0x6004,
                val,
            ),
            !(0x6004 <= addr < 0x6104) ==> final(self).test_output@ == old(self).test_output@,
            addr == 0x6000 ==> final(self).test_status == Some(val),
            addr < 0x2000 ==> final(self).bus.ram@ == old(self).bus.ram@.update(
                addr as int % 0x800,
                val,
            ) && final(self).bus.cart == old(self).bus.cart && *final(cpu) == *old(cpu),
            addr != 0x6000 ==> final(self).test_status == old(self).test_status,
    {
        if 0x6004 <= addr && addr < 0x6104 {
            self.test_output.set((addr - 0x6004) as usize, val);
        } else if addr == 0x6000 {
            self.test_status = Some(val);
        }
        self.bus.write(addr, val, cpu);
    }

    /// The captured text: the bytes before the first 0.
    pub fn output_text(&self) -> (r: Vec<u8>)
        requires
            self.test_wf(),
        ensures
            r@.len() <= 0x100,
            r@ == self.test_output@.subrange(0, r@.len() as int),
            r@.len() < 0x100 ==> self.test_output@[r@.len() as int] == 0,
            forall|i: int| 0 <= i < r@.len() ==> #[trigger] r@[i] != 0,
    {
        let mut r: Vec<u8> = Vec::new();
        let mut i: usize = 0;
        while i < 0x100
            invariant
                self.test_wf(),
                i <= 0x100,
                r@.len() == i,
                r@ == self.test_output@.subrange(0, i as int),
                forall|j: int| 0 <= j < i ==> #[trigger] r@[j] != 0,
            decreases 0x100 - i,
        {
            let b = self.test_output[i];
            if b == 0 {
                return r;
            }
            r.push(b);
            i = i + 1;
            assert(r@ =~= self.test_output@.subrange(0, i as int));
        }
        r
    }
}

impl MemoryMap for TestCpuAddressBus {
    open spec fn wf(&self) -> bool {
        self.test_wf()
    }

    open spec fn peek(&self, addr: u16) -> u8 {
        self.bus.dma_peek(addr)
    }

    fn read_cpu(&mut self, addr: u16, cpu: &mut Cpu) -> (r: u8) {
        self.read(addr, cpu)
    }

    fn write_cpu(&mut self, addr: u16, val: u8, cpu: &mut Cpu) {
        self.write(addr, val, cpu)
    }

    fn sync_devices(&mut self, cpu: &mut Cpu) {
        self.bus.catch_up_ppu(cpu)
    }

    open spec fn frame_done(&self) -> bool {
        self.bus.ppu.frame_done
    }

    fn is_frame_done(&self) -> (r: bool) {
        self.bus.ppu.frame_done
    }

    fn clear_frame_done(&mut self) {
        self.bus.ppu.frame_done = false;
    }
}

} // verus!
