use vstd::prelude::*;
use crate::bg::{BgDrawState, bg_pixel_of};
use crate::cartridge::Cartridge;
use crate::colors::{get_color_from_index, wavebeam};
use crate::oam::{Oam, SpriteInfo, sprite_at};
use crate::ppu_bus::{calc_ppu_palette_addr, palette_index};
use crate::vram_addr::{
    VramAddrRegister, coarse_x_stepped, y_stepped, horizontal_copied, vertical_copied, ScrollRegs, increment_by, incremented, rendering_stepped, scroll_write, addr_write, ctrl_write};

verus! {

pub const FRAME_WIDTH: usize = 256;

pub const FRAME_HEIGHT: usize = 240;

/// The picture processing unit: registers, scroll state, OAM, the
/// background pipeline, the beam position and the framebuffer it draws.
pub struct Ppu {
    pub oam: Oam,
    pub bg: BgDrawState,
    pub scroll: ScrollRegs,
    /// PPU clocks since power-on.
    pub cycle_count: u64,
    pub ppuctrl: u8,
    pub ppumask: u8,
    pub ppustatus: u8,
    pub oamaddr: u8,
    pub ppudata_read_buffer: u8,
    pub even_frame: bool,
    /// -1 pre-render, 0-239 visible, 240 idle, 241-260 VBlank.
    pub current_scanline: i16,
    pub current_scanline_dot: u16,
    /// Set on entering VBlank; the host clears it after presenting.
    pub frame_done: bool,
    /// 256x240 pixels, row by row.
    pub framebuffer: Vec<u32>,
}

pub open spec fn rendering_enabled(mask: u8) -> bool {
    mask & 0x08 != 0 || mask & 0x10 != 0
}

/// The beam position after one dot. On odd frames with rendering enabled
/// the last dot of the pre-render line is skipped.
pub open spec fn next_position(scanline: int, dot: int, skip: bool) -> (int, int) {
    if scanline == -1 && dot == 339 && skip {
        (0, 0)
    } else if dot == 340 {
        (if scanline == 260 {
            -1
        } else {
            scanline + 1
        }, 0)
    } else {
        (scanline, dot + 1)
    }
}

/// Palette RAM address of an output pixel from the background pixel (colour,
/// palette) and the sprite pixel: the sprite wins over a transparent
/// background, or over an opaque one when it is in front; both transparent
/// give the backdrop.
pub open spec fn mux_palette_addr(bg_color: int, bg_palette: int, spr: Option<SpriteInfo>) -> int {
    match spr {
        None => if bg_color == 0 {
            0x3f00
        } else {
            0x3f00 + bg_palette * 4 + bg_color
        },
        Some(s) => if bg_color == 0 || s.is_in_front {
            0x3f00 + s.palette_index * 4 + s.color_index
        } else {
            0x3f00 + bg_palette * 4 + bg_color
        },
    }
}

pub fn mux_pixel(bg_color: u8, bg_palette: u8, spr: Option<SpriteInfo>) -> (r: u16)
    requires
        bg_color < 4,
        bg_palette < 4,
        spr is Some ==> spr->Some_0.color_index < 4 && spr->Some_0.palette_index < 8,
    ensures
        r as int == mux_palette_addr(bg_color as int, bg_palette as int, spr),
{
    match spr {
        None => if bg_color == 0 {
            0x3f00
        } else {
            0x3f00 + bg_palette as u16 * 4 + bg_color as u16
        },
        Some(s) => if bg_color == 0 || s.is_in_front {
            0x3f00 + s.palette_index as u16 * 4 + s.color_index as u16
        } else {
            0x3f00 + bg_palette as u16 * 4 + bg_color as u16
        },
    }
}

impl Ppu {
    pub open spec fn wf(self) -> bool {
        &&& self.oam.wf()
        &&& self.scroll.wf()
        &&& -1 <= self.current_scanline <= 260
        &&& self.current_scanline_dot <= 340
        &&& self.framebuffer@.len() == 256 * 240
    }

    /// Rendering counts as active, for register accesses, while the VBlank
    /// flag is clear and the background or sprites are enabled.
    pub open spec fn rendering_active(self) -> bool {
        !self.vblank() && rendering_enabled(self.ppumask)
    }

    pub open spec fn vblank(self) -> bool {
        self.ppustatus & 0x80 != 0
    }

    /// The effect of a CPU read of register `index` that returned `r`:
    /// `o`, `oc` before and `n`, `nc` after.
    pub open spec fn register_read(
        o: Ppu,
        n: Ppu,
        oc: Cartridge,
        nc: Cartridge,
        index: u8,
        r: u8,
    ) -> bool {
        &&& nc.same_memory(oc)
        &&& n.bg == o.bg
        &&& n.even_frame == o.even_frame
        &&& n.frame_done == o.frame_done
        &&& n.framebuffer == o.framebuffer
        &&& index != 2 && index != 4 && index != 7 ==> n == o && nc == oc
        &&& n.ppuctrl == o.ppuctrl
        &&& n.ppumask == o.ppumask
        &&& n.oam == o.oam
        &&& n.oamaddr == o.oamaddr
        &&& n.current_scanline == o.current_scanline
        &&& n.current_scanline_dot == o.current_scanline_dot
        &&& n.cycle_count == o.cycle_count
        &&& index == 2 ==> {
            &&& r == o.ppustatus
            &&& n.ppustatus == o.ppustatus & 0x7f
            &&& n.scroll == (ScrollRegs { w: false, ..o.scroll })
        }
        &&& index == 4 ==> r == o.oam.primary.bytes@[o.oamaddr as int]
            && n.scroll == o.scroll
        &&& index == 7 ==> {
            let a = (o.scroll.v.inner % 0x4000) as u16;
            &&& a >= 0x3f00 ==> r == oc.ppu_peek(a)
                && n.ppudata_read_buffer == oc.ppu_peek((a - 0x1000) as u16)
            &&& a < 0x3f00 ==> r == o.ppudata_read_buffer
                && n.ppudata_read_buffer == oc.ppu_peek(a)
            &&& !o.rendering_active() ==> n.scroll.v == incremented(
                o.scroll.v,
                o.ppuctrl & 0x04 != 0,
            )
            &&& o.rendering_active() ==> n.scroll.v == rendering_stepped(o.scroll.v)
            &&& n.scroll.t == o.scroll.t
            &&& n.scroll.w == o.scroll.w
        }
        &&& index != 2 && index != 4 && index != 7 ==> r == 0 && n.scroll
            == o.scroll && n.ppustatus == o.ppustatus
        &&& index != 2 ==> n.ppustatus == o.ppustatus
        &&& index != 7 ==> n.ppudata_read_buffer == o.ppudata_read_buffer
            && nc == oc
    }

    /// The effect of a CPU write of `val` to register `index`.
    pub open spec fn register_write(
        o: Ppu,
        n: Ppu,
        oc: Cartridge,
        nc: Cartridge,
        onmi: bool,
        nnmi: bool,
        index: u8,
        val: u8,
    ) -> bool {
        &&& n.current_scanline == o.current_scanline
        &&& n.current_scanline_dot == o.current_scanline_dot
        &&& n.cycle_count == o.cycle_count
        &&& n.ppustatus == o.ppustatus
        &&& n.bg == o.bg
        &&& n.even_frame == o.even_frame
        &&& n.frame_done == o.frame_done
        &&& n.framebuffer == o.framebuffer
        &&& n.ppudata_read_buffer == o.ppudata_read_buffer
        &&& index == 0 ==> {
            &&& n.ppuctrl == val
            &&& n.scroll == ctrl_write(o.scroll, val)
            &&& nnmi == (onmi || (val & 0x80 != 0 && o.ppuctrl & 0x80
                == 0 && o.vblank()))
        }
        &&& index != 0 ==> n.ppuctrl == o.ppuctrl && nnmi == onmi
        &&& index == 1 ==> n.ppumask == val
        &&& index != 1 ==> n.ppumask == o.ppumask
        &&& index == 3 ==> n.oamaddr == val
        &&& index == 4 && !o.rendering_active() ==> {
            &&& n.oam.primary.bytes@ == o.oam.primary.bytes@.update(
                o.oamaddr as int,
                val,
            )
            &&& n.oamaddr == (o.oamaddr + 1) % 256
        }
        &&& index == 4 && o.rendering_active() ==> n.oam == o.oam
            && n.oamaddr == o.oamaddr
        &&& index != 4 ==> n.oam == o.oam
        &&& index != 3 && index != 4 ==> n.oamaddr == o.oamaddr
        &&& index == 5 ==> n.scroll == scroll_write(o.scroll, val)
        &&& index == 6 ==> n.scroll == addr_write(o.scroll, val)
        &&& index == 7 ==> {
            &&& oc.wrote_ppu(nc, (o.scroll.v.inner % 0x4000) as u16, val)
            &&& !o.rendering_active() ==> n.scroll.v == incremented(
                o.scroll.v,
                o.ppuctrl & 0x04 != 0,
            )
            &&& o.rendering_active() ==> n.scroll.v == rendering_stepped(o.scroll.v)
            &&& n.scroll.t == o.scroll.t
            &&& n.scroll.w == o.scroll.w
        }
        &&& index != 7 ==> nc == oc
        &&& index != 0 && index != 5 && index != 6 && index != 7
            ==> n.scroll == o.scroll
    }

    /// `n`, `nc`, `nnmi` are what catching `o`, `oc`, `onmi` up to the CPU
    /// clock `cpu_cycles` gives (as `catch_up` states it); past the
    /// counter's range nothing changes.
    pub open spec fn caught_up(
        o: Ppu,
        n: Ppu,
        oc: Cartridge,
        nc: Cartridge,
        onmi: bool,
        nnmi: bool,
        cpu_cycles: u64,
    ) -> bool {
        if cpu_cycles > u64::MAX / 3 {
            n == o && nc == oc && nnmi == onmi
        } else {
            let k = (n.cycle_count - o.cycle_count) as nat;
            let s = o.current_scanline as int;
            let d = o.current_scanline_dot as int;
            &&& n.wf()
            &&& nc.wf()
            &&& nc.same_memory(oc)
            &&& n.cycle_count == (if o.cycle_count >= 3 * cpu_cycles {
                o.cycle_count as int
            } else {
                3 * cpu_cycles
            })
            &&& o.cycle_count >= 3 * cpu_cycles ==> n == o && nc == oc && nnmi == onmi
            &&& (n.current_scanline as int, n.current_scanline_dot as int, n.even_frame)
                == beam_after(s, d, o.even_frame, o.ppumask, k)
            &&& n.vblank() == vblank_after(s, d, o.even_frame, o.ppumask, o.vblank(), k)
            &&& nnmi == nmi_after(s, d, o.even_frame, o.ppumask, onmi, o.ppuctrl & 0x80 != 0, k)
            &&& flags_cleared_after(s, d, o.even_frame, o.ppumask, k) ==> n.ppustatus & 0xe0 == 0
            &&& no_flag_clear_after(s, d, o.even_frame, o.ppumask, k) ==> flags_kept(
                o.ppustatus,
                n.ppustatus,
            )
            &&& n.ppuctrl == o.ppuctrl
            &&& n.ppumask == o.ppumask
            &&& n.oamaddr == o.oamaddr
            &&& n.oam.primary.bytes@ == o.oam.primary.bytes@
            &&& n.scroll.t == o.scroll.t
            &&& n.scroll.w == o.scroll.w
            &&& n.scroll.fine_x == o.scroll.fine_x
            &&& n.ppudata_read_buffer == o.ppudata_read_buffer
        }
    }

    /// The power-on state.
    pub open spec fn is_fresh(self) -> bool {
        &&& self.wf()
        &&& self.cycle_count == 0
        &&& self.current_scanline == -1
        &&& self.current_scanline_dot == 0
        &&& self.ppuctrl == 0
        &&& self.ppumask == 0
        &&& self.ppustatus == 0
        &&& self.oamaddr == 0
        &&& self.ppudata_read_buffer == 0
        &&& self.even_frame
        &&& !self.frame_done
        &&& self.scroll == (ScrollRegs {
            v: crate::vram_addr::VramAddrRegister { inner: 0 },
            t: crate::vram_addr::VramAddrRegister { inner: 0 },
            fine_x: 0,
            w: false,
        })
        &&& self.oam.primary.bytes@ == Seq::new(256, |i: int| 0u8)
        &&& self.oam.secondary.entries@.len() == 0
        &&& self.bg.tile_bitplanes_hi.bits == 0
        &&& self.bg.tile_bitplanes_lo.bits == 0
        &&& self.bg.tile_palette_indices == 0
        &&& self.framebuffer@ == Seq::new(256 * 240, |i: int| 0u32)
    }

    pub fn new() -> (r: Self)
        ensures
            r.is_fresh(),
            r.wf(),
    {
        let fb = vec![0u32; 256 * 240];
        assert(fb@ =~= Seq::new(256 * 240, |i: int| 0u32));
        Ppu {
            oam: Oam::new(),
            bg: BgDrawState::new(),
            scroll: ScrollRegs::new(),
            cycle_count: 0,
            ppuctrl: 0,
            ppumask: 0,
            ppustatus: 0,
            oamaddr: 0,
            ppudata_read_buffer: 0,
            even_frame: true,
            current_scanline: -1,
            current_scanline_dot: 0,
            frame_done: false,
            framebuffer: fb,
        }
    }

    pub fn get_base_nametable_addr(&self) -> (r: u16)
        ensures
            r == 0x2000 + (self.ppuctrl % 4) as u16 * 0x400,
    {
        0x2000 + (self.ppuctrl % 4) as u16 * 0x400
    }

    /// Whether PPUDATA accesses step `v` by 32 (else by 1).
    pub fn get_vram_addr_increment(&self) -> (r: bool)
        ensures
            r == (self.ppuctrl & 0x04 != 0),
    {
        self.ppuctrl & 0x04 != 0
    }

    pub fn get_8x8_sprite_pattern_table_addr(&self) -> (r: u16)
        ensures
            r == (if self.ppuctrl & 0x08 != 0 {
                0x1000u16
            } else {
                0
            }),
    {
        if self.ppuctrl & 0x08 != 0 {
            0x1000
        } else {
            0
        }
    }

    pub fn get_background_pattern_table_addr(&self) -> (r: u16)
        ensures
            r == (if self.ppuctrl & 0x10 != 0 {
                0x1000u16
            } else {
                0
            }),
    {
        if self.ppuctrl & 0x10 != 0 {
            0x1000
        } else {
            0
        }
    }

    /// Sprite height in pixels: 16 when PPUCTRL bit 5 is set, else 8.
    pub fn get_sprite_size(&self) -> (r: u8)
        ensures
            r == (if self.ppuctrl & 0x20 != 0 {
                16u8
            } else {
                8
            }),
    {
        if self.ppuctrl & 0x20 != 0 {
            16
        } else {
            8
        }
    }

    pub fn is_vblank_nmi_enabled(&self) -> (r: bool)
        ensures
            r == (self.ppuctrl & 0x80 != 0),
    {
        self.ppuctrl & 0x80 != 0
    }

    /// PPUCTRL bit 6 (EXT pins as outputs); the emulation does not use it.
    pub fn get_master_slave_mode(&self) -> (r: bool)
        ensures
            r == (self.ppuctrl & 0x40 != 0),
    {
        self.ppuctrl & 0x40 != 0
    }

    pub fn is_red_emphasized(&self) -> (r: bool)
        ensures
            r == (self.ppumask & 0x20 != 0),
    {
        self.ppumask & 0x20 != 0
    }

    pub fn is_green_emphasized(&self) -> (r: bool)
        ensures
            r == (self.ppumask & 0x40 != 0),
    {
        self.ppumask & 0x40 != 0
    }

    pub fn is_blue_emphasized(&self) -> (r: bool)
        ensures
            r == (self.ppumask & 0x80 != 0),
    {
        self.ppumask & 0x80 != 0
    }

    pub fn is_greyscale_enabled(&self) -> (r: bool)
        ensures
            r == (self.ppumask & 0x01 != 0),
    {
        self.ppumask & 0x01 != 0
    }

    pub fn is_background_left_column_enable(&self) -> (r: bool)
        ensures
            r == (self.ppumask & 0x02 != 0),
    {
        self.ppumask & 0x02 != 0
    }

    pub fn is_sprites_left_column_enable(&self) -> (r: bool)
        ensures
            r == (self.ppumask & 0x04 != 0),
    {
        self.ppumask & 0x04 != 0
    }

    pub fn is_background_enable(&self) -> (r: bool)
        ensures
            r == (self.ppumask & 0x08 != 0),
    {
        self.ppumask & 0x08 != 0
    }

    pub fn is_sprites_enable(&self) -> (r: bool)
        ensures
            r == (self.ppumask & 0x10 != 0),
    {
        self.ppumask & 0x10 != 0
    }

    pub fn is_sprite_overflow(&self) -> (r: bool)
        ensures
            r == (self.ppustatus & 0x20 != 0),
    {
        self.ppustatus & 0x20 != 0
    }

    pub fn is_sprite_zero_hit(&self) -> (r: bool)
        ensures
            r == (self.ppustatus & 0x40 != 0),
    {
        self.ppustatus & 0x40 != 0
    }

    pub fn is_vblank(&self) -> (r: bool)
        ensures
            r == self.vblank(),
    {
        self.ppustatus & 0x80 != 0
    }

    pub fn set_sprite_overflow(&mut self, overflow: bool)
        ensures
            *final(self) == (Ppu {
                ppustatus: crate::alu::with_flag(old(self).ppustatus, 0x20, overflow),
                ..*old(self)
            }),
    {
        self.ppustatus = crate::alu::set_flag(self.ppustatus, 0x20, overflow);
    }

    pub fn set_sprite_zero_hit(&mut self, hit: bool)
        ensures
            *final(self) == (Ppu {
                ppustatus: crate::alu::with_flag(old(self).ppustatus, 0x40, hit),
                ..*old(self)
            }),
    {
        self.ppustatus = crate::alu::set_flag(self.ppustatus, 0x40, hit);
    }

    pub fn set_vblank(&mut self, vblank: bool)
        ensures
            *final(self) == (Ppu {
                ppustatus: crate::alu::with_flag(old(self).ppustatus, 0x80, vblank),
                ..*old(self)
            }),
    {
        self.ppustatus = crate::alu::set_flag(self.ppustatus, 0x80, vblank);
    }

    pub fn get_fine_x_scroll(&self) -> (r: u8)
        ensures
            r == self.scroll.fine_x,
    {
        self.scroll.fine_x
    }

    pub fn is_currently_rendering(&self) -> (r: bool)
        ensures
            r == self.rendering_active(),
    {
        self.ppustatus & 0x80 == 0 && (self.ppumask & 0x08 != 0 || self.ppumask & 0x10 != 0)
    }

    /// Steps `v` after a PPUDATA access: by 1 or 32 outside rendering; while
    /// rendering, a coarse x and a y increment.
    fn increment_vram_addr_after_access(&mut self)
        requires
            old(self).wf(),
        ensures
            final(self).wf(),
            !old(self).rendering_active() ==> final(self).scroll.v == incremented(
                old(self).scroll.v,
                old(self).ppuctrl & 0x04 != 0,
            ),
            old(self).rendering_active() ==> final(self).scroll.v == rendering_stepped(
                old(self).scroll.v,
            ),
            final(self).scroll.t == old(self).scroll.t,
            final(self).scroll.w == old(self).scroll.w,
            final(self).scroll.fine_x == old(self).scroll.fine_x,
            final(self).oam == old(self).oam,
            final(self).bg == old(self).bg,
            final(self).even_frame == old(self).even_frame,
            final(self).frame_done == old(self).frame_done,
            final(self).ppuctrl == old(self).ppuctrl,
            final(self).ppumask == old(self).ppumask,
            final(self).ppustatus == old(self).ppustatus,
            final(self).oamaddr == old(self).oamaddr,
            final(self).ppudata_read_buffer == old(self).ppudata_read_buffer,
            final(self).current_scanline == old(self).current_scanline,
            final(self).current_scanline_dot == old(self).current_scanline_dot,
            final(self).cycle_count == old(self).cycle_count,
            final(self).framebuffer == old(self).framebuffer,
    {
        if !self.is_currently_rendering() {
            let inc = self.get_vram_addr_increment();
            self.scroll.v = increment_by(self.scroll.v, inc);
        } else {
            self.scroll.v.increment_coarse_x();
            self.scroll.v.increment_y();
        }
    }

    /// A CPU read of PPU register `index` (address 0x2000 + index):
    /// PPUSTATUS clears VBlank and `w`; OAMDATA returns the byte at OAMADDR;
    /// PPUDATA returns palette bytes directly and other bytes through the
    /// read buffer, then steps `v`. Other registers read 0.
    pub fn read_register_by_index(&mut self, index: u8, cart: &mut Cartridge, irq_level: &mut i8) -> (r: u8)
        requires
            old(self).wf(),
            old(cart).wf(),
            index < 8,
        ensures
            final(self).wf(),
            final(cart).wf(),
            Ppu::register_read(*old(self), *final(self), *old(cart), *final(cart), index, r),
    {
        if index == 2 {
            let status = self.ppustatus;
            self.ppustatus = self.ppustatus & 0x7f;
            self.scroll.w = false;
            status
        } else if index == 4 {
            self.oam.primary.get_byte(self.oamaddr)
        } else if index == 7 {
            let ghost c0 = *cart;
            let a = self.scroll.v.inner % 0x4000;
            let val = if a >= 0x3f00 {
                let val = cart.ppu_read(a, self.cycle_count, irq_level);
                self.ppudata_read_buffer = cart.ppu_read(a - 0x1000, self.cycle_count, irq_level);
                proof {
                    crate::bg::lemma_same_memory_peek(c0, *cart, (a - 0x1000) as u16);
                }
                val
            } else {
                let val = self.ppudata_read_buffer;
                self.ppudata_read_buffer = cart.ppu_read(a, self.cycle_count, irq_level);
                val
            };
            self.increment_vram_addr_after_access();
            val
        } else {
            0
        }
    }

    /// A CPU write of `val` to PPU register `index` (address 0x2000 + index).
    pub fn write_register_by_index(
        &mut self,
        index: u8,
        val: u8,
        cart: &mut Cartridge,
        nmi: &mut bool,
        irq_level: &mut i8,
    )
        requires
            old(self).wf(),
            old(cart).wf(),
            index < 8,
        ensures
            final(self).wf(),
            final(cart).wf(),
            Ppu::register_write(*old(self), *final(self), *old(cart), *final(cart), *old(nmi), *final(nmi), index, val),
    {
        if index == 0 {
            if val & 0x80 != 0 && self.ppuctrl & 0x80 == 0 && self.ppustatus & 0x80 != 0 {
                *nmi = true;
            }
            self.scroll.write_ctrl(val);
            self.ppuctrl = val;
        } else if index == 1 {
            self.ppumask = val;
        } else if index == 3 {
            self.oamaddr = val;
        } else if index == 4 {
            if !self.is_currently_rendering() {
                self.oam.primary.set_byte(self.oamaddr, val);
                self.oamaddr = if self.oamaddr == 255 {
                    0
                } else {
                    self.oamaddr + 1
                };
            }
        } else if index == 5 {
            self.scroll.write_scroll(val);
        } else if index == 6 {
            self.scroll.write_addr(val);
        } else if index == 7 {
            let a = self.scroll.v.inner % 0x4000;
            cart.ppu_write(a, val, self.cycle_count, irq_level);
            self.increment_vram_addr_after_access();
        }
    }

    /// OAM DMA: copies 256 bytes into OAM starting at OAMADDR, wrapping
    /// around; OAMADDR ends where it started.
    pub fn write_oamdma(&mut self, bytes: &Vec<u8>)
        requires
            old(self).wf(),
            bytes@.len() == 256,
        ensures
            final(self).wf(),
            final(self).oamaddr == old(self).oamaddr,
            forall|i: int|
                0 <= i < 256 ==> final(self).oam.primary.bytes@[(old(self).oamaddr + i) % 256]
                    == #[trigger] bytes@[i],
            final(self).scroll == old(self).scroll,
            final(self).ppuctrl == old(self).ppuctrl,
            final(self).ppumask == old(self).ppumask,
            final(self).ppustatus == old(self).ppustatus,
            final(self).cycle_count == old(self).cycle_count,
            final(self).current_scanline == old(self).current_scanline,
            final(self).current_scanline_dot == old(self).current_scanline_dot,
    {
        let start = self.oamaddr;
        let mut i: usize = 0;
        while i < 256
            invariant
                self.wf(),
                i <= 256,
                self.oamaddr as int == (start + i) % 256,
                bytes@.len() == 256,
                forall|j: int|
                    0 <= j < i ==> self.oam.primary.bytes@[(start + j) % 256] == #[trigger] bytes@[j],
                self.scroll == old(self).scroll,
                self.ppuctrl == old(self).ppuctrl,
                self.ppumask == old(self).ppumask,
                self.ppustatus == old(self).ppustatus,
                self.cycle_count == old(self).cycle_count,
                self.current_scanline == old(self).current_scanline,
                self.current_scanline_dot == old(self).current_scanline_dot,
            decreases 256 - i,
        {
            let ghost before = self.oam.primary.bytes@;
            self.oam.primary.set_byte(self.oamaddr, bytes[i]);
            assert forall|j: int| 0 <= j < i + 1 implies self.oam.primary.bytes@[(start + j) % 256]
                == #[trigger] bytes@[j] by {
                if j < i {
                    assert((start + j) % 256 != (start + i) % 256);
                }
            }
            self.oamaddr = if self.oamaddr == 255 {
                0
            } else {
                self.oamaddr + 1
            };
            i = i + 1;
        }
        self.oamaddr = start;
    }
}

/// Whether the background shows at column `x` (PPUMASK bit 3, and bit 1 in
/// the leftmost 8 columns).
pub open spec fn shows_bg(mask: u8, x: int) -> bool {
    mask & 0x08 != 0 && (x >= 8 || mask & 0x02 != 0)
}

/// Whether sprites show at column `x` (PPUMASK bit 4, and bit 2 in the
/// leftmost 8 columns).
pub open spec fn shows_sprites(mask: u8, x: int) -> bool {
    mask & 0x10 != 0 && (x >= 8 || mask & 0x04 != 0)
}

/// Whether dot `d` ends a background tile fetch (every 8 dots of 1-256
/// and 321-336).
pub open spec fn is_fetch_dot(d: int) -> bool {
    ((1 <= d <= 256) || (321 <= d <= 336)) && d % 8 == 0
}

/// `v` after the background work of dot `d` of line `s` while rendering:
/// a coarse x step after each fetch, a y step at 256, the horizontal copy
/// from `t` at 257, the vertical copy at 280-304 of the pre-render line.
pub open spec fn bg_dot_v(v: VramAddrRegister, t: VramAddrRegister, s: int, d: int) -> VramAddrRegister {
    let v1 = if is_fetch_dot(d) {
        coarse_x_stepped(v)
    } else {
        v
    };
    let v2 = if d == 256 {
        y_stepped(v1)
    } else {
        v1
    };
    let v3 = if d == 257 {
        horizontal_copied(v2, t)
    } else {
        v2
    };
    if s == -1 && 280 <= d <= 304 {
        vertical_copied(v3, t)
    } else {
        v3
    }
}

/// One dot's move of the beam and of the frame parity.
pub open spec fn advance(s: int, d: int, even: bool, mask: u8) -> (int, int, bool) {
    let p = next_position(s, d, !even && rendering_enabled(mask));
    (p.0, p.1, if s == 260 && d == 340 && rendering_enabled(mask) {
        !even
    } else {
        even
    })
}

/// Beam position and frame parity after `n` dots from (`s`, `d`, `even`).
pub open spec fn beam_after(s: int, d: int, even: bool, mask: u8, n: nat) -> (int, int, bool)
    decreases n,
{
    if n == 0 {
        (s, d, even)
    } else {
        let b = beam_after(s, d, even, mask, (n - 1) as nat);
        advance(b.0, b.1, b.2, mask)
    }
}

/// The VBlank flag after `n` dots: set by passing (241, 1), cleared by
/// passing (-1, 1).
pub open spec fn vblank_after(s: int, d: int, even: bool, mask: u8, v0: bool, n: nat) -> bool
    decreases n,
{
    if n == 0 {
        v0
    } else {
        let b = beam_after(s, d, even, mask, (n - 1) as nat);
        if b.0 == 241 && b.1 == 1 {
            true
        } else if b.0 == -1 && b.1 == 1 {
            false
        } else {
            vblank_after(s, d, even, mask, v0, (n - 1) as nat)
        }
    }
}

/// The NMI input after `n` dots: raised by passing (241, 1) with NMI
/// enabled.
pub open spec fn nmi_after(s: int, d: int, even: bool, mask: u8, nmi0: bool, enabled: bool, n: nat) -> bool
    decreases n,
{
    if n == 0 {
        nmi0
    } else {
        let b = beam_after(s, d, even, mask, (n - 1) as nat);
        nmi_after(s, d, even, mask, nmi0, enabled, (n - 1) as nat) || (b.0 == 241 && b.1 == 1
            && enabled)
    }
}

/// The sprite-0 hit and overflow flags set in `a` are still set in `b`.
pub open spec fn flags_kept(a: u8, b: u8) -> bool {
    (a & 0x40 != 0 ==> b & 0x40 != 0) && (a & 0x20 != 0 ==> b & 0x20 != 0)
}

/// Setting more bits keeps the sprite-0 hit and overflow flags.
pub proof fn lemma_or_keeps_flags(x: u8, m: u8)
    by (bit_vector)
    ensures
        (x & 0x40 != 0 ==> (x | m) & 0x40 != 0) && (x & 0x20 != 0 ==> (x | m) & 0x20 != 0),
{
}

/// Whether none of the first `n` dots is (-1, 1), where the flags clear.
pub open spec fn no_flag_clear_after(s: int, d: int, even: bool, mask: u8, n: nat) -> bool
    decreases n,
{
    if n == 0 {
        true
    } else {
        let b = beam_after(s, d, even, mask, (n - 1) as nat);
        !(b.0 == -1 && b.1 == 1) && no_flag_clear_after(s, d, even, mask, (n - 1) as nat)
    }
}

/// Whether the last of `n` dots lies on the pre-render line at or after
/// its dot 1, where the status flags were cleared.
pub open spec fn flags_cleared_after(s: int, d: int, even: bool, mask: u8, n: nat) -> bool
    decreases n,
{
    if n == 0 {
        false
    } else {
        let b = beam_after(s, d, even, mask, (n - 1) as nat);
        if b.0 == -1 && b.1 == 1 {
            true
        } else if b.0 == -1 {
            flags_cleared_after(s, d, even, mask, (n - 1) as nat)
        } else {
            false
        }
    }
}

impl Ppu {
    /// Whether this dot's sprite evaluation finds a ninth sprite in range
    /// (rendering on, dot 256 of the pre-render or a visible line).
    pub open spec fn overflows_here(self) -> bool {
        &&& self.current_scanline_dot == 256
        &&& crate::oam::hits(
            self.oam.primary.bytes@,
            self.current_scanline as int,
            if self.ppuctrl & 0x20 != 0 {
                16
            } else {
                8
            },
            64,
        ).len() > 8
    }

    /// Background pixel (colour, palette) at column `x` of the current line.
    pub open spec fn bg_at(self, x: int) -> (int, int) {
        if shows_bg(self.ppumask, x) {
            bg_pixel_of(self.bg, (self.scroll.fine_x + x % 8) as u16)
        } else {
            (0, 0)
        }
    }

    /// Sprite pixel at column `x` of the current line.
    pub open spec fn sprite_pixel_at(self, x: int) -> Option<SpriteInfo> {
        if shows_sprites(self.ppumask, x) {
            sprite_at(self.oam.current_sprites_data@, x)
        } else {
            None
        }
    }

    /// Whether column `x` sets the sprite-0 hit flag: an opaque pixel of
    /// sprite 0 over an opaque background pixel, except at column 255.
    pub open spec fn sprite_zero_hit_at(self, x: int) -> bool {
        match self.sprite_pixel_at(x) {
            Some(s) => s.is_sprite_zero && self.bg_at(x).0 != 0 && x != 255,
            None => false,
        }
    }

    /// The pixel drawn at column `x`.
    pub open spec fn pixel_at(self, cart: Cartridge, x: int) -> u32 {
        let addr = mux_palette_addr(self.bg_at(x).0, self.bg_at(x).1, self.sprite_pixel_at(x));
        let byte = cart.palettes@[palette_index(addr as u16)];
        let shown = if self.ppumask & 0x01 != 0 {
            byte & 0x30
        } else {
            byte
        };
        wavebeam((shown % 64) as int)
    }

    /// Draws the pixel of the current dot (1-256) of a visible line.
    fn render_pixel(&mut self, cart: &Cartridge)
        requires
            old(self).wf(),
            cart.wf(),
            0 <= old(self).current_scanline <= 239,
            1 <= old(self).current_scanline_dot <= 256,
        ensures
            ({
                let x = old(self).current_scanline_dot - 1;
                &&& final(self).framebuffer@ == old(self).framebuffer@.update(
                    old(self).current_scanline * 256 + x,
                    old(self).pixel_at(*cart, x),
                )
                &&& final(self).ppustatus == (if old(self).sprite_zero_hit_at(x) {
                    old(self).ppustatus | 0x40
                } else {
                    old(self).ppustatus
                })
            }),
            final(self).wf(),
            final(self).oam == old(self).oam,
            final(self).bg == old(self).bg,
            final(self).scroll == old(self).scroll,
            final(self).ppuctrl == old(self).ppuctrl,
            final(self).ppumask == old(self).ppumask,
            final(self).oamaddr == old(self).oamaddr,
            final(self).ppudata_read_buffer == old(self).ppudata_read_buffer,
            final(self).even_frame == old(self).even_frame,
            final(self).frame_done == old(self).frame_done,
            final(self).cycle_count == old(self).cycle_count,
            final(self).current_scanline == old(self).current_scanline,
            final(self).current_scanline_dot == old(self).current_scanline_dot,
    {
        let x = self.current_scanline_dot - 1;
        let show_bg = self.ppumask & 0x08 != 0 && (x >= 8 || self.ppumask & 0x02 != 0);
        let show_spr = self.ppumask & 0x10 != 0 && (x >= 8 || self.ppumask & 0x04 != 0);
        let (bg_c, bg_p) = if show_bg {
            self.bg.pixel(self.scroll.fine_x as u16 + x % 8)
        } else {
            (0, 0)
        };
        let spr = if show_spr {
            self.oam.get_sprite_at_dot_info(x)
        } else {
            None
        };
        match spr {
            Some(sp) => {
                if sp.is_sprite_zero && bg_c != 0 && x != 255 {
                    self.ppustatus = self.ppustatus | 0x40;
                }
            },
            None => {},
        }
        let addr = mux_pixel(bg_c, bg_p, spr);
        let idx = calc_ppu_palette_addr(addr);
        let byte = cart.palettes[idx as usize];
        let shown = if self.ppumask & 0x01 != 0 {
            byte & 0x30
        } else {
            byte
        };
        let color = get_color_from_index(shown);
        let i = self.current_scanline as usize * 256 + x as usize;
        self.framebuffer.set(i, color);
    }

    /// The background work of one dot on the pre-render and visible lines
    /// while rendering is enabled: a tile fetch every 8 dots with a coarse x
    /// step, the y step at dot 256, the horizontal copy from `t` at 257 and
    /// the vertical copy at 280-304 of the pre-render line.
    fn background_dot(&mut self, cart: &mut Cartridge, irq_level: &mut i8)
        requires
            old(self).wf(),
            old(cart).wf(),
            -1 <= old(self).current_scanline <= 239,
        ensures
            final(self).wf(),
            final(cart).wf(),
            final(cart).same_memory(*old(cart)),
            old(cart).is_nrom() ==> *final(irq_level) == *old(irq_level),
            final(self).scroll.t == old(self).scroll.t,
            final(self).scroll.w == old(self).scroll.w,
            final(self).scroll.fine_x == old(self).scroll.fine_x,
            final(self).oam == old(self).oam,
            final(self).ppuctrl == old(self).ppuctrl,
            final(self).ppumask == old(self).ppumask,
            final(self).ppustatus == old(self).ppustatus,
            final(self).oamaddr == old(self).oamaddr,
            final(self).ppudata_read_buffer == old(self).ppudata_read_buffer,
            final(self).even_frame == old(self).even_frame,
            final(self).frame_done == old(self).frame_done,
            final(self).cycle_count == old(self).cycle_count,
            final(self).current_scanline == old(self).current_scanline,
            final(self).current_scanline_dot == old(self).current_scanline_dot,
            final(self).framebuffer == old(self).framebuffer,
            final(self).scroll.v == bg_dot_v(
                old(self).scroll.v,
                old(self).scroll.t,
                old(self).current_scanline as int,
                old(self).current_scanline_dot as int,
            ),
    {
        let s = self.current_scanline;
        let d = self.current_scanline_dot;
        if ((1 <= d && d <= 256) || (321 <= d && d <= 336)) && d % 8 == 0 {
            let table = self.get_background_pattern_table_addr();
            self.bg.shift_tile_data_by_8();
            self.bg.fetch_current_tile_data(self.cycle_count, table, self.scroll.v, cart, irq_level);
            self.scroll.v.increment_coarse_x();
        }
        if d == 256 {
            self.scroll.v.increment_y();
        }
        if d == 257 {
            let t = self.scroll.t;
            self.scroll.v.transfer_horizontal_bits(t);
        }
        if s == -1 && 280 <= d && d <= 304 {
            let t = self.scroll.t;
            self.scroll.v.transfer_vertical_bits(t);
        }
    }

    /// The sprite work of one dot on the pre-render and visible lines while
    /// rendering is enabled: evaluation for the next line at dot 256 (a
    /// ninth sprite in range sets the overflow flag), and one slot's fetch
    /// every 8 dots of 257-320.
    fn sprite_dot(&mut self, cart: &mut Cartridge, irq_level: &mut i8)
        requires
            old(self).wf(),
            old(cart).wf(),
            -1 <= old(self).current_scanline <= 239,
        ensures
            final(self).wf(),
            final(cart).wf(),
            final(cart).same_memory(*old(cart)),
            old(cart).is_nrom() ==> *final(irq_level) == *old(irq_level),
            final(self).scroll == old(self).scroll,
            final(self).bg == old(self).bg,
            final(self).oam.primary.bytes@ == old(self).oam.primary.bytes@,
            final(self).ppuctrl == old(self).ppuctrl,
            final(self).ppumask == old(self).ppumask,
            final(self).ppustatus == (if old(self).overflows_here() {
                old(self).ppustatus | 0x20
            } else {
                old(self).ppustatus
            }),
            final(self).oamaddr == old(self).oamaddr,
            final(self).ppudata_read_buffer == old(self).ppudata_read_buffer,
            final(self).even_frame == old(self).even_frame,
            final(self).frame_done == old(self).frame_done,
            final(self).cycle_count == old(self).cycle_count,
            final(self).current_scanline == old(self).current_scanline,
            final(self).current_scanline_dot == old(self).current_scanline_dot,
            final(self).framebuffer == old(self).framebuffer,
    {
        let s = self.current_scanline;
        let d = self.current_scanline_dot;
        let h = self.get_sprite_size();
        proof {
            crate::oam::lemma_no_hits_before_line_0(self.oam.primary.bytes@, h as int, 64);
        }
        if d == 256 {
            let overflow = self.oam.eval_next_scanline_sprite(s, h);
            if overflow {
                self.ppustatus = self.ppustatus | 0x20;
            }
        }
        if 257 <= d && d <= 320 && (d - 257) % 8 == 0 {
            let table8 = self.get_8x8_sprite_pattern_table_addr();
            self.oam.fetch_next_scanline_sprite_data(
                ((d - 257) / 8) as usize,
                s,
                h,
                table8,
                cart,
                self.cycle_count,
                irq_level,
            );
        }
    }

    /// PPUSTATUS after the dot at the current position: flags cleared at
    /// (-1, 1), VBlank set at (241, 1), sprite-0 hit by this dot's pixel,
    /// overflow by this dot's sprite evaluation.
    pub open spec fn status_after_dot(self) -> u8 {
        let s = self.current_scanline;
        let d = self.current_scanline_dot;
        let st = self.ppustatus;
        let st1 = if s == -1 && d == 1 {
            st & 0x1f
        } else if s == 241 && d == 1 {
            st | 0x80
        } else {
            st
        };
        let st2 = if 0 <= s <= 239 && 1 <= d <= 256 && self.sprite_zero_hit_at(d - 1) {
            st1 | 0x40
        } else {
            st1
        };
        if rendering_enabled(self.ppumask) && s <= 239 && self.overflows_here() {
            st2 | 0x20
        } else {
            st2
        }
    }

    /// One PPU dot: the work of the current position, then the move to the
    /// next one. The pixel of a visible dot is drawn; with rendering
    /// enabled on the pre-render and visible lines, the background and
    /// sprite pipelines do this dot's fetches and `v` steps; the status
    /// flags change as `status_after_dot` says.
    pub fn tick(&mut self, cart: &mut Cartridge, nmi: &mut bool, irq_level: &mut i8)
        requires
            old(self).wf(),
            old(cart).wf(),
        ensures
            final(self).wf(),
            final(cart).wf(),
            final(cart).same_memory(*old(cart)),
            old(cart).is_nrom() ==> *final(irq_level) == *old(irq_level),
            final(self).cycle_count == old(self).cycle_count,
            final(self).ppuctrl == old(self).ppuctrl,
            final(self).ppumask == old(self).ppumask,
            final(self).oamaddr == old(self).oamaddr,
            final(self).oam.primary.bytes@ == old(self).oam.primary.bytes@,
            final(self).scroll.t == old(self).scroll.t,
            final(self).scroll.w == old(self).scroll.w,
            final(self).scroll.fine_x == old(self).scroll.fine_x,
            final(self).ppudata_read_buffer == old(self).ppudata_read_buffer,
            final(self).scroll.v == (if rendering_enabled(old(self).ppumask)
                && old(self).current_scanline <= 239 {
                bg_dot_v(
                    old(self).scroll.v,
                    old(self).scroll.t,
                    old(self).current_scanline as int,
                    old(self).current_scanline_dot as int,
                )
            } else {
                old(self).scroll.v
            }),
            ({
                let s = old(self).current_scanline as int;
                let d = old(self).current_scanline_dot as int;
                if 0 <= s <= 239 && 1 <= d <= 256 {
                    final(self).framebuffer@ == old(self).framebuffer@.update(
                        s * 256 + d - 1,
                        old(self).pixel_at(*old(cart), d - 1),
                    )
                } else {
                    final(self).framebuffer@ == old(self).framebuffer@
                }
            }),
            final(self).ppustatus == old(self).status_after_dot(),
            (final(self).current_scanline as int, final(self).current_scanline_dot as int,
            final(self).even_frame) == advance(
                old(self).current_scanline as int,
                old(self).current_scanline_dot as int,
                old(self).even_frame,
                old(self).ppumask,
            ),
            old(self).current_scanline == -1 && old(self).current_scanline_dot == 1
                ==> final(self).ppustatus & 0xe0 == 0 && !final(self).vblank(),
            old(self).current_scanline == -1 && old(self).current_scanline_dot != 1
                ==> final(self).ppustatus == old(self).ppustatus,
            !(old(self).current_scanline == -1 && old(self).current_scanline_dot == 1)
                ==> flags_kept(old(self).ppustatus, final(self).ppustatus),
            old(self).current_scanline == 241 && old(self).current_scanline_dot == 1 ==> {
                &&& final(self).vblank()
                &&& final(self).frame_done
                &&& *final(nmi) == (*old(nmi) || old(self).ppuctrl & 0x80 != 0)
            },
            !(old(self).current_scanline == 241 && old(self).current_scanline_dot == 1)
                ==> *final(nmi) == *old(nmi),
            !(old(self).current_scanline == 241 && old(self).current_scanline_dot == 1) && !(
            old(self).current_scanline == -1 && old(self).current_scanline_dot == 1)
                ==> final(self).vblank() == old(self).vblank(),
    {
        let ghost p0 = *self;
        let ghost c0 = *cart;
        let s = self.current_scanline;
        let d = self.current_scanline_dot;
        let rendering = self.ppumask & 0x08 != 0 || self.ppumask & 0x10 != 0;
        proof {
            crate::oam::lemma_no_hits_before_line_0(
                self.oam.primary.bytes@,
                if self.ppuctrl & 0x20 != 0 { 16 } else { 8 },
                64,
            );
        }
        let st = self.ppustatus;
        if s == -1 && d == 1 {
            self.ppustatus = st & 0x1f;
            assert((st & 0x1f) & 0xe0 == 0 && (st & 0x1f) & 0x80 == 0) by (bit_vector);
        }
        if s == 241 && d == 1 {
            self.ppustatus = st | 0x80;
            assert((st | 0x80) & 0x80 != 0) by (bit_vector);
            self.frame_done = true;
            if self.ppuctrl & 0x80 != 0 {
                *nmi = true;
            }
        }
        let st1 = self.ppustatus;
        proof {
            lemma_or_keeps_flags(st, 0x80);
        }
        if 0 <= s && s <= 239 && 1 <= d && d <= 256 {
            self.render_pixel(cart);
            assert((st1 | 0x40) & 0x80 == st1 & 0x80) by (bit_vector);
        }
        let st2 = self.ppustatus;
        assert((st2 | 0x20) & 0x80 == st2 & 0x80) by (bit_vector);
        proof {
            lemma_or_keeps_flags(st1, 0x40);
            lemma_or_keeps_flags(st2, 0x20);
        }
        if rendering && s <= 239 {
            self.background_dot(cart, irq_level);
            self.sprite_dot(cart, irq_level);
        }
        if s == -1 && d == 339 && !self.even_frame && rendering {
            self.current_scanline = 0;
            self.current_scanline_dot = 0;
        } else if d == 340 {
            self.current_scanline_dot = 0;
            if s == 260 {
                self.current_scanline = -1;
                if rendering {
                    self.even_frame = !self.even_frame;
                }
            } else {
                self.current_scanline = s + 1;
            }
        } else {
            self.current_scanline_dot = d + 1;
        }
    }

    /// Runs the PPU one dot at a time (`tick`) until its clock reaches
    /// `target_cycles`. After `n` dots the beam and frame parity are
    /// `beam_after(.., n)`, VBlank and NMI follow the passes over (241, 1)
    /// and (-1, 1), and the status flags are clear while the run ends on the
    /// pre-render line after its dot 1. A clock already at or past the
    /// target leaves everything unchanged.
    pub fn step(&mut self, target_cycles: u64, cart: &mut Cartridge, nmi: &mut bool, irq_level: &mut i8)
        requires
            old(self).wf(),
            old(cart).wf(),
        ensures
            final(self).wf(),
            final(cart).wf(),
            final(cart).same_memory(*old(cart)),
            final(self).cycle_count == (if old(self).cycle_count >= target_cycles {
                old(self).cycle_count
            } else {
                target_cycles
            }),
            old(self).cycle_count >= target_cycles ==> *final(self) == *old(self) && *final(cart)
                == *old(cart) && *final(nmi) == *old(nmi) && *final(irq_level) == *old(irq_level),
            ({
                let n = (final(self).cycle_count - old(self).cycle_count) as nat;
                let s = old(self).current_scanline as int;
                let d = old(self).current_scanline_dot as int;
                let e = old(self).even_frame;
                let m = old(self).ppumask;
                &&& (final(self).current_scanline as int, final(self).current_scanline_dot as int,
                final(self).even_frame) == beam_after(s, d, e, m, n)
                &&& final(self).vblank() == vblank_after(s, d, e, m, old(self).vblank(), n)
                &&& *final(nmi) == nmi_after(s, d, e, m, *old(nmi), old(self).ppuctrl & 0x80 != 0, n)
                &&& flags_cleared_after(s, d, e, m, n) ==> final(self).ppustatus & 0xe0 == 0
                &&& no_flag_clear_after(s, d, e, m, n) ==> flags_kept(
                    old(self).ppustatus,
                    final(self).ppustatus,
                )
            }),
            final(self).ppuctrl == old(self).ppuctrl,
            final(self).ppumask == old(self).ppumask,
            final(self).oamaddr == old(self).oamaddr,
            final(self).oam.primary.bytes@ == old(self).oam.primary.bytes@,
            final(self).scroll.t == old(self).scroll.t,
            final(self).scroll.w == old(self).scroll.w,
            final(self).scroll.fine_x == old(self).scroll.fine_x,
            final(self).ppudata_read_buffer == old(self).ppudata_read_buffer,
            old(cart).is_nrom() ==> *final(irq_level) == *old(irq_level),
    {
        let ghost s0 = self.current_scanline as int;
        let ghost d0 = self.current_scanline_dot as int;
        let ghost e0 = self.even_frame;
        let ghost m0 = self.ppumask;
        let ghost v0 = old(self).vblank();
        let ghost c0 = self.cycle_count;
        while self.cycle_count < target_cycles
            invariant
                self.wf(),
                cart.wf(),
                cart.same_memory(*old(cart)),
                s0 == old(self).current_scanline,
                d0 == old(self).current_scanline_dot,
                e0 == old(self).even_frame,
                m0 == old(self).ppumask,
                v0 == old(self).vblank(),
                c0 == old(self).cycle_count,
                c0 <= self.cycle_count,
                old(self).cycle_count < target_cycles ==> self.cycle_count <= target_cycles,
                old(self).cycle_count >= target_cycles ==> *self == *old(self) && *cart == *old(
                    cart,
                ) && *nmi == *old(nmi) && *irq_level == *old(irq_level),
                (self.current_scanline as int, self.current_scanline_dot as int, self.even_frame)
                    == beam_after(s0, d0, e0, m0, (self.cycle_count - c0) as nat),
                self.vblank() == vblank_after(s0, d0, e0, m0, v0, (self.cycle_count - c0) as nat),
                *nmi == nmi_after(s0, d0, e0, m0, *old(nmi), old(self).ppuctrl & 0x80 != 0, (
                self.cycle_count - c0) as nat),
                flags_cleared_after(s0, d0, e0, m0, (self.cycle_count - c0) as nat)
                    ==> self.ppustatus & 0xe0 == 0,
                no_flag_clear_after(s0, d0, e0, m0, (self.cycle_count - c0) as nat) ==> flags_kept(
                    old(self).ppustatus,
                    self.ppustatus,
                ),
                self.ppuctrl == old(self).ppuctrl,
                self.ppumask == old(self).ppumask,
                self.oamaddr == old(self).oamaddr,
                self.oam.primary.bytes@ == old(self).oam.primary.bytes@,
                self.scroll.t == old(self).scroll.t,
                self.scroll.w == old(self).scroll.w,
                self.scroll.fine_x == old(self).scroll.fine_x,
                self.ppudata_read_buffer == old(self).ppudata_read_buffer,
                old(cart).is_nrom() ==> *irq_level == *old(irq_level),
            decreases target_cycles - self.cycle_count,
        {
            let ghost k = (self.cycle_count - c0) as nat;
            let ghost st = self.ppustatus;
            self.tick(cart, nmi, irq_level);
            self.cycle_count = self.cycle_count + 1;
            proof {
                assert((self.cycle_count - c0) as nat == k + 1);
                if flags_cleared_after(s0, d0, e0, m0, k + 1) {
                    let b = beam_after(s0, d0, e0, m0, k);
                    if !(b.0 == -1 && b.1 == 1) {
                        assert(st == self.ppustatus);
                    }
                }
            }
        }
    }

    /// Catches the PPU up to the CPU: `step` to three times the CPU's
    /// clock. Stepping by single dots, it never overshoots; a PPU already
    /// at or past that point is left unchanged.
    pub fn catch_up(&mut self, cpu_cycle_count: u64, cart: &mut Cartridge, nmi: &mut bool, irq_level: &mut i8)
        requires
            old(self).wf(),
            old(cart).wf(),
            cpu_cycle_count <= u64::MAX / 3,
        ensures
            final(self).wf(),
            final(cart).wf(),
            final(cart).same_memory(*old(cart)),
            final(self).cycle_count == (if old(self).cycle_count >= 3 * cpu_cycle_count {
                old(self).cycle_count as int
            } else {
                3 * cpu_cycle_count
            }),
            final(self).cycle_count >= 3 * cpu_cycle_count,
            old(self).cycle_count >= 3 * cpu_cycle_count ==> *final(self) == *old(self)
                && *final(cart) == *old(cart) && *final(nmi) == *old(nmi) && *final(irq_level)
                == *old(irq_level),
            ({
                let n = (final(self).cycle_count - old(self).cycle_count) as nat;
                let s = old(self).current_scanline as int;
                let d = old(self).current_scanline_dot as int;
                let e = old(self).even_frame;
                let m = old(self).ppumask;
                &&& (final(self).current_scanline as int, final(self).current_scanline_dot as int,
                final(self).even_frame) == beam_after(s, d, e, m, n)
                &&& final(self).vblank() == vblank_after(s, d, e, m, old(self).vblank(), n)
                &&& *final(nmi) == nmi_after(s, d, e, m, *old(nmi), old(self).ppuctrl & 0x80 != 0, n)
                &&& flags_cleared_after(s, d, e, m, n) ==> final(self).ppustatus & 0xe0 == 0
                &&& no_flag_clear_after(s, d, e, m, n) ==> flags_kept(
                    old(self).ppustatus,
                    final(self).ppustatus,
                )
            }),
            final(self).ppuctrl == old(self).ppuctrl,
            final(self).ppumask == old(self).ppumask,
            final(self).oamaddr == old(self).oamaddr,
            final(self).oam.primary.bytes@ == old(self).oam.primary.bytes@,
            final(self).scroll.t == old(self).scroll.t,
            final(self).scroll.w == old(self).scroll.w,
            final(self).scroll.fine_x == old(self).scroll.fine_x,
            final(self).ppudata_read_buffer == old(self).ppudata_read_buffer,
            old(cart).is_nrom() ==> *final(irq_level) == *old(irq_level),
    {
        self.step(cpu_cycle_count * 3, cart, nmi, irq_level);
    }
}

/// OAMDATA round trip: after OAMADDR := a and an OAMDATA write of `val`
/// outside rendering, setting OAMADDR := a again and reading OAMDATA
/// returns `val`.
#[verifier::spinoff_prover]
pub proof fn lemma_oamdata_round_trip(
    p0: Ppu,
    p1: Ppu,
    p2: Ppu,
    p3: Ppu,
    p4: Ppu,
    c0: Cartridge,
    c1: Cartridge,
    c2: Cartridge,
    c3: Cartridge,
    c4: Cartridge,
    n0: bool,
    n1: bool,
    n2: bool,
    n3: bool,
    a: u8,
    val: u8,
    r: u8,
)
    requires
        p0.wf(),
        Ppu::register_write(p0, p1, c0, c1, n0, n1, 3, a),
        Ppu::register_write(p1, p2, c1, c2, n1, n2, 4, val),
        !p1.rendering_active(),
        Ppu::register_write(p2, p3, c2, c3, n2, n3, 3, a),
        Ppu::register_read(p3, p4, c3, c4, 4, r),
    ensures
        r == val,
{
    assert(p1.oam == p0.oam);
}

/// PPUDATA round trip through the read buffer: with `w` clear and outside
/// rendering, PPUADDR := hi, lo; PPUDATA := val; PPUADDR := hi, lo again;
/// then a first PPUDATA read (which returns the stale buffer) and a second
/// that returns `val`, for any nametable address (0x2000-0x3EFF) whose
/// successor (after the +1 or +32 step) is not yet a palette address.
#[verifier::rlimit(100)]
#[verifier::spinoff_prover]
pub proof fn lemma_ppudata_round_trip(
    p0: Ppu,
    p1: Ppu,
    p2: Ppu,
    p3: Ppu,
    p4: Ppu,
    p5: Ppu,
    p6: Ppu,
    p7: Ppu,
    c0: Cartridge,
    c1: Cartridge,
    c2: Cartridge,
    c3: Cartridge,
    c4: Cartridge,
    c5: Cartridge,
    c6: Cartridge,
    c7: Cartridge,
    n: bool,
    hi: u8,
    lo: u8,
    val: u8,
    stale: u8,
    r: u8,
)
    requires
        c0.wf(),
        !p0.scroll.w,
        !p2.rendering_active(),
        0x2000 <= (hi % 64) * 256 + lo,
        (hi % 64) * 256 + lo + (if p0.ppuctrl & 0x04 != 0 {
            32int
        } else {
            1
        }) < 0x3f00,
        Ppu::register_write(p0, p1, c0, c1, n, n, 6, hi),
        Ppu::register_write(p1, p2, c1, c2, n, n, 6, lo),
        Ppu::register_write(p2, p3, c2, c3, n, n, 7, val),
        Ppu::register_write(p3, p4, c3, c4, n, n, 6, hi),
        Ppu::register_write(p4, p5, c4, c5, n, n, 6, lo),
        Ppu::register_read(p5, p6, c5, c6, 7, stale),
        Ppu::register_read(p6, p7, c6, c7, 7, r),
    ensures
        r == val,
{
    let addr = ((hi % 64) * 256 + lo) as u16;
    assert(p1.scroll == addr_write(p0.scroll, hi));
    assert(p2.scroll == addr_write(p1.scroll, lo));
    assert(p2.scroll.v.inner == addr);
    assert(p3.ppumask == p2.ppumask && p3.ppustatus == p2.ppustatus && p3.scroll.w == p2.scroll.w);
    assert(p4.scroll == addr_write(p3.scroll, hi));
    assert(p5.scroll == addr_write(p4.scroll, lo));
    assert(p5.scroll.v.inner == addr);
    assert(p5.ppumask == p2.ppumask && p5.ppustatus == p2.ppustatus);
    assert(p6.ppumask == p2.ppumask && p6.ppustatus == p2.ppustatus);
    assert(c2 == c0);
    assert(c4 == c3);
    assert(c5 == c3);
    assert(c3.nametables@ == c2.nametables@.update(
        crate::ppu_bus::nametable_index(addr, c2.mirroring),
        val,
    ));
    assert(c5.ppu_peek(addr) == val);
}

} // verus!
