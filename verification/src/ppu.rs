//! The PPU pixel-clock state machine: scanline/cycle counters, the loopy
//! VRAM address arithmetic (coarse-X/Y increments with their wrap quirks,
//! horizontal/vertical transfers), vertical-blank entry with the NMI signal,
//! and the once-per-frame buffer swap at the post-render boundary.
//! `ppu_step_spec` is the mathematical step function; `step` implements it.
use vstd::prelude::*;

use crate::arith::{wadd16, wadd32, wadd_usize};
use crate::ppu_memory::{Mirroring, PpuMemory, PpuMemoryView};
use crate::ppu_registers::{PpuRegisters, CTRL_NMI_ENABLE, STATUS_VBLANK};
use crate::renderer::{render_line_spec, PpuRenderer, RendererView};

verus! {

/// Mathematical state of the PPU: register file, memory, renderer, timing
/// counters, the NMI signal, and the loopy address registers.
#[verifier::ext_equal]
pub ghost struct PpuView {
    pub regs: PpuRegisters,
    pub mem: PpuMemoryView,
    pub rend: RendererView,
    pub cycle: usize,
    pub scanline: i16,
    pub frame: u32,
    pub nmi_occurred: bool,
    pub vram_addr: u16,
    pub tram_addr: u16,
    pub fine_x: u8,
}

impl PpuView {
    /// The counters stay inside one frame: scanline -1 (pre-render) through
    /// 260 (last vertical-blank line), dot 0 through 340.
    pub open spec fn wf(self) -> bool {
        &&& -1 <= self.scanline <= 260
        &&& self.cycle <= 340
    }
}

/// Coarse-X increment of the loopy address: wraps at 31 and toggles the
/// horizontal nametable bit.
pub open spec fn inc_coarse_x_spec(v: u16) -> u16 {
    if v & 0x001F == 31 {
        (v & !0x001F) ^ 0x0400
    } else {
        wadd16(v, 1)
    }
}

/// Fine-Y/coarse-Y increment of the loopy address: fine Y carries into
/// coarse Y; coarse Y wraps at 29 toggling the vertical nametable bit, or at
/// 31 without a toggle when it had been driven out of bounds.
pub open spec fn inc_y_spec(v: u16) -> u16 {
    if v & 0x7000 != 0x7000 {
        wadd16(v, 0x1000)
    } else {
        let v1 = v & !0x7000;
        let y = (v1 & 0x03E0) >> 5;
        if y == 29 {
            (v1 ^ 0x0800) & !0x03E0
        } else if y == 31 {
            v1 & !0x03E0
        } else {
            (v1 & !0x03E0) | (((y + 1) as u16) << 5)
        }
    }
}

/// Copies the horizontal bits (coarse X, nametable X) from the temporary
/// address into the current one.
pub open spec fn transfer_x_spec(v: u16, t: u16) -> u16 {
    (v & !0x041F) | (t & 0x041F)
}

/// Copies the vertical bits (coarse Y, fine Y, nametable Y) from the
/// temporary address into the current one.
pub open spec fn transfer_y_spec(v: u16, t: u16) -> u16 {
    (v & !0x7BE0) | (t & 0x7BE0)
}

/// Advances the dot/scanline/frame counters by one dot.
pub open spec fn tick_spec(p: PpuView) -> PpuView {
    let c = wadd_usize(p.cycle, 1);
    if c > 340 {
        let s = (p.scanline + 1) as i16;
        if s > 260 {
            PpuView { cycle: 0, scanline: -1i16, frame: wadd32(p.frame, 1), ..p }
        } else {
            PpuView { cycle: 0usize, scanline: s, ..p }
        }
    } else {
        PpuView { cycle: c, ..p }
    }
}

/// Whether this dot completes the frame: the counters wrap back to the
/// pre-render scanline.
pub open spec fn frame_completed(p: PpuView) -> bool {
    wadd_usize(p.cycle, 1) > 340 && (p.scanline + 1) as i16 > 260
}

/// One dot of a visible scanline: coarse-X advances outside the horizontal
/// blank, coarse-Y at dot 256, the horizontal transfer at dot 257, the
/// vertical transfer during dots 280-304 of scanline 0, and at the last dot
/// the scanline is rendered.
pub open spec fn visible_spec(p: PpuView) -> PpuView {
    let p1 = if p.cycle < 256 || (321 <= p.cycle && p.cycle <= 336) {
        PpuView { vram_addr: inc_coarse_x_spec(p.vram_addr), ..p }
    } else {
        p
    };
    let p2 = if p1.cycle == 256 {
        PpuView { vram_addr: inc_y_spec(p1.vram_addr), ..p1 }
    } else {
        p1
    };
    let p3 = if p2.cycle == 257 {
        PpuView { vram_addr: transfer_x_spec(p2.vram_addr, p2.tram_addr), ..p2 }
    } else {
        p2
    };
    let p4 = if p3.scanline == 0 && 280 <= p3.cycle && p3.cycle <= 304 {
        PpuView { vram_addr: transfer_y_spec(p3.vram_addr, p3.tram_addr), ..p3 }
    } else {
        p3
    };
    if p4.cycle == 340 {
        let rr = render_line_spec(p4.rend, p4.regs, p4.mem, p4.vram_addr, p4.scanline as int);
        PpuView { rend: rr.0, regs: rr.1, ..p4 }
    } else {
        p4
    }
}

/// The per-scanline behavior after the counters advanced: the pre-render
/// line clears the status bits at dot 1; visible lines run the address
/// arithmetic and the renderer; entering the post-render line swaps the
/// buffers; dot 1 of scanline 241 sets vertical blank and raises the NMI
/// signal when enabled.
pub open spec fn dispatch_spec(p: PpuView) -> PpuView {
    if p.scanline == -1 {
        if p.cycle == 1 {
            PpuView { regs: PpuRegisters { status: p.regs.status & 0x1F, ..p.regs }, ..p }
        } else {
            p
        }
    } else if p.scanline <= 239 {
        visible_spec(p)
    } else if p.scanline == 240 {
        if p.cycle == 0 {
            PpuView {
                rend: RendererView { front: p.rend.back, back: p.rend.front, ..p.rend },
                ..p
            }
        } else {
            p
        }
    } else if p.scanline == 241 {
        if p.cycle == 1 {
            PpuView {
                regs: PpuRegisters { status: p.regs.status | STATUS_VBLANK, ..p.regs },
                nmi_occurred: if p.regs.control.bits & CTRL_NMI_ENABLE != 0 {
                    true
                } else {
                    p.nmi_occurred
                },
                ..p
            }
        } else {
            p
        }
    } else {
        p
    }
}

/// One PPU dot: the counters advance, then the scanline's behavior runs.
pub open spec fn ppu_step_spec(p: PpuView) -> PpuView {
    dispatch_spec(tick_spec(p))
}

/// The front buffer is stable between swaps: any dot that does not land on
/// dot 0 of the post-render scanline leaves it untouched, so a consumer of
/// the front buffer never observes a partially rendered frame.
pub proof fn lemma_front_buffer_stable(p: PpuView)
    requires
        !(tick_spec(p).scanline == 240 && tick_spec(p).cycle == 0),
    ensures
        ppu_step_spec(p).rend.front == p.rend.front,
{
}

/// At the post-render boundary the buffers exchange whole: the frame the
/// renderer had been writing becomes readable as the front buffer, and the
/// previous front buffer becomes the new rendering target.
pub proof fn lemma_frame_swap(p: PpuView)
    requires
        tick_spec(p).scanline == 240 && tick_spec(p).cycle == 0,
    ensures
        ppu_step_spec(p).rend.front == p.rend.back,
        ppu_step_spec(p).rend.back == p.rend.front,
{
}

/// The PPU core: register file, memory, renderer, timing counters, and the
/// loopy address registers.
pub struct Ppu {
    pub registers: PpuRegisters,
    pub memory: PpuMemory,
    pub renderer: PpuRenderer,
    pub cycle: usize,
    pub scanline: i16,
    pub frame: u32,
    pub nmi_occurred: bool,
    pub vram_addr: u16,
    pub tram_addr: u16,
    pub fine_x: u8,
}

impl View for Ppu {
    type V = PpuView;

    open spec fn view(&self) -> PpuView {
        PpuView {
            regs: self.registers,
            mem: self.memory@,
            rend: self.renderer@,
            cycle: self.cycle,
            scanline: self.scanline,
            frame: self.frame,
            nmi_occurred: self.nmi_occurred,
            vram_addr: self.vram_addr,
            tram_addr: self.tram_addr,
            fine_x: self.fine_x,
        }
    }
}

impl Ppu {
    /// Power-up state: cleared registers, zeroed memory under the given
    /// mirroring, black buffers, and the counters at dot 0 of the pre-render
    /// scanline.
    pub fn new(mirroring: Mirroring) -> (r: Ppu)
        ensures
            r@.regs.control.bits == 0,
            r@.regs.mask.bits == 0,
            r@.regs.status == 0,
            r@.regs.oam_addr == 0,
            r@.regs.scroll == (0u8, 0u8),
            r@.regs.addr == 0,
            r@.regs.data == 0,
            !r@.regs.latch,
            !r@.regs.write_toggle,
            r@.mem == (PpuMemoryView {
                vram: Seq::new(2048, |i: int| 0u8),
                palette: Seq::new(32, |i: int| 0u8),
                oam: Seq::new(256, |i: int| 0u8),
                temp_oam: Seq::new(32, |i: int| 0u8),
                mirroring,
            }),
            r@.rend == (RendererView {
                front: Seq::new(61440, |i: int| 0u32),
                back: Seq::new(61440, |i: int| 0u32),
                sprite_zero_hit: false,
                sprite_overflow: false,
                sprites: Seq::empty(),
            }),
            r@.cycle == 0,
            r@.scanline == -1,
            r@.frame == 0,
            !r@.nmi_occurred,
            r@.vram_addr == 0,
            r@.tram_addr == 0,
            r@.fine_x == 0,
            r@.wf(),
    {
        Ppu {
            registers: PpuRegisters::default(),
            memory: PpuMemory::new(mirroring),
            renderer: PpuRenderer::new(),
            cycle: 0,
            scanline: -1,
            frame: 0,
            nmi_occurred: false,
            vram_addr: 0,
            tram_addr: 0,
            fine_x: 0,
        }
    }

    /// Coarse-X increment: wrap at 31 with a horizontal-nametable toggle.
    pub fn increment_x(&mut self)
        ensures
            *final(self) == (Ppu { vram_addr: inc_coarse_x_spec(old(self).vram_addr), ..*old(self) }),
    {
        if (self.vram_addr & 0x001F) == 31 {
            self.vram_addr = (self.vram_addr & !0x001F) ^ 0x0400;
        } else {
            self.vram_addr = self.vram_addr.wrapping_add(1);
        }
    }

    /// Fine-Y/coarse-Y increment: fine Y carries into coarse Y, which wraps
    /// at 29 with a vertical-nametable toggle, or at 31 without one.
    pub fn increment_y(&mut self)
        ensures
            *final(self) == (Ppu { vram_addr: inc_y_spec(old(self).vram_addr), ..*old(self) }),
    {
        if (self.vram_addr & 0x7000) != 0x7000 {
            self.vram_addr = self.vram_addr.wrapping_add(0x1000);
        } else {
            let v1 = self.vram_addr & !0x7000;
            let y = (v1 & 0x03E0) >> 5;
            proof {
                assert(forall|a: u16| ((a & 0x03E0) >> 5) <= 31) by (bit_vector);
            }
            let nv = if y == 29 {
                (v1 ^ 0x0800) & !0x03E0
            } else if y == 31 {
                v1 & !0x03E0
            } else {
                (v1 & !0x03E0) | ((y + 1) << 5)
            };
            self.vram_addr = nv;
        }
    }

    /// Copies the horizontal scroll bits from the temporary address into the
    /// current one.
    pub fn transfer_x(&mut self)
        ensures
            *final(self) == (Ppu {
                vram_addr: transfer_x_spec(old(self).vram_addr, old(self).tram_addr),
                ..*old(self)
            }),
    {
        self.vram_addr = (self.vram_addr & !0x041F) | (self.tram_addr & 0x041F);
    }

    /// Copies the vertical scroll bits from the temporary address into the
    /// current one.
    pub fn transfer_y(&mut self)
        ensures
            *final(self) == (Ppu {
                vram_addr: transfer_y_spec(old(self).vram_addr, old(self).tram_addr),
                ..*old(self)
            }),
    {
        self.vram_addr = (self.vram_addr & !0x7BE0) | (self.tram_addr & 0x7BE0);
    }

    /// Dot 1 of the pre-render scanline clears vertical blank, sprite 0 hit,
    /// and sprite overflow.
    pub fn pre_render_scanline(&mut self)
        ensures
            *final(self) == (if old(self).cycle == 1 {
                (Ppu {
                    registers: PpuRegisters {
                        status: old(self).registers.status & 0x1F,
                        ..old(self).registers
                    },
                    ..*old(self)
                })
            } else {
                *old(self)
            }),
    {
        if self.cycle == 1 {
            self.registers.status = self.registers.status & 0x1F;
        }
    }

    /// One dot of a visible scanline: loopy address arithmetic, and at the
    /// last dot the scanline is rendered.
    pub fn visible_scanline(&mut self)
        requires
            0 <= old(self).scanline <= 239,
            old(self).cycle <= 340,
        ensures
            final(self)@ == visible_spec(old(self)@),
    {
        if self.cycle < 256 || (self.cycle >= 321 && self.cycle <= 336) {
            self.increment_x();
        }
        if self.cycle == 256 {
            self.increment_y();
        }
        if self.cycle == 257 {
            self.transfer_x();
        }
        if self.scanline == 0 && self.cycle >= 280 && self.cycle <= 304 {
            self.transfer_y();
        }
        if self.cycle == 340 {
            let vaddr = self.vram_addr;
            let sl = self.scanline;
            self.renderer.render_scanline(&mut self.registers, &self.memory, vaddr, sl);
        }
    }

    /// One PPU dot. Advances the counters, runs the scanline's behavior, and
    /// reports whether this dot completed a frame. The whole effect is
    /// `ppu_step_spec`.
    pub fn step(&mut self) -> (r: bool)
        requires
            old(self)@.wf(),
        ensures
            final(self)@ == ppu_step_spec(old(self)@),
            r == frame_completed(old(self)@),
            final(self)@.wf(),
    {
        let mut frame_complete = false;
        self.cycle = self.cycle + 1;
        if self.cycle > 340 {
            self.cycle = 0;
            self.scanline = self.scanline + 1;
            if self.scanline > 260 {
                self.scanline = -1;
                self.frame = self.frame.wrapping_add(1);
                frame_complete = true;
            }
        }
        if self.scanline == -1 {
            self.pre_render_scanline();
        } else if self.scanline <= 239 {
            self.visible_scanline();
        } else if self.scanline == 240 {
            if self.cycle == 0 {
                self.renderer.swap_buffers();
            }
        } else if self.scanline == 241 {
            if self.cycle == 1 {
                self.registers.status = self.registers.status | STATUS_VBLANK;
                if self.registers.control.contains(CTRL_NMI_ENABLE) {
                    self.nmi_occurred = true;
                }
            }
        }
        frame_complete
    }
}

} // verus!
