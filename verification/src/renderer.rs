//! The background and sprite pixel pipeline: per-scanline background
//! rendering into the back buffer, per-scanline sprite evaluation out of
//! primary OAM, and the once-per-frame front/back buffer swap.
use vstd::prelude::*;

use crate::arith::wadd16;
use crate::ppu_memory::{read_vram_spec, PpuMemory, PpuMemoryView};
use crate::ppu_registers::{
    ControlRegister, PpuRegisters, CTRL_BACKGROUND_TABLE, CTRL_SPRITE_SIZE, MASK_SHOW_BACKGROUND,
    MASK_SHOW_SPRITES, STATUS_SPRITE_OVERFLOW,
};

verus! {

/// One sprite copied out of primary OAM for the current scanline.
#[derive(Clone, Copy, Debug, PartialEq, Eq, Structural)]
pub struct Sprite {
    pub y: u8,
    pub tile: u8,
    pub attributes: u8,
    pub x: u8,
    pub data_low: u8,
    pub data_high: u8,
}

/// Mathematical contents of the renderer: the two pixel buffers, the sprite
/// status flags, and the scanline sprite list.
#[verifier::ext_equal]
pub ghost struct RendererView {
    pub front: Seq<u32>,
    pub back: Seq<u32>,
    pub sprite_zero_hit: bool,
    pub sprite_overflow: bool,
    pub sprites: Seq<Sprite>,
}

/// Sprite height for the frame: 16 when the control register selects 8x16
/// sprites, else 8.
pub open spec fn sprite_height(control: ControlRegister) -> int {
    if control.bits & CTRL_SPRITE_SIZE != 0 {
        16
    } else {
        8
    }
}

/// Whether OAM sprite `i` is in range for `scanline`: the scanline lies in
/// `[Y+1, Y+1+height)`.
pub open spec fn sprite_in_range(oam: Seq<u8>, i: int, scanline: int, height: int) -> bool {
    let y = oam[4 * i] + 1;
    y <= scanline < y + height
}

/// The OAM indices below `n` that are in range for the scanline, in
/// ascending OAM order.
pub open spec fn in_range_indices(oam: Seq<u8>, scanline: int, height: int, n: int) -> Seq<int>
    decreases n,
{
    if n <= 0 {
        Seq::empty()
    } else {
        let prev = in_range_indices(oam, scanline, height, n - 1);
        if sprite_in_range(oam, n - 1, scanline, height) {
            prev.push(n - 1)
        } else {
            prev
        }
    }
}

/// The sprite record at OAM index `i`: Y, tile, attributes, X, with pattern
/// data not yet fetched.
pub open spec fn sprite_record(oam: Seq<u8>, i: int) -> Sprite {
    Sprite {
        y: oam[4 * i],
        tile: oam[4 * i + 1],
        attributes: oam[4 * i + 2],
        x: oam[4 * i + 3],
        data_low: 0,
        data_high: 0,
    }
}

/// The scanline sprite list: the first at most eight in-range sprites, in
/// ascending OAM order.
pub open spec fn selected_sprites(oam: Seq<u8>, scanline: int, height: int) -> Seq<Sprite> {
    let idx = in_range_indices(oam, scanline, height, 64);
    let k = if idx.len() <= 8 {
        idx.len() as int
    } else {
        8
    };
    idx.subrange(0, k).map(|j: int, i: int| sprite_record(oam, i))
}

/// Whether a ninth in-range sprite exists, which sets the sprite-overflow
/// status bit.
pub open spec fn sprite_overflow_cond(oam: Seq<u8>, scanline: int, height: int) -> bool {
    in_range_indices(oam, scanline, height, 64).len() > 8
}

/// Scanning more OAM entries only appends to the in-range index list.
pub proof fn lemma_in_range_indices_prefix(
    oam: Seq<u8>,
    scanline: int,
    height: int,
    n: int,
    m: int,
)
    requires
        0 <= n <= m,
    ensures
        in_range_indices(oam, scanline, height, n).is_prefix_of(
            in_range_indices(oam, scanline, height, m),
        ),
    decreases m - n,
{
    let a = in_range_indices(oam, scanline, height, n);
    if n == m {
        assert(a =~= a.subrange(0, a.len() as int));
    } else {
        lemma_in_range_indices_prefix(oam, scanline, height, n, m - 1);
        let b = in_range_indices(oam, scanline, height, m - 1);
        let c = in_range_indices(oam, scanline, height, m);
        assert(a =~= b.subrange(0, a.len() as int));
        assert(a =~= c.subrange(0, a.len() as int));
    }
}

/// Every index in the in-range list lies below the scan bound.
pub proof fn lemma_in_range_indices_bounded(
    oam: Seq<u8>,
    scanline: int,
    height: int,
    n: int,
    k: int,
)
    requires
        0 <= k < in_range_indices(oam, scanline, height, n).len(),
    ensures
        0 <= in_range_indices(oam, scanline, height, n)[k] < n,
    decreases n,
{
    if n > 0 {
        let prev = in_range_indices(oam, scanline, height, n - 1);
        if k < prev.len() {
            lemma_in_range_indices_bounded(oam, scanline, height, n - 1, k);
        }
    }
}

/// The in-range index list is strictly ascending, so the scanline sprite
/// list keeps OAM order: a sprite with a lower OAM index always precedes one
/// with a higher index.
pub proof fn lemma_in_range_indices_ascending(
    oam: Seq<u8>,
    scanline: int,
    height: int,
    n: int,
    i: int,
    j: int,
)
    requires
        0 <= i < j < in_range_indices(oam, scanline, height, n).len(),
    ensures
        in_range_indices(oam, scanline, height, n)[i] < in_range_indices(
            oam,
            scanline,
            height,
            n,
        )[j],
    decreases n,
{
    if n > 0 {
        let prev = in_range_indices(oam, scanline, height, n - 1);
        if j < prev.len() {
            lemma_in_range_indices_ascending(oam, scanline, height, n - 1, i, j);
        } else {
            lemma_in_range_indices_bounded(oam, scanline, height, n - 1, i);
        }
    }
}

/// One background pixel: tile id from the nametable address the VRAM address
/// names, pattern bits from the selected pattern table at the tile's row,
/// the attribute quadrant matching coarse X/Y parity, and the final color
/// out of the palette table (pixel value 0 reads the universal background
/// color).
pub open spec fn bg_pixel(control: ControlRegister, m: PpuMemoryView, v: u16, x: int) -> u32 {
    let fine_y = (v >> 12) & 0x7;
    let tile = read_vram_spec(m, 0x2000 | (v & 0x0FFF));
    let table: u16 = if control.bits & CTRL_BACKGROUND_TABLE != 0 {
        0x1000
    } else {
        0
    };
    let pattern_addr = table | ((tile as u16) << 4) | fine_y;
    let p_low = read_vram_spec(m, pattern_addr);
    let p_high = read_vram_spec(m, wadd16(pattern_addr, 8));
    let attr_addr = 0x23C0 | (v & 0x0C00) | ((v >> 4) & 0x38) | ((v >> 2) & 0x07);
    let attr = read_vram_spec(m, attr_addr);
    let coarse_x = v & 0x1F;
    let coarse_y = (v >> 5) & 0x1F;
    let quad = (((coarse_y & 0x02) << 1) | (coarse_x & 0x02)) as u8;
    let palette = (attr >> quad) & 0x03;
    let shift = (7 - (x % 8)) as u8;
    let bit_low = (p_low >> shift) & 1;
    let bit_high = (p_high >> shift) & 1;
    let pixel = (bit_high << 1) | bit_low;
    let paddr: u16 = if pixel == 0 {
        0x3F00
    } else {
        (0x3F00 + (palette as u16) * 4 + (pixel as u16)) as u16
    };
    read_vram_spec(m, paddr) as u32
}

/// A back buffer with one scanline replaced by freshly rendered background
/// pixels.
pub open spec fn rendered_line(
    back: Seq<u32>,
    control: ControlRegister,
    m: PpuMemoryView,
    v: u16,
    scanline: int,
) -> Seq<u32> {
    Seq::new(
        back.len(),
        |j: int|
            if scanline * 256 <= j < scanline * 256 + 256 {
                bg_pixel(control, m, v, j - scanline * 256)
            } else {
                back[j]
            },
    )
}

/// The renderer and register file after one scanline: the back buffer gains
/// the line's background when backgrounds are shown; the sprite list is
/// re-evaluated and the overflow status bit set when sprites are shown.
pub open spec fn render_line_spec(
    r: RendererView,
    regs: PpuRegisters,
    m: PpuMemoryView,
    v: u16,
    scanline: int,
) -> (RendererView, PpuRegisters) {
    let r1 = if regs.mask.bits & MASK_SHOW_BACKGROUND != 0 {
        RendererView { back: rendered_line(r.back, regs.control, m, v, scanline), ..r }
    } else {
        r
    };
    if regs.mask.bits & MASK_SHOW_SPRITES != 0 {
        let h = sprite_height(regs.control);
        let ovf = sprite_overflow_cond(m.oam, scanline, h);
        (
            RendererView {
                sprites: selected_sprites(m.oam, scanline, h),
                sprite_overflow: ovf,
                ..r1
            },
            PpuRegisters {
                status: if ovf {
                    regs.status | STATUS_SPRITE_OVERFLOW
                } else {
                    regs.status
                },
                ..regs
            },
        )
    } else {
        (r1, regs)
    }
}

/// Background/sprite pixel pipeline with double-buffered output: the back
/// buffer is written during the frame; the front buffer is what a display
/// consumer reads, stable between swaps.
pub struct PpuRenderer {
    pub front_buffer: Box<[u32; 61440]>,
    pub back_buffer: Box<[u32; 61440]>,
    pub sprite_zero_hit: bool,
    pub sprite_overflow: bool,
    pub scanline_sprites: Vec<Sprite>,
}

impl View for PpuRenderer {
    type V = RendererView;

    open spec fn view(&self) -> RendererView {
        RendererView {
            front: self.front_buffer@,
            back: self.back_buffer@,
            sprite_zero_hit: self.sprite_zero_hit,
            sprite_overflow: self.sprite_overflow,
            sprites: self.scanline_sprites@,
        }
    }
}

impl PpuRenderer {
    /// Both buffers black, no sprite flags, an empty sprite list.
    pub fn new() -> (r: PpuRenderer)
        ensures
            r@ == (RendererView {
                front: Seq::new(61440, |i: int| 0u32),
                back: Seq::new(61440, |i: int| 0u32),
                sprite_zero_hit: false,
                sprite_overflow: false,
                sprites: Seq::empty(),
            }),
    {
        let r = PpuRenderer {
            front_buffer: Box::new([0u32; 61440]),
            back_buffer: Box::new([0u32; 61440]),
            sprite_zero_hit: false,
            sprite_overflow: false,
            scanline_sprites: Vec::with_capacity(8),
        };
        proof {
            assert(r@.front =~= Seq::new(61440, |i: int| 0u32));
            assert(r@.back =~= Seq::new(61440, |i: int| 0u32));
            assert(r@.sprites =~= Seq::<Sprite>::empty());
        }
        r
    }

    /// Exchanges the two buffers: the frame just rendered becomes readable,
    /// whole, and the previous front buffer becomes the new rendering
    /// target. The single point of handoff to a display consumer.
    pub fn swap_buffers(&mut self)
        ensures
            final(self)@ == (RendererView {
                front: old(self)@.back,
                back: old(self)@.front,
                ..old(self)@
            }),
    {
        core::mem::swap(&mut self.front_buffer, &mut self.back_buffer);
    }

    /// Renders one visible scanline's background into the back buffer. Every
    /// other pixel of the buffer, and the front buffer, stay untouched.
    pub fn render_background(
        &mut self,
        regs: &PpuRegisters,
        mem: &PpuMemory,
        vram_addr: u16,
        scanline: i16,
    )
        requires
            0 <= scanline <= 239,
        ensures
            final(self)@ == (RendererView {
                back: rendered_line(
                    old(self)@.back,
                    regs.control,
                    mem@,
                    vram_addr,
                    scanline as int,
                ),
                ..old(self)@
            }),
    {
        let v = vram_addr;
        let fine_y = (v >> 12) & 0x7;
        let tile = mem.read_vram(0x2000 | (v & 0x0FFF));
        let table: u16 = if regs.control.contains(CTRL_BACKGROUND_TABLE) {
            0x1000
        } else {
            0
        };
        let pattern_addr = table | ((tile as u16) << 4) | fine_y;
        let p_low = mem.read_vram(pattern_addr);
        let p_high = mem.read_vram(pattern_addr.wrapping_add(8));
        let attr_addr = 0x23C0 | (v & 0x0C00) | ((v >> 4) & 0x38) | ((v >> 2) & 0x07);
        let attr = mem.read_vram(attr_addr);
        let coarse_x = v & 0x1F;
        let coarse_y = (v >> 5) & 0x1F;
        proof {
            assert(forall|a: u16, b: u16| #[trigger] (a & b) <= b) by (bit_vector);
            assert(forall|a: u16| a <= 2 ==> (a << 1) <= 4) by (bit_vector);
            assert(forall|a: u16, b: u16| a <= 4 && b <= 2 ==> (a | b) <= 6) by (bit_vector);
        }
        let quad = (((coarse_y & 0x02) << 1) | (coarse_x & 0x02)) as u8;
        let palette = (attr >> quad) & 0x03;
        proof {
            assert(forall|a: u8, b: u8| #[trigger] (a & b) <= b) by (bit_vector);
        }
        let base: usize = (scanline as usize) * 256;
        let ghost target = rendered_line(self.back_buffer@, regs.control, mem@, v, scanline as int);
        let ghost back0 = self.back_buffer@;
        let mut x: usize = 0;
        while x < 256
            invariant
                x <= 256,
                0 <= scanline <= 239,
                base == scanline * 256,
                tile == read_vram_spec(mem@, 0x2000 | (v & 0x0FFF)),
                table == (if regs.control.bits & CTRL_BACKGROUND_TABLE != 0 {
                    0x1000u16
                } else {
                    0u16
                }),
                pattern_addr == table | ((tile as u16) << 4) | ((v >> 12) & 0x7),
                p_low == read_vram_spec(mem@, pattern_addr),
                p_high == read_vram_spec(mem@, wadd16(pattern_addr, 8)),
                attr == read_vram_spec(
                    mem@,
                    0x23C0 | (v & 0x0C00) | ((v >> 4) & 0x38) | ((v >> 2) & 0x07),
                ),
                quad == ((((v >> 5) & 0x1F) & 0x02) << 1 | ((v & 0x1F) & 0x02)) as u8,
                palette == (attr >> quad) & 0x03,
                palette <= 3,
                target == rendered_line(back0, regs.control, mem@, v, scanline as int),
                self.back_buffer@.len() == 61440,
                back0.len() == 61440,
                forall|j: int|
                    0 <= j < 61440 ==> self.back_buffer@[j] == (if base <= j < base + x {
                        target[j]
                    } else {
                        back0[j]
                    }),
                self.front_buffer == old(self).front_buffer,
                self.sprite_zero_hit == old(self).sprite_zero_hit,
                self.sprite_overflow == old(self).sprite_overflow,
                self.scanline_sprites == old(self).scanline_sprites,
            decreases 256 - x,
        {
            let shift = (7 - (x % 8)) as u8;
            let bit_low = (p_low >> shift) & 1;
            let bit_high = (p_high >> shift) & 1;
            proof {
                assert(forall|a: u8, b: u8| #[trigger] (a & b) <= b) by (bit_vector);
                assert(forall|a: u8, b: u8| a <= 1 && b <= 1 ==> ((a << 1) | b) <= 3)
                    by (bit_vector);
            }
            let pixel = (bit_high << 1) | bit_low;
            let paddr: u16 = if pixel == 0 {
                0x3F00
            } else {
                0x3F00 + (palette as u16) * 4 + (pixel as u16)
            };
            let color = mem.read_vram(paddr) as u32;
            self.back_buffer[base + x] = color;
            proof {
                assert(color == bg_pixel(regs.control, mem@, v, x as int));
                assert(target[base + x] == bg_pixel(regs.control, mem@, v, x as int));
            }
            x = x + 1;
        }
        proof {
            assert(self.back_buffer@ =~= rendered_line(
                back0,
                regs.control,
                mem@,
                v,
                scanline as int,
            ));
        }
    }

    /// Scans primary OAM in index order and copies the in-range sprites, in
    /// OAM order, into the scanline sprite list, stopping at eight; on
    /// finding a ninth in-range sprite the sprite-overflow status bit is set
    /// and the scan stops.
    pub fn evaluate_sprites(&mut self, regs: &mut PpuRegisters, mem: &PpuMemory, scanline: i16)
        requires
            0 <= scanline <= 239,
        ensures
            final(self)@ == (RendererView {
                sprites: selected_sprites(
                    mem@.oam,
                    scanline as int,
                    sprite_height(old(regs).control),
                ),
                sprite_overflow: sprite_overflow_cond(
                    mem@.oam,
                    scanline as int,
                    sprite_height(old(regs).control),
                ),
                ..old(self)@
            }),
            *final(regs) == (PpuRegisters {
                status: if sprite_overflow_cond(
                    mem@.oam,
                    scanline as int,
                    sprite_height(old(regs).control),
                ) {
                    old(regs).status | STATUS_SPRITE_OVERFLOW
                } else {
                    old(regs).status
                },
                ..*old(regs)
            }),
    {
        self.scanline_sprites.truncate(0);
        let height: i16 = if regs.control.contains(CTRL_SPRITE_SIZE) {
            16
        } else {
            8
        };
        let ghost oam = mem@.oam;
        let ghost h = sprite_height(regs.control);
        let mut overflow = false;
        let mut i: usize = 0;
        while i < 64 && !overflow
            invariant
                i <= 64,
                oam == mem@.oam,
                oam.len() == 256,
                h == (if height == 16 {
                    16int
                } else {
                    8int
                }),
                height == 16 || height == 8,
                0 <= scanline <= 239,
                !overflow ==> {
                    &&& in_range_indices(oam, scanline as int, h, i as int).len()
                        == self.scanline_sprites@.len()
                    &&& self.scanline_sprites@.len() <= 8
                    &&& self.scanline_sprites@ == in_range_indices(
                        oam,
                        scanline as int,
                        h,
                        i as int,
                    ).map(|j: int, k: int| sprite_record(oam, k))
                },
                overflow ==> {
                    &&& in_range_indices(oam, scanline as int, h, i as int).len() == 9
                    &&& self.scanline_sprites@.len() == 8
                    &&& self.scanline_sprites@ == in_range_indices(
                        oam,
                        scanline as int,
                        h,
                        i as int,
                    ).subrange(0, 8).map(|j: int, k: int| sprite_record(oam, k))
                },
                self.front_buffer == old(self).front_buffer,
                self.back_buffer == old(self).back_buffer,
                self.sprite_zero_hit == old(self).sprite_zero_hit,
                self.sprite_overflow == old(self).sprite_overflow,
                *regs == *old(regs),
            decreases 64 - i,
        {
            let y: i16 = mem.oam[i * 4] as i16 + 1;
            let ghost idx_before = in_range_indices(oam, scanline as int, h, i as int);
            let ghost idx_after = in_range_indices(oam, scanline as int, h, i as int + 1);
            if scanline >= y && scanline < y + height {
                assert(sprite_in_range(oam, i as int, scanline as int, h));
                if self.scanline_sprites.len() < 8 {
                    let s = Sprite {
                        y: mem.oam[i * 4],
                        tile: mem.oam[i * 4 + 1],
                        attributes: mem.oam[i * 4 + 2],
                        x: mem.oam[i * 4 + 3],
                        data_low: 0,
                        data_high: 0,
                    };
                    self.scanline_sprites.push(s);
                    proof {
                        assert(idx_after == idx_before.push(i as int));
                        assert(self.scanline_sprites@ =~= idx_after.map(
                            |j: int, k: int| sprite_record(oam, k),
                        ));
                    }
                } else {
                    overflow = true;
                    proof {
                        assert(idx_after == idx_before.push(i as int));
                        assert(idx_after.subrange(0, 8) =~= idx_before);
                    }
                }
            } else {
                assert(!sprite_in_range(oam, i as int, scanline as int, h));
                assert(idx_after == idx_before);
            }
            i = i + 1;
        }
        self.sprite_overflow = overflow;
        proof {
            let idx_i = in_range_indices(oam, scanline as int, h, i as int);
            let idx_64 = in_range_indices(oam, scanline as int, h, 64);
            lemma_in_range_indices_prefix(oam, scanline as int, h, i as int, 64);
            if overflow {
                assert(idx_64.len() >= 9);
                assert(idx_64.subrange(0, 8) =~= idx_i.subrange(0, 8));
                assert(self.scanline_sprites@ =~= selected_sprites(oam, scanline as int, h));
            } else {
                assert(i == 64);
                assert(idx_64.len() <= 8);
                assert(idx_64.subrange(0, idx_64.len() as int) =~= idx_64);
                assert(self.scanline_sprites@ =~= selected_sprites(oam, scanline as int, h));
            }
        }
        if overflow {
            regs.status = regs.status | STATUS_SPRITE_OVERFLOW;
        }
    }

    /// Renders one visible scanline: background pixels when backgrounds are
    /// shown, then sprite evaluation (with the overflow status bit) when
    /// sprites are shown.
    pub fn render_scanline(
        &mut self,
        regs: &mut PpuRegisters,
        mem: &PpuMemory,
        vram_addr: u16,
        scanline: i16,
    )
        requires
            0 <= scanline <= 239,
        ensures
            final(self)@ == render_line_spec(
                old(self)@,
                *old(regs),
                mem@,
                vram_addr,
                scanline as int,
            ).0,
            *final(regs) == render_line_spec(
                old(self)@,
                *old(regs),
                mem@,
                vram_addr,
                scanline as int,
            ).1,
    {
        if regs.mask.contains(MASK_SHOW_BACKGROUND) {
            self.render_background(&*regs, mem, vram_addr, scanline);
        }
        if regs.mask.contains(MASK_SHOW_SPRITES) {
            self.evaluate_sprites(regs, mem, scanline);
        }
    }
}

} // verus!
