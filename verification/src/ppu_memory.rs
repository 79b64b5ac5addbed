//! PPU-side memory: 2 KiB of VRAM behind a configurable nametable mirroring
//! mode, the 32-byte palette table with its four background-color aliases,
//! and primary/secondary OAM.
use vstd::prelude::*;

verus! {

/// How the four logical nametables alias onto the physical VRAM.
#[derive(Clone, Copy, Debug, PartialEq, Eq, Structural)]
pub enum Mirroring {
    Horizontal,
    Vertical,
    FourScreen,
}

/// Mathematical contents of the PPU memory.
#[verifier::ext_equal]
pub ghost struct PpuMemoryView {
    pub vram: Seq<u8>,
    pub palette: Seq<u8>,
    pub oam: Seq<u8>,
    pub temp_oam: Seq<u8>,
    pub mirroring: Mirroring,
}

/// The VRAM offset a nametable address maps to under a mirroring mode,
/// before reduction to the physical 2 KiB store.
pub open spec fn mirror_vram_spec(mirroring: Mirroring, addr: u16) -> u16 {
    let a = (addr - 0x2000) as u16;
    match mirroring {
        Mirroring::Horizontal => (a & 0x7FF) | ((a & 0x800) >> 1),
        Mirroring::Vertical => a & 0xBFF,
        Mirroring::FourScreen => a,
    }
}

/// The palette slot an address in 0x3F00-0x3FFF selects: 32 entries, with
/// 0x10/0x14/0x18/0x1C aliasing the background-color slots 0x00/0x04/0x08/
/// 0x0C.
pub open spec fn palette_idx_spec(addr: u16) -> u16 {
    let a = ((addr - 0x3F00) as u16) & 0x1F;
    if a == 0x10 || a == 0x14 || a == 0x18 || a == 0x1C {
        (a - 0x10) as u16
    } else {
        a
    }
}

/// The byte a PPU-space read returns: nametable addresses go through the
/// mirroring mode into VRAM, palette addresses through the alias map into
/// the palette table, and every other address falls back to the VRAM store
/// reduced modulo its size, so no address is erroneous.
pub open spec fn read_vram_spec(m: PpuMemoryView, addr: u16) -> u8 {
    if 0x2000 <= addr && addr <= 0x3EFF {
        m.vram[mirror_vram_spec(m.mirroring, addr) as int % 2048]
    } else if 0x3F00 <= addr && addr <= 0x3FFF {
        m.palette[palette_idx_spec(addr) as int]
    } else {
        m.vram[addr as int % 2048]
    }
}

/// VRAM, palette, and sprite memory, consumed by the PPU core and renderer.
pub struct PpuMemory {
    pub vram: Box<[u8; 2048]>,
    pub palette: [u8; 32],
    pub oam: Box<[u8; 256]>,
    pub temp_oam: [u8; 32],
    pub mirroring: Mirroring,
}

impl View for PpuMemory {
    type V = PpuMemoryView;

    open spec fn view(&self) -> PpuMemoryView {
        PpuMemoryView {
            vram: self.vram@,
            palette: self.palette@,
            oam: self.oam@,
            temp_oam: self.temp_oam@,
            mirroring: self.mirroring,
        }
    }
}

impl PpuMemory {
    /// Zeroed memory under the given mirroring mode.
    pub fn new(mirroring: Mirroring) -> (r: PpuMemory)
        ensures
            r@ == (PpuMemoryView {
                vram: Seq::new(2048, |i: int| 0u8),
                palette: Seq::new(32, |i: int| 0u8),
                oam: Seq::new(256, |i: int| 0u8),
                temp_oam: Seq::new(32, |i: int| 0u8),
                mirroring,
            }),
    {
        let r = PpuMemory {
            vram: Box::new([0u8; 2048]),
            palette: [0u8; 32],
            oam: Box::new([0u8; 256]),
            temp_oam: [0u8; 32],
            mirroring,
        };
        proof {
            assert(r@.vram =~= Seq::new(2048, |i: int| 0u8));
            assert(r@.palette =~= Seq::new(32, |i: int| 0u8));
            assert(r@.oam =~= Seq::new(256, |i: int| 0u8));
            assert(r@.temp_oam =~= Seq::new(32, |i: int| 0u8));
        }
        r
    }

    /// Reduces a nametable address to a VRAM offset under the configured
    /// mirroring mode.
    pub fn mirror_vram_addr(&self, addr: u16) -> (r: u16)
        requires
            0x2000 <= addr <= 0x3EFF,
        ensures
            r == mirror_vram_spec(self.mirroring, addr),
    {
        let a = addr - 0x2000;
        match self.mirroring {
            Mirroring::Horizontal => (a & 0x7FF) | ((a & 0x800) >> 1),
            Mirroring::Vertical => a & 0xBFF,
            Mirroring::FourScreen => a,
        }
    }

    /// The palette slot an address selects, applying the four
    /// background-color aliases.
    pub fn palette_addr(&self, addr: u16) -> (r: u16)
        requires
            0x3F00 <= addr <= 0x3FFF,
        ensures
            r == palette_idx_spec(addr),
            r < 32,
    {
        let a = (addr - 0x3F00) & 0x1F;
        proof {
            assert(forall|v: u16, w: u16| #[trigger] (v & w) <= w) by (bit_vector);
        }
        if a == 0x10 || a == 0x14 || a == 0x18 || a == 0x1C {
            a - 0x10
        } else {
            a
        }
    }

    /// Reads one byte of PPU space; every address yields a defined value.
    pub fn read_vram(&self, addr: u16) -> (r: u8)
        ensures
            r == read_vram_spec(self@, addr),
    {
        if 0x2000 <= addr && addr <= 0x3EFF {
            let m = self.mirror_vram_addr(addr);
            self.vram[(m as usize) % 2048]
        } else if 0x3F00 <= addr && addr <= 0x3FFF {
            let p = self.palette_addr(addr);
            self.palette[p as usize]
        } else {
            self.vram[(addr as usize) % 2048]
        }
    }
}

} // verus!
