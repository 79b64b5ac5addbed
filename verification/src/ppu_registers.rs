//! The PPU register file. Control and Mask are named-bit accessor types
//! rather than raw integers threaded through call sites; Status is the raw
//! byte the PPU core masks and sets directly.
use vstd::prelude::*;

verus! {

pub const CTRL_NAMETABLE_X: u8 = 0x01;

pub const CTRL_NAMETABLE_Y: u8 = 0x02;

pub const CTRL_VRAM_INCREMENT: u8 = 0x04;

pub const CTRL_SPRITE_TABLE: u8 = 0x08;

pub const CTRL_BACKGROUND_TABLE: u8 = 0x10;

pub const CTRL_SPRITE_SIZE: u8 = 0x20;

pub const CTRL_MASTER_SLAVE: u8 = 0x40;

pub const CTRL_NMI_ENABLE: u8 = 0x80;

pub const MASK_GRAYSCALE: u8 = 0x01;

pub const MASK_SHOW_BACKGROUND: u8 = 0x02;

pub const MASK_SHOW_SPRITES: u8 = 0x04;

pub const MASK_SHOW_EDGES: u8 = 0x10;

pub const MASK_EMPHASIZE_RED: u8 = 0x20;

pub const MASK_EMPHASIZE_GREEN: u8 = 0x40;

pub const MASK_EMPHASIZE_BLUE: u8 = 0x80;

/// Status bit: the PPU is in vertical blank.
pub const STATUS_VBLANK: u8 = 0x80;

/// Status bit: sprite 0 overlapped the background this frame.
pub const STATUS_SPRITE_ZERO_HIT: u8 = 0x40;

/// Status bit: more than eight sprites were in range on one scanline.
pub const STATUS_SPRITE_OVERFLOW: u8 = 0x20;

/// The PPU control register as a set of named bits.
#[derive(Clone, Copy, Debug, PartialEq, Eq, Structural)]
pub struct ControlRegister {
    pub bits: u8,
}

impl ControlRegister {
    pub open spec fn spec_contains(self, flag: u8) -> bool {
        self.bits & flag != 0
    }

    pub fn empty() -> (r: ControlRegister)
        ensures
            r.bits == 0,
    {
        ControlRegister { bits: 0 }
    }

    pub fn from_bits(bits: u8) -> (r: ControlRegister)
        ensures
            r.bits == bits,
    {
        ControlRegister { bits }
    }

    pub fn bits(&self) -> (r: u8)
        ensures
            r == self.bits,
    {
        self.bits
    }

    /// True when the named bit is set.
    pub fn contains(&self, flag: u8) -> (r: bool)
        ensures
            r == self.spec_contains(flag),
    {
        (self.bits & flag) != 0
    }

    /// Sets the named bit.
    pub fn insert(&mut self, flag: u8)
        ensures
            final(self).bits == old(self).bits | flag,
    {
        self.bits = self.bits | flag;
    }

    /// Clears the named bit.
    pub fn remove(&mut self, flag: u8)
        ensures
            final(self).bits == old(self).bits & !flag,
    {
        self.bits = self.bits & !flag;
    }
}

/// The PPU mask register as a set of named bits.
#[derive(Clone, Copy, Debug, PartialEq, Eq, Structural)]
pub struct MaskRegister {
    pub bits: u8,
}

impl MaskRegister {
    pub open spec fn spec_contains(self, flag: u8) -> bool {
        self.bits & flag != 0
    }

    pub fn empty() -> (r: MaskRegister)
        ensures
            r.bits == 0,
    {
        MaskRegister { bits: 0 }
    }

    pub fn from_bits(bits: u8) -> (r: MaskRegister)
        ensures
            r.bits == bits,
    {
        MaskRegister { bits }
    }

    pub fn bits(&self) -> (r: u8)
        ensures
            r == self.bits,
    {
        self.bits
    }

    /// True when the named bit is set.
    pub fn contains(&self, flag: u8) -> (r: bool)
        ensures
            r == self.spec_contains(flag),
    {
        (self.bits & flag) != 0
    }

    /// Sets the named bit.
    pub fn insert(&mut self, flag: u8)
        ensures
            final(self).bits == old(self).bits | flag,
    {
        self.bits = self.bits | flag;
    }

    /// Clears the named bit.
    pub fn remove(&mut self, flag: u8)
        ensures
            final(self).bits == old(self).bits & !flag,
    {
        self.bits = self.bits & !flag;
    }
}

/// The memory-mapped PPU registers: Control, Mask, Status, the OAM address,
/// the two-write scroll pair, the VRAM address port, the read buffer, and
/// the shared write-toggle latch for the two-step ports.
#[derive(Clone, Copy, Debug)]
pub struct PpuRegisters {
    pub control: ControlRegister,
    pub mask: MaskRegister,
    pub status: u8,
    pub oam_addr: u8,
    pub scroll: (u8, u8),
    pub addr: u16,
    pub data: u8,
    pub latch: bool,
    pub write_toggle: bool,
}

impl Default for PpuRegisters {
    /// All registers clear, as at power-up.
    fn default() -> (r: PpuRegisters)
        ensures
            r == (PpuRegisters {
                control: ControlRegister { bits: 0 },
                mask: MaskRegister { bits: 0 },
                status: 0,
                oam_addr: 0,
                scroll: (0, 0),
                addr: 0,
                data: 0,
                latch: false,
                write_toggle: false,
            }),
    {
        PpuRegisters {
            control: ControlRegister { bits: 0 },
            mask: MaskRegister { bits: 0 },
            status: 0,
            oam_addr: 0,
            scroll: (0, 0),
            addr: 0,
            data: 0,
            latch: false,
            write_toggle: false,
        }
    }
}

} // verus!
