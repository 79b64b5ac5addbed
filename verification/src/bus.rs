//! The byte-addressable bus capability that the CPU depends on, together with
//! two verified implementations: a flat 64 KiB memory for test harnesses, and
//! a bus that honors the NES memory map (RAM and PPU-register mirroring, an
//! APU/IO stub, and a cartridge window).
use vstd::prelude::*;

verus! {

/// Abstract byte-addressable read/write surface. Each implementation gives
/// its semantics through `model`, a 65536-byte view of the decoded address
/// space, and `write_model`, the transformation a store applies to that view.
pub trait Bus: Sized {
    /// The decoded byte surface: the value a read returns at each address.
    spec fn model(&self) -> Seq<u8>;

    /// The surface after a store of `data` at `addr`.
    spec fn write_model(pre: Seq<u8>, addr: u16, data: u8) -> Seq<u8>;

    /// Every bus models the full 16-bit address space.
    proof fn model_wf(&self)
        ensures
            self.model().len() == 0x10000,
    ;

    fn read(&mut self, addr: u16) -> (r: u8)
        ensures
            *final(self) == *old(self),
            r == old(self).model()[addr as int],
    ;

    fn write(&mut self, addr: u16, data: u8)
        ensures
            final(self).model() == Self::write_model(old(self).model(), addr, data),
    ;
}

/// A flat 64 KiB memory with no decoding at all: every address is backed by
/// its own byte. Suitable for driving the CPU without a cartridge.
pub struct FlatBus {
    pub mem: Box<[u8; 65536]>,
}

impl FlatBus {
    pub fn new() -> (r: FlatBus)
        ensures
            r.model() =~= Seq::new(0x10000, |i: int| 0u8),
    {
        FlatBus { mem: Box::new([0u8; 65536]) }
    }
}

impl Bus for FlatBus {
    open spec fn model(&self) -> Seq<u8> {
        self.mem@
    }

    open spec fn write_model(pre: Seq<u8>, addr: u16, data: u8) -> Seq<u8> {
        pre.update(addr as int, data)
    }

    proof fn model_wf(&self)
    {
    }

    fn read(&mut self, addr: u16) -> (r: u8) {
        self.mem[addr as usize]
    }

    fn write(&mut self, addr: u16, data: u8) {
        self.mem[addr as usize] = data;
    }
}

/// Which addresses a store at `addr` reaches on the NES memory map: a RAM
/// write lands in all four RAM mirrors, a PPU-register write in every 8-byte
/// mirror of that register; APU/IO and cartridge writes are ignored.
pub open spec fn nes_write_hits(addr: u16, i: int) -> bool {
    if addr < 0x2000 {
        0 <= i < 0x2000 && i % 0x800 == addr as int % 0x800
    } else if addr < 0x4000 {
        0x2000 <= i < 0x4000 && (i - 0x2000) % 8 == (addr as int - 0x2000) % 8
    } else {
        false
    }
}

/// The byte the NES memory map yields at address `i`, decoded from the
/// backing stores: RAM mirrored every 0x800, PPU registers mirrored every 8
/// bytes, the APU/IO stub reading 0, and the cartridge window mirrored over
/// 32 KiB of program ROM.
pub open spec fn nes_surface(ram: Seq<u8>, ppu_regs: Seq<u8>, prg: Seq<u8>, i: int) -> u8 {
    if 0 <= i < 0x2000 {
        ram[i % 0x800]
    } else if 0x2000 <= i < 0x4000 {
        ppu_regs[(i - 0x2000) % 8]
    } else if 0x4000 <= i < 0x4020 {
        0u8
    } else if 0x4020 <= i < 0x10000 {
        prg[(i - 0x4020) % 0x8000]
    } else {
        0u8
    }
}

/// A bus that honors the NES memory map: 2 KiB RAM mirrored through
/// 0x0000-0x1FFF, eight PPU register bytes mirrored through 0x2000-0x3FFF,
/// an APU/IO stub at 0x4000-0x4017 that reads 0, and 32 KiB of program ROM
/// behind 0x4020-0xFFFF. Cartridge writes are ignored.
pub struct NesBus {
    pub ram: Box<[u8; 2048]>,
    pub prg_rom: Box<[u8; 32768]>,
    pub ppu_registers: [u8; 8],
    pub frame_counter: usize,
    pub cycles: usize,
}

impl NesBus {
    pub fn new() -> (r: NesBus)
        ensures
            r.ram@ =~= Seq::new(2048, |i: int| 0u8),
            r.prg_rom@ =~= Seq::new(32768, |i: int| 0u8),
            r.ppu_registers@ =~= Seq::new(8, |i: int| 0u8),
            r.frame_counter == 0,
            r.cycles == 0,
    {
        NesBus {
            ram: Box::new([0u8; 2048]),
            prg_rom: Box::new([0u8; 32768]),
            ppu_registers: [0u8; 8],
            frame_counter: 0,
            cycles: 0,
        }
    }

    /// Stores one byte of program ROM, so a driver can load a cartridge
    /// image or patch the reset vector region.
    pub fn set_prg_byte(&mut self, offset: u16, data: u8)
        requires
            offset < 32768,
        ensures
            final(self).prg_rom@ == old(self).prg_rom@.update(offset as int, data),
            final(self).ram == old(self).ram,
            final(self).ppu_registers == old(self).ppu_registers,
            final(self).frame_counter == old(self).frame_counter,
            final(self).cycles == old(self).cycles,
    {
        self.prg_rom[offset as usize] = data;
    }

    /// Advances the frame counter by three PPU dots per CPU cycle; a driver
    /// may watch it to schedule vertical-blank interrupts.
    pub fn handle_ppu(&mut self, cycles: usize)
        ensures
            final(self).frame_counter == vstd::wrapping::usize_specs::wrapping_add(
                old(self).frame_counter,
                vstd::wrapping::usize_specs::wrapping_mul(cycles, 3),
            ),
            final(self).ram == old(self).ram,
            final(self).prg_rom == old(self).prg_rom,
            final(self).ppu_registers == old(self).ppu_registers,
            final(self).cycles == old(self).cycles,
    {
        let ppu_cycles = cycles.wrapping_mul(3);
        self.frame_counter = self.frame_counter.wrapping_add(ppu_cycles);
    }

    /// The APU is stubbed: the call consumes the cycle count and changes
    /// nothing.
    pub fn handle_apu(&mut self, cycles: usize)
        ensures
            *final(self) == *old(self),
    {
        let _ = cycles;
    }
}

impl Bus for NesBus {
    open spec fn model(&self) -> Seq<u8> {
        Seq::new(0x10000, |i: int| nes_surface(self.ram@, self.ppu_registers@, self.prg_rom@, i))
    }

    open spec fn write_model(pre: Seq<u8>, addr: u16, data: u8) -> Seq<u8> {
        Seq::new(0x10000, |i: int| if nes_write_hits(addr, i) { data } else { pre[i] })
    }

    proof fn model_wf(&self)
    {
    }

    fn read(&mut self, addr: u16) -> (r: u8) {
        if addr < 0x2000 {
            self.ram[(addr as usize) % 0x800]
        } else if addr < 0x4000 {
            self.ppu_registers[((addr as usize) - 0x2000) % 8]
        } else if addr < 0x4020 {
            0
        } else {
            self.prg_rom[((addr as usize) - 0x4020) % 0x8000]
        }
    }

    fn write(&mut self, addr: u16, data: u8) {
        if addr < 0x2000 {
            self.ram[(addr as usize) % 0x800] = data;
        } else if addr < 0x4000 {
            self.ppu_registers[((addr as usize) - 0x2000) % 8] = data;
        }
        proof {
            assert(self.model() =~= Self::write_model(old(self).model(), addr, data));
        }
    }
}

} // verus!
