//! The console: one CPU on the NES memory-map bus, one PPU, stepped in the
//! hardware's 1:3 cycle-to-dot ratio, with the PPU's NMI signal forwarded to
//! the CPU once per step.
use vstd::prelude::*;

use crate::arith::wadd_usize;
use crate::bus::{Bus, NesBus};
use crate::cpu::{step_spec, Cpu2A03, CpuState, DecodeError};
use crate::ppu::{ppu_step_spec, Ppu, PpuView};
use crate::ppu_memory::Mirroring;

verus! {

/// The PPU state after `n` dots.
pub open spec fn ppu_iter(p: PpuView, n: nat) -> PpuView
    decreases n,
{
    if n == 0 {
        p
    } else {
        ppu_step_spec(ppu_iter(p, (n - 1) as nat))
    }
}

/// A cycle cost the CPU reports is at most 8 (the BRK instruction), so the
/// 1:3 dot conversion cannot overflow.
pub proof fn lemma_step_cycles<B: Bus>(s: CpuState)
    ensures
        match step_spec::<B>(s).1 {
            Ok(n) => n <= 8,
            Err(_) => true,
        },
{
}

/// A whole console: CPU, PPU, and the running cycle count.
pub struct Nes {
    pub cpu: Cpu2A03<NesBus>,
    pub ppu: Ppu,
    pub cycles: usize,
}

impl Nes {
    /// A console with zeroed bus memory and a PPU under the given mirroring
    /// mode, both in their power-up state.
    pub fn new(mirroring: Mirroring) -> (r: Nes)
        ensures
            r.cpu.a == 0,
            r.cpu.x == 0,
            r.cpu.y == 0,
            r.cpu.pc == 0,
            r.cpu.sp == 0xFD,
            r.cpu.status == 0x34,
            !r.cpu.nmi_pending,
            !r.cpu.irq_pending,
            r.cpu.cycles == 0,
            r.cpu.bus.ram@ =~= Seq::new(2048, |i: int| 0u8),
            r.cpu.bus.prg_rom@ =~= Seq::new(32768, |i: int| 0u8),
            r.cpu.bus.ppu_registers@ =~= Seq::new(8, |i: int| 0u8),
            r.ppu@.cycle == 0,
            r.ppu@.scanline == -1,
            r.ppu@.frame == 0,
            !r.ppu@.nmi_occurred,
            r.ppu@.vram_addr == 0,
            r.ppu@.mem.mirroring == mirroring,
            r.ppu@.wf(),
            r.cycles == 0,
    {
        let bus = NesBus::new();
        Nes { cpu: Cpu2A03::new(bus), ppu: Ppu::new(mirroring), cycles: 0 }
    }

    /// One console step: the CPU executes one unit of work, the PPU runs
    /// three dots per CPU cycle, and a raised NMI signal is forwarded to the
    /// CPU and cleared. A decode failure is passed to the caller with
    /// nothing else done.
    pub fn step(&mut self) -> (r: Result<(), DecodeError>)
        requires
            old(self).ppu@.wf(),
        ensures
            final(self).ppu@.wf(),
            ({
                let so = step_spec::<NesBus>(old(self).cpu@);
                match so.1 {
                    Err(e) => {
                        &&& r == Err::<(), DecodeError>(e)
                        &&& final(self).cpu@ == so.0
                        &&& final(self).ppu == old(self).ppu
                        &&& final(self).cycles == old(self).cycles
                    },
                    Ok(n) => {
                        let pv = ppu_iter(old(self).ppu@, (3 * n) as nat);
                        &&& r == Ok::<(), DecodeError>(())
                        &&& final(self).cycles == wadd_usize(old(self).cycles, n)
                        &&& (if pv.nmi_occurred {
                            final(self).ppu@ == (PpuView { nmi_occurred: false, ..pv })
                                && final(self).cpu@ == (CpuState { nmi_pending: true, ..so.0 })
                        } else {
                            final(self).ppu@ == pv && final(self).cpu@ == so.0
                        })
                    },
                }
            }),
    {
        proof {
            lemma_step_cycles::<NesBus>(old(self).cpu@);
        }
        let res = self.cpu.step();
        let cpu_cycles: usize = match res {
            Ok(n) => n,
            Err(e) => {
                return Err(e);
            },
        };
        self.cycles = self.cycles.wrapping_add(cpu_cycles);

        let total: usize = cpu_cycles * 3;
        let ghost ppu0 = self.ppu@;
        let ghost cpu_snap = self.cpu;
        let ghost cycles_snap = self.cycles;
        let mut k: usize = 0;
        while k < total
            invariant
                k <= total,
                self.ppu@ == ppu_iter(ppu0, k as nat),
                self.ppu@.wf(),
                self.cpu == cpu_snap,
                self.cycles == cycles_snap,
            decreases total - k,
        {
            let _ = self.ppu.step();
            k = k + 1;
        }

        if self.ppu.nmi_occurred {
            self.cpu.trigger_nmi();
            self.ppu.nmi_occurred = false;
        }
        Ok(())
    }
}

} // verus!
