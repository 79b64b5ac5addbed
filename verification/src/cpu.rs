//! The Ricoh 2A03 fetch-decode-execute engine: register file, flag
//! arithmetic, addressing-mode resolution, stack and interrupt handling.
//! `step_spec` is the mathematical small-step semantics; `step` implements
//! it and is proved equal to it.
use vstd::prelude::*;

use crate::arith::{u16_le, wadd16, wadd8, wadd_usize, wsub8};
use crate::bus::Bus;
use crate::opcode::{decode, spec_decode, AddrMode, Instruction, Operation};

verus! {

pub const CARRY: u8 = 0x01;

pub const ZERO: u8 = 0x02;

pub const INTERRUPT_DISABLE: u8 = 0x04;

pub const DECIMAL: u8 = 0x08;

pub const BREAK: u8 = 0x10;

pub const UNUSED: u8 = 0x20;

pub const OVERFLOW: u8 = 0x40;

pub const NEGATIVE: u8 = 0x80;

/// The three ways the interrupt sequence is entered. NMI and IRQ differ only
/// in their vector; BRK additionally forces the break bit into the pushed
/// status byte.
#[derive(Clone, Copy, Debug, PartialEq, Eq, Structural)]
pub enum InterruptType {
    Nmi,
    Irq,
    Brk,
}

/// A fetched opcode with no row in the opcode table: reported to the caller,
/// never a process-terminating fault. Carries the opcode byte and the
/// address it was fetched from.
#[derive(Clone, Copy, Debug, PartialEq, Eq, Structural)]
pub struct DecodeError {
    pub opcode: u8,
    pub pc: u16,
}

/// Mathematical state of the CPU: the register file, the interrupt latches,
/// the cycle counter, and the decoded byte surface of the bus it drives.
#[verifier::ext_equal]
pub ghost struct CpuState {
    pub a: u8,
    pub x: u8,
    pub y: u8,
    pub pc: u16,
    pub sp: u8,
    pub status: u8,
    pub nmi_pending: bool,
    pub irq_pending: bool,
    pub interrupt_mask_delay: bool,
    pub mem: Seq<u8>,
    pub cycles: usize,
}

/// Whether `flag` is set in a status byte.
pub open spec fn flag_set(status: u8, flag: u8) -> bool {
    status & flag != 0
}

/// A status byte with `flag` forced to `cond`.
pub open spec fn with_flag(status: u8, flag: u8, cond: bool) -> u8 {
    if cond {
        status | flag
    } else {
        status & !flag
    }
}

/// Zero and Negative recomputed from a result byte, as every load, transfer
/// and arithmetic instruction does.
pub open spec fn flags_zn(status: u8, v: u8) -> u8 {
    with_flag(with_flag(status, ZERO, v == 0), NEGATIVE, v & 0x80 != 0)
}

/// The address in the fixed stack page 0x0100-0x01FF that a stack pointer
/// value names.
pub open spec fn stack_addr(sp: u8) -> u16 {
    0x0100u16 | (sp as u16)
}

/// The unsigned sum an ADC computes: accumulator plus operand plus carry-in.
pub open spec fn adc_sum(a: u8, v: u8, carry: bool) -> int {
    a + v + (if carry {
        1int
    } else {
        0int
    })
}

/// The result byte of ADC: the sum truncated to 8 bits.
pub open spec fn adc_result(a: u8, v: u8, carry: bool) -> u8 {
    (adc_sum(a, v, carry) % 256) as u8
}

/// Carry out of ADC: the unsigned sum exceeded 0xFF.
pub open spec fn adc_carry(a: u8, v: u8, carry: bool) -> bool {
    adc_sum(a, v, carry) > 0xFF
}

/// Signed overflow of ADC: both operands share a sign that differs from the
/// result's sign.
pub open spec fn adc_overflow(a: u8, v: u8, carry: bool) -> bool {
    ((a ^ adc_result(a, v, carry)) & (v ^ adc_result(a, v, carry)) & 0x80) != 0
}

/// The status byte after ADC: carry, overflow, zero and negative recomputed,
/// the rest untouched.
pub open spec fn flags_after_adc(status: u8, a: u8, v: u8, carry: bool) -> u8 {
    let r = adc_result(a, v, carry);
    flags_zn(
        with_flag(with_flag(status, CARRY, adc_carry(a, v, carry)), OVERFLOW, adc_overflow(a, v, carry)),
        r,
    )
}

/// The status byte after a compare: carry when the register is at least the
/// operand, zero and negative from the subtraction's result byte, which is
/// not stored.
pub open spec fn flags_compare(status: u8, reg: u8, v: u8) -> u8 {
    let r = wsub8(reg, v);
    with_flag(with_flag(with_flag(status, CARRY, reg >= v), ZERO, r == 0), NEGATIVE, r & 0x80 != 0)
}

/// An indexed effective address: the base plus the index modulo 2^16, and
/// whether the sum left the base's 256-byte page, which costs the indexed
/// modes one extra cycle.
pub open spec fn indexed_spec(base: u16, index: u8) -> (u16, bool) {
    let addr = wadd16(base, index as u16);
    (addr, (base & 0xFF00) != (addr & 0xFF00))
}

/// A zero-page address displaced by an index register, wrapping within the
/// zero page.
pub open spec fn zpg_indexed(operand: u8, index: u8) -> u16 {
    wadd16(operand as u16, index as u16) & 0xFF
}

/// The vector each interrupt type loads the program counter from.
pub open spec fn interrupt_vector(t: InterruptType) -> u16 {
    match t {
        InterruptType::Nmi => 0xFFFA,
        InterruptType::Irq => 0xFFFE,
        InterruptType::Brk => 0xFFFE,
    }
}

/// The state after the interrupt sequence: return address pushed high byte
/// first, then the status byte with the unused bit forced (and the break bit
/// too for BRK), interrupts disabled, and the program counter loaded from
/// the type's vector. Costs 7 cycles; the cycle accumulator is the caller's
/// business.
pub open spec fn after_interrupt<B: Bus>(s: CpuState, t: InterruptType) -> CpuState {
    let m1 = B::write_model(s.mem, stack_addr(s.sp), (s.pc >> 8) as u8);
    let sp1 = wsub8(s.sp, 1);
    let m2 = B::write_model(m1, stack_addr(sp1), (s.pc & 0xFF) as u8);
    let sp2 = wsub8(sp1, 1);
    let pushed = if t is Brk {
        (s.status | UNUSED) | BREAK
    } else {
        s.status | UNUSED
    };
    let m3 = B::write_model(m2, stack_addr(sp2), pushed);
    let sp3 = wsub8(sp2, 1);
    let v = interrupt_vector(t);
    CpuState {
        pc: u16_le(m3[v as int], m3[wadd16(v, 1) as int]),
        sp: sp3,
        status: s.status | INTERRUPT_DISABLE,
        mem: m3,
        ..s
    }
}

/// The effect of one decoded instruction, starting from the state just after
/// the opcode fetch advanced the program counter.
pub open spec fn instr_spec<B: Bus>(s: CpuState, ins: Instruction) -> (CpuState, Result<
    usize,
    DecodeError,
>) {
    match ins.op {
        Operation::Lda => {
            let v = s.mem[s.pc as int];
            let n = ins.cycles as usize;
            (
                CpuState {
                    pc: wadd16(s.pc, 1),
                    a: v,
                    status: flags_zn(s.status, v),
                    cycles: wadd_usize(s.cycles, n),
                    ..s
                },
                Ok(n),
            )
        },
        Operation::Sta => {
            let lo = s.mem[s.pc as int];
            let hi = s.mem[wadd16(s.pc, 1) as int];
            let addr = u16_le(lo, hi);
            let n = ins.cycles as usize;
            (
                CpuState {
                    pc: wadd16(wadd16(s.pc, 1), 1),
                    mem: B::write_model(s.mem, addr, s.a),
                    cycles: wadd_usize(s.cycles, n),
                    ..s
                },
                Ok(n),
            )
        },
        Operation::Tax => {
            let n = ins.cycles as usize;
            (
                CpuState {
                    x: s.a,
                    status: flags_zn(s.status, s.a),
                    cycles: wadd_usize(s.cycles, n),
                    ..s
                },
                Ok(n),
            )
        },
        Operation::Brk => {
            let si = after_interrupt::<B>(CpuState { pc: wadd16(s.pc, 1), ..s }, InterruptType::Brk);
            let n = (ins.cycles + 1) as usize;
            (CpuState { cycles: wadd_usize(s.cycles, n), ..si }, Ok(n))
        },
        Operation::Alr => {
            let v = s.mem[s.pc as int];
            let a1 = s.a & v;
            let a2 = a1 >> 1;
            let n = ins.cycles as usize;
            (
                CpuState {
                    pc: wadd16(s.pc, 1),
                    a: a2,
                    status: with_flag(
                        with_flag(with_flag(s.status, CARRY, a1 & 0x01 != 0), ZERO, a2 == 0),
                        NEGATIVE,
                        false,
                    ),
                    cycles: wadd_usize(s.cycles, n),
                    ..s
                },
                Ok(n),
            )
        },
        Operation::Dcp => {
            let addr = s.mem[s.pc as int] as u16;
            let v = wsub8(s.mem[addr as int], 1);
            let n = ins.cycles as usize;
            (
                CpuState {
                    pc: wadd16(s.pc, 1),
                    mem: B::write_model(s.mem, addr, v),
                    status: flags_compare(s.status, s.a, v),
                    cycles: wadd_usize(s.cycles, n),
                    ..s
                },
                Ok(n),
            )
        },
        Operation::Nop => {
            let n = ins.cycles as usize;
            if ins.mode is ZeroPage {
                (CpuState { pc: wadd16(s.pc, 1), cycles: wadd_usize(s.cycles, n), ..s }, Ok(n))
            } else {
                (CpuState { cycles: wadd_usize(s.cycles, n), ..s }, Ok(n))
            }
        },
    }
}

/// One unit of work, checked in priority order at the top of every step: a
/// pending NMI is serviced first, then a pending IRQ if interrupts are
/// enabled, else the next opcode is fetched, decoded and executed. An opcode
/// with no table row changes nothing and reports a decode failure.
pub open spec fn step_spec<B: Bus>(s: CpuState) -> (CpuState, Result<usize, DecodeError>) {
    if s.nmi_pending {
        (after_interrupt::<B>(CpuState { nmi_pending: false, ..s }, InterruptType::Nmi), Ok(7))
    } else if s.irq_pending && !flag_set(s.status, INTERRUPT_DISABLE) {
        (after_interrupt::<B>(CpuState { irq_pending: false, ..s }, InterruptType::Irq), Ok(7))
    } else {
        let opcode = s.mem[s.pc as int];
        match spec_decode(opcode) {
            Some(ins) => instr_spec::<B>(CpuState { pc: wadd16(s.pc, 1), ..s }, ins),
            None => (s, Err(DecodeError { opcode, pc: s.pc })),
        }
    }
}

/// Ricoh 2A03 CPU core over an abstract bus.
pub struct Cpu2A03<B: Bus> {
    pub a: u8,
    pub x: u8,
    pub y: u8,
    pub pc: u16,
    pub sp: u8,
    pub status: u8,
    pub nmi_pending: bool,
    pub irq_pending: bool,
    pub interrupt_mask_delay: bool,
    pub bus: B,
    pub cycles: usize,
}

impl<B: Bus> View for Cpu2A03<B> {
    type V = CpuState;

    open spec fn view(&self) -> CpuState {
        CpuState {
            a: self.a,
            x: self.x,
            y: self.y,
            pc: self.pc,
            sp: self.sp,
            status: self.status,
            nmi_pending: self.nmi_pending,
            irq_pending: self.irq_pending,
            interrupt_mask_delay: self.interrupt_mask_delay,
            mem: self.bus.model(),
            cycles: self.cycles,
        }
    }
}

impl<B: Bus> Cpu2A03<B> {
    /// Power-up state: stack pointer 0xFD, status 0x34 (interrupts disabled,
    /// unused and break bits set), no interrupt pending.
    pub fn new(bus: B) -> (r: Cpu2A03<B>)
        ensures
            r@ == (CpuState {
                a: 0,
                x: 0,
                y: 0,
                pc: 0,
                sp: 0xFD,
                status: 0x34,
                nmi_pending: false,
                irq_pending: false,
                interrupt_mask_delay: false,
                mem: bus.model(),
                cycles: 0,
            }),
            r.bus == bus,
    {
        Cpu2A03 {
            a: 0,
            x: 0,
            y: 0,
            pc: 0,
            sp: 0xFD,
            status: 0x34,
            nmi_pending: false,
            irq_pending: false,
            interrupt_mask_delay: false,
            bus,
            cycles: 0,
        }
    }

    /// Reset: the program counter is loaded from the little-endian reset
    /// vector at 0xFFFC, the stack pointer and status return to their
    /// power-up values, and 8 cycles are charged.
    pub fn reset(&mut self)
        ensures
            final(self)@ == (CpuState {
                pc: u16_le(old(self)@.mem[0xFFFC], old(self)@.mem[0xFFFD]),
                sp: 0xFD,
                status: 0x34,
                cycles: wadd_usize(old(self).cycles, 8),
                ..old(self)@
            }),
    {
        self.pc = self.read_u16(0xFFFC);
        self.sp = 0xFD;
        self.status = 0x34;
        self.cycles = self.cycles.wrapping_add(8);
    }

    /// Reads the little-endian 16-bit value at `addr`; the second byte comes
    /// from `addr + 1` modulo 2^16.
    pub fn read_u16(&mut self, addr: u16) -> (r: u16)
        ensures
            *final(self) == *old(self),
            r == u16_le(old(self)@.mem[addr as int], old(self)@.mem[wadd16(addr, 1) as int]),
    {
        let lo = self.bus.read(addr) as u16;
        let hi = self.bus.read(addr.wrapping_add(1)) as u16;
        (hi << 8) | lo
    }

    /// Pushes a byte at the stack pointer's slot in page 0x0100 and moves
    /// the pointer down, wrapping within the page.
    pub fn push(&mut self, data: u8)
        ensures
            final(self)@ == (CpuState {
                sp: wsub8(old(self).sp, 1),
                mem: B::write_model(old(self)@.mem, stack_addr(old(self).sp), data),
                ..old(self)@
            }),
    {
        self.bus.write(0x0100 | (self.sp as u16), data);
        self.sp = self.sp.wrapping_sub(1);
    }

    /// Moves the stack pointer up, wrapping within the page, and reads the
    /// byte at its new slot.
    pub fn pop(&mut self) -> (r: u8)
        ensures
            final(self)@ == (CpuState { sp: wadd8(old(self).sp, 1), ..old(self)@ }),
            r == old(self)@.mem[stack_addr(wadd8(old(self).sp, 1)) as int],
    {
        self.sp = self.sp.wrapping_add(1);
        self.bus.read(0x0100 | (self.sp as u16))
    }

    /// Forces one status flag to `condition`, leaving the rest untouched.
    pub fn set_flag(&mut self, flag: u8, condition: bool)
        ensures
            *final(self) == (Cpu2A03 { status: with_flag(old(self).status, flag, condition), ..*old(self) }),
    {
        if condition {
            self.status = self.status | flag;
        } else {
            self.status = self.status & !flag;
        }
    }

    /// Whether one status flag is set.
    pub fn get_flag(&self, flag: u8) -> (r: bool)
        ensures
            r == flag_set(self.status, flag),
    {
        (self.status & flag) != 0
    }

    /// Immediate mode: the operand is the next instruction byte.
    pub fn imm(&mut self) -> (r: u8)
        ensures
            final(self)@ == (CpuState { pc: wadd16(old(self).pc, 1), ..old(self)@ }),
            r == old(self)@.mem[old(self).pc as int],
    {
        let val = self.bus.read(self.pc);
        self.pc = self.pc.wrapping_add(1);
        val
    }

    /// Zero-page mode: the next instruction byte is the effective address.
    pub fn zpg(&mut self) -> (r: u16)
        ensures
            final(self)@ == (CpuState { pc: wadd16(old(self).pc, 1), ..old(self)@ }),
            r == old(self)@.mem[old(self).pc as int] as u16,
    {
        self.imm() as u16
    }

    /// Absolute mode: the next two instruction bytes are the effective
    /// address, little-endian.
    pub fn abs(&mut self) -> (r: u16)
        ensures
            final(self)@ == (CpuState { pc: wadd16(wadd16(old(self).pc, 1), 1), ..old(self)@ }),
            r == u16_le(
                old(self)@.mem[old(self).pc as int],
                old(self)@.mem[wadd16(old(self).pc, 1) as int],
            ),
    {
        let lo = self.bus.read(self.pc) as u16;
        self.pc = self.pc.wrapping_add(1);
        let hi = self.bus.read(self.pc) as u16;
        self.pc = self.pc.wrapping_add(1);
        (hi << 8) | lo
    }

    /// Absolute,X: the absolute operand displaced by X, reporting whether
    /// the displacement crossed a page.
    pub fn abs_x(&mut self) -> (r: (u16, bool))
        ensures
            final(self)@ == (CpuState { pc: wadd16(wadd16(old(self).pc, 1), 1), ..old(self)@ }),
            r == indexed_spec(
                u16_le(
                    old(self)@.mem[old(self).pc as int],
                    old(self)@.mem[wadd16(old(self).pc, 1) as int],
                ),
                old(self).x,
            ),
    {
        let base = self.abs();
        indexed(base, self.x)
    }

    /// Absolute,Y: the absolute operand displaced by Y, reporting whether
    /// the displacement crossed a page.
    pub fn abs_y(&mut self) -> (r: (u16, bool))
        ensures
            final(self)@ == (CpuState { pc: wadd16(wadd16(old(self).pc, 1), 1), ..old(self)@ }),
            r == indexed_spec(
                u16_le(
                    old(self)@.mem[old(self).pc as int],
                    old(self)@.mem[wadd16(old(self).pc, 1) as int],
                ),
                old(self).y,
            ),
    {
        let base = self.abs();
        indexed(base, self.y)
    }

    /// Zero-page,X: the zero-page operand displaced by X, wrapping within
    /// the zero page.
    pub fn zpg_x(&mut self) -> (r: u16)
        ensures
            final(self)@ == (CpuState { pc: wadd16(old(self).pc, 1), ..old(self)@ }),
            r == zpg_indexed(old(self)@.mem[old(self).pc as int], old(self).x),
    {
        let operand = self.zpg();
        (operand + self.x as u16) & 0xFF
    }

    /// Zero-page,Y: the zero-page operand displaced by Y, wrapping within
    /// the zero page.
    pub fn zpg_y(&mut self) -> (r: u16)
        ensures
            final(self)@ == (CpuState { pc: wadd16(old(self).pc, 1), ..old(self)@ }),
            r == zpg_indexed(old(self)@.mem[old(self).pc as int], old(self).y),
    {
        let operand = self.zpg();
        (operand + self.y as u16) & 0xFF
    }

    /// Indexed-indirect "(zp,X)": the zero-page operand displaced by X names
    /// a little-endian pointer whose second byte wraps within the zero page.
    pub fn idx_ind(&mut self) -> (r: u16)
        ensures
            final(self)@ == (CpuState { pc: wadd16(old(self).pc, 1), ..old(self)@ }),
            ({
                let ptr = zpg_indexed(old(self)@.mem[old(self).pc as int], old(self).x);
                r == u16_le(
                    old(self)@.mem[ptr as int],
                    old(self)@.mem[(wadd16(ptr, 1) & 0xFF) as int],
                )
            }),
    {
        let ptr = self.zpg_x();
        proof {
            assert(forall|v: u16, w: u16| #[trigger] (v & w) <= w) by (bit_vector);
        }
        let lo = self.bus.read(ptr) as u16;
        let hi = self.bus.read((ptr + 1) & 0xFF) as u16;
        (hi << 8) | lo
    }

    /// Indirect-indexed "(zp),Y": the zero-page operand names a little-endian
    /// pointer (second byte wrapping within the zero page) that is then
    /// displaced by Y, reporting whether the displacement crossed a page.
    pub fn ind_idx(&mut self) -> (r: (u16, bool))
        ensures
            final(self)@ == (CpuState { pc: wadd16(old(self).pc, 1), ..old(self)@ }),
            ({
                let base = old(self)@.mem[old(self).pc as int] as u16;
                let effective = u16_le(
                    old(self)@.mem[base as int],
                    old(self)@.mem[(wadd16(base, 1) & 0xFF) as int],
                );
                r == indexed_spec(effective, old(self).y)
            }),
    {
        let base = self.zpg();
        let lo = self.bus.read(base) as u16;
        let hi = self.bus.read((base + 1) & 0xFF) as u16;
        let effective = (hi << 8) | lo;
        indexed(effective, self.y)
    }

    /// Indirect absolute, with the 6502 page-wrap bug: when the pointer's
    /// low byte is 0xFF, the high byte is fetched from the start of the same
    /// page, not the next one.
    pub fn ind_abs(&mut self) -> (r: u16)
        ensures
            final(self)@ == (CpuState { pc: wadd16(wadd16(old(self).pc, 1), 1), ..old(self)@ }),
            ({
                let m = old(self)@.mem;
                let addr = u16_le(m[old(self).pc as int], m[wadd16(old(self).pc, 1) as int]);
                let hi_addr = if addr & 0x00FF == 0x00FF {
                    addr & 0xFF00
                } else {
                    wadd16(addr, 1)
                };
                r == u16_le(m[addr as int], m[hi_addr as int])
            }),
    {
        let addr = self.abs();
        let lo = self.bus.read(addr) as u16;
        let hi = if (addr & 0x00FF) == 0x00FF {
            self.bus.read(addr & 0xFF00) as u16
        } else {
            self.bus.read(addr.wrapping_add(1)) as u16
        };
        (hi << 8) | lo
    }

    /// Relative mode: the next instruction byte as a signed branch offset.
    pub fn rel(&mut self) -> (r: i8)
        ensures
            final(self)@ == (CpuState { pc: wadd16(old(self).pc, 1), ..old(self)@ }),
            r == old(self)@.mem[old(self).pc as int] as i8,
    {
        let b = self.imm();
        #[verifier::truncate] (b as i8)
    }

    /// Accumulator/implied mode: no operand.
    pub fn imp(&mut self)
        ensures
            *final(self) == *old(self),
    {
    }

    /// Latches a non-maskable interrupt; it cannot be masked and is serviced
    /// at the start of the next step.
    pub fn trigger_nmi(&mut self)
        ensures
            *final(self) == (Cpu2A03 { nmi_pending: true, ..*old(self) }),
    {
        self.nmi_pending = true;
    }

    /// Latches a maskable interrupt request, but only while the interrupt
    /// disable flag is clear at the moment of assertion.
    pub fn trigger_irq(&mut self)
        ensures
            *final(self) == (if flag_set(old(self).status, INTERRUPT_DISABLE) {
                *old(self)
            } else {
                (Cpu2A03 { irq_pending: true, ..*old(self) })
            }),
    {
        if !self.get_flag(INTERRUPT_DISABLE) {
            self.irq_pending = true;
        }
    }

    /// Runs the interrupt sequence for `int_type` and returns its 7-cycle
    /// cost.
    pub fn handle_interrupt(&mut self, int_type: InterruptType) -> (r: usize)
        ensures
            final(self)@ == after_interrupt::<B>(old(self)@, int_type),
            r == 7,
    {
        self.push((self.pc >> 8) as u8);
        self.push((self.pc & 0xFF) as u8);

        let mut status = self.status | UNUSED;
        if int_type == InterruptType::Brk {
            status = status | BREAK;
        }
        self.push(status);

        self.set_flag(INTERRUPT_DISABLE, true);

        let vector: u16 = match int_type {
            InterruptType::Nmi => 0xFFFA,
            InterruptType::Irq => 0xFFFE,
            InterruptType::Brk => 0xFFFE,
        };

        self.pc = self.read_u16(vector);
        7
    }

    /// Loads the accumulator and recomputes Zero and Negative.
    pub fn lda(&mut self, value: u8)
        ensures
            *final(self) == (Cpu2A03 {
                a: value,
                status: flags_zn(old(self).status, value),
                ..*old(self)
            }),
    {
        self.a = value;
        self.set_flag(ZERO, self.a == 0);
        self.set_flag(NEGATIVE, (self.a & 0x80) != 0);
    }

    /// Stores the accumulator at `addr`.
    pub fn sta(&mut self, addr: u16)
        ensures
            final(self)@ == (CpuState {
                mem: B::write_model(old(self)@.mem, addr, old(self).a),
                ..old(self)@
            }),
    {
        self.bus.write(addr, self.a);
    }

    /// Copies the accumulator into X and recomputes Zero and Negative.
    pub fn tax(&mut self)
        ensures
            *final(self) == (Cpu2A03 {
                x: old(self).a,
                status: flags_zn(old(self).status, old(self).a),
                ..*old(self)
            }),
    {
        self.x = self.a;
        self.set_flag(ZERO, self.x == 0);
        self.set_flag(NEGATIVE, (self.x & 0x80) != 0);
    }

    /// Add with carry, binary mode only (the 2A03 has no decimal mode): the
    /// accumulator takes the truncated sum, and Carry, Overflow, Zero and
    /// Negative are recomputed.
    pub fn adc(&mut self, value: u8)
        ensures
            *final(self) == (Cpu2A03 {
                a: adc_result(old(self).a, value, flag_set(old(self).status, CARRY)),
                status: flags_after_adc(
                    old(self).status,
                    old(self).a,
                    value,
                    flag_set(old(self).status, CARRY),
                ),
                ..*old(self)
            }),
    {
        let carry_in: u16 = if self.get_flag(CARRY) {
            1
        } else {
            0
        };
        let sum: u16 = self.a as u16 + value as u16 + carry_in;
        let result: u8 = (sum & 0xFF) as u8;
        proof {
            assert(sum & 0xFF == sum % 256) by (bit_vector);
        }
        self.set_flag(CARRY, sum > 0xFF);
        self.set_flag(OVERFLOW, ((self.a ^ result) & (value ^ result) & 0x80) != 0);
        self.a = result;
        self.set_flag(ZERO, self.a == 0);
        self.set_flag(NEGATIVE, (self.a & 0x80) != 0);
    }

    /// Subtract with carry: by design an add of the operand's one's
    /// complement with identical flag formulas, which is exactly how the
    /// hardware computes it.
    pub fn sbc(&mut self, value: u8)
        ensures
            *final(self) == (Cpu2A03 {
                a: adc_result(old(self).a, !value, flag_set(old(self).status, CARRY)),
                status: flags_after_adc(
                    old(self).status,
                    old(self).a,
                    !value,
                    flag_set(old(self).status, CARRY),
                ),
                ..*old(self)
            }),
    {
        self.adc(!value);
    }

    /// Unofficial ALR: AND the operand into the accumulator, then shift
    /// right once; Carry takes the bit shifted out, Negative is always
    /// cleared.
    pub fn alr(&mut self, value: u8)
        ensures
            *final(self) == (Cpu2A03 {
                a: (old(self).a & value) >> 1,
                status: with_flag(
                    with_flag(
                        with_flag(old(self).status, CARRY, (old(self).a & value) & 0x01 != 0),
                        ZERO,
                        (old(self).a & value) >> 1 == 0,
                    ),
                    NEGATIVE,
                    false,
                ),
                ..*old(self)
            }),
    {
        self.a = self.a & value;
        self.set_flag(CARRY, (self.a & 0x01) != 0);
        self.a = self.a >> 1;
        self.set_flag(ZERO, self.a == 0);
        self.set_flag(NEGATIVE, false);
    }

    /// Unofficial DCP: decrement the byte at `addr` (wrapping), store it
    /// back, and compare the accumulator against the decremented value.
    pub fn dcp(&mut self, addr: u16)
        ensures
            final(self)@ == (CpuState {
                mem: B::write_model(
                    old(self)@.mem,
                    addr,
                    wsub8(old(self)@.mem[addr as int], 1),
                ),
                status: flags_compare(
                    old(self).status,
                    old(self).a,
                    wsub8(old(self)@.mem[addr as int], 1),
                ),
                ..old(self)@
            }),
    {
        let value = self.bus.read(addr);
        let value = value.wrapping_sub(1);
        self.bus.write(addr, value);
        self.compare(self.a, value);
    }

    /// Compare: Carry when `reg >= value`, Zero and Negative from the
    /// subtraction's result byte, which is discarded.
    pub fn compare(&mut self, reg: u8, value: u8)
        ensures
            *final(self) == (Cpu2A03 {
                status: flags_compare(old(self).status, reg, value),
                ..*old(self)
            }),
    {
        let result = reg.wrapping_sub(value);
        self.set_flag(CARRY, reg >= value);
        self.set_flag(ZERO, result == 0);
        self.set_flag(NEGATIVE, (result & 0x80) != 0);
    }

    /// Executes exactly one unit of work - one interrupt service or one
    /// instruction - and returns its cycle cost; an opcode with no table row
    /// changes nothing and reports a decode failure. The whole effect is
    /// `step_spec`.
    pub fn step(&mut self) -> (r: Result<usize, DecodeError>)
        ensures
            final(self)@ == step_spec::<B>(old(self)@).0,
            r == step_spec::<B>(old(self)@).1,
    {
        if self.nmi_pending {
            self.nmi_pending = false;
            let c = self.handle_interrupt(InterruptType::Nmi);
            return Ok(c);
        }
        if self.irq_pending && !self.get_flag(INTERRUPT_DISABLE) {
            self.irq_pending = false;
            let c = self.handle_interrupt(InterruptType::Irq);
            return Ok(c);
        }

        let opcode = self.bus.read(self.pc);
        match decode(opcode) {
            None => Err(DecodeError { opcode, pc: self.pc }),
            Some(ins) => {
                self.pc = self.pc.wrapping_add(1);
                let cycles: usize = match ins.op {
                    Operation::Lda => {
                        let value = self.imm();
                        self.lda(value);
                        ins.cycles as usize
                    },
                    Operation::Sta => {
                        let addr = self.abs();
                        self.sta(addr);
                        ins.cycles as usize
                    },
                    Operation::Tax => {
                        self.tax();
                        ins.cycles as usize
                    },
                    Operation::Brk => {
                        self.pc = self.pc.wrapping_add(1);
                        let _ = self.handle_interrupt(InterruptType::Brk);
                        (ins.cycles + 1) as usize
                    },
                    Operation::Alr => {
                        let value = self.imm();
                        self.alr(value);
                        ins.cycles as usize
                    },
                    Operation::Dcp => {
                        let addr = self.zpg();
                        self.dcp(addr);
                        ins.cycles as usize
                    },
                    Operation::Nop => {
                        if ins.mode == AddrMode::ZeroPage {
                            let _ = self.zpg();
                        }
                        ins.cycles as usize
                    },
                };
                self.cycles = self.cycles.wrapping_add(cycles);
                Ok(cycles)
            },
        }
    }
}

/// An indexed effective address: base plus index modulo 2^16, and whether
/// the sum left the base's 256-byte page.
pub fn indexed(base: u16, index: u8) -> (r: (u16, bool))
    ensures
        r == indexed_spec(base, index),
{
    let addr = base.wrapping_add(index as u16);
    (addr, (base & 0xFF00) != (addr & 0xFF00))
}

/// Interrupt priority: with both latches pending at the start of a step, the
/// NMI is serviced - at the usual 7-cycle cost - and the IRQ latch stays set
/// for a following step.
pub proof fn lemma_interrupt_priority<B: Bus>(s: CpuState)
    requires
        s.nmi_pending,
        s.irq_pending,
    ensures
        step_spec::<B>(s).1 == Ok::<usize, DecodeError>(7),
        step_spec::<B>(s).0.irq_pending,
        !step_spec::<B>(s).0.nmi_pending,
        step_spec::<B>(s).0 == after_interrupt::<B>(
            CpuState { nmi_pending: false, ..s },
            InterruptType::Nmi,
        ),
{
}

/// Subtract with carry is a true subtraction: with borrow = 1 - carry-in,
/// the result byte it leaves in the accumulator is (a - v - borrow) modulo
/// 256, and the carry it reports says that no borrow occurred.
pub proof fn lemma_sbc_subtracts(a: u8, v: u8, carry: bool)
    ensures
        adc_result(a, !v, carry) == (((a - v - (if carry {
            0int
        } else {
            1int
        })) % 256) as u8),
        adc_carry(a, !v, carry) == (a - v - (if carry {
            0int
        } else {
            1int
        }) >= 0),
{
    let borrow: int = if carry {
        0
    } else {
        1
    };
    assert(!v == 255 - v) by (bit_vector);
    assert(adc_sum(a, !v, carry) == a - v - borrow + 256);
    vstd::arithmetic::div_mod::lemma_mod_add_multiples_vanish(a - v - borrow, 256);
}

} // verus!
