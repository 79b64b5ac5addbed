//! The authoritative opcode table: each opcode byte maps to an operation, an
//! addressing mode, and a base cycle cost, or to no instruction at all, in
//! which case the CPU reports a decode failure instead of halting.
use vstd::prelude::*;

verus! {

/// The operations the execution engine implements. `Alr` and `Dcp` are
/// unofficial 6502 operations; `Nop` covers both the one-byte variants and
/// the undocumented variants that consume and discard a zero-page operand.
#[derive(Clone, Copy, Debug, PartialEq, Eq, Structural)]
pub enum Operation {
    Lda,
    Sta,
    Tax,
    Brk,
    Alr,
    Dcp,
    Nop,
}

/// How an instruction finds its operand.
#[derive(Clone, Copy, Debug, PartialEq, Eq, Structural)]
pub enum AddrMode {
    Immediate,
    ZeroPage,
    Absolute,
    Implied,
}

/// One row of the opcode table.
#[derive(Clone, Copy, Debug, PartialEq, Eq, Structural)]
pub struct Instruction {
    pub op: Operation,
    pub mode: AddrMode,
    pub cycles: u8,
}

/// The opcode table as a function: the instruction a byte decodes to, or
/// `None` for the opcodes the engine does not implement.
pub open spec fn spec_decode(opcode: u8) -> Option<Instruction> {
    match opcode {
        0xA9 => Some(Instruction { op: Operation::Lda, mode: AddrMode::Immediate, cycles: 2 }),
        0x8D => Some(Instruction { op: Operation::Sta, mode: AddrMode::Absolute, cycles: 4 }),
        0xAA => Some(Instruction { op: Operation::Tax, mode: AddrMode::Implied, cycles: 2 }),
        0x00 => Some(Instruction { op: Operation::Brk, mode: AddrMode::Implied, cycles: 7 }),
        0x4B => Some(Instruction { op: Operation::Alr, mode: AddrMode::Immediate, cycles: 2 }),
        0xC7 => Some(Instruction { op: Operation::Dcp, mode: AddrMode::ZeroPage, cycles: 5 }),
        0x1A | 0x3A | 0x5A | 0x7A | 0xDA | 0xFA => Some(
            Instruction { op: Operation::Nop, mode: AddrMode::Implied, cycles: 2 },
        ),
        0x04 | 0x44 | 0x64 => Some(
            Instruction { op: Operation::Nop, mode: AddrMode::ZeroPage, cycles: 3 },
        ),
        _ => None,
    }
}

/// Looks an opcode byte up in the table.
pub fn decode(opcode: u8) -> (r: Option<Instruction>)
    ensures
        r == spec_decode(opcode),
{
    match opcode {
        0xA9 => Some(Instruction { op: Operation::Lda, mode: AddrMode::Immediate, cycles: 2 }),
        0x8D => Some(Instruction { op: Operation::Sta, mode: AddrMode::Absolute, cycles: 4 }),
        0xAA => Some(Instruction { op: Operation::Tax, mode: AddrMode::Implied, cycles: 2 }),
        0x00 => Some(Instruction { op: Operation::Brk, mode: AddrMode::Implied, cycles: 7 }),
        0x4B => Some(Instruction { op: Operation::Alr, mode: AddrMode::Immediate, cycles: 2 }),
        0xC7 => Some(Instruction { op: Operation::Dcp, mode: AddrMode::ZeroPage, cycles: 5 }),
        0x1A | 0x3A | 0x5A | 0x7A | 0xDA | 0xFA => Some(
            Instruction { op: Operation::Nop, mode: AddrMode::Implied, cycles: 2 },
        ),
        0x04 | 0x44 | 0x64 => Some(
            Instruction { op: Operation::Nop, mode: AddrMode::ZeroPage, cycles: 3 },
        ),
        _ => None,
    }
}

} // verus!
