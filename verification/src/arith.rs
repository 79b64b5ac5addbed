//! Short names for the wrapping arithmetic the register file uses: the 6502
//! wraps its program counter, stack pointer, and cycle counters silently.
use vstd::prelude::*;

verus! {

pub open spec fn wadd8(a: u8, b: u8) -> u8 {
    vstd::wrapping::u8_specs::wrapping_add(a, b)
}

pub open spec fn wsub8(a: u8, b: u8) -> u8 {
    vstd::wrapping::u8_specs::wrapping_sub(a, b)
}

pub open spec fn wadd16(a: u16, b: u16) -> u16 {
    vstd::wrapping::u16_specs::wrapping_add(a, b)
}

pub open spec fn wadd32(a: u32, b: u32) -> u32 {
    vstd::wrapping::u32_specs::wrapping_add(a, b)
}

pub open spec fn wadd_usize(a: usize, b: usize) -> usize {
    vstd::wrapping::usize_specs::wrapping_add(a, b)
}

/// The 16-bit value stored little-endian as the byte pair `(lo, hi)`.
pub open spec fn u16_le(lo: u8, hi: u8) -> u16 {
    ((hi as u16) << 8) | (lo as u16)
}

} // verus!
