//! Little-endian fields at fixed places in a byte sequence.

use vstd::bytes::{
    spec_u16_from_le_bytes, spec_u16_to_le_bytes, spec_u32_from_le_bytes, spec_u32_to_le_bytes,
    spec_u64_from_le_bytes, spec_u64_to_le_bytes, u16_from_le_bytes, u16_to_le_bytes,
    u32_from_le_bytes, u32_to_le_bytes, u64_from_le_bytes, u64_to_le_bytes,
};
use vstd::prelude::*;
use vstd::slice::slice_subrange;

verus! {

/// The 16-bit field that starts at `at`.
pub open spec fn le_u16(bytes: Seq<u8>, at: int) -> u16 {
    spec_u16_from_le_bytes(bytes.subrange(at, at + 2))
}

/// The 32-bit field that starts at `at`.
pub open spec fn le_u32(bytes: Seq<u8>, at: int) -> u32 {
    spec_u32_from_le_bytes(bytes.subrange(at, at + 4))
}

/// The 64-bit field that starts at `at`.
pub open spec fn le_u64(bytes: Seq<u8>, at: int) -> u64 {
    spec_u64_from_le_bytes(bytes.subrange(at, at + 8))
}

/// Reads the byte at `at`.
pub fn read_u8(bytes: &[u8], at: usize) -> (r: u8)
    requires
        at < bytes@.len(),
    ensures
        r == bytes@[at as int],
{
    bytes[at]
}

/// Reads the 16-bit field that starts at `at`.
pub fn read_u16(bytes: &[u8], at: usize) -> (r: u16)
    requires
        at + 2 <= bytes@.len(),
    ensures
        r == le_u16(bytes@, at as int),
{
    proof {
        vstd::slice::axiom_spec_len(bytes);
    }
    u16_from_le_bytes(slice_subrange(bytes, at, at + 2))
}

/// Reads the 32-bit field that starts at `at`.
pub fn read_u32(bytes: &[u8], at: usize) -> (r: u32)
    requires
        at + 4 <= bytes@.len(),
    ensures
        r == le_u32(bytes@, at as int),
{
    proof {
        vstd::slice::axiom_spec_len(bytes);
    }
    u32_from_le_bytes(slice_subrange(bytes, at, at + 4))
}

/// Reads the 64-bit field that starts at `at`.
pub fn read_u64(bytes: &[u8], at: usize) -> (r: u64)
    requires
        at + 8 <= bytes@.len(),
    ensures
        r == le_u64(bytes@, at as int),
{
    proof {
        vstd::slice::axiom_spec_len(bytes);
    }
    u64_from_le_bytes(slice_subrange(bytes, at, at + 8))
}

/// Appends one byte.
pub fn put_u8(out: &mut Vec<u8>, value: u8)
    ensures
        final(out)@ == old(out)@.push(value),
{
    out.push(value);
}

/// Appends a 16-bit field.
pub fn put_u16(out: &mut Vec<u8>, value: u16)
    ensures
        final(out)@ == old(out)@ + spec_u16_to_le_bytes(value),
        final(out)@.len() == old(out)@.len() + 2,
{
    let mut field = u16_to_le_bytes(value);
    out.append(&mut field);
}

/// Appends a 32-bit field.
pub fn put_u32(out: &mut Vec<u8>, value: u32)
    ensures
        final(out)@ == old(out)@ + spec_u32_to_le_bytes(value),
        final(out)@.len() == old(out)@.len() + 4,
{
    let mut field = u32_to_le_bytes(value);
    out.append(&mut field);
}

/// Appends a 64-bit field.
pub fn put_u64(out: &mut Vec<u8>, value: u64)
    ensures
        final(out)@ == old(out)@ + spec_u64_to_le_bytes(value),
        final(out)@.len() == old(out)@.len() + 8,
{
    let mut field = u64_to_le_bytes(value);
    out.append(&mut field);
}

} // verus!
