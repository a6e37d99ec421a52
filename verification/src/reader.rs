//! Fixed-width integer readers over a byte buffer.
//!
//! The class file format stores its multi-byte fields big-endian; the
//! bytecode decoder in this crate reads its operands little-endian.  Each
//! reader is a plain function from the buffer and an offset to the value,
//! with a spec function stating the arithmetic it computes.

use vstd::prelude::*;

verus! {

pub open spec fn spec_be_u16(s: Seq<u8>, i: int) -> u16
    recommends
        0 <= i,
        i + 2 <= s.len(),
{
    (s[i] as u16 * 256 + s[i + 1] as u16) as u16
}

pub open spec fn spec_be_u32(s: Seq<u8>, i: int) -> u32
    recommends
        0 <= i,
        i + 4 <= s.len(),
{
    (s[i] as u32 * 0x1000000 + s[i + 1] as u32 * 0x10000 + s[i + 2] as u32 * 0x100 + s[i
        + 3] as u32) as u32
}

pub open spec fn spec_le_u16(s: Seq<u8>, i: int) -> u16
    recommends
        0 <= i,
        i + 2 <= s.len(),
{
    (s[i] as u16 + s[i + 1] as u16 * 256) as u16
}

pub open spec fn spec_le_u32(s: Seq<u8>, i: int) -> u32
    recommends
        0 <= i,
        i + 4 <= s.len(),
{
    (s[i] as u32 + s[i + 1] as u32 * 0x100 + s[i + 2] as u32 * 0x10000 + s[i
        + 3] as u32 * 0x1000000) as u32
}

pub open spec fn spec_le_i16(s: Seq<u8>, i: int) -> i16
    recommends
        0 <= i,
        i + 2 <= s.len(),
{
    spec_le_u16(s, i) as i16
}

pub open spec fn spec_le_i32(s: Seq<u8>, i: int) -> i32
    recommends
        0 <= i,
        i + 4 <= s.len(),
{
    spec_le_u32(s, i) as i32
}

/// Dropping a prefix keeps the remaining bytes, shifted.
pub proof fn lemma_skip_index(s: Seq<u8>, at: int)
    requires
        0 <= at <= s.len(),
    ensures
        s.skip(at).len() == s.len() - at,
        forall|i: int| 0 <= i < s.len() - at ==> s.skip(at)[i] == s[at + i],
{
}

pub fn be_u16(buf: &[u8], i: usize) -> (r: u16)
    requires
        i + 2 <= buf.len(),
    ensures
        r == spec_be_u16(buf@, i as int),
{
    buf[i] as u16 * 256 + buf[i + 1] as u16
}

pub fn be_u32(buf: &[u8], i: usize) -> (r: u32)
    requires
        i + 4 <= buf.len(),
    ensures
        r == spec_be_u32(buf@, i as int),
{
    buf[i] as u32 * 0x1000000 + buf[i + 1] as u32 * 0x10000 + buf[i + 2] as u32 * 0x100 + buf[i
        + 3] as u32
}

pub fn le_u16(buf: &[u8], i: usize) -> (r: u16)
    requires
        i + 2 <= buf.len(),
    ensures
        r == spec_le_u16(buf@, i as int),
{
    buf[i] as u16 + buf[i + 1] as u16 * 256
}

pub fn le_u32(buf: &[u8], i: usize) -> (r: u32)
    requires
        i + 4 <= buf.len(),
    ensures
        r == spec_le_u32(buf@, i as int),
{
    buf[i] as u32 + buf[i + 1] as u32 * 0x100 + buf[i + 2] as u32 * 0x10000 + buf[i
        + 3] as u32 * 0x1000000
}

pub fn le_i16(buf: &[u8], i: usize) -> (r: i16)
    requires
        i + 2 <= buf.len(),
    ensures
        r == spec_le_i16(buf@, i as int),
{
    le_u16(buf, i) as i16
}

pub fn le_i32(buf: &[u8], i: usize) -> (r: i32)
    requires
        i + 4 <= buf.len(),
    ensures
        r == spec_le_i32(buf@, i as int),
{
    le_u32(buf, i) as i32
}

} // verus!
