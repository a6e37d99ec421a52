//! The decode cursor: a byte position counter for one instruction-stream
//! decode session.
//!
//! `tableswitch` and `lookupswitch` bodies must start on a 4-byte boundary
//! relative to the start of the enclosing code array, so the decoder needs
//! to know its absolute offset.  The cursor is an explicit `usize` owned by
//! the session and threaded through each call, so sessions on independent
//! buffers are independent.

use vstd::prelude::*;

use crate::fault::Fault;

verus! {

/// Padding length demanded by a switch opcode read when the cursor stood at
/// `c` before the tag byte: the smallest `p` with `c + 1 + p` a multiple of 4.
pub open spec fn spec_switch_pad(c: int) -> int
    recommends
        0 <= c,
{
    (4 - ((c + 1) % 4)) % 4
}

/// The padding a switch opcode demands at each cursor residue: 3, 2, 1 and
/// 0 bytes for a tag byte at offsets 0, 1, 2 and 3 past a 4-byte boundary.
pub proof fn lemma_switch_pad_values(c: int)
    requires
        0 <= c,
    ensures
        c % 4 == 0 ==> spec_switch_pad(c) == 3,
        c % 4 == 1 ==> spec_switch_pad(c) == 2,
        c % 4 == 2 ==> spec_switch_pad(c) == 1,
        c % 4 == 3 ==> spec_switch_pad(c) == 0,
{
    assert((c + 1) % 4 == (c % 4 + 1) % 4) by {
        vstd::arithmetic::div_mod::lemma_add_mod_noop(c, 1, 4);
    }
}

/// Move the position forward by `x` bytes.
pub fn move_pos(pos: &mut usize, x: usize)
    requires
        old(pos) + x <= usize::MAX,
    ensures
        *final(pos) == *old(pos) + x,
{
    *pos = *pos + x;
}

/// The current position.
pub fn get_pos(pos: &usize) -> (r: usize)
    ensures
        r == *pos,
{
    *pos
}

/// Set the position, done once at the start of each decode session.
pub fn set_pos_init(pos: &mut usize, x: usize)
    ensures
        *final(pos) == x,
{
    *pos = x;
}

/// Compute and skip the alignment padding of a switch opcode whose tag byte
/// stood at index `at - 1` of `buffer` (so `at` is the first candidate
/// padding byte), advancing the position past the tag and the padding.
///
/// Fails with [`Fault::UnalignedSwitchTooShort`] when fewer than 4 bytes
/// remain, rather than guessing at padding it cannot skip.
pub fn align_code(buffer: &[u8], at: usize, pos: &mut usize) -> (r: Result<usize, Fault>)
    requires
        at <= buffer.len(),
        *old(pos) + buffer.len() <= usize::MAX,
    ensures
        buffer.len() - at < 4 ==> r == Result::<usize, Fault>::Err(Fault::UnalignedSwitchTooShort)
            && *final(pos) == *old(pos),
        buffer.len() - at >= 4 ==> r == Result::<usize, Fault>::Ok(
            spec_switch_pad(*old(pos) as int) as usize,
        ) && *final(pos) == *old(pos) + 1 + spec_switch_pad(*old(pos) as int),
{
    if buffer.len() - at < 4 {
        return Err(Fault::UnalignedSwitchTooShort);
    }
    let pad: usize = (4 - ((*pos + 1) % 4)) % 4;
    *pos = *pos + 1 + pad;
    Ok(pad)
}

} // verus!
