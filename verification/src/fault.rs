//! Error values shared by every decoder in the crate.

use vstd::prelude::*;

verus! {

/// The ways a modified UTF-8 text payload can be rejected.
#[derive(Clone, Copy, Debug, PartialEq, Eq, Structural)]
pub enum Utf8Fault {
    /// A byte that can never start a modified UTF-8 encoded character
    /// (a stray continuation byte, or a four-byte lead).
    MalformedByte,
    /// The combined value is not a valid Unicode scalar value.
    IllegalCodepoint,
    /// A raw `0x00` byte; modified UTF-8 always encodes NUL as two bytes.
    EmbeddedNul,
}

/// Every failure a decoder in this crate can report.
#[derive(Clone, Copy, Debug, PartialEq, Eq, Structural)]
pub enum Fault {
    /// The class file does not begin with the fixed magic number.
    MalformedMagic,
    /// A declared length or count exceeds the bytes that remain.
    TruncatedInput,
    /// A pool tag, flag word or opcode byte outside the known set.
    UnrecognizedTag,
    /// A Utf8 constant whose payload is not valid modified UTF-8.
    InvalidModifiedUtf8(Utf8Fault),
    /// A constant-pool index that addresses no entry (index 0, or past the end).
    PoolIndexOutOfRange,
    /// A constant-pool entry of a different kind than the lookup expected.
    PoolEntryKindMismatch,
    /// Too few bytes remain to compute and skip switch alignment padding.
    UnalignedSwitchTooShort,
}

/// Outcome of one decoding step over a byte buffer.
///
/// `Done(n, v)` means the first `n` bytes decoded to `v`.  `Incomplete`
/// means the buffer ended before one whole item could be decoded, which is
/// a distinct, softer condition than a hard `Failed`.
#[derive(Clone, Debug, PartialEq, Eq)]
pub enum Parsed<T> {
    Done(usize, T),
    Incomplete,
    Failed(Fault),
}

/// Specification-level outcome of one decoding step: the decoded model and
/// the bytes it spans, the end of the usable input, or a failure.
#[verifier::ext_equal]
pub enum SpecParsed<T> {
    Done(T, int),
    Incomplete,
    Failed(Fault),
}

/// Prepend already-resolved items to the outcome of resolving the rest.
pub open spec fn resolve_compose<T>(acc: Seq<T>, o: Result<Seq<T>, Fault>) -> Result<
    Seq<T>,
    Fault,
> {
    match o {
        Ok(l) => Ok(acc + l),
        Err(f) => Err(f),
    }
}

/// Prepend an already-decoded prefix (its items and the bytes it spanned)
/// to the outcome of decoding the rest of a list.
pub open spec fn list_compose<T>(acc: Seq<T>, used: int, o: SpecParsed<Seq<T>>) -> SpecParsed<
    Seq<T>,
> {
    match o {
        SpecParsed::Done(l, n) => SpecParsed::Done(acc + l, used + n),
        other => other,
    }
}

} // verus!
