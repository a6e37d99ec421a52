//! Decoder for Java's modified UTF-8 text encoding.
//!
//! Modified UTF-8 differs from standard UTF-8 in two ways: a raw `0x00`
//! byte is forbidden (NUL is always encoded as the two bytes `C0 80`), and
//! codepoints above U+FFFF are written as two chained 3-byte surrogate
//! halves introduced by `0xED` (six bytes in all) instead of the standard
//! 4-byte form.  The decoder classifies each leading byte into one of five
//! categories and combines the continuation bytes accordingly.

use vstd::prelude::*;

use crate::fault::{Fault, Parsed, Utf8Fault};
use crate::reader::{be_u16, lemma_skip_index, spec_be_u16};

verus! {

/// The category of a leading byte: 0 ASCII (raw NUL excluded), 1 error
/// (stray continuation byte or four-byte lead), 2 two-byte lead, 3
/// three-byte lead, 6 six-byte (surrogate-pair) lead.
pub open spec fn code_of(b: u8) -> u8 {
    if b < 0x80 {
        0
    } else if b < 0xC0 {
        1
    } else if b < 0xE0 {
        2
    } else if b == 0xED {
        6
    } else if b < 0xF0 {
        3
    } else {
        1
    }
}

/// The leading byte's category, as [`code_of`] assigns it.
fn get_code(x: u8) -> (r: u8)
    ensures
        r == code_of(x),
{
    if x < 0x80 {
        0
    } else if x < 0xC0 {
        1
    } else if x < 0xE0 {
        2
    } else if x == 0xED {
        6
    } else if x < 0xF0 {
        3
    } else {
        1
    }
}

/// The codepoint of a two-byte sequence.
pub open spec fn mutf8_pair(x: u8, y: u8) -> u32 {
    ((((x as u32) & 0x1F) << 6) + ((y as u32) & 0x3F)) as u32
}

/// The codepoint of a three-byte sequence.
pub open spec fn mutf8_triple(x: u8, y: u8, z: u8) -> u32 {
    ((((x as u32) & 0xF) << 12) + (((y as u32) & 0x3F) << 6) + ((z as u32) & 0x3F)) as u32
}

/// The codepoint of a six-byte surrogate-pair sequence: `v`, `w` are bytes
/// 2 and 3 of the first half, `y`, `z` bytes 2 and 4 of the second half
/// (byte 3 of the second half, the repeated marker, is skipped).
pub open spec fn mutf8_six(v: u8, w: u8, y: u8, z: u8) -> u32 {
    (0x10000 + (((v as u32) & 0x0F) << 16) + (((w as u32) & 0x3F) << 10) + (((y as u32)
        & 0xF) << 6) + ((z as u32) & 0x3F)) as u32
}

/// Outcome of decoding a whole modified UTF-8 payload.
#[verifier::ext_equal]
pub enum TextOut {
    Done(Seq<char>),
    Incomplete,
    Failed(Utf8Fault),
}

/// Prepend already-decoded text to the outcome of decoding the rest.
pub open spec fn text_compose(acc: Seq<char>, o: TextOut) -> TextOut {
    match o {
        TextOut::Done(t) => TextOut::Done(acc + t),
        other => other,
    }
}

/// What a modified UTF-8 payload decodes to, character by character from
/// the front.
pub open spec fn spec_mutf8_decode(s: Seq<u8>) -> TextOut
    decreases s.len(),
{
    if s.len() == 0 {
        TextOut::Done(Seq::empty())
    } else {
        let b = s[0];
        let cat = code_of(b);
        if cat == 0 {
            if b == 0 {
                TextOut::Failed(Utf8Fault::EmbeddedNul)
            } else if !vstd::utf8::is_scalar(b as u32) {
                TextOut::Failed(Utf8Fault::IllegalCodepoint)
            } else {
                text_compose(seq![(b as u32) as char], spec_mutf8_decode(s.skip(1)))
            }
        } else if cat == 1 {
            TextOut::Failed(Utf8Fault::MalformedByte)
        } else if cat == 2 {
            if s.len() < 2 {
                TextOut::Incomplete
            } else if !vstd::utf8::is_scalar(mutf8_pair(b, s[1])) {
                TextOut::Failed(Utf8Fault::IllegalCodepoint)
            } else {
                text_compose(seq![mutf8_pair(b, s[1]) as char], spec_mutf8_decode(s.skip(2)))
            }
        } else if cat == 3 {
            if s.len() < 3 {
                TextOut::Incomplete
            } else if !vstd::utf8::is_scalar(mutf8_triple(b, s[1], s[2])) {
                TextOut::Failed(Utf8Fault::IllegalCodepoint)
            } else {
                text_compose(
                    seq![mutf8_triple(b, s[1], s[2]) as char],
                    spec_mutf8_decode(s.skip(3)),
                )
            }
        } else {
            if s.len() < 6 {
                TextOut::Incomplete
            } else if !vstd::utf8::is_scalar(mutf8_six(s[1], s[2], s[4], s[5])) {
                TextOut::Failed(Utf8Fault::IllegalCodepoint)
            } else {
                text_compose(
                    seq![mutf8_six(s[1], s[2], s[4], s[5]) as char],
                    spec_mutf8_decode(s.skip(6)),
                )
            }
        }
    }
}

/// Relies on char::from_u32: `Some` exactly for Unicode scalar values (no
/// surrogates, nothing above U+10FFFF), and the character casts back to the
/// argument.
pub assume_specification[ char::from_u32 ](v: u32) -> (r: Option<char>)
    ensures
        r is Some <==> vstd::utf8::is_scalar(v),
        r matches Some(c) ==> c as u32 == v,
;

/// Relies on String::push: appends exactly the given character.
#[verifier::external_body]
fn push_char(s: &mut String, c: char)
    ensures
        final(s)@ == old(s)@ + seq![c],
{
    s.push(c);
}

fn combine2(x: u8, y: u8) -> (r: u32)
    ensures
        r == mutf8_pair(x, y),
{
    let a = x as u32;
    let b = y as u32;
    proof {
        assert(((a & 0x1F) << 6) <= 0x7C0 && (b & 0x3F) <= 0x3F) by (bit_vector);
    }
    ((a & 0x1F) << 6) + (b & 0x3F)
}

fn combine3(x: u8, y: u8, z: u8) -> (r: u32)
    ensures
        r == mutf8_triple(x, y, z),
{
    let a = x as u32;
    let b = y as u32;
    let c = z as u32;
    proof {
        assert(((a & 0xF) << 12) <= 0xF000 && ((b & 0x3F) << 6) <= 0xFC0 && (c & 0x3F)
            <= 0x3F) by (bit_vector);
    }
    ((a & 0xF) << 12) + ((b & 0x3F) << 6) + (c & 0x3F)
}

fn combine6(v: u8, w: u8, y: u8, z: u8) -> (r: u32)
    ensures
        r == mutf8_six(v, w, y, z),
{
    let a = v as u32;
    let b = w as u32;
    let c = y as u32;
    let d = z as u32;
    proof {
        assert(((a & 0x0F) << 16) <= 0xF0000 && ((b & 0x3F) << 10) <= 0xFC00 && ((c & 0xF) << 6)
            <= 0x3C0 && (d & 0x3F) <= 0x3F) by (bit_vector);
    }
    0x10000 + ((a & 0x0F) << 16) + ((b & 0x3F) << 10) + ((c & 0xF) << 6) + (d & 0x3F)
}

/// Decode the modified UTF-8 payload `buffer[start..end]` into text.
#[verifier::rlimit(60)]
fn decode_at(buffer: &[u8], start: usize, end: usize) -> (r: Parsed<String>)
    requires
        start <= end <= buffer.len(),
    ensures
        ({
            let p = buffer@.subrange(start as int, end as int);
            match spec_mutf8_decode(p) {
                TextOut::Done(t) => r matches Parsed::Done(used, txt) && used == end - start
                    && txt@ == t,
                TextOut::Incomplete => r is Incomplete,
                TextOut::Failed(k) => r == Parsed::<String>::Failed(Fault::InvalidModifiedUtf8(k)),
            }
        }),
{
    let ghost p = buffer@.subrange(start as int, end as int);
    let mut ret = String::new();
    let mut index = start;
    proof {
        assert(p.skip(0) =~= p);
        match spec_mutf8_decode(p) {
            TextOut::Done(t) => {
                assert(Seq::<char>::empty() + t =~= t);
            },
            _ => {},
        }
    }
    while index < end
        invariant
            start <= index <= end <= buffer.len(),
            p == buffer@.subrange(start as int, end as int),
            spec_mutf8_decode(p) == text_compose(
                ret@,
                spec_mutf8_decode(p.skip(index - start as int)),
            ),
        decreases end - index,
    {
        let ghost k = index - start as int;
        let ghost tail = p.skip(k);
        proof {
            lemma_skip_index(p, k);
        }
        let var = buffer[index];
        assert(tail[0] == var);
        let cat = get_code(var);
        if cat == 0 {
            if var == 0 {
                return Parsed::Failed(Fault::InvalidModifiedUtf8(Utf8Fault::EmbeddedNul));
            }
            match char::from_u32(var as u32) {
                Option::Some(c) => {
                    proof {
                        vstd::utf8::char_u32_cast(c, var as u32);
                        assert(tail.skip(1) =~= p.skip(k + 1));
                        assert(ret@ + (seq![c] + spec_text(spec_mutf8_decode(tail.skip(1)))) =~= (ret@ + seq![c])
                            + spec_text(spec_mutf8_decode(tail.skip(1))));
                    }
                    push_char(&mut ret, c);
                    index = index + 1;
                },
                Option::None => {
                    return Parsed::Failed(Fault::InvalidModifiedUtf8(Utf8Fault::IllegalCodepoint));
                },
            }
        } else if cat == 1 {
            return Parsed::Failed(Fault::InvalidModifiedUtf8(Utf8Fault::MalformedByte));
        } else if cat == 2 {
            if end - index < 2 {
                return Parsed::Incomplete;
            }
            let cp = combine2(var, buffer[index + 1]);
            match char::from_u32(cp) {
                Option::Some(c) => {
                    proof {
                        vstd::utf8::char_u32_cast(c, cp);
                        assert(tail.skip(2) =~= p.skip(k + 2));
                        assert(ret@ + (seq![c] + spec_text(spec_mutf8_decode(tail.skip(2)))) =~= (ret@ + seq![c])
                            + spec_text(spec_mutf8_decode(tail.skip(2))));
                    }
                    push_char(&mut ret, c);
                    index = index + 2;
                },
                Option::None => {
                    return Parsed::Failed(Fault::InvalidModifiedUtf8(Utf8Fault::IllegalCodepoint));
                },
            }
        } else if cat == 3 {
            if end - index < 3 {
                return Parsed::Incomplete;
            }
            let cp = combine3(var, buffer[index + 1], buffer[index + 2]);
            match char::from_u32(cp) {
                Option::Some(c) => {
                    proof {
                        vstd::utf8::char_u32_cast(c, cp);
                        assert(tail.skip(3) =~= p.skip(k + 3));
                        assert(ret@ + (seq![c] + spec_text(spec_mutf8_decode(tail.skip(3)))) =~= (ret@ + seq![c])
                            + spec_text(spec_mutf8_decode(tail.skip(3))));
                    }
                    push_char(&mut ret, c);
                    index = index + 3;
                },
                Option::None => {
                    return Parsed::Failed(Fault::InvalidModifiedUtf8(Utf8Fault::IllegalCodepoint));
                },
            }
        } else {
            if end - index < 6 {
                return Parsed::Incomplete;
            }
            let cp = combine6(
                buffer[index + 1],
                buffer[index + 2],
                buffer[index + 4],
                buffer[index + 5],
            );
            match char::from_u32(cp) {
                Option::Some(c) => {
                    proof {
                        vstd::utf8::char_u32_cast(c, cp);
                        assert(tail.skip(6) =~= p.skip(k + 6));
                        assert(ret@ + (seq![c] + spec_text(spec_mutf8_decode(tail.skip(6)))) =~= (ret@ + seq![c])
                            + spec_text(spec_mutf8_decode(tail.skip(6))));
                    }
                    push_char(&mut ret, c);
                    index = index + 6;
                },
                Option::None => {
                    return Parsed::Failed(Fault::InvalidModifiedUtf8(Utf8Fault::IllegalCodepoint));
                },
            }
        }
    }
    proof {
        assert(p.skip(p.len() as int) =~= Seq::<u8>::empty());
        assert(ret@ + Seq::<char>::empty() =~= ret@);
    }
    Parsed::Done(end - start, ret)
}

/// The text of an outcome known to be `Done`.
pub open spec fn spec_text(o: TextOut) -> Seq<char>
    recommends
        o is Done,
{
    o->Done_0
}

/// Decode a whole modified UTF-8 payload into text.
pub fn decode(buffer: &[u8]) -> (r: Parsed<String>)
    ensures
        match spec_mutf8_decode(buffer@) {
            TextOut::Done(t) => r matches Parsed::Done(used, txt) && used == buffer@.len()
                && txt@ == t,
            TextOut::Incomplete => r is Incomplete,
            TextOut::Failed(k) => r == Parsed::<String>::Failed(Fault::InvalidModifiedUtf8(k)),
        },
{
    proof {
        assert(buffer@.subrange(0, buffer@.len() as int) =~= buffer@);
    }
    decode_at(buffer, 0, buffer.len())
}

/// What a length-prefixed text span decodes to: a 2-byte big-endian length,
/// then that many bytes of modified UTF-8.
pub open spec fn spec_java_utf8(s: Seq<u8>) -> TextOut {
    if s.len() < 2 {
        TextOut::Incomplete
    } else {
        let n = spec_be_u16(s, 0) as int;
        if s.len() < 2 + n {
            TextOut::Incomplete
        } else {
            spec_mutf8_decode(s.subrange(2, 2 + n))
        }
    }
}

/// Decode a length-prefixed modified UTF-8 span: a 2-byte big-endian
/// length, then that many payload bytes.  On success the span's full
/// `2 + length` bytes are consumed.
pub fn decode_java_utf8(buffer: &[u8]) -> (r: Parsed<String>)
    ensures
        match spec_java_utf8(buffer@) {
            TextOut::Done(t) => r matches Parsed::Done(used, txt) && used == 2 + spec_be_u16(
                buffer@,
                0,
            ) && used <= buffer@.len() && txt@ == t,
            TextOut::Incomplete => r is Incomplete,
            TextOut::Failed(k) => r == Parsed::<String>::Failed(Fault::InvalidModifiedUtf8(k)),
        },
{
    if buffer.len() < 2 {
        return Parsed::Incomplete;
    }
    let n = be_u16(buffer, 0) as usize;
    if buffer.len() - 2 < n {
        return Parsed::Incomplete;
    }
    match decode_at(buffer, 2, 2 + n) {
        Parsed::Done(_, txt) => Parsed::Done(2 + n, txt),
        Parsed::Incomplete => Parsed::Incomplete,
        Parsed::Failed(f) => Parsed::Failed(f),
    }
}

/// The decoder's category table only ever combines bytes into Unicode
/// scalar values: a two-byte sequence stays below U+0800, a three-byte
/// sequence cannot reach the surrogate block (its lead would have to be
/// the `0xED` byte, which the table routes to the six-byte form), and the
/// six-byte form lands exactly in U+10000..=U+10FFFF.  So no payload is
/// ever rejected for an illegal codepoint.
pub proof fn lemma_no_illegal_codepoint(s: Seq<u8>)
    ensures
        spec_mutf8_decode(s) != TextOut::Failed(Utf8Fault::IllegalCodepoint),
    decreases s.len(),
{
    if s.len() > 0 {
        let b = s[0];
        let cat = code_of(b);
        if cat == 0 {
            if b != 0 {
                assert(vstd::utf8::is_scalar(b as u32));
                lemma_no_illegal_codepoint(s.skip(1));
            }
        } else if cat == 2 {
            if s.len() >= 2 {
                let y = s[1];
                assert(mutf8_pair(b, y) <= 0x7FF) by (bit_vector);
                assert(vstd::utf8::is_scalar(mutf8_pair(b, y)));
                lemma_no_illegal_codepoint(s.skip(2));
            }
        } else if cat == 3 {
            if s.len() >= 3 {
                let y = s[1];
                let z = s[2];
                assert((0xE0 <= b && b < 0xF0 && b != 0xED) ==> (mutf8_triple(b, y, z) <= 0xFFFF
                    && !(0xD800 <= mutf8_triple(b, y, z) && mutf8_triple(b, y, z)
                    <= 0xDFFF))) by (bit_vector);
                assert(vstd::utf8::is_scalar(mutf8_triple(b, y, z)));
                lemma_no_illegal_codepoint(s.skip(3));
            }
        } else {
            if s.len() >= 6 {
                let v = s[1];
                let w = s[2];
                let y = s[4];
                let z = s[5];
                assert(0x10000 <= mutf8_six(v, w, y, z) && mutf8_six(v, w, y, z)
                    <= 0x10FFFF) by (bit_vector);
                assert(vstd::utf8::is_scalar(mutf8_six(v, w, y, z)));
                lemma_no_illegal_codepoint(s.skip(6));
            }
        }
    }
}

/// Decoding one whole payload and then more bytes decodes the rest
/// independently: complete characters compose.
#[verifier::rlimit(100)]
pub proof fn lemma_mutf8_append(a: Seq<u8>, b: Seq<u8>)
    requires
        spec_mutf8_decode(a) is Done,
    ensures
        spec_mutf8_decode(a + b) == text_compose(
            spec_text(spec_mutf8_decode(a)),
            spec_mutf8_decode(b),
        ),
    decreases a.len(),
{
    lemma_skip_index(a, 0);
    if a.len() == 0 {
        assert(a + b =~= b);
        match spec_mutf8_decode(b) {
            TextOut::Done(t) => {
                assert(Seq::<char>::empty() + t =~= t);
            },
            _ => {},
        }
    } else {
        let s = a + b;
        let cat = code_of(a[0]);
        assert(s[0] == a[0]);
        let step: int = if cat == 0 {
            1
        } else if cat == 2 {
            2
        } else if cat == 3 {
            3
        } else {
            6
        };
        assert(cat != 1 && a.len() >= step);
        assert(forall|i: int| 0 <= i < a.len() ==> s[i] == a[i]);
        assert(a.skip(step) + b =~= s.skip(step));
        lemma_mutf8_append(a.skip(step), b);
        let ta = spec_text(spec_mutf8_decode(a));
        let head = ta.subrange(0, 1);
        let ta_tail = spec_text(spec_mutf8_decode(a.skip(step)));
        assert(ta =~= head + ta_tail);
        match spec_mutf8_decode(b) {
            TextOut::Done(t) => {
                assert(head + (ta_tail + t) =~= (head + ta_tail) + t);
            },
            _ => {},
        }
    }
}

/// NUL is always encoded: the two-byte sequence `C0 80` standing between
/// complete characters decodes to a single U+0000 character.
pub proof fn lemma_nul_encoding(a: Seq<u8>, b: Seq<u8>)
    requires
        spec_mutf8_decode(a) is Done,
    ensures
        spec_mutf8_decode(a + seq![0xC0u8, 0x80u8] + b) == text_compose(
            spec_text(spec_mutf8_decode(a)) + seq!['\u{0}'],
            spec_mutf8_decode(b),
        ),
{
    let pair = seq![0xC0u8, 0x80u8];
    assert(mutf8_pair(0xC0, 0x80) == 0) by (bit_vector);
    assert(vstd::utf8::is_scalar(0));
    assert(('\u{0}' as u32) == 0);
    vstd::utf8::char_u32_cast('\u{0}', 0);
    assert((0u32 as char) == '\u{0}');
    lemma_skip_index(pair, 2);
    assert(pair.skip(2) =~= Seq::<u8>::empty());
    assert(spec_mutf8_decode(pair.skip(2)) == TextOut::Done(Seq::<char>::empty()));
    assert(spec_mutf8_decode(pair) == TextOut::Done(seq!['\u{0}'] + Seq::<char>::empty()));
    assert(seq!['\u{0}'] + Seq::<char>::empty() =~= seq!['\u{0}']);
    lemma_mutf8_append(a, pair);
    lemma_mutf8_append(a + pair, b);
    assert((a + pair) + b =~= a + pair + b);
}

/// A raw `0x00` byte standing where a character should begin poisons the
/// whole payload: the decode fails with the embedded-NUL fault.
#[verifier::rlimit(60)]
pub proof fn lemma_raw_nul_rejected(a: Seq<u8>, b: Seq<u8>)
    requires
        spec_mutf8_decode(a) is Done,
    ensures
        spec_mutf8_decode(a + seq![0u8] + b) == TextOut::Failed(Utf8Fault::EmbeddedNul),
{
    let rest = seq![0u8] + b;
    assert(rest[0] == 0);
    assert(spec_mutf8_decode(rest) == TextOut::Failed(Utf8Fault::EmbeddedNul));
    lemma_mutf8_append(a, rest);
    assert(a + rest =~= a + seq![0u8] + b);
}

} // verus!
