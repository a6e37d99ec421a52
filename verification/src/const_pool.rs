//! The constant pool: the class file's 1-indexed table of literals and
//! symbolic references.
//!
//! Index 0 is always invalid.  A `Long` or `Double` entry occupies two
//! consecutive slots: the value sits at index `i` and the same entry is
//! repeated at `i + 1` as an unaddressable placeholder, preserving the
//! format's historical numbering.

use vstd::prelude::*;

use crate::enum_constants::{parse_const_pool_tag, spec_pool_tag, PoolTag};
use crate::fault::{list_compose, Fault, Parsed, SpecParsed};
use crate::javautf8::{decode_java_utf8, spec_java_utf8, TextOut};
use crate::reader::{be_u16, be_u32, lemma_skip_index, spec_be_u16, spec_be_u32};

verus! {

/// Items within the constant pool.
///
/// `Float` and `Double` hold the raw big-endian bit patterns of their
/// values; this layer decodes structure, not floating-point arithmetic.
#[derive(Clone, Debug, PartialEq)]
pub enum PoolMembers {
    /// Contains the index of its name.
    ClassInfo(u16),
    /// Contains the index of its class, and name-and-type.
    FieldRef(u16, u16),
    /// See above.
    MethodRef(u16, u16),
    /// See above.
    InterfaceMethodRef(u16, u16),
    /// Pointer to its Utf8 value.
    Str(u16),
    /// Literal 32-bit integer.
    Integer(i32),
    /// Raw bits of a 32-bit float literal.
    Float(u32),
    /// Literal 64-bit integer.
    Long(i64),
    /// Raw bits of a 64-bit float literal.
    Double(u64),
    /// Name index and descriptor index.
    NameAndType(u16, u16),
    /// Decoded text.
    Utf8(String),
    /// Handle kind and the index it refers to.
    MethodHandle(u8, u16),
    /// Descriptor index of a method type.
    MethodType(u16),
    /// Bootstrap-method index and name-and-type index.
    InvokeDynamic(u16, u16),
}

/// The mathematical form of a pool entry.
#[verifier::ext_equal]
pub enum PoolModel {
    ClassInfo(u16),
    FieldRef(u16, u16),
    MethodRef(u16, u16),
    InterfaceMethodRef(u16, u16),
    Str(u16),
    Integer(i32),
    Float(u32),
    Long(i64),
    Double(u64),
    NameAndType(u16, u16),
    Utf8(Seq<char>),
    MethodHandle(u8, u16),
    MethodType(u16),
    InvokeDynamic(u16, u16),
}

impl View for PoolMembers {
    type V = PoolModel;

    open spec fn view(&self) -> PoolModel {
        match self {
            PoolMembers::ClassInfo(a) => PoolModel::ClassInfo(*a),
            PoolMembers::FieldRef(a, b) => PoolModel::FieldRef(*a, *b),
            PoolMembers::MethodRef(a, b) => PoolModel::MethodRef(*a, *b),
            PoolMembers::InterfaceMethodRef(a, b) => PoolModel::InterfaceMethodRef(*a, *b),
            PoolMembers::Str(a) => PoolModel::Str(*a),
            PoolMembers::Integer(a) => PoolModel::Integer(*a),
            PoolMembers::Float(a) => PoolModel::Float(*a),
            PoolMembers::Long(a) => PoolModel::Long(*a),
            PoolMembers::Double(a) => PoolModel::Double(*a),
            PoolMembers::NameAndType(a, b) => PoolModel::NameAndType(*a, *b),
            PoolMembers::Utf8(s) => PoolModel::Utf8(s@),
            PoolMembers::MethodHandle(a, b) => PoolModel::MethodHandle(*a, *b),
            PoolMembers::MethodType(a) => PoolModel::MethodType(*a),
            PoolMembers::InvokeDynamic(a, b) => PoolModel::InvokeDynamic(*a, *b),
        }
    }
}

/// Entries that occupy two pool slots.
pub open spec fn spec_two_slot(m: PoolModel) -> bool {
    m is Long || m is Double
}

impl PoolMembers {
    /// Whether this entry takes two pool slots.
    fn is_double_long(&self) -> (r: bool)
        ensures
            r == spec_two_slot(self@),
    {
        match self {
            PoolMembers::Double(_) | PoolMembers::Long(_) => true,
            _ => false,
        }
    }

    /// The text of a Utf8 entry.
    pub fn get_utf8(&self) -> (r: Option<String>)
        ensures
            self@ matches PoolModel::Utf8(t) ==> r matches Some(s) && s@ == t,
            !(self@ is Utf8) ==> r is None,
    {
        match self {
            PoolMembers::Utf8(val) => Some(val.clone()),
            _ => None,
        }
    }

    /// A structurally equal copy of the entry, for the placeholder slot.
    fn duplicate(&self) -> (r: PoolMembers)
        ensures
            r@ == self@,
    {
        match self {
            PoolMembers::ClassInfo(a) => PoolMembers::ClassInfo(*a),
            PoolMembers::FieldRef(a, b) => PoolMembers::FieldRef(*a, *b),
            PoolMembers::MethodRef(a, b) => PoolMembers::MethodRef(*a, *b),
            PoolMembers::InterfaceMethodRef(a, b) => PoolMembers::InterfaceMethodRef(*a, *b),
            PoolMembers::Str(a) => PoolMembers::Str(*a),
            PoolMembers::Integer(a) => PoolMembers::Integer(*a),
            PoolMembers::Float(a) => PoolMembers::Float(*a),
            PoolMembers::Long(a) => PoolMembers::Long(*a),
            PoolMembers::Double(a) => PoolMembers::Double(*a),
            PoolMembers::NameAndType(a, b) => PoolMembers::NameAndType(*a, *b),
            PoolMembers::Utf8(s) => PoolMembers::Utf8(s.clone()),
            PoolMembers::MethodHandle(a, b) => PoolMembers::MethodHandle(*a, *b),
            PoolMembers::MethodType(a) => PoolMembers::MethodType(*a),
            PoolMembers::InvokeDynamic(a, b) => PoolMembers::InvokeDynamic(*a, *b),
        }
    }

    /// The name index of a class-info entry.
    pub fn get_class(&self) -> (r: Option<usize>)
        ensures
            self@ matches PoolModel::ClassInfo(v) ==> r == Some(v as usize),
            !(self@ is ClassInfo) ==> r is None,
    {
        match self {
            PoolMembers::ClassInfo(val) => Some(*val as usize),
            _ => None,
        }
    }

    /// Whether this entry is a class-info entry.
    pub fn is_class_info(&self) -> (r: bool)
        ensures
            r == (self@ is ClassInfo),
    {
        matches!(self, PoolMembers::ClassInfo(_))
    }

    /// Whether this entry is a field reference.
    pub fn is_field_ref(&self) -> (r: bool)
        ensures
            r == (self@ is FieldRef),
    {
        matches!(self, PoolMembers::FieldRef(_, _))
    }

    /// Whether this entry is a method reference.
    pub fn is_method_ref(&self) -> (r: bool)
        ensures
            r == (self@ is MethodRef),
    {
        matches!(self, PoolMembers::MethodRef(_, _))
    }

    /// Whether this entry is an interface-method reference.
    pub fn is_interface_method_ref(&self) -> (r: bool)
        ensures
            r == (self@ is InterfaceMethodRef),
    {
        matches!(self, PoolMembers::InterfaceMethodRef(_, _))
    }

    /// Whether this entry is a string reference.
    pub fn is_str(&self) -> (r: bool)
        ensures
            r == (self@ is Str),
    {
        matches!(self, PoolMembers::Str(_))
    }

    /// Whether this entry is an integer literal.
    pub fn is_integer(&self) -> (r: bool)
        ensures
            r == (self@ is Integer),
    {
        matches!(self, PoolMembers::Integer(_))
    }

    /// Whether this entry is a float literal.
    pub fn is_float(&self) -> (r: bool)
        ensures
            r == (self@ is Float),
    {
        matches!(self, PoolMembers::Float(_))
    }

    /// Whether this entry is a long literal.
    pub fn is_long(&self) -> (r: bool)
        ensures
            r == (self@ is Long),
    {
        matches!(self, PoolMembers::Long(_))
    }

    /// Whether this entry is a double literal.
    pub fn is_double(&self) -> (r: bool)
        ensures
            r == (self@ is Double),
    {
        matches!(self, PoolMembers::Double(_))
    }

    /// Whether this entry is a name-and-type entry.
    pub fn is_name_and_type(&self) -> (r: bool)
        ensures
            r == (self@ is NameAndType),
    {
        matches!(self, PoolMembers::NameAndType(_, _))
    }

    /// Whether this entry is a Utf8 text entry.
    pub fn is_utf8(&self) -> (r: bool)
        ensures
            r == (self@ is Utf8),
    {
        matches!(self, PoolMembers::Utf8(_))
    }

    /// Whether this entry is a method handle.
    pub fn is_method_handle(&self) -> (r: bool)
        ensures
            r == (self@ is MethodHandle),
    {
        matches!(self, PoolMembers::MethodHandle(_, _))
    }

    /// Whether this entry is a method type.
    pub fn is_method_type(&self) -> (r: bool)
        ensures
            r == (self@ is MethodType),
    {
        matches!(self, PoolMembers::MethodType(_))
    }

    /// Whether this entry is an invoke-dynamic entry.
    pub fn is_invoke_dynamic(&self) -> (r: bool)
        ensures
            r == (self@ is InvokeDynamic),
    {
        matches!(self, PoolMembers::InvokeDynamic(_, _))
    }
}

/// The raw 64 bits of a two-word constant, high word first.
pub open spec fn spec_raw64(s: Seq<u8>, i: int) -> u64
    recommends
        0 <= i,
        i + 8 <= s.len(),
{
    ((spec_be_u32(s, i) as u64) * 0x100000000 + (spec_be_u32(s, i + 4) as u64)) as u64
}

/// What one constant-pool entry's bytes decode to: a tag byte, then the
/// tag's fixed field layout (for Utf8, a length-prefixed text span).
pub open spec fn spec_pool_entry(s: Seq<u8>) -> SpecParsed<PoolModel> {
    if s.len() < 1 {
        SpecParsed::Incomplete
    } else {
        match spec_pool_tag(s[0]) {
            None => SpecParsed::Failed(Fault::UnrecognizedTag),
            Some(PoolTag::Class) => if s.len() >= 3 {
                SpecParsed::Done(PoolModel::ClassInfo(spec_be_u16(s, 1)), 3)
            } else {
                SpecParsed::Incomplete
            },
            Some(PoolTag::Str) => if s.len() >= 3 {
                SpecParsed::Done(PoolModel::Str(spec_be_u16(s, 1)), 3)
            } else {
                SpecParsed::Incomplete
            },
            Some(PoolTag::FieldRef) => if s.len() >= 5 {
                SpecParsed::Done(PoolModel::FieldRef(spec_be_u16(s, 1), spec_be_u16(s, 3)), 5)
            } else {
                SpecParsed::Incomplete
            },
            Some(PoolTag::MethodRef) => if s.len() >= 5 {
                SpecParsed::Done(PoolModel::MethodRef(spec_be_u16(s, 1), spec_be_u16(s, 3)), 5)
            } else {
                SpecParsed::Incomplete
            },
            Some(PoolTag::InterfaceMethodRef) => if s.len() >= 5 {
                SpecParsed::Done(
                    PoolModel::InterfaceMethodRef(spec_be_u16(s, 1), spec_be_u16(s, 3)),
                    5,
                )
            } else {
                SpecParsed::Incomplete
            },
            Some(PoolTag::Integer) => if s.len() >= 5 {
                SpecParsed::Done(PoolModel::Integer(spec_be_u32(s, 1) as i32), 5)
            } else {
                SpecParsed::Incomplete
            },
            Some(PoolTag::Float) => if s.len() >= 5 {
                SpecParsed::Done(PoolModel::Float(spec_be_u32(s, 1)), 5)
            } else {
                SpecParsed::Incomplete
            },
            Some(PoolTag::Long) => if s.len() >= 9 {
                SpecParsed::Done(PoolModel::Long(spec_raw64(s, 1) as i64), 9)
            } else {
                SpecParsed::Incomplete
            },
            Some(PoolTag::Double) => if s.len() >= 9 {
                SpecParsed::Done(PoolModel::Double(spec_raw64(s, 1)), 9)
            } else {
                SpecParsed::Incomplete
            },
            Some(PoolTag::NameAndType) => if s.len() >= 5 {
                SpecParsed::Done(PoolModel::NameAndType(spec_be_u16(s, 1), spec_be_u16(s, 3)), 5)
            } else {
                SpecParsed::Incomplete
            },
            Some(PoolTag::Utf8) => match spec_java_utf8(s.skip(1)) {
                TextOut::Done(t) => SpecParsed::Done(
                    PoolModel::Utf8(t),
                    3 + spec_be_u16(s.skip(1), 0),
                ),
                TextOut::Incomplete => SpecParsed::Incomplete,
                TextOut::Failed(k) => SpecParsed::Failed(Fault::InvalidModifiedUtf8(k)),
            },
            Some(PoolTag::MethodHandle) => if s.len() >= 4 {
                SpecParsed::Done(PoolModel::MethodHandle(s[1], spec_be_u16(s, 2)), 4)
            } else {
                SpecParsed::Incomplete
            },
            Some(PoolTag::MethodType) => if s.len() >= 3 {
                SpecParsed::Done(PoolModel::MethodType(spec_be_u16(s, 1)), 3)
            } else {
                SpecParsed::Incomplete
            },
            Some(PoolTag::InvokeDynamic) => if s.len() >= 5 {
                SpecParsed::Done(PoolModel::InvokeDynamic(spec_be_u16(s, 1), spec_be_u16(s, 3)), 5)
            } else {
                SpecParsed::Incomplete
            },
        }
    }
}

/// Decode the pool entry starting at index `at` of `buffer`.
fn parse_pool_entry(buffer: &[u8], at: usize) -> (r: Parsed<PoolMembers>)
    requires
        at <= buffer.len(),
    ensures
        match spec_pool_entry(buffer@.skip(at as int)) {
            SpecParsed::Done(m, n) => r matches Parsed::Done(cnt, v) && v@ == m && cnt == n && n
                <= buffer.len() - at,
            SpecParsed::Incomplete => r is Incomplete,
            SpecParsed::Failed(f) => r == Parsed::<PoolMembers>::Failed(f),
        },
{
    proof {
        lemma_skip_index(buffer@, at as int);
    }
    if buffer.len() - at < 1 {
        return Parsed::Incomplete;
    }
    match parse_const_pool_tag(buffer[at]) {
        None => Parsed::Failed(Fault::UnrecognizedTag),
        Some(PoolTag::Class) => if buffer.len() - at >= 3 {
            Parsed::Done(3, PoolMembers::ClassInfo(be_u16(buffer, at + 1)))
        } else {
            Parsed::Incomplete
        },
        Some(PoolTag::Str) => if buffer.len() - at >= 3 {
            Parsed::Done(3, PoolMembers::Str(be_u16(buffer, at + 1)))
        } else {
            Parsed::Incomplete
        },
        Some(PoolTag::FieldRef) => if buffer.len() - at >= 5 {
            Parsed::Done(5, PoolMembers::FieldRef(be_u16(buffer, at + 1), be_u16(buffer, at + 3)))
        } else {
            Parsed::Incomplete
        },
        Some(PoolTag::MethodRef) => if buffer.len() - at >= 5 {
            Parsed::Done(5, PoolMembers::MethodRef(be_u16(buffer, at + 1), be_u16(buffer, at + 3)))
        } else {
            Parsed::Incomplete
        },
        Some(PoolTag::InterfaceMethodRef) => if buffer.len() - at >= 5 {
            Parsed::Done(
                5,
                PoolMembers::InterfaceMethodRef(be_u16(buffer, at + 1), be_u16(buffer, at + 3)),
            )
        } else {
            Parsed::Incomplete
        },
        Some(PoolTag::Integer) => if buffer.len() - at >= 5 {
            Parsed::Done(5, PoolMembers::Integer(be_u32(buffer, at + 1) as i32))
        } else {
            Parsed::Incomplete
        },
        Some(PoolTag::Float) => if buffer.len() - at >= 5 {
            Parsed::Done(5, PoolMembers::Float(be_u32(buffer, at + 1)))
        } else {
            Parsed::Incomplete
        },
        Some(PoolTag::Long) => if buffer.len() - at >= 9 {
            let hig = be_u32(buffer, at + 1);
            let low = be_u32(buffer, at + 5);
            Parsed::Done(9, PoolMembers::Long(((hig as u64) * 0x100000000 + (low as u64)) as i64))
        } else {
            Parsed::Incomplete
        },
        Some(PoolTag::Double) => if buffer.len() - at >= 9 {
            let hig = be_u32(buffer, at + 1);
            let low = be_u32(buffer, at + 5);
            Parsed::Done(9, PoolMembers::Double((hig as u64) * 0x100000000 + (low as u64)))
        } else {
            Parsed::Incomplete
        },
        Some(PoolTag::NameAndType) => if buffer.len() - at >= 5 {
            Parsed::Done(
                5,
                PoolMembers::NameAndType(be_u16(buffer, at + 1), be_u16(buffer, at + 3)),
            )
        } else {
            Parsed::Incomplete
        },
        Some(PoolTag::Utf8) => {
            proof {
                assert(buffer@.skip(at as int).skip(1) =~= buffer@.skip(at + 1));
                assert(buffer@.subrange(at + 1, buffer@.len() as int) =~= buffer@.skip(at + 1));
            }
            match decode_java_utf8(&buffer[(at + 1)..buffer.len()]) {
                Parsed::Done(used, txt) => Parsed::Done(1 + used, PoolMembers::Utf8(txt)),
                Parsed::Incomplete => Parsed::Incomplete,
                Parsed::Failed(f) => Parsed::Failed(f),
            }
        },
        Some(PoolTag::MethodHandle) => if buffer.len() - at >= 4 {
            Parsed::Done(4, PoolMembers::MethodHandle(buffer[at + 1], be_u16(buffer, at + 2)))
        } else {
            Parsed::Incomplete
        },
        Some(PoolTag::MethodType) => if buffer.len() - at >= 3 {
            Parsed::Done(3, PoolMembers::MethodType(be_u16(buffer, at + 1)))
        } else {
            Parsed::Incomplete
        },
        Some(PoolTag::InvokeDynamic) => if buffer.len() - at >= 5 {
            Parsed::Done(
                5,
                PoolMembers::InvokeDynamic(be_u16(buffer, at + 1), be_u16(buffer, at + 3)),
            )
        } else {
            Parsed::Incomplete
        },
    }
}

/// What `slots` pool slots decode to.  Each `Long` or `Double` entry fills
/// two slots, its second a placeholder equal to the first; every other
/// entry fills one.  An entry that would overrun the declared slot count is
/// a hard failure.
pub open spec fn spec_pool_entries(s: Seq<u8>, slots: int) -> SpecParsed<Seq<PoolModel>>
    decreases slots,
{
    if slots <= 0 {
        SpecParsed::Done(Seq::empty(), 0)
    } else {
        match spec_pool_entry(s) {
            SpecParsed::Done(e, n) => {
                let w: int = if spec_two_slot(e) {
                    2
                } else {
                    1
                };
                if w > slots {
                    SpecParsed::Failed(Fault::TruncatedInput)
                } else {
                    match spec_pool_entries(s.skip(n), slots - w) {
                        SpecParsed::Done(rest, m) => SpecParsed::Done(
                            (if w == 2 {
                                seq![e, e]
                            } else {
                                seq![e]
                            }) + rest,
                            n + m,
                        ),
                        other => other,
                    }
                }
            },
            SpecParsed::Incomplete => SpecParsed::Incomplete,
            SpecParsed::Failed(f) => SpecParsed::Failed(f),
        }
    }
}

/// What a whole constant pool decodes to: a 2-byte count, then `count - 1`
/// slots.  A zero count declares an impossible negative number of slots and
/// is rejected.
pub open spec fn spec_pool(s: Seq<u8>) -> SpecParsed<Seq<PoolModel>> {
    if s.len() < 2 {
        SpecParsed::Incomplete
    } else {
        let count = spec_be_u16(s, 0) as int;
        if count == 0 {
            SpecParsed::Failed(Fault::TruncatedInput)
        } else {
            match spec_pool_entries(s.skip(2), count - 1) {
                SpecParsed::Done(es, n) => SpecParsed::Done(es, 2 + n),
                other => other,
            }
        }
    }
}

/// The two-slot discipline: wherever a `Long` or `Double` entry begins a
/// unit, the following slot holds the same entry as a placeholder.
pub open spec fn pool_wf(s: Seq<PoolModel>) -> bool
    decreases s.len(),
{
    s.len() == 0 || (if spec_two_slot(s[0]) {
        s.len() >= 2 && s[1] == s[0] && pool_wf(s.skip(2))
    } else {
        pool_wf(s.skip(1))
    })
}

/// Whether slot `i` (0-based) begins an entry, rather than standing as the
/// placeholder half of a two-slot entry.
pub open spec fn is_entry_start(s: Seq<PoolModel>, i: int) -> bool
    decreases s.len(),
{
    if i == 0 {
        true
    } else if s.len() == 0 || i < 0 {
        false
    } else {
        if spec_two_slot(s[0]) {
            s.len() >= 2 && i >= 2 && is_entry_start(s.skip(2), i - 2)
        } else {
            i >= 1 && is_entry_start(s.skip(1), i - 1)
        }
    }
}

proof fn lemma_pool_entries_wf(s: Seq<u8>, slots: int)
    requires
        slots >= 0,
    ensures
        spec_pool_entries(s, slots) matches SpecParsed::Done(es, n) ==> pool_wf(es) && es.len()
            == slots,
    decreases slots,
{
    let whole = spec_pool_entries(s, slots);
    if slots > 0 {
        match spec_pool_entry(s) {
            SpecParsed::Done(e, n) => {
                let w: int = if spec_two_slot(e) {
                    2
                } else {
                    1
                };
                if w <= slots {
                    lemma_pool_entries_wf(s.skip(n), slots - w);
                    match spec_pool_entries(s.skip(n), slots - w) {
                        SpecParsed::Done(rest, _m) => {
                            if w == 2 {
                                let es = seq![e, e] + rest;
                                assert(es.skip(2) =~= rest);
                                assert(es[0] == e && es[1] == e);
                                assert(pool_wf(es));
                                assert(whole == SpecParsed::Done(es, n + _m));
                            } else {
                                let es = seq![e] + rest;
                                assert(es.skip(1) =~= rest);
                                assert(es[0] == e);
                                assert(pool_wf(es));
                                assert(whole == SpecParsed::Done(es, n + _m));
                            }
                        },
                        _ => {},
                    }
                }
            },
            _ => {},
        }
    }
}

/// The placeholder law: in a well-formed pool, a `Long` or `Double` entry
/// that begins a unit at slot `i` is followed by a slot holding the very
/// same entry, so no lookup can resolve the placeholder to anything the
/// value slot's own kind check would not already allow.
pub proof fn lemma_placeholder_slot(s: Seq<PoolModel>, i: int)
    requires
        pool_wf(s),
        0 <= i < s.len(),
        is_entry_start(s, i),
        spec_two_slot(s[i]),
    ensures
        i + 1 < s.len(),
        s[i + 1] == s[i],
    decreases s.len(),
{
    if i == 0 {
    } else {
        if spec_two_slot(s[0]) {
            lemma_placeholder_slot(s.skip(2), i - 2);
        } else {
            lemma_placeholder_slot(s.skip(1), i - 1);
        }
    }
}

/// The entry a 1-based pool index addresses; index 0 and indices past the
/// end address nothing.
pub open spec fn spec_get_entry(p: Seq<PoolModel>, idx: int) -> Option<PoolModel> {
    if 1 <= idx <= p.len() {
        Some(p[idx - 1])
    } else {
        None
    }
}

/// The text a 1-based index resolves to, when it addresses a Utf8 entry.
pub open spec fn spec_get_utf8(p: Seq<PoolModel>, idx: int) -> Result<Seq<char>, Fault> {
    match spec_get_entry(p, idx) {
        None => Err(Fault::PoolIndexOutOfRange),
        Some(PoolModel::Utf8(t)) => Ok(t),
        Some(_) => Err(Fault::PoolEntryKindMismatch),
    }
}

/// The class name a 1-based index resolves to: the index must address a
/// class-info entry whose name index addresses a Utf8 entry.
pub open spec fn spec_get_class_name(p: Seq<PoolModel>, idx: int) -> Result<Seq<char>, Fault> {
    match spec_get_entry(p, idx) {
        None => Err(Fault::PoolIndexOutOfRange),
        Some(PoolModel::ClassInfo(n)) => spec_get_utf8(p, n as int),
        Some(_) => Err(Fault::PoolEntryKindMismatch),
    }
}

/// Looking the placeholder slot up never yields text or a class name: it
/// holds the same `Long` or `Double` entry as the value slot before it.
pub proof fn lemma_placeholder_lookup(p: Seq<PoolModel>, idx: int)
    requires
        pool_wf(p),
        1 <= idx <= p.len(),
        is_entry_start(p, idx - 1),
        spec_two_slot(p[idx - 1]),
    ensures
        idx + 1 <= p.len(),
        spec_get_entry(p, idx + 1) == spec_get_entry(p, idx),
        spec_get_utf8(p, idx + 1) == Result::<Seq<char>, Fault>::Err(Fault::PoolEntryKindMismatch),
        spec_get_class_name(p, idx + 1) == Result::<Seq<char>, Fault>::Err(
            Fault::PoolEntryKindMismatch,
        ),
{
    lemma_placeholder_slot(p, idx - 1);
}

/// Top level constant pool: the decoded slot sequence behind the 1-based
/// index lookups.
#[derive(Debug)]
pub struct ConstantsPool {
    data: Vec<PoolMembers>,
}

impl View for ConstantsPool {
    type V = Seq<PoolModel>;

    closed spec fn view(&self) -> Seq<PoolModel> {
        self.data@.map_values(|m: PoolMembers| m@)
    }
}

impl ConstantsPool {
    /// The entry a 1-based index addresses.
    fn get_ptr(&self, index: usize) -> (r: Option<&PoolMembers>)
        ensures
            match spec_get_entry(self@, index as int) {
                Some(m) => r matches Some(e) && e@ == m,
                None => r is None,
            },
    {
        if 1 <= index && index <= self.data.len() {
            Some(&self.data[index - 1])
        } else {
            None
        }
    }

    /// How many slots the pool holds (its highest valid index).
    pub fn len(&self) -> (r: usize)
        ensures
            r == self@.len(),
    {
        self.data.len()
    }

    /// The text of the Utf8 entry a 1-based index addresses.
    pub fn get_utf8(&self, index: u16) -> (r: Result<String, Fault>)
        ensures
            match spec_get_utf8(self@, index as int) {
                Ok(t) => r matches Ok(s) && s@ == t,
                Err(f) => r == Result::<String, Fault>::Err(f),
            },
    {
        match self.get_ptr(index as usize) {
            None => Err(Fault::PoolIndexOutOfRange),
            Some(PoolMembers::Utf8(str_ptr)) => Ok(str_ptr.clone()),
            Some(_) => Err(Fault::PoolEntryKindMismatch),
        }
    }

    /// Classify the pool indices in `refs`: each becomes the attribute
    /// kind its Utf8 text spells, every other slot stays unclassified.
    pub fn build_attribute_list(&self, refs: &Vec<u16>) -> (r: AttributePool)
        requires
            self@.len() < 0x10000,
        ensures
            r@ == spec_attr_pool(self@, refs@),
    {
        AttributePool::new(self, refs)
    }

    /// Walks the constant pool to fetch a class's name.
    pub fn get_class_name(&self, index: u16) -> (r: Result<String, Fault>)
        ensures
            match spec_get_class_name(self@, index as int) {
                Ok(t) => r matches Ok(s) && s@ == t,
                Err(f) => r == Result::<String, Fault>::Err(f),
            },
    {
        match self.get_ptr(index as usize) {
            None => Err(Fault::PoolIndexOutOfRange),
            Some(PoolMembers::ClassInfo(name_ptr)) => self.get_utf8(*name_ptr),
            Some(_) => Err(Fault::PoolEntryKindMismatch),
        }
    }
}

proof fn lemma_pool_step(full: Seq<u8>, total: int, acc: Seq<PoolModel>, at: int, left: int, e: PoolModel, n: int)
    requires
        2 <= at <= full.len(),
        0 <= n <= full.len() - at,
        left > 0,
        spec_pool_entries(full.skip(2), total) == list_compose(
            acc,
            at - 2,
            spec_pool_entries(full.skip(at), left),
        ),
        spec_pool_entry(full.skip(at)) == SpecParsed::<PoolModel>::Done(e, n),
        (if spec_two_slot(e) {
            2int
        } else {
            1
        }) <= left,
    ensures
        spec_pool_entries(full.skip(2), total) == list_compose(
            acc + (if spec_two_slot(e) {
                seq![e, e]
            } else {
                seq![e]
            }),
            at - 2 + n,
            spec_pool_entries(full.skip(at + n), left - (if spec_two_slot(e) {
                2int
            } else {
                1
            })),
        ),
{
    let w: int = if spec_two_slot(e) {
        2
    } else {
        1
    };
    let dup: Seq<PoolModel> = if spec_two_slot(e) {
        seq![e, e]
    } else {
        seq![e]
    };
    assert(full.skip(at).skip(n) =~= full.skip(at + n));
    let rest = spec_pool_entries(full.skip(at + n), left - w);
    assert(spec_pool_entries(full.skip(at), left) == list_compose(dup, n, rest));
    match rest {
        SpecParsed::Done(l, _m) => {
            assert(acc + (dup + l) =~= (acc + dup) + l);
        },
        _ => {},
    }
}

/// Parse a constant pool: a 2-byte entry count, then `count - 1` slots.
#[verifier::rlimit(100)]
#[verifier::spinoff_prover]
pub fn parse_constant_pool(buffer: &[u8]) -> (r: Parsed<ConstantsPool>)
    ensures
        match spec_pool(buffer@) {
            SpecParsed::Done(es, n) => r matches Parsed::Done(cnt, pool) && pool@ == es && cnt == n
                && n <= buffer.len() && pool_wf(pool@) && pool@.len() < 0x10000,
            SpecParsed::Incomplete => r is Incomplete,
            SpecParsed::Failed(f) => r == Parsed::<ConstantsPool>::Failed(f),
        },
{
    if buffer.len() < 2 {
        return Parsed::Incomplete;
    }
    let count = be_u16(buffer, 0);
    if count == 0 {
        return Parsed::Failed(Fault::TruncatedInput);
    }
    let ghost s0 = buffer@.skip(2);
    let mut data: Vec<PoolMembers> = Vec::new();
    let mut index: usize = 2;
    let mut left: u16 = count - 1;
    proof {
        lemma_skip_index(buffer@, 2);
        assert(data@.map_values(|m: PoolMembers| m@) =~= Seq::<PoolModel>::empty());
    }
    while left > 0
        invariant
            2 <= index <= buffer.len(),
            s0 == buffer@.skip(2),
            count == spec_be_u16(buffer@, 0),
            count >= 1,
            left < 0x10000,
            data@.len() + left < 0x10000,
            spec_pool_entries(s0, (count - 1) as int) == list_compose(
                data@.map_values(|m: PoolMembers| m@),
                index - 2,
                spec_pool_entries(buffer@.skip(index as int), left as int),
            ),
        decreases left,
    {
        let ghost tail = buffer@.skip(index as int);
        match parse_pool_entry(buffer, index) {
            Parsed::Done(cnt, e) => {
                let two = e.is_double_long();
                let w: u16 = if two {
                    2
                } else {
                    1
                };
                if w > left {
                    proof {
                        assert(spec_pool_entries(tail, left as int) == SpecParsed::<
                            Seq<PoolModel>,
                        >::Failed(Fault::TruncatedInput));
                    }
                    return Parsed::Failed(Fault::TruncatedInput);
                }
                let e2 = e.duplicate();
                proof {
                    let acc = data@.map_values(|m: PoolMembers| m@);
                    let dup: Seq<PoolModel> = if two {
                        seq![e@, e@]
                    } else {
                        seq![e@]
                    };
                    lemma_pool_step(
                        buffer@,
                        count - 1,
                        acc,
                        index as int,
                        left as int,
                        e@,
                        cnt as int,
                    );
                    if two {
                        assert(data@.push(e2).push(e).map_values(|m: PoolMembers| m@) =~= acc
                            + dup);
                    } else {
                        assert(data@.push(e).map_values(|m: PoolMembers| m@) =~= acc + dup);
                    }
                }
                if two {
                    data.push(e2);
                    data.push(e);
                } else {
                    data.push(e);
                }
                index = index + cnt;
                left = left - w;
            },
            Parsed::Incomplete => {
                proof {
                    assert(spec_pool_entries(tail, left as int) is Incomplete);
                    assert(spec_pool(buffer@) is Incomplete);
                }
                return Parsed::Incomplete;
            },
            Parsed::Failed(f) => {
                proof {
                    assert(spec_pool_entries(tail, left as int) == SpecParsed::<
                        Seq<PoolModel>,
                    >::Failed(f));
                    assert(spec_pool(buffer@) == SpecParsed::<Seq<PoolModel>>::Failed(f));
                }
                return Parsed::Failed(f);
            },
        }
    }
    proof {
        let acc = data@.map_values(|m: PoolMembers| m@);
        assert(acc + Seq::<PoolModel>::empty() =~= acc);
        lemma_pool_entries_wf(s0, (count - 1) as int);
    }
    Parsed::Done(index, ConstantsPool { data })
}

/// Describes common attribute types.
#[derive(Clone, Copy, Debug, PartialEq, Eq, Structural)]
pub enum AttributeKind {
    ConstantValue,
    Code,
    StackMapTable,
    Exceptions,
    InnerClasses,
    EnclosingMethod,
    Synthetic,
    Signature,
    SourceFile,
    SourceDebugExtension,
    LineNumberTable,
    LocalVariableTable,
    Deprecated,
    RuntimeVisibleAnnotations,
    RuntimeInvisibleAnnotations,
    RuntimeVisibleParameterAnnotations,
    RuntimeInvisibleParameterAnnotations,
    AnnotationDefault,
    BootstrapMethods,
}

/// The known attribute kind a name spells, if any.
pub open spec fn spec_attribute_kind(s: Seq<char>) -> Option<AttributeKind> {
    if s == "ConstantValue"@ {
        Some(AttributeKind::ConstantValue)
    } else if s == "Code"@ {
        Some(AttributeKind::Code)
    } else if s == "StackMapTable"@ {
        Some(AttributeKind::StackMapTable)
    } else if s == "Exceptions"@ {
        Some(AttributeKind::Exceptions)
    } else if s == "InnerClasses"@ {
        Some(AttributeKind::InnerClasses)
    } else if s == "EnclosingMethod"@ {
        Some(AttributeKind::EnclosingMethod)
    } else if s == "Synthetic"@ {
        Some(AttributeKind::Synthetic)
    } else if s == "Signature"@ {
        Some(AttributeKind::Signature)
    } else if s == "SourceFile"@ {
        Some(AttributeKind::SourceFile)
    } else if s == "SourceDebugExtension"@ {
        Some(AttributeKind::SourceDebugExtension)
    } else if s == "LineNumberTable"@ {
        Some(AttributeKind::LineNumberTable)
    } else if s == "LocalVariableTable"@ {
        Some(AttributeKind::LocalVariableTable)
    } else if s == "Deprecated"@ {
        Some(AttributeKind::Deprecated)
    } else if s == "RuntimeVisibleAnnotations"@ {
        Some(AttributeKind::RuntimeVisibleAnnotations)
    } else if s == "RuntimeInvisibleAnnotations"@ {
        Some(AttributeKind::RuntimeInvisibleAnnotations)
    } else if s == "RuntimeVisibleParameterAnnotations"@ {
        Some(AttributeKind::RuntimeVisibleParameterAnnotations)
    } else if s == "RuntimeInvisibleParameterAnnotations"@ {
        Some(AttributeKind::RuntimeInvisibleParameterAnnotations)
    } else if s == "AnnotationDefault"@ {
        Some(AttributeKind::AnnotationDefault)
    } else if s == "BootstrapMethods"@ {
        Some(AttributeKind::BootstrapMethods)
    } else {
        None
    }
}

/// The classification an attribute pool assigns to each 1-based pool index:
/// only indices some attribute actually names, and only Utf8 entries, are
/// classified; slot 0 and everything else stay unclassified.
pub open spec fn spec_attr_pool(p: Seq<PoolModel>, refs: Seq<u16>) -> Seq<Option<AttributeKind>> {
    Seq::new(
        (p.len() + 1) as nat,
        |i: int|
            if i >= 1 && refs.contains(i as u16) && p[i - 1] is Utf8 {
                spec_attribute_kind(p[i - 1]->Utf8_0)
            } else {
                None
            },
    )
}

/// Whether a vector of pool indices holds the given index.
fn contains_index(refs: &Vec<u16>, x: u16) -> (r: bool)
    ensures
        r == refs@.contains(x),
{
    let mut i: usize = 0;
    while i < refs.len()
        invariant
            i <= refs.len(),
            forall|j: int| 0 <= j < i ==> refs@[j] != x,
        decreases refs.len() - i,
    {
        if refs[i] == x {
            return true;
        }
        i = i + 1;
    }
    false
}

/// Describes which pool indices name which attribute type.
///
/// Slot `i` classifies pool index `i`; slot 0, like pool index 0, is
/// always unclassified.
#[derive(Clone, Debug)]
pub struct AttributePool {
    data: Vec<Option<AttributeKind>>,
}

impl View for AttributePool {
    type V = Seq<Option<AttributeKind>>;

    closed spec fn view(&self) -> Seq<Option<AttributeKind>> {
        self.data@
    }
}

impl AttributePool {
    /// The known attribute kind a name spells, if any.
    pub fn dummy(x: &str) -> (r: Option<AttributeKind>)
        ensures
            r == spec_attribute_kind(x@),
    {
        let xs = x.to_owned();
        if xs == "ConstantValue".to_owned() {
            Some(AttributeKind::ConstantValue)
        } else if xs == "Code".to_owned() {
            Some(AttributeKind::Code)
        } else if xs == "StackMapTable".to_owned() {
            Some(AttributeKind::StackMapTable)
        } else if xs == "Exceptions".to_owned() {
            Some(AttributeKind::Exceptions)
        } else if xs == "InnerClasses".to_owned() {
            Some(AttributeKind::InnerClasses)
        } else if xs == "EnclosingMethod".to_owned() {
            Some(AttributeKind::EnclosingMethod)
        } else if xs == "Synthetic".to_owned() {
            Some(AttributeKind::Synthetic)
        } else if xs == "Signature".to_owned() {
            Some(AttributeKind::Signature)
        } else if xs == "SourceFile".to_owned() {
            Some(AttributeKind::SourceFile)
        } else if xs == "SourceDebugExtension".to_owned() {
            Some(AttributeKind::SourceDebugExtension)
        } else if xs == "LineNumberTable".to_owned() {
            Some(AttributeKind::LineNumberTable)
        } else if xs == "LocalVariableTable".to_owned() {
            Some(AttributeKind::LocalVariableTable)
        } else if xs == "Deprecated".to_owned() {
            Some(AttributeKind::Deprecated)
        } else if xs == "RuntimeVisibleAnnotations".to_owned() {
            Some(AttributeKind::RuntimeVisibleAnnotations)
        } else if xs == "RuntimeInvisibleAnnotations".to_owned() {
            Some(AttributeKind::RuntimeInvisibleAnnotations)
        } else if xs == "RuntimeVisibleParameterAnnotations".to_owned() {
            Some(AttributeKind::RuntimeVisibleParameterAnnotations)
        } else if xs == "RuntimeInvisibleParameterAnnotations".to_owned() {
            Some(AttributeKind::RuntimeInvisibleParameterAnnotations)
        } else if xs == "AnnotationDefault".to_owned() {
            Some(AttributeKind::AnnotationDefault)
        } else if xs == "BootstrapMethods".to_owned() {
            Some(AttributeKind::BootstrapMethods)
        } else {
            None
        }
    }

    /// Classify each pool index an attribute actually names.
    pub fn new(pool: &ConstantsPool, refs: &Vec<u16>) -> (r: AttributePool)
        requires
            pool@.len() < 0x10000,
        ensures
            r@ == spec_attr_pool(pool@, refs@),
    {
        let n = pool.len();
        let mut data: Vec<Option<AttributeKind>> = Vec::new();
        data.push(None);
        let mut i: usize = 1;
        while i <= n
            invariant
                pool@.len() == n < 0x10000,
                1 <= i <= n + 1,
                data@.len() == i,
                forall|j: int| 0 <= j < i ==> data@[j] == spec_attr_pool(pool@, refs@)[j],
            decreases n + 1 - i,
        {
            let var: Option<AttributeKind> = if contains_index(refs, i as u16) {
                match pool.get_utf8(i as u16) {
                    Ok(text) => Self::dummy(text.as_str()),
                    Err(_) => None,
                }
            } else {
                None
            };
            data.push(var);
            i = i + 1;
        }
        proof {
            assert(data@ =~= spec_attr_pool(pool@, refs@));
        }
        AttributePool { data }
    }

    /// The classification of pool index `arg`.
    pub fn index(&self, arg: u16) -> (r: Option<AttributeKind>)
        requires
            (arg as int) < self@.len(),
        ensures
            r == self@[arg as int],
    {
        self.data[arg as usize]
    }
}

} // verus!
