//! Attribute records: a pool index naming the attribute and an opaque,
//! length-prefixed payload.
//!
//! This layer never decodes an attribute's contents; callers that need
//! `Code`, `LineNumberTable` and the like re-parse the payload themselves.

use vstd::prelude::*;

use crate::fault::{list_compose, Fault, Parsed, SpecParsed};
use crate::reader::{be_u16, be_u32, lemma_skip_index, spec_be_u16, spec_be_u32};

verus! {

/// The attribute names the class file format defines.
#[derive(Copy, Clone, Debug, PartialEq, Eq, Structural)]
pub enum AttributeType {
    ConstantValue,
    Code,
    StackMapTable,
    Exceptions,
    InnerClasses,
    EnclosingMethods,
    Synthetic,
    Signature,
    SourceFile,
    SourceDebugExtension,
    LineNumberTable,
    LocalVariableTable,
    LocalVaraibleTypeTable,
    Deprecated,
    RuntimeVisibleAnnotations,
    RuntimeInvisibleAnnotations,
    RuntimeVisibleParameterAnnocations,
    RuntimeInvisibleParameterAnnotations,
    AnnotationDefault,
    BootstrapMethods,
}

/// One attribute: the pool index of its name and its raw payload.
#[derive(Clone, Debug, PartialEq)]
pub struct AttributeInfo {
    pub name_index: u16,
    pub data: Vec<u8>,
}

/// The mathematical form of an attribute record.
#[verifier::ext_equal]
pub struct AttrModel {
    pub name_index: u16,
    pub data: Seq<u8>,
}

impl View for AttributeInfo {
    type V = AttrModel;

    open spec fn view(&self) -> AttrModel {
        AttrModel { name_index: self.name_index, data: self.data@ }
    }
}

/// What an attribute record's bytes decode to: a 2-byte name index, a
/// 4-byte payload length, then exactly that many payload bytes.
pub open spec fn spec_attribute(s: Seq<u8>) -> SpecParsed<AttrModel> {
    if s.len() < 6 {
        SpecParsed::Incomplete
    } else {
        let n = spec_be_u32(s, 2) as int;
        if s.len() < 6 + n {
            SpecParsed::Incomplete
        } else {
            SpecParsed::Done(
                AttrModel { name_index: spec_be_u16(s, 0), data: s.subrange(6, 6 + n) },
                6 + n,
            )
        }
    }
}

/// What `k` consecutive attribute records decode to.
pub open spec fn spec_attribute_list(s: Seq<u8>, k: int) -> SpecParsed<Seq<AttrModel>>
    decreases k,
{
    if k <= 0 {
        SpecParsed::Done(Seq::empty(), 0)
    } else {
        match spec_attribute(s) {
            SpecParsed::Done(a, n) => match spec_attribute_list(s.skip(n), k - 1) {
                SpecParsed::Done(rest, m) => SpecParsed::Done(seq![a] + rest, n + m),
                other => other,
            },
            SpecParsed::Incomplete => SpecParsed::Incomplete,
            SpecParsed::Failed(f) => SpecParsed::Failed(f),
        }
    }
}

/// Decode the attribute record starting at index `at` of `buffer`.
pub fn parse_attribute(buffer: &[u8], at: usize) -> (r: Parsed<AttributeInfo>)
    requires
        at <= buffer.len(),
    ensures
        match spec_attribute(buffer@.skip(at as int)) {
            SpecParsed::Done(a, n) => r matches Parsed::Done(cnt, v) && v@ == a && cnt == n && n
                <= buffer.len() - at,
            SpecParsed::Incomplete => r is Incomplete,
            SpecParsed::Failed(f) => r == Parsed::<AttributeInfo>::Failed(f),
        },
{
    proof {
        lemma_skip_index(buffer@, at as int);
    }
    if buffer.len() - at < 6 {
        return Parsed::Incomplete;
    }
    let name_index = be_u16(buffer, at);
    let n = be_u32(buffer, at + 2) as usize;
    if buffer.len() - (at + 6) < n {
        return Parsed::Incomplete;
    }
    let mut data: Vec<u8> = Vec::new();
    data.extend_from_slice(&buffer[(at + 6)..(at + 6 + n)]);
    proof {
        assert(data@ =~= buffer@.skip(at as int).subrange(6, 6 + n));
    }
    Parsed::Done(6 + n, AttributeInfo { name_index, data })
}

/// Decode `count` consecutive attribute records starting at index `at`.
pub fn parse_attribute_list(buffer: &[u8], at: usize, count: u16) -> (r: Parsed<
    Vec<AttributeInfo>,
>)
    requires
        at <= buffer.len(),
    ensures
        match spec_attribute_list(buffer@.skip(at as int), count as int) {
            SpecParsed::Done(l, n) => r matches Parsed::Done(cnt, v) && v@.map_values(
                |a: AttributeInfo| a@,
            ) == l && cnt == n && n <= buffer.len() - at,
            SpecParsed::Incomplete => r is Incomplete,
            SpecParsed::Failed(f) => r == Parsed::<Vec<AttributeInfo>>::Failed(f),
        },
{
    let ghost s0 = buffer@.skip(at as int);
    let mut ret: Vec<AttributeInfo> = Vec::new();
    let mut index = at;
    let mut left = count;
    proof {
        lemma_skip_index(buffer@, at as int);
        assert(ret@.map_values(|a: AttributeInfo| a@) =~= Seq::<AttrModel>::empty());
    }
    while left > 0
        invariant
            at <= index <= buffer.len(),
            s0 == buffer@.skip(at as int),
            left <= count,
            spec_attribute_list(s0, count as int) == list_compose(
                ret@.map_values(|a: AttributeInfo| a@),
                index - at,
                spec_attribute_list(buffer@.skip(index as int), left as int),
            ),
        decreases left,
    {
        let ghost tail = buffer@.skip(index as int);
        match parse_attribute(buffer, index) {
            Parsed::Done(cnt, a) => {
                proof {
                    lemma_skip_index(buffer@, index as int);
                    assert(tail.skip(cnt as int) =~= buffer@.skip(index + cnt));
                    let rest = spec_attribute_list(buffer@.skip(index + cnt), left - 1);
                    let acc = ret@.map_values(|x: AttributeInfo| x@);
                    match rest {
                        SpecParsed::Done(l, _n) => {
                            assert(acc + (seq![a@] + l) =~= (acc + seq![a@]) + l);
                        },
                        _ => {},
                    }
                    assert(ret@.push(a).map_values(|x: AttributeInfo| x@) =~= acc + seq![a@]);
                }
                ret.push(a);
                index = index + cnt;
                left = left - 1;
            },
            Parsed::Incomplete => {
                return Parsed::Incomplete;
            },
            Parsed::Failed(f) => {
                return Parsed::Failed(f);
            },
        }
    }
    proof {
        let acc = ret@.map_values(|a: AttributeInfo| a@);
        assert(acc + Seq::<AttrModel>::empty() =~= acc);
    }
    Parsed::Done(index - at, ret)
}

} // verus!
