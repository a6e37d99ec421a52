//! Method records of a class: access flags, name and descriptor pool
//! indices, and the method's attributes (a method body travels as its
//! `Code` attribute's payload).

use vstd::prelude::*;

use crate::attributes::{parse_attribute_list, spec_attribute_list, AttrModel, AttributeInfo};
use crate::fault::{Fault, Parsed, SpecParsed};
use crate::reader::{be_u16, lemma_skip_index, spec_be_u16};

verus! {

/// Holds information about a method.
#[derive(Clone, Debug, PartialEq)]
pub struct MethodInfo {
    pub access_flags: u16,
    pub name_index: u16,
    pub descriptor_index: u16,
    pub attributes: Vec<AttributeInfo>,
}

/// The mathematical form of a method record.
#[verifier::ext_equal]
pub struct MethodModel {
    pub access_flags: u16,
    pub name_index: u16,
    pub descriptor_index: u16,
    pub attributes: Seq<AttrModel>,
}

impl View for MethodInfo {
    type V = MethodModel;

    open spec fn view(&self) -> MethodModel {
        MethodModel {
            access_flags: self.access_flags,
            name_index: self.name_index,
            descriptor_index: self.descriptor_index,
            attributes: self.attributes@.map_values(|a: AttributeInfo| a@),
        }
    }
}

/// What a method record's bytes decode to: access flags, name index,
/// descriptor index, then a counted attribute list.
pub open spec fn spec_method(s: Seq<u8>) -> SpecParsed<MethodModel> {
    if s.len() < 8 {
        SpecParsed::Incomplete
    } else {
        match spec_attribute_list(s.skip(8), spec_be_u16(s, 6) as int) {
            SpecParsed::Done(attrs, n) => SpecParsed::Done(
                MethodModel {
                    access_flags: spec_be_u16(s, 0),
                    name_index: spec_be_u16(s, 2),
                    descriptor_index: spec_be_u16(s, 4),
                    attributes: attrs,
                },
                8 + n,
            ),
            SpecParsed::Incomplete => SpecParsed::Incomplete,
            SpecParsed::Failed(f) => SpecParsed::Failed(f),
        }
    }
}

/// Decode the method record starting at index `at` of `buffer`.
pub fn parse_method(buffer: &[u8], at: usize) -> (r: Parsed<MethodInfo>)
    requires
        at <= buffer.len(),
    ensures
        match spec_method(buffer@.skip(at as int)) {
            SpecParsed::Done(fm, n) => r matches Parsed::Done(cnt, v) && v@ == fm && cnt == n && n
                <= buffer.len() - at,
            SpecParsed::Incomplete => r is Incomplete,
            SpecParsed::Failed(f) => r == Parsed::<MethodInfo>::Failed(f),
        },
{
    proof {
        lemma_skip_index(buffer@, at as int);
    }
    if buffer.len() - at < 8 {
        return Parsed::Incomplete;
    }
    let access_flags = be_u16(buffer, at);
    let name_index = be_u16(buffer, at + 2);
    let descriptor_index = be_u16(buffer, at + 4);
    let count = be_u16(buffer, at + 6);
    proof {
        assert(buffer@.skip(at as int).skip(8) =~= buffer@.skip(at + 8));
    }
    match parse_attribute_list(buffer, at + 8, count) {
        Parsed::Done(cnt, attributes) => Parsed::Done(
            8 + cnt,
            MethodInfo { access_flags, name_index, descriptor_index, attributes },
        ),
        Parsed::Incomplete => Parsed::Incomplete,
        Parsed::Failed(f) => Parsed::Failed(f),
    }
}

/// What `k` consecutive method records decode to.
pub open spec fn spec_method_list(s: Seq<u8>, k: int) -> SpecParsed<Seq<MethodModel>>
    decreases k,
{
    if k <= 0 {
        SpecParsed::Done(Seq::empty(), 0)
    } else {
        match spec_method(s) {
            SpecParsed::Done(fm, n) => match spec_method_list(s.skip(n), k - 1) {
                SpecParsed::Done(rest, m) => SpecParsed::Done(seq![fm] + rest, n + m),
                other => other,
            },
            SpecParsed::Incomplete => SpecParsed::Incomplete,
            SpecParsed::Failed(f) => SpecParsed::Failed(f),
        }
    }
}

/// Decode `count` consecutive method records starting at index `at`.
pub fn parse_method_list(buffer: &[u8], at: usize, count: u16) -> (r: Parsed<Vec<MethodInfo>>)
    requires
        at <= buffer.len(),
    ensures
        match spec_method_list(buffer@.skip(at as int), count as int) {
            SpecParsed::Done(l, n) => r matches Parsed::Done(cnt, v) && v@.map_values(
                |x: MethodInfo| x@,
            ) == l && cnt == n && n <= buffer.len() - at,
            SpecParsed::Incomplete => r is Incomplete,
            SpecParsed::Failed(f) => r == Parsed::<Vec<MethodInfo>>::Failed(f),
        },
{
    let ghost s0 = buffer@.skip(at as int);
    let mut ret: Vec<MethodInfo> = Vec::new();
    let mut index = at;
    let mut left = count;
    proof {
        lemma_skip_index(buffer@, at as int);
        assert(ret@.map_values(|x: MethodInfo| x@) =~= Seq::<MethodModel>::empty());
    }
    while left > 0
        invariant
            at <= index <= buffer.len(),
            s0 == buffer@.skip(at as int),
            left <= count,
            spec_method_list(s0, count as int) == crate::fault::list_compose(
                ret@.map_values(|x: MethodInfo| x@),
                index - at,
                spec_method_list(buffer@.skip(index as int), left as int),
            ),
        decreases left,
    {
        let ghost tail = buffer@.skip(index as int);
        match parse_method(buffer, index) {
            Parsed::Done(cnt, mi) => {
                proof {
                    lemma_skip_index(buffer@, index as int);
                    assert(tail.skip(cnt as int) =~= buffer@.skip(index + cnt));
                    let rest = spec_method_list(buffer@.skip(index + cnt), left - 1);
                    let acc = ret@.map_values(|x: MethodInfo| x@);
                    match rest {
                        SpecParsed::Done(l, _n) => {
                            assert(acc + (seq![mi@] + l) =~= (acc + seq![mi@]) + l);
                        },
                        _ => {},
                    }
                    assert(ret@.push(mi).map_values(|x: MethodInfo| x@) =~= acc + seq![mi@]);
                }
                ret.push(mi);
                index = index + cnt;
                left = left - 1;
            },
            Parsed::Incomplete => {
                return Parsed::Incomplete;
            },
            Parsed::Failed(f) => {
                return Parsed::Failed(f);
            },
        }
    }
    proof {
        let acc = ret@.map_values(|x: MethodInfo| x@);
        assert(acc + Seq::<MethodModel>::empty() =~= acc);
    }
    Parsed::Done(index - at, ret)
}

} // verus!
