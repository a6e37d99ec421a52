//! Field records of a class: access flags, name and descriptor pool
//! indices, and the field's attributes.

use vstd::prelude::*;

use crate::attributes::{parse_attribute_list, spec_attribute_list, AttrModel, AttributeInfo};
use crate::fault::{Fault, Parsed, SpecParsed};
use crate::reader::{be_u16, lemma_skip_index, spec_be_u16};

verus! {

/// Holds information about a field.
#[derive(Clone, Debug, PartialEq)]
pub struct FieldInfo {
    pub access_flags: u16,
    pub name_index: u16,
    pub descriptor_index: u16,
    pub attributes: Vec<AttributeInfo>,
}

/// The mathematical form of a field record.
#[verifier::ext_equal]
pub struct FieldModel {
    pub access_flags: u16,
    pub name_index: u16,
    pub descriptor_index: u16,
    pub attributes: Seq<AttrModel>,
}

impl View for FieldInfo {
    type V = FieldModel;

    open spec fn view(&self) -> FieldModel {
        FieldModel {
            access_flags: self.access_flags,
            name_index: self.name_index,
            descriptor_index: self.descriptor_index,
            attributes: self.attributes@.map_values(|a: AttributeInfo| a@),
        }
    }
}

/// What a field record's bytes decode to: access flags, name index,
/// descriptor index, then a counted attribute list.
pub open spec fn spec_field(s: Seq<u8>) -> SpecParsed<FieldModel> {
    if s.len() < 8 {
        SpecParsed::Incomplete
    } else {
        match spec_attribute_list(s.skip(8), spec_be_u16(s, 6) as int) {
            SpecParsed::Done(attrs, n) => SpecParsed::Done(
                FieldModel {
                    access_flags: spec_be_u16(s, 0),
                    name_index: spec_be_u16(s, 2),
                    descriptor_index: spec_be_u16(s, 4),
                    attributes: attrs,
                },
                8 + n,
            ),
            SpecParsed::Incomplete => SpecParsed::Incomplete,
            SpecParsed::Failed(f) => SpecParsed::Failed(f),
        }
    }
}

/// Decode the field record starting at index `at` of `buffer`.
pub fn parse_field(buffer: &[u8], at: usize) -> (r: Parsed<FieldInfo>)
    requires
        at <= buffer.len(),
    ensures
        match spec_field(buffer@.skip(at as int)) {
            SpecParsed::Done(fm, n) => r matches Parsed::Done(cnt, v) && v@ == fm && cnt == n && n
                <= buffer.len() - at,
            SpecParsed::Incomplete => r is Incomplete,
            SpecParsed::Failed(f) => r == Parsed::<FieldInfo>::Failed(f),
        },
{
    proof {
        lemma_skip_index(buffer@, at as int);
    }
    if buffer.len() - at < 8 {
        return Parsed::Incomplete;
    }
    let access_flags = be_u16(buffer, at);
    let name_index = be_u16(buffer, at + 2);
    let descriptor_index = be_u16(buffer, at + 4);
    let count = be_u16(buffer, at + 6);
    proof {
        assert(buffer@.skip(at as int).skip(8) =~= buffer@.skip(at + 8));
    }
    match parse_attribute_list(buffer, at + 8, count) {
        Parsed::Done(cnt, attributes) => Parsed::Done(
            8 + cnt,
            FieldInfo { access_flags, name_index, descriptor_index, attributes },
        ),
        Parsed::Incomplete => Parsed::Incomplete,
        Parsed::Failed(f) => Parsed::Failed(f),
    }
}

/// What `k` consecutive field records decode to.
pub open spec fn spec_field_list(s: Seq<u8>, k: int) -> SpecParsed<Seq<FieldModel>>
    decreases k,
{
    if k <= 0 {
        SpecParsed::Done(Seq::empty(), 0)
    } else {
        match spec_field(s) {
            SpecParsed::Done(fm, n) => match spec_field_list(s.skip(n), k - 1) {
                SpecParsed::Done(rest, m) => SpecParsed::Done(seq![fm] + rest, n + m),
                other => other,
            },
            SpecParsed::Incomplete => SpecParsed::Incomplete,
            SpecParsed::Failed(f) => SpecParsed::Failed(f),
        }
    }
}

/// Decode `count` consecutive field records starting at index `at`.
pub fn parse_field_list(buffer: &[u8], at: usize, count: u16) -> (r: Parsed<Vec<FieldInfo>>)
    requires
        at <= buffer.len(),
    ensures
        match spec_field_list(buffer@.skip(at as int), count as int) {
            SpecParsed::Done(l, n) => r matches Parsed::Done(cnt, v) && v@.map_values(
                |x: FieldInfo| x@,
            ) == l && cnt == n && n <= buffer.len() - at,
            SpecParsed::Incomplete => r is Incomplete,
            SpecParsed::Failed(f) => r == Parsed::<Vec<FieldInfo>>::Failed(f),
        },
{
    let ghost s0 = buffer@.skip(at as int);
    let mut ret: Vec<FieldInfo> = Vec::new();
    let mut index = at;
    let mut left = count;
    proof {
        lemma_skip_index(buffer@, at as int);
        assert(ret@.map_values(|x: FieldInfo| x@) =~= Seq::<FieldModel>::empty());
    }
    while left > 0
        invariant
            at <= index <= buffer.len(),
            s0 == buffer@.skip(at as int),
            left <= count,
            spec_field_list(s0, count as int) == crate::fault::list_compose(
                ret@.map_values(|x: FieldInfo| x@),
                index - at,
                spec_field_list(buffer@.skip(index as int), left as int),
            ),
        decreases left,
    {
        let ghost tail = buffer@.skip(index as int);
        match parse_field(buffer, index) {
            Parsed::Done(cnt, fi) => {
                proof {
                    lemma_skip_index(buffer@, index as int);
                    assert(tail.skip(cnt as int) =~= buffer@.skip(index + cnt));
                    let rest = spec_field_list(buffer@.skip(index + cnt), left - 1);
                    let acc = ret@.map_values(|x: FieldInfo| x@);
                    match rest {
                        SpecParsed::Done(l, _n) => {
                            assert(acc + (seq![fi@] + l) =~= (acc + seq![fi@]) + l);
                        },
                        _ => {},
                    }
                    assert(ret@.push(fi).map_values(|x: FieldInfo| x@) =~= acc + seq![fi@]);
                }
                ret.push(fi);
                index = index + cnt;
                left = left - 1;
            },
            Parsed::Incomplete => {
                return Parsed::Incomplete;
            },
            Parsed::Failed(f) => {
                return Parsed::Failed(f);
            },
        }
    }
    proof {
        let acc = ret@.map_values(|x: FieldInfo| x@);
        assert(acc + Seq::<FieldModel>::empty() =~= acc);
    }
    Parsed::Done(index - at, ret)
}

} // verus!
