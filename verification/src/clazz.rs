//! The top-level class file decoder: magic number, version, constant pool,
//! access flags, this/super class, interfaces, fields, methods, attributes.
//!
//! A class file decodes atomically: any truncated or malformed field aborts
//! the whole decode with no partial structure.  The resolved accessors
//! (class name, interface names, field and method name/descriptor pairs)
//! work lazily over the decoded pool, and each fails independently without
//! invalidating the structure.

use vstd::prelude::*;

use crate::attributes::{parse_attribute_list, spec_attribute_list, AttrModel, AttributeInfo};
use crate::const_pool::{
    parse_constant_pool, spec_attr_pool, spec_attribute_kind, spec_get_class_name, spec_get_utf8,
    spec_pool, AttributeKind, AttributePool, ConstantsPool, PoolModel,
};
use crate::fault::{Fault, Parsed, SpecParsed};
use crate::fields::{parse_field_list, spec_field_list, FieldInfo, FieldModel};
use crate::methods::{parse_method_list, spec_method_list, MethodInfo, MethodModel};
use crate::reader::{be_u16, lemma_skip_index, spec_be_u16};

verus! {

/// The mathematical form of a decoded class file.
#[verifier::ext_equal]
pub struct ClassModel {
    pub minor_version: u16,
    pub major_version: u16,
    pub constants: Seq<PoolModel>,
    pub access_flags: u16,
    pub this_class: u16,
    pub super_class: u16,
    pub interfaces: Seq<u16>,
    pub fields: Seq<FieldModel>,
    pub methods: Seq<MethodModel>,
    pub attributes: Seq<AttrModel>,
}

/// A decoded class file, built once by [`Class::parse`] and immutable
/// afterward.
#[derive(Debug)]
pub struct Class {
    minor_version: u16,
    major_version: u16,
    constants: ConstantsPool,
    access_flags: u16,
    this_class: u16,
    super_class: u16,
    interfaces: Vec<u16>,
    fields: Vec<FieldInfo>,
    methods: Vec<MethodInfo>,
    attributes: Vec<AttributeInfo>,
}

impl View for Class {
    type V = ClassModel;

    closed spec fn view(&self) -> ClassModel {
        ClassModel {
            minor_version: self.minor_version,
            major_version: self.major_version,
            constants: self.constants@,
            access_flags: self.access_flags,
            this_class: self.this_class,
            super_class: self.super_class,
            interfaces: self.interfaces@,
            fields: self.fields@.map_values(|f: FieldInfo| f@),
            methods: self.methods@.map_values(|m: MethodInfo| m@),
            attributes: self.attributes@.map_values(|a: AttributeInfo| a@),
        }
    }
}

/// What `k` consecutive big-endian 16-bit words decode to.
pub open spec fn spec_u16_list(s: Seq<u8>, k: int) -> SpecParsed<Seq<u16>>
    recommends
        k >= 0,
{
    if s.len() < 2 * k {
        SpecParsed::Incomplete
    } else {
        SpecParsed::Done(Seq::new(k as nat, |i: int| spec_be_u16(s, 2 * i)), 2 * k)
    }
}

/// Decode `count` consecutive big-endian 16-bit words starting at `at`.
fn parse_u16_list(buffer: &[u8], at: usize, count: u16) -> (r: Parsed<Vec<u16>>)
    requires
        at <= buffer.len(),
    ensures
        match spec_u16_list(buffer@.skip(at as int), count as int) {
            SpecParsed::Done(l, n) => r matches Parsed::Done(cnt, v) && v@ == l && cnt == n && n
                <= buffer.len() - at,
            SpecParsed::Incomplete => r is Incomplete,
            SpecParsed::Failed(f) => r == Parsed::<Vec<u16>>::Failed(f),
        },
{
    proof {
        lemma_skip_index(buffer@, at as int);
    }
    let k = count as usize;
    if (buffer.len() - at) / 2 < k {
        return Parsed::Incomplete;
    }
    let mut ret: Vec<u16> = Vec::new();
    let mut i: usize = 0;
    while i < k
        invariant
            i <= k,
            at + 2 * k <= buffer.len(),
            ret@.len() == i,
            forall|j: int| 0 <= j < i ==> ret@[j] == spec_be_u16(buffer@, at + 2 * j),
        decreases k - i,
    {
        ret.push(be_u16(buffer, at + 2 * i));
        i = i + 1;
    }
    proof {
        lemma_skip_index(buffer@, at as int);
        assert(ret@ =~= Seq::new(count as nat, |j: int| spec_be_u16(buffer@.skip(at as int), 2 * j)));
    }
    Parsed::Done(2 * k, ret)
}

/// What a whole class file's bytes decode to.  Truncation anywhere in the
/// top-level layout is a hard failure: no partial class is produced.
pub open spec fn spec_class(s: Seq<u8>) -> SpecParsed<ClassModel> {
    if s.len() < 4 {
        SpecParsed::Failed(Fault::TruncatedInput)
    } else if !(s[0] == 0xCA && s[1] == 0xFE && s[2] == 0xBA && s[3] == 0xBE) {
        SpecParsed::Failed(Fault::MalformedMagic)
    } else if s.len() < 8 {
        SpecParsed::Failed(Fault::TruncatedInput)
    } else {
        match spec_pool(s.skip(8)) {
            SpecParsed::Incomplete => SpecParsed::Failed(Fault::TruncatedInput),
            SpecParsed::Failed(f) => SpecParsed::Failed(f),
            SpecParsed::Done(pool, pn) => {
                let a = 8 + pn;
                if s.len() < a + 8 {
                    SpecParsed::Failed(Fault::TruncatedInput)
                } else {
                    match spec_u16_list(s.skip(a + 8), spec_be_u16(s, a + 6) as int) {
                        SpecParsed::Incomplete => SpecParsed::Failed(Fault::TruncatedInput),
                        SpecParsed::Failed(f) => SpecParsed::Failed(f),
                        SpecParsed::Done(ifaces, iused) => {
                            let b = a + 8 + iused;
                            if s.len() < b + 2 {
                                SpecParsed::Failed(Fault::TruncatedInput)
                            } else {
                                match spec_field_list(s.skip(b + 2), spec_be_u16(s, b) as int) {
                                    SpecParsed::Incomplete => SpecParsed::Failed(
                                        Fault::TruncatedInput,
                                    ),
                                    SpecParsed::Failed(f) => SpecParsed::Failed(f),
                                    SpecParsed::Done(fields, fused) => {
                                        let c = b + 2 + fused;
                                        if s.len() < c + 2 {
                                            SpecParsed::Failed(Fault::TruncatedInput)
                                        } else {
                                            match spec_method_list(
                                                s.skip(c + 2),
                                                spec_be_u16(s, c) as int,
                                            ) {
                                                SpecParsed::Incomplete => SpecParsed::Failed(
                                                    Fault::TruncatedInput,
                                                ),
                                                SpecParsed::Failed(f) => SpecParsed::Failed(f),
                                                SpecParsed::Done(methods, mused) => {
                                                    let d = c + 2 + mused;
                                                    if s.len() < d + 2 {
                                                        SpecParsed::Failed(Fault::TruncatedInput)
                                                    } else {
                                                        match spec_attribute_list(
                                                            s.skip(d + 2),
                                                            spec_be_u16(s, d) as int,
                                                        ) {
                                                            SpecParsed::Incomplete
                                                                => SpecParsed::Failed(
                                                                Fault::TruncatedInput,
                                                            ),
                                                            SpecParsed::Failed(f)
                                                                => SpecParsed::Failed(f),
                                                            SpecParsed::Done(attrs, aused)
                                                                => SpecParsed::Done(
                                                                ClassModel {
                                                                    minor_version: spec_be_u16(
                                                                        s,
                                                                        4,
                                                                    ),
                                                                    major_version: spec_be_u16(
                                                                        s,
                                                                        6,
                                                                    ),
                                                                    constants: pool,
                                                                    access_flags: spec_be_u16(
                                                                        s,
                                                                        a,
                                                                    ),
                                                                    this_class: spec_be_u16(
                                                                        s,
                                                                        a + 2,
                                                                    ),
                                                                    super_class: spec_be_u16(
                                                                        s,
                                                                        a + 4,
                                                                    ),
                                                                    interfaces: ifaces,
                                                                    fields: fields,
                                                                    methods: methods,
                                                                    attributes: attrs,
                                                                },
                                                                d + 2 + aused,
                                                            ),
                                                        }
                                                    }
                                                },
                                            }
                                        }
                                    },
                                }
                            }
                        },
                    }
                }
            },
        }
    }
}

/// The class names a list of interface indices resolves to, or the fault
/// of the first index that fails.
pub open spec fn spec_interface_names(p: Seq<PoolModel>, idxs: Seq<u16>) -> Result<
    Seq<Seq<char>>,
    Fault,
>
    decreases idxs.len(),
{
    if idxs.len() == 0 {
        Ok(Seq::empty())
    } else {
        match spec_get_class_name(p, idxs[0] as int) {
            Err(f) => Err(f),
            Ok(t) => match spec_interface_names(p, idxs.skip(1)) {
                Err(f) => Err(f),
                Ok(rest) => Ok(seq![t] + rest),
            },
        }
    }
}

/// The `(name, descriptor)` text pairs a list of field records resolves
/// to, or the fault of the first index that fails.
pub open spec fn spec_field_pairs(p: Seq<PoolModel>, fs: Seq<FieldModel>) -> Result<
    Seq<(Seq<char>, Seq<char>)>,
    Fault,
>
    decreases fs.len(),
{
    if fs.len() == 0 {
        Ok(Seq::empty())
    } else {
        match spec_get_utf8(p, fs[0].name_index as int) {
            Err(f) => Err(f),
            Ok(name) => match spec_get_utf8(p, fs[0].descriptor_index as int) {
                Err(f) => Err(f),
                Ok(desc) => match spec_field_pairs(p, fs.skip(1)) {
                    Err(f) => Err(f),
                    Ok(rest) => Ok(seq![(name, desc)] + rest),
                },
            },
        }
    }
}

/// The `(name, descriptor)` text pairs a list of method records resolves
/// to, or the fault of the first index that fails.
pub open spec fn spec_method_pairs(p: Seq<PoolModel>, ms: Seq<MethodModel>) -> Result<
    Seq<(Seq<char>, Seq<char>)>,
    Fault,
>
    decreases ms.len(),
{
    if ms.len() == 0 {
        Ok(Seq::empty())
    } else {
        match spec_get_utf8(p, ms[0].name_index as int) {
            Err(f) => Err(f),
            Ok(name) => match spec_get_utf8(p, ms[0].descriptor_index as int) {
                Err(f) => Err(f),
                Ok(desc) => match spec_method_pairs(p, ms.skip(1)) {
                    Err(f) => Err(f),
                    Ok(rest) => Ok(seq![(name, desc)] + rest),
                },
            },
        }
    }
}

/// Whether some attribute in the list names pool index `idx`.
pub open spec fn attrs_reference(l: Seq<AttrModel>, idx: u16) -> bool {
    exists|j: int| 0 <= j < l.len() && l[j].name_index == idx
}

/// Whether some field's attribute names pool index `idx`.
pub open spec fn fields_reference(l: Seq<FieldModel>, idx: u16) -> bool {
    exists|j: int| 0 <= j < l.len() && attrs_reference(l[j].attributes, idx)
}

/// Whether some method's attribute names pool index `idx`.
pub open spec fn methods_reference(l: Seq<MethodModel>, idx: u16) -> bool {
    exists|j: int| 0 <= j < l.len() && attrs_reference(l[j].attributes, idx)
}

/// Whether any attribute of the class, its fields or its methods names
/// pool index `idx` as its attribute name.
pub open spec fn spec_class_references(cm: ClassModel, idx: u16) -> bool {
    attrs_reference(cm.attributes, idx) || fields_reference(cm.fields, idx) || methods_reference(
        cm.methods,
        idx,
    )
}

/// The attribute classification a class gives each 1-based pool index:
/// only Utf8 entries actually named by some attribute are classified.
pub open spec fn spec_class_attr_pool(cm: ClassModel) -> Seq<Option<AttributeKind>> {
    Seq::new(
        (cm.constants.len() + 1) as nat,
        |i: int|
            if i >= 1 && spec_class_references(cm, i as u16) && cm.constants[i - 1] is Utf8 {
                spec_attribute_kind(cm.constants[i - 1]->Utf8_0)
            } else {
                None
            },
    )
}

/// Append every attribute-name index in `attrs` to `refs`.
fn push_attr_refs(refs: &mut Vec<u16>, attrs: &Vec<AttributeInfo>)
    ensures
        forall|x: u16|
            #[trigger] final(refs)@.contains(x) <==> (old(refs)@.contains(x) || attrs_reference(
                attrs@.map_values(|a: AttributeInfo| a@),
                x,
            )),
{
    let ghost l = attrs@.map_values(|a: AttributeInfo| a@);
    let mut j: usize = 0;
    while j < attrs.len()
        invariant
            j <= attrs.len(),
            l == attrs@.map_values(|a: AttributeInfo| a@),
            forall|x: u16| old(refs)@.contains(x) ==> #[trigger] refs@.contains(x),
            forall|x: u16|
                #[trigger] refs@.contains(x) ==> (old(refs)@.contains(x) || attrs_reference(l, x)),
            forall|j2: int| 0 <= j2 < j ==> #[trigger] refs@.contains(l[j2].name_index),
        decreases attrs.len() - j,
    {
        let ghost prev = refs@;
        let v = attrs[j].name_index;
        refs.push(v);
        proof {
            assert(refs@ == prev.push(v));
            assert forall|x: u16| #[trigger] refs@.contains(x) implies (prev.contains(x) || x
                == v) by {
                vstd::seq_lib::lemma_seq_contains_after_push(prev, v, x);
            }
            assert forall|x: u16| prev.contains(x) implies #[trigger] refs@.contains(x) by {
                vstd::seq_lib::lemma_seq_contains_after_push(prev, v, x);
            }
            assert(refs@.contains(v)) by {
                vstd::seq_lib::lemma_seq_contains_after_push(prev, v, v);
            }
            assert(l[j as int].name_index == v);
            assert(attrs_reference(l, v));
        }
        j = j + 1;
    }
    proof {
        assert forall|x: u16| attrs_reference(l, x) implies #[trigger] refs@.contains(x) by {
            let w = choose|w: int| 0 <= w < l.len() && l[w].name_index == x;
            assert(refs@.contains(l[w].name_index));
        }
    }
}

proof fn lemma_fields_ref_extend(l: Seq<FieldModel>, i: int, x: u16)
    requires
        0 <= i < l.len(),
    ensures
        fields_reference(l.subrange(0, i + 1), x) <==> (fields_reference(l.subrange(0, i), x)
            || attrs_reference(l[i].attributes, x)),
{
    let a = l.subrange(0, i);
    let b = l.subrange(0, i + 1);
    if fields_reference(b, x) {
        let w = choose|w: int| 0 <= w < b.len() && attrs_reference(b[w].attributes, x);
        if w < i {
            assert(a[w] == b[w]);
            assert(attrs_reference(a[w].attributes, x));
        } else {
            assert(b[i] == l[i]);
        }
    }
    if fields_reference(a, x) {
        let w = choose|w: int| 0 <= w < a.len() && attrs_reference(a[w].attributes, x);
        assert(b[w] == a[w]);
        assert(attrs_reference(b[w].attributes, x));
    }
    if attrs_reference(l[i].attributes, x) {
        assert(b[i] == l[i]);
        assert(attrs_reference(b[i].attributes, x));
    }
}

proof fn lemma_methods_ref_extend(l: Seq<MethodModel>, i: int, x: u16)
    requires
        0 <= i < l.len(),
    ensures
        methods_reference(l.subrange(0, i + 1), x) <==> (methods_reference(l.subrange(0, i), x)
            || attrs_reference(l[i].attributes, x)),
{
    let a = l.subrange(0, i);
    let b = l.subrange(0, i + 1);
    if methods_reference(b, x) {
        let w = choose|w: int| 0 <= w < b.len() && attrs_reference(b[w].attributes, x);
        if w < i {
            assert(a[w] == b[w]);
            assert(attrs_reference(a[w].attributes, x));
        } else {
            assert(b[i] == l[i]);
        }
    }
    if methods_reference(a, x) {
        let w = choose|w: int| 0 <= w < a.len() && attrs_reference(a[w].attributes, x);
        assert(b[w] == a[w]);
        assert(attrs_reference(b[w].attributes, x));
    }
    if attrs_reference(l[i].attributes, x) {
        assert(b[i] == l[i]);
        assert(attrs_reference(b[i].attributes, x));
    }
}

impl Class {
    /// Attempt to parse a class from a buffer of bytes.  Trailing bytes
    /// after the class structure are ignored.
    #[verifier::rlimit(100)]
    #[verifier::spinoff_prover]
    pub fn parse(buffer: &[u8]) -> (r: Result<Class, Fault>)
        ensures
            match spec_class(buffer@) {
                SpecParsed::Done(cm, _n) => r matches Ok(c) && c@ == cm,
                SpecParsed::Failed(f) => r == Result::<Class, Fault>::Err(f),
                SpecParsed::Incomplete => false,
            },
            r matches Ok(c) ==> c@.constants.len() < 0x10000,
    {
        let n = buffer.len();
        if n < 4 {
            return Err(Fault::TruncatedInput);
        }
        if !(buffer[0] == 0xCA && buffer[1] == 0xFE && buffer[2] == 0xBA && buffer[3] == 0xBE) {
            return Err(Fault::MalformedMagic);
        }
        if n < 8 {
            return Err(Fault::TruncatedInput);
        }
        let minor_version = be_u16(buffer, 4);
        let major_version = be_u16(buffer, 6);
        proof {
            assert(buffer@.subrange(8, buffer@.len() as int) =~= buffer@.skip(8));
        }
        let (pn, constants) = match parse_constant_pool(&buffer[8..n]) {
            Parsed::Done(pn, pool) => (pn, pool),
            Parsed::Incomplete => {
                return Err(Fault::TruncatedInput);
            },
            Parsed::Failed(f) => {
                return Err(f);
            },
        };
        let a = 8 + pn;
        if n - a < 8 {
            return Err(Fault::TruncatedInput);
        }
        let access_flags = be_u16(buffer, a);
        let this_class = be_u16(buffer, a + 2);
        let super_class = be_u16(buffer, a + 4);
        let iface_count = be_u16(buffer, a + 6);
        proof {
            lemma_skip_index(buffer@, 8);
        }
        let (iused, interfaces) = match parse_u16_list(buffer, a + 8, iface_count) {
            Parsed::Done(iused, v) => (iused, v),
            Parsed::Incomplete => {
                return Err(Fault::TruncatedInput);
            },
            Parsed::Failed(f) => {
                return Err(f);
            },
        };
        let b = a + 8 + iused;
        if n - b < 2 {
            return Err(Fault::TruncatedInput);
        }
        let field_count = be_u16(buffer, b);
        let (fused, fields) = match parse_field_list(buffer, b + 2, field_count) {
            Parsed::Done(fused, v) => (fused, v),
            Parsed::Incomplete => {
                return Err(Fault::TruncatedInput);
            },
            Parsed::Failed(f) => {
                return Err(f);
            },
        };
        let c = b + 2 + fused;
        if n - c < 2 {
            return Err(Fault::TruncatedInput);
        }
        let method_count = be_u16(buffer, c);
        let (mused, methods) = match parse_method_list(buffer, c + 2, method_count) {
            Parsed::Done(mused, v) => (mused, v),
            Parsed::Incomplete => {
                return Err(Fault::TruncatedInput);
            },
            Parsed::Failed(f) => {
                return Err(f);
            },
        };
        let d = c + 2 + mused;
        if n - d < 2 {
            return Err(Fault::TruncatedInput);
        }
        let attr_count = be_u16(buffer, d);
        let (_aused, attributes) = match parse_attribute_list(buffer, d + 2, attr_count) {
            Parsed::Done(aused, v) => (aused, v),
            Parsed::Incomplete => {
                return Err(Fault::TruncatedInput);
            },
            Parsed::Failed(f) => {
                return Err(f);
            },
        };
        Ok(
            Class {
                minor_version,
                major_version,
                constants,
                access_flags,
                this_class,
                super_class,
                interfaces,
                fields,
                methods,
                attributes,
            },
        )
    }

    /// Classify the pool indices the class's attributes actually name:
    /// each Utf8 entry standing as some attribute's name becomes the kind
    /// it spells; every other slot stays unclassified.
    pub fn build_attribute_list(&self) -> (r: AttributePool)
        requires
            self@.constants.len() < 0x10000,
        ensures
            r@ == spec_class_attr_pool(self@),
    {
        let ghost cm = self@;
        let mut refs: Vec<u16> = Vec::new();
        proof {
            assert(forall|x: u16| !(#[trigger] refs@.contains(x)));
        }
        push_attr_refs(&mut refs, &self.attributes);
        let mut i: usize = 0;
        proof {
            assert(cm.fields.subrange(0, 0) =~= Seq::<FieldModel>::empty());
            assert(forall|x: u16|
                !(#[trigger] fields_reference(Seq::<FieldModel>::empty(), x)));
        }
        while i < self.fields.len()
            invariant
                i <= self.fields.len(),
                cm == self@,
                cm.fields.len() == self.fields.len(),
                forall|x: u16|
                    #[trigger] refs@.contains(x) <==> (attrs_reference(cm.attributes, x)
                        || fields_reference(cm.fields.subrange(0, i as int), x)),
            decreases self.fields.len() - i,
        {
            proof {
                assert(cm.fields[i as int] == self.fields@[i as int]@);
            }
            push_attr_refs(&mut refs, &self.fields[i].attributes);
            proof {
                assert forall|x: u16|
                    #[trigger] refs@.contains(x) <==> (attrs_reference(cm.attributes, x)
                        || fields_reference(cm.fields.subrange(0, i + 1), x)) by {
                    lemma_fields_ref_extend(cm.fields, i as int, x);
                }
            }
            i = i + 1;
        }
        proof {
            assert(cm.fields.subrange(0, cm.fields.len() as int) =~= cm.fields);
        }
        let mut k: usize = 0;
        proof {
            assert(cm.methods.subrange(0, 0) =~= Seq::<MethodModel>::empty());
            assert(forall|x: u16|
                !(#[trigger] methods_reference(Seq::<MethodModel>::empty(), x)));
        }
        while k < self.methods.len()
            invariant
                k <= self.methods.len(),
                cm == self@,
                cm.methods.len() == self.methods.len(),
                forall|x: u16|
                    #[trigger] refs@.contains(x) <==> (attrs_reference(cm.attributes, x)
                        || fields_reference(cm.fields, x) || methods_reference(
                        cm.methods.subrange(0, k as int),
                        x,
                    )),
            decreases self.methods.len() - k,
        {
            proof {
                assert(cm.methods[k as int] == self.methods@[k as int]@);
            }
            push_attr_refs(&mut refs, &self.methods[k].attributes);
            proof {
                assert forall|x: u16|
                    #[trigger] refs@.contains(x) <==> (attrs_reference(cm.attributes, x)
                        || fields_reference(cm.fields, x) || methods_reference(
                        cm.methods.subrange(0, k + 1),
                        x,
                    )) by {
                    lemma_methods_ref_extend(cm.methods, k as int, x);
                }
            }
            k = k + 1;
        }
        proof {
            assert(cm.methods.subrange(0, cm.methods.len() as int) =~= cm.methods);
        }
        let ap = self.constants.build_attribute_list(&refs);
        proof {
            assert(ap@ =~= spec_class_attr_pool(cm));
        }
        ap
    }

    /// The raw access-flag word, ready for
    /// [`crate::enum_constants::ClassAccessFlags::and_mask`].
    pub fn get_access_flags(&self) -> (r: u16)
        ensures
            r == self@.access_flags,
    {
        self.access_flags
    }

    /// What this class's name is.
    pub fn get_this_class(&self) -> (r: Result<String, Fault>)
        ensures
            match spec_get_class_name(self@.constants, self@.this_class as int) {
                Ok(t) => r matches Ok(s) && s@ == t,
                Err(f) => r == Result::<String, Fault>::Err(f),
            },
    {
        self.constants.get_class_name(self.this_class)
    }

    /// What the super class's name is.
    pub fn get_super_class(&self) -> (r: Result<String, Fault>)
        ensures
            match spec_get_class_name(self@.constants, self@.super_class as int) {
                Ok(t) => r matches Ok(s) && s@ == t,
                Err(f) => r == Result::<String, Fault>::Err(f),
            },
    {
        self.constants.get_class_name(self.super_class)
    }

    /// Attempts to resolve each interface index to its class name.  The
    /// first index that fails to resolve fails the whole call with its
    /// fault.
    pub fn get_interfaces(&self) -> (r: Result<Vec<String>, Fault>)
        ensures
            match spec_interface_names(self@.constants, self@.interfaces) {
                Ok(ts) => r matches Ok(v) && v@.map_values(|s: String| s@) == ts,
                Err(f) => r == Result::<Vec<String>, Fault>::Err(f),
            },
    {
        let ghost p = self@.constants;
        let ghost idxs = self@.interfaces;
        let mut retvec: Vec<String> = Vec::new();
        let mut i: usize = 0;
        proof {
            assert(idxs.skip(0) =~= idxs);
            assert(retvec@.map_values(|s: String| s@) =~= Seq::<Seq<char>>::empty());
        }
        while i < self.interfaces.len()
            invariant
                i <= self.interfaces.len(),
                p == self@.constants,
                idxs == self@.interfaces,
                spec_interface_names(p, idxs) == crate::fault::resolve_compose(
                    retvec@.map_values(|s: String| s@),
                    spec_interface_names(p, idxs.skip(i as int)),
                ),
            decreases self.interfaces.len() - i,
        {
            let ghost tail = idxs.skip(i as int);
            match self.constants.get_class_name(self.interfaces[i]) {
                Ok(name) => {
                    proof {
                        let acc = retvec@.map_values(|s: String| s@);
                        assert(tail[0] == idxs[i as int]);
                        assert(tail.skip(1) =~= idxs.skip(i + 1));
                        match spec_interface_names(p, idxs.skip(i + 1)) {
                            Ok(l) => {
                                assert(acc + (seq![name@] + l) =~= (acc + seq![name@]) + l);
                            },
                            _ => {},
                        }
                        assert(retvec@.push(name).map_values(|s: String| s@) =~= acc
                            + seq![name@]);
                    }
                    retvec.push(name);
                    i = i + 1;
                },
                Err(f) => {
                    proof {
                        assert(idxs.skip(i as int)[0] == idxs[i as int]);
                    }
                    return Err(f);
                },
            }
        }
        proof {
            assert(idxs.skip(idxs.len() as int) =~= Seq::<u16>::empty());
            let acc = retvec@.map_values(|s: String| s@);
            assert(acc + Seq::<Seq<char>>::empty() =~= acc);
        }
        Ok(retvec)
    }

    /// Reads all fields, resolving each to its `(name, descriptor)` text
    /// pair.  The first pool index that fails to resolve fails the whole
    /// call with its fault.
    pub fn get_fields(&self) -> (r: Result<Vec<(String, String)>, Fault>)
        ensures
            match spec_field_pairs(self@.constants, self@.fields) {
                Ok(ts) => r matches Ok(v) && v@.map_values(|x: (String, String)| (x.0@, x.1@))
                    == ts,
                Err(f) => r == Result::<Vec<(String, String)>, Fault>::Err(f),
            },
    {
        let ghost p = self@.constants;
        let ghost fs = self@.fields;
        let mut retvec: Vec<(String, String)> = Vec::new();
        let mut i: usize = 0;
        proof {
            assert(fs.skip(0) =~= fs);
            assert(retvec@.map_values(|x: (String, String)| (x.0@, x.1@)) =~= Seq::<
                (Seq<char>, Seq<char>),
            >::empty());
        }
        while i < self.fields.len()
            invariant
                i <= self.fields.len(),
                p == self@.constants,
                fs == self@.fields,
                fs.len() == self.fields.len(),
                forall|j: int| 0 <= j < fs.len() ==> fs[j] == #[trigger] self.fields@[j]@,
                spec_field_pairs(p, fs) == crate::fault::resolve_compose(
                    retvec@.map_values(|x: (String, String)| (x.0@, x.1@)),
                    spec_field_pairs(p, fs.skip(i as int)),
                ),
            decreases self.fields.len() - i,
        {
            let ghost tail = fs.skip(i as int);
            proof {
                assert(tail[0] == fs[i as int]);
                assert(tail.skip(1) =~= fs.skip(i + 1));
            }
            let name = match self.constants.get_utf8(self.fields[i].name_index) {
                Ok(v) => v,
                Err(f) => {
                    return Err(f);
                },
            };
            let desc = match self.constants.get_utf8(self.fields[i].descriptor_index) {
                Ok(v) => v,
                Err(f) => {
                    return Err(f);
                },
            };
            proof {
                let acc = retvec@.map_values(|x: (String, String)| (x.0@, x.1@));
                match spec_field_pairs(p, fs.skip(i + 1)) {
                    Ok(l) => {
                        assert(acc + (seq![(name@, desc@)] + l) =~= (acc + seq![(name@, desc@)])
                            + l);
                    },
                    _ => {},
                }
                assert(retvec@.push((name, desc)).map_values(
                    |x: (String, String)| (x.0@, x.1@),
                ) =~= acc + seq![(name@, desc@)]);
            }
            retvec.push((name, desc));
            i = i + 1;
        }
        proof {
            assert(fs.skip(fs.len() as int) =~= Seq::<FieldModel>::empty());
            let acc = retvec@.map_values(|x: (String, String)| (x.0@, x.1@));
            assert(acc + Seq::<(Seq<char>, Seq<char>)>::empty() =~= acc);
        }
        Ok(retvec)
    }

    /// Reads all methods, resolving each to its `(name, descriptor)` text
    /// pair.  The first pool index that fails to resolve fails the whole
    /// call with its fault.
    pub fn get_methods(&self) -> (r: Result<Vec<(String, String)>, Fault>)
        ensures
            match spec_method_pairs(self@.constants, self@.methods) {
                Ok(ts) => r matches Ok(v) && v@.map_values(|x: (String, String)| (x.0@, x.1@))
                    == ts,
                Err(f) => r == Result::<Vec<(String, String)>, Fault>::Err(f),
            },
    {
        let ghost p = self@.constants;
        let ghost ms = self@.methods;
        let mut retvec: Vec<(String, String)> = Vec::new();
        let mut i: usize = 0;
        proof {
            assert(ms.skip(0) =~= ms);
            assert(retvec@.map_values(|x: (String, String)| (x.0@, x.1@)) =~= Seq::<
                (Seq<char>, Seq<char>),
            >::empty());
        }
        while i < self.methods.len()
            invariant
                i <= self.methods.len(),
                p == self@.constants,
                ms == self@.methods,
                ms.len() == self.methods.len(),
                forall|j: int| 0 <= j < ms.len() ==> ms[j] == #[trigger] self.methods@[j]@,
                spec_method_pairs(p, ms) == crate::fault::resolve_compose(
                    retvec@.map_values(|x: (String, String)| (x.0@, x.1@)),
                    spec_method_pairs(p, ms.skip(i as int)),
                ),
            decreases self.methods.len() - i,
        {
            let ghost tail = ms.skip(i as int);
            proof {
                assert(tail[0] == ms[i as int]);
                assert(tail.skip(1) =~= ms.skip(i + 1));
            }
            let name = match self.constants.get_utf8(self.methods[i].name_index) {
                Ok(v) => v,
                Err(f) => {
                    return Err(f);
                },
            };
            let desc = match self.constants.get_utf8(self.methods[i].descriptor_index) {
                Ok(v) => v,
                Err(f) => {
                    return Err(f);
                },
            };
            proof {
                let acc = retvec@.map_values(|x: (String, String)| (x.0@, x.1@));
                match spec_method_pairs(p, ms.skip(i + 1)) {
                    Ok(l) => {
                        assert(acc + (seq![(name@, desc@)] + l) =~= (acc + seq![(name@, desc@)])
                            + l);
                    },
                    _ => {},
                }
                assert(retvec@.push((name, desc)).map_values(
                    |x: (String, String)| (x.0@, x.1@),
                ) =~= acc + seq![(name@, desc@)]);
            }
            retvec.push((name, desc));
            i = i + 1;
        }
        proof {
            assert(ms.skip(ms.len() as int) =~= Seq::<MethodModel>::empty());
            let acc = retvec@.map_values(|x: (String, String)| (x.0@, x.1@));
            assert(acc + Seq::<(Seq<char>, Seq<char>)>::empty() =~= acc);
        }
        Ok(retvec)
    }

    /// How many interfaces the class declares.
    pub fn get_interfaces_count(&self) -> (r: usize)
        ensures
            r == self@.interfaces.len(),
    {
        self.interfaces.len()
    }

    /// How many fields the class declares.
    pub fn get_fields_count(&self) -> (r: usize)
        ensures
            r == self@.fields.len(),
    {
        self.fields.len()
    }

    /// How many methods the class declares.
    pub fn get_methods_count(&self) -> (r: usize)
        ensures
            r == self@.methods.len(),
    {
        self.methods.len()
    }
}

} // verus!
