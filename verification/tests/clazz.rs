use jclass::clazz::Class;
use jclass::const_pool::{parse_constant_pool, AttributeKind, AttributePool, PoolMembers};
use jclass::enum_constants::{
    parse_const_pool_tag, parse_method_descriptor, ClassAccessFlags, FieldAccessFlags,
    MethodAccessFlags, MethodDescriptor, PoolTag,
};
use jclass::fault::{Fault, Parsed, Utf8Fault};

fn push_u16(v: &mut Vec<u8>, w: u16) {
    v.push((w >> 8) as u8);
    v.push((w & 0xFF) as u8);
}

fn push_utf8(v: &mut Vec<u8>, text: &str) {
    v.push(1);
    push_u16(v, text.len() as u16);
    for b in text.as_bytes() {
        v.push(*b);
    }
}

/// Header of every test class: magic, minor 0, major 52.
fn class_header() -> Vec<u8> {
    let mut v = vec![0xCAu8, 0xFE, 0xBA, 0xBE];
    push_u16(&mut v, 0);
    push_u16(&mut v, 52);
    v
}

#[test]
fn minimal_class_parses_with_public_flag() {
    // Magic, minor 0, major 52, pool count 2 holding one Utf8 "Foo",
    // Public access, this and super 1, nothing else.
    let mut v = class_header();
    push_u16(&mut v, 2);
    push_utf8(&mut v, "Foo");
    push_u16(&mut v, 0x0001);
    push_u16(&mut v, 1);
    push_u16(&mut v, 1);
    push_u16(&mut v, 0);
    push_u16(&mut v, 0);
    push_u16(&mut v, 0);
    push_u16(&mut v, 0);
    let c = Class::parse(&v).unwrap();
    assert_eq!(c.get_access_flags(), 0x0001);
    assert_eq!(
        ClassAccessFlags::and_mask(c.get_access_flags()),
        vec![ClassAccessFlags::Public]
    );
    assert_eq!(c.get_interfaces_count(), 0);
    assert_eq!(c.get_fields_count(), 0);
    assert_eq!(c.get_methods_count(), 0);
    // Index 1 holds the Utf8 text itself, not a class-info entry, so the
    // name accessor reports a kind mismatch rather than resolving "Foo".
    assert_eq!(c.get_this_class(), Err(Fault::PoolEntryKindMismatch));
}

/// A pool with ClassInfo(2) at index 1 and Utf8 "Foo" at index 2, so that
/// index 1 resolves to the name "Foo".
fn named_class_bytes() -> Vec<u8> {
    let mut v = class_header();
    push_u16(&mut v, 3);
    v.push(7);
    push_u16(&mut v, 2);
    push_utf8(&mut v, "Foo");
    push_u16(&mut v, 0x0021);
    push_u16(&mut v, 1);
    push_u16(&mut v, 1);
    push_u16(&mut v, 1);
    push_u16(&mut v, 1);
    push_u16(&mut v, 0);
    push_u16(&mut v, 0);
    push_u16(&mut v, 0);
    v
}

#[test]
fn class_name_resolves_through_the_pool() {
    let c = Class::parse(&named_class_bytes()).unwrap();
    assert_eq!(c.get_this_class(), Ok("Foo".to_string()));
    assert_eq!(c.get_super_class(), Ok("Foo".to_string()));
    assert_eq!(c.get_interfaces_count(), 1);
    assert_eq!(c.get_interfaces(), Ok(vec!["Foo".to_string()]));
    assert_eq!(
        ClassAccessFlags::and_mask(c.get_access_flags()),
        vec![ClassAccessFlags::Public, ClassAccessFlags::Super]
    );
}

#[test]
fn fields_and_methods_resolve_name_descriptor_pairs() {
    // Pool: 1 ClassInfo(2), 2 Utf8 "Foo", 3 Utf8 "x", 4 Utf8 "I".
    let mut v = class_header();
    push_u16(&mut v, 5);
    v.push(7);
    push_u16(&mut v, 2);
    push_utf8(&mut v, "Foo");
    push_utf8(&mut v, "x");
    push_utf8(&mut v, "I");
    push_u16(&mut v, 0x0001);
    push_u16(&mut v, 1);
    push_u16(&mut v, 1);
    push_u16(&mut v, 0);
    // one field: private x of descriptor I, no attributes
    push_u16(&mut v, 1);
    push_u16(&mut v, 0x0002);
    push_u16(&mut v, 3);
    push_u16(&mut v, 4);
    push_u16(&mut v, 0);
    // one method: x()I shape, no attributes
    push_u16(&mut v, 1);
    push_u16(&mut v, 0x0009);
    push_u16(&mut v, 3);
    push_u16(&mut v, 4);
    push_u16(&mut v, 0);
    push_u16(&mut v, 0);
    let c = Class::parse(&v).unwrap();
    assert_eq!(c.get_fields_count(), 1);
    assert_eq!(c.get_methods_count(), 1);
    assert_eq!(
        c.get_fields(),
        Ok(vec![("x".to_string(), "I".to_string())])
    );
    assert_eq!(
        c.get_methods(),
        Ok(vec![("x".to_string(), "I".to_string())])
    );
    assert_eq!(
        FieldAccessFlags::and_mask(0x0002),
        vec![FieldAccessFlags::Private]
    );
    assert_eq!(
        MethodAccessFlags::and_mask(0x0009),
        vec![MethodAccessFlags::Public, MethodAccessFlags::Static]
    );
}

#[test]
fn field_with_bad_name_index_fails_only_that_accessor() {
    // The field's name index 9 addresses nothing, but the class still
    // parses and its other accessors keep working.
    let mut v = class_header();
    push_u16(&mut v, 3);
    v.push(7);
    push_u16(&mut v, 2);
    push_utf8(&mut v, "Foo");
    push_u16(&mut v, 0x0001);
    push_u16(&mut v, 1);
    push_u16(&mut v, 1);
    push_u16(&mut v, 0);
    push_u16(&mut v, 1);
    push_u16(&mut v, 0);
    push_u16(&mut v, 9);
    push_u16(&mut v, 9);
    push_u16(&mut v, 0);
    push_u16(&mut v, 0);
    push_u16(&mut v, 0);
    let c = Class::parse(&v).unwrap();
    assert_eq!(c.get_fields(), Err(Fault::PoolIndexOutOfRange));
    assert_eq!(c.get_this_class(), Ok("Foo".to_string()));
}

#[test]
fn wrong_magic_is_rejected() {
    let mut v = vec![0xCAu8, 0xFE, 0xBA, 0xBF];
    push_u16(&mut v, 0);
    push_u16(&mut v, 52);
    assert_eq!(Class::parse(&v).err(), Some(Fault::MalformedMagic));
}

#[test]
fn truncated_class_is_rejected() {
    assert_eq!(Class::parse(&[0xCA, 0xFE]).err(), Some(Fault::TruncatedInput));
    let mut v = class_header();
    push_u16(&mut v, 2);
    push_utf8(&mut v, "Foo");
    push_u16(&mut v, 0x0001);
    // this/super and all the counts are missing
    assert_eq!(Class::parse(&v).err(), Some(Fault::TruncatedInput));
}

#[test]
fn unknown_pool_tag_is_rejected() {
    let mut v = class_header();
    push_u16(&mut v, 2);
    v.push(2);
    assert_eq!(Class::parse(&v).err(), Some(Fault::UnrecognizedTag));
}

#[test]
fn bad_utf8_constant_aborts_the_parse() {
    let mut v = class_header();
    push_u16(&mut v, 2);
    v.push(1);
    push_u16(&mut v, 1);
    v.push(0x00);
    assert_eq!(
        Class::parse(&v).err(),
        Some(Fault::InvalidModifiedUtf8(Utf8Fault::EmbeddedNul))
    );
}

/// Pool bytes alone: count 4 with Long 77 at index 1 (placeholder at 2) and
/// Utf8 "Foo" at index 3.
fn long_pool_bytes() -> Vec<u8> {
    let mut v = Vec::new();
    push_u16(&mut v, 4);
    v.push(5);
    for b in [0u8, 0, 0, 0, 0, 0, 0, 77] {
        v.push(b);
    }
    push_utf8(&mut v, "Foo");
    v
}

#[test]
fn long_entry_fills_two_slots() {
    let (used, pool) = match parse_constant_pool(&long_pool_bytes()) {
        Parsed::Done(used, pool) => (used, pool),
        other => panic!("expected a pool, got {:?}", other),
    };
    assert_eq!(used, 2 + 9 + 6);
    assert_eq!(pool.len(), 3);
    // The placeholder at index 2 holds the same Long entry as index 1:
    // looking it up resolves to nothing the value slot would not.
    assert_eq!(pool.get_utf8(1), Err(Fault::PoolEntryKindMismatch));
    assert_eq!(pool.get_utf8(2), Err(Fault::PoolEntryKindMismatch));
    assert_eq!(pool.get_class_name(2), Err(Fault::PoolEntryKindMismatch));
    assert_eq!(pool.get_utf8(3), Ok("Foo".to_string()));
    assert_eq!(pool.get_utf8(0), Err(Fault::PoolIndexOutOfRange));
    assert_eq!(pool.get_utf8(4), Err(Fault::PoolIndexOutOfRange));
}

#[test]
fn pool_entry_predicates_follow_the_variant() {
    let e = PoolMembers::Long(77);
    assert!(e.is_long());
    assert!(!e.is_double());
    assert!(!e.is_utf8());
    assert_eq!(e.get_utf8(), None);
    assert_eq!(e.get_class(), None);
    let c = PoolMembers::ClassInfo(2);
    assert!(c.is_class_info());
    assert_eq!(c.get_class(), Some(2));
    let u = PoolMembers::Utf8("Foo".to_string());
    assert!(u.is_utf8());
    assert_eq!(u.get_utf8(), Some("Foo".to_string()));
}

#[test]
fn tag_bytes_decode_to_pool_tags() {
    assert_eq!(parse_const_pool_tag(7), Some(PoolTag::Class));
    assert_eq!(parse_const_pool_tag(1), Some(PoolTag::Utf8));
    assert_eq!(parse_const_pool_tag(5), Some(PoolTag::Long));
    assert_eq!(parse_const_pool_tag(2), None);
    assert_eq!(parse_const_pool_tag(18), Some(PoolTag::InvokeDynamic));
    assert_eq!(
        parse_method_descriptor(5),
        Some(MethodDescriptor::InvokeVirtual)
    );
    assert_eq!(parse_method_descriptor(0), None);
}

#[test]
fn attribute_kind_classification_matches_known_names() {
    assert_eq!(AttributePool::dummy("Code"), Some(AttributeKind::Code));
    assert_eq!(
        AttributePool::dummy("SourceFile"),
        Some(AttributeKind::SourceFile)
    );
    assert_eq!(AttributePool::dummy("NotAnAttribute"), None);
}

#[test]
fn attribute_list_classifies_only_referenced_names() {
    // Pool: 1 ClassInfo(2), 2 Utf8 "Foo", 3 Utf8 "SourceFile" (named by
    // the class attribute), 4 Utf8 "Code" (a stray literal no attribute
    // names).  Only index 3 is classified.
    let mut v = class_header();
    push_u16(&mut v, 5);
    v.push(7);
    push_u16(&mut v, 2);
    push_utf8(&mut v, "Foo");
    push_utf8(&mut v, "SourceFile");
    push_utf8(&mut v, "Code");
    push_u16(&mut v, 0x0001);
    push_u16(&mut v, 1);
    push_u16(&mut v, 1);
    push_u16(&mut v, 0);
    push_u16(&mut v, 0);
    push_u16(&mut v, 0);
    push_u16(&mut v, 1);
    push_u16(&mut v, 3);
    v.push(0);
    v.push(0);
    v.push(0);
    v.push(2);
    v.push(0xAB);
    v.push(0xCD);
    let c = Class::parse(&v).unwrap();
    let kinds = c.build_attribute_list();
    assert_eq!(kinds.index(0), None);
    assert_eq!(kinds.index(1), None);
    assert_eq!(kinds.index(2), None);
    assert_eq!(kinds.index(3), Some(AttributeKind::SourceFile));
    assert_eq!(kinds.index(4), None);
}
