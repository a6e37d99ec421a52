use jclass::fault::{Fault, Parsed, Utf8Fault};
use jclass::javautf8::{decode, decode_java_utf8};

#[test]
fn test_decode() {
    match decode(b"Hello World!") {
        Parsed::Done(_, var) => assert_eq!(var, "Hello World!"),
        other => panic!("expected text, got {:?}", other),
    }
}

#[test]
fn decode_encoded_nul_pair() {
    // C0 80 is the only way NUL may appear; it decodes to a single U+0000.
    match decode(&[0xC0, 0x80]) {
        Parsed::Done(used, var) => {
            assert_eq!(used, 2);
            assert_eq!(var, "\u{0}");
            assert_eq!(var.chars().count(), 1);
        },
        other => panic!("expected text, got {:?}", other),
    }
}

#[test]
fn decode_rejects_raw_nul() {
    assert_eq!(
        decode(b"AB\x00C"),
        Parsed::Failed(Fault::InvalidModifiedUtf8(Utf8Fault::EmbeddedNul))
    );
}

#[test]
fn decode_rejects_stray_continuation_byte() {
    assert_eq!(
        decode(&[0x41, 0x80]),
        Parsed::Failed(Fault::InvalidModifiedUtf8(Utf8Fault::MalformedByte))
    );
}

#[test]
fn decode_rejects_four_byte_lead() {
    // Standard UTF-8's 4-byte form is not part of modified UTF-8.
    assert_eq!(
        decode(&[0xF0, 0x9F, 0x92, 0x96]),
        Parsed::Failed(Fault::InvalidModifiedUtf8(Utf8Fault::MalformedByte))
    );
}

#[test]
fn decode_two_byte_sequence() {
    // C3 A9 is 'é' (U+00E9).
    match decode(&[0xC3, 0xA9]) {
        Parsed::Done(_, var) => assert_eq!(var, "\u{e9}"),
        other => panic!("expected text, got {:?}", other),
    }
}

#[test]
fn decode_three_byte_sequence() {
    // E2 82 AC is the euro sign (U+20AC).
    match decode(&[0xE2, 0x82, 0xAC]) {
        Parsed::Done(_, var) => assert_eq!(var, "\u{20ac}"),
        other => panic!("expected text, got {:?}", other),
    }
}

#[test]
fn decode_six_byte_surrogate_pair() {
    // ED A0 BD ED B0 96 encodes U+1F416 in the chained surrogate form.
    match decode(&[0xED, 0xA0, 0xBD, 0xED, 0xB0, 0x96]) {
        Parsed::Done(_, var) => assert_eq!(var, "\u{1f416}"),
        other => panic!("expected text, got {:?}", other),
    }
}

#[test]
fn decode_truncated_sequences_are_incomplete() {
    assert_eq!(decode(&[0xC3]), Parsed::Incomplete);
    assert_eq!(decode(&[0xE2, 0x82]), Parsed::Incomplete);
    assert_eq!(decode(&[0xED, 0xA0, 0xBD]), Parsed::Incomplete);
}

#[test]
fn decode_java_utf8_reads_length_prefix() {
    match decode_java_utf8(&[0x00, 0x03, b'F', b'o', b'o', 0xFF]) {
        Parsed::Done(used, var) => {
            assert_eq!(used, 5);
            assert_eq!(var, "Foo");
        },
        other => panic!("expected text, got {:?}", other),
    }
}

#[test]
fn decode_java_utf8_truncated_is_incomplete() {
    assert_eq!(decode_java_utf8(&[0x00]), Parsed::Incomplete);
    assert_eq!(decode_java_utf8(&[0x00, 0x05, b'F', b'o']), Parsed::Incomplete);
}

#[test]
fn decode_java_utf8_rejects_raw_nul_in_payload() {
    assert_eq!(
        decode_java_utf8(&[0x00, 0x03, b'F', 0x00, b'o']),
        Parsed::Failed(Fault::InvalidModifiedUtf8(Utf8Fault::EmbeddedNul))
    );
}
