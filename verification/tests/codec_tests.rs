use servicerestarter::codec::CodecError;
use servicerestarter::codec::RawDecode;
use servicerestarter::codec::RegistryValue;
use servicerestarter::codec::TAG_BINARY;
use servicerestarter::codec::TAG_EMPTY;
use servicerestarter::codec::TAG_EXPANDABLE_TEXT;
use servicerestarter::codec::TAG_FULL_RESOURCE_DESCRIPTOR;
use servicerestarter::codec::TAG_INTEGER32_BE;
use servicerestarter::codec::TAG_INTEGER32_LE;
use servicerestarter::codec::TAG_INTEGER64_LE;
use servicerestarter::codec::TAG_RESOURCE_LIST;
use servicerestarter::codec::TAG_RESOURCE_REQUIREMENTS_LIST;
use servicerestarter::codec::TAG_SYMBOLIC_LINK;
use servicerestarter::codec::TAG_TEXT;
use servicerestarter::codec::TAG_TEXT_LIST;
use servicerestarter::codec::finish_expansion;

fn units(s: &str) -> Vec<u16> {
    s.encode_utf16().collect()
}

fn round_trip(v: RegistryValue) {
    let tag = v.to_reg_value_type();
    let bytes = v.to_bytes().expect("encoding must succeed");
    let decoded = RegistryValue::decode_raw(tag, &bytes).expect("decoding must succeed");
    assert_eq!(decoded, RawDecode::Value(v));
}

#[test]
fn empty_value_round_trips() {
    round_trip(RegistryValue::Empty(vec![1, 2, 3]));
}

#[test]
fn text_value_round_trips() {
    round_trip(RegistryValue::Text(units("hello")));
    round_trip(RegistryValue::Text(units("")));
}

#[test]
fn text_with_embedded_terminator_round_trips() {
    round_trip(RegistryValue::Text(units("a\0b")));
}

#[test]
fn binary_value_round_trips() {
    round_trip(RegistryValue::Binary(vec![0, 255, 7]));
}

#[test]
fn symbolic_link_round_trips() {
    round_trip(RegistryValue::SymbolicLink(units("\\target")));
}

#[test]
fn integer32_le_round_trips_exact_value() {
    let v = RegistryValue::Integer32LE(0xDEADBEEF);
    let bytes = v.to_bytes().unwrap();
    assert_eq!(bytes, vec![0xEF, 0xBE, 0xAD, 0xDE]);
    round_trip(v);
}

#[test]
fn integer32_be_round_trips_exact_value() {
    let v = RegistryValue::Integer32BE(0xDEADBEEF);
    let bytes = v.to_bytes().unwrap();
    assert_eq!(bytes, vec![0xDE, 0xAD, 0xBE, 0xEF]);
    round_trip(v);
}

#[test]
fn integer64_round_trips_exact_value() {
    let v = RegistryValue::Integer64LE(0x0123456789ABCDEF);
    let bytes = v.to_bytes().unwrap();
    assert_eq!(bytes, vec![0xEF, 0xCD, 0xAB, 0x89, 0x67, 0x45, 0x23, 0x01]);
    round_trip(v);
}

#[test]
fn three_byte_payload_is_not_a_32_bit_integer() {
    let r = RegistryValue::decode_raw(TAG_INTEGER32_LE, &[1, 2, 3]);
    assert_eq!(r, Err(CodecError::MalformedValue));
    let r = RegistryValue::decode_raw(TAG_INTEGER32_BE, &[1, 2, 3]);
    assert_eq!(r, Err(CodecError::MalformedValue));
}

#[test]
fn wrong_width_integer_payloads_fail() {
    assert_eq!(
        RegistryValue::decode_raw(TAG_INTEGER32_LE, &[1, 2, 3, 4, 5]),
        Err(CodecError::MalformedValue)
    );
    assert_eq!(
        RegistryValue::decode_raw(TAG_INTEGER64_LE, &[1, 2, 3, 4]),
        Err(CodecError::MalformedValue)
    );
}

#[test]
fn odd_length_text_payload_fails() {
    assert_eq!(
        RegistryValue::decode_raw(TAG_TEXT, &[0x61, 0x00, 0x62]),
        Err(CodecError::MalformedValue)
    );
    assert_eq!(
        RegistryValue::decode_raw(TAG_TEXT_LIST, &[0x61]),
        Err(CodecError::MalformedValue)
    );
    assert_eq!(
        RegistryValue::decode_raw(TAG_EXPANDABLE_TEXT, &[0x61]),
        Err(CodecError::MalformedValue)
    );
}

#[test]
fn unknown_tag_fails() {
    assert_eq!(RegistryValue::decode_raw(12, &[]), Err(CodecError::MalformedValue));
    assert_eq!(RegistryValue::decode_raw(99, &[1, 2]), Err(CodecError::MalformedValue));
}

#[test]
fn text_decode_strips_exactly_one_terminator() {
    // "a" followed by two terminators: one is stripped, the other kept.
    let bytes = [0x61, 0x00, 0x00, 0x00, 0x00, 0x00];
    let decoded = RegistryValue::decode_raw(TAG_TEXT, &bytes).unwrap();
    assert_eq!(decoded, RawDecode::Value(RegistryValue::Text(units("a\0"))));
    // A payload without a terminator is taken as it is.
    let bytes = [0x61, 0x00];
    let decoded = RegistryValue::decode_raw(TAG_TEXT, &bytes).unwrap();
    assert_eq!(decoded, RawDecode::Value(RegistryValue::Text(units("a"))));
}

#[test]
fn text_list_rejects_empty_element() {
    let v = RegistryValue::TextList(vec![units("a"), units(""), units("b")]);
    assert_eq!(v.to_bytes(), Err(CodecError::InvalidListElement { index: 1 }));
}

#[test]
fn text_list_rejects_element_with_nul() {
    let v = RegistryValue::TextList(vec![units("a\0b")]);
    assert_eq!(v.to_bytes(), Err(CodecError::InvalidListElement { index: 0 }));
}

#[test]
fn empty_text_list_encodes_to_terminator_only() {
    let v = RegistryValue::TextList(vec![]);
    assert_eq!(v.to_bytes().unwrap(), vec![0x00, 0x00]);
    round_trip(v);
}

#[test]
fn text_list_round_trips_in_order() {
    let v = RegistryValue::TextList(vec![units("svc1"), units("svc2")]);
    let bytes = v.to_bytes().unwrap();
    let decoded = RegistryValue::decode_raw(TAG_TEXT_LIST, &bytes).unwrap();
    assert_eq!(
        decoded,
        RawDecode::Value(RegistryValue::TextList(vec![units("svc1"), units("svc2")]))
    );
}

#[test]
fn text_list_decode_is_permissive() {
    // A list whose end is marked by a double terminator in the middle:
    // everything after the first empty segment is ignored.
    let v = RegistryValue::TextList(vec![units("a")]);
    let mut bytes = v.to_bytes().unwrap();
    bytes.extend_from_slice(&[0x62, 0x00, 0x00, 0x00]);
    let decoded = RegistryValue::decode_raw(TAG_TEXT_LIST, &bytes).unwrap();
    assert_eq!(decoded, RawDecode::Value(RegistryValue::TextList(vec![units("a")])));
    // A single element without any terminator still decodes.
    let decoded = RegistryValue::decode_raw(TAG_TEXT_LIST, &[0x61, 0x00]).unwrap();
    assert_eq!(decoded, RawDecode::Value(RegistryValue::TextList(vec![units("a")])));
}

#[test]
fn opaque_kinds_pass_through() {
    for (tag, v) in [
        (TAG_RESOURCE_LIST, RegistryValue::ResourceList(vec![9, 9])),
        (
            TAG_FULL_RESOURCE_DESCRIPTOR,
            RegistryValue::FullResourceDescriptor(vec![8]),
        ),
        (
            TAG_RESOURCE_REQUIREMENTS_LIST,
            RegistryValue::ResourceRequirementsList(vec![]),
        ),
    ] {
        assert_eq!(v.to_reg_value_type(), tag);
        round_trip(v);
    }
}

#[test]
fn expandable_text_decode_asks_for_expansion() {
    let stored = RegistryValue::Text(units("%TMP%\\x"));
    let bytes = stored.to_bytes().unwrap();
    let decoded = RegistryValue::decode_raw(TAG_EXPANDABLE_TEXT, &bytes).unwrap();
    assert_eq!(decoded, RawDecode::NeedsExpansion(units("%TMP%\\x")));
}

#[test]
fn empty_expandable_text_needs_no_expansion() {
    for payload in [&[][..], &[0x00, 0x00][..]] {
        let decoded = RegistryValue::decode_raw(TAG_EXPANDABLE_TEXT, payload).unwrap();
        assert_eq!(
            decoded,
            RawDecode::Value(RegistryValue::ExpandableText {
                unexpanded: vec![],
                expanded: vec![],
            })
        );
    }
}

#[test]
fn finish_expansion_builds_the_value() {
    let r = finish_expansion(units("%TMP%"), Ok(units("/tmp")));
    assert_eq!(
        r,
        Ok(RegistryValue::ExpandableText {
            unexpanded: units("%TMP%"),
            expanded: units("/tmp"),
        })
    );
}

#[test]
fn finish_expansion_propagates_the_platform_error() {
    let r = finish_expansion(units("%TMP%"), Err(122));
    assert_eq!(r, Err(CodecError::ExpansionError { code: 122 }));
}

#[test]
fn expandable_text_encodes_from_unexpanded_only() {
    let v = RegistryValue::ExpandableText {
        unexpanded: units("%TMP%"),
        expanded: units("/tmp"),
    };
    let w = RegistryValue::Text(units("%TMP%"));
    assert_eq!(v.to_bytes().unwrap(), w.to_bytes().unwrap());
    assert_eq!(v.to_reg_value_type(), TAG_EXPANDABLE_TEXT);
}

#[test]
fn tags_match_the_wire_format() {
    assert_eq!(TAG_EMPTY, 0);
    assert_eq!(TAG_TEXT, 1);
    assert_eq!(TAG_EXPANDABLE_TEXT, 2);
    assert_eq!(TAG_BINARY, 3);
    assert_eq!(TAG_INTEGER32_LE, 4);
    assert_eq!(TAG_INTEGER32_BE, 5);
    assert_eq!(TAG_SYMBOLIC_LINK, 6);
    assert_eq!(TAG_TEXT_LIST, 7);
    assert_eq!(TAG_RESOURCE_LIST, 8);
    assert_eq!(TAG_FULL_RESOURCE_DESCRIPTOR, 9);
    assert_eq!(TAG_RESOURCE_REQUIREMENTS_LIST, 10);
    assert_eq!(TAG_INTEGER64_LE, 11);
}
