use servicerestarter::codec::RegistryValue;
use servicerestarter::logging::into_log_path;
use servicerestarter::logging::log_level_from_code;
use servicerestarter::logging::LOG_LEVEL_ERROR;
use servicerestarter::logging::LOG_LEVEL_TRACE;
use servicerestarter::wide_string::ascii_to_units;
use servicerestarter::wide_string::OptionalWideString;
use servicerestarter::wide_string::WideString;

fn units(s: &str) -> Vec<u16> {
    s.encode_utf16().collect()
}

#[test]
fn from_str_terminates_the_units() {
    let ws = WideString::from_str("abc");
    assert_eq!(ws.as_units(), &vec![0x61, 0x62, 0x63, 0x00]);
    assert_eq!(ws.len_chars(), 4);
    assert_eq!(ws.len_bytes(), 8);
}

#[test]
fn from_str_of_empty_is_just_the_terminator() {
    let ws = WideString::from_str("");
    assert_eq!(ws.as_units(), &vec![0x00]);
    assert_eq!(ws.len_chars(), 1);
    assert_eq!(ws.len_bytes(), 2);
}

#[test]
fn from_str_does_not_double_a_present_terminator() {
    let ws = WideString::from_str("a\0");
    assert_eq!(ws.as_units(), &vec![0x61, 0x00]);
}

#[test]
fn from_units_appends_the_terminator_once() {
    assert_eq!(WideString::from_units(vec![0x61]).as_units(), &vec![0x61, 0x00]);
    assert_eq!(WideString::from_units(vec![0x61, 0x00]).as_units(), &vec![0x61, 0x00]);
    assert_eq!(WideString::from_units(vec![]).as_units(), &vec![0x00]);
}

#[test]
fn from_str_encodes_outside_the_basic_plane() {
    // One character that needs a surrogate pair.
    let ws = WideString::from_str("\u{1F600}");
    assert_eq!(ws.as_units(), &vec![0xD83D, 0xDE00, 0x0000]);
}

#[test]
fn ascii_to_units_maps_one_unit_per_byte() {
    assert_eq!(ascii_to_units("Svc\\1"), units("Svc\\1"));
    assert_eq!(ascii_to_units(""), units(""));
}

#[test]
fn optional_wide_string_keeps_what_it_was_given() {
    let none = OptionalWideString::none();
    assert!(none.as_wide_string().is_none());
    let some = OptionalWideString::some(WideString::from_str("x"));
    assert_eq!(some.as_wide_string().unwrap().as_units(), &vec![0x78, 0x00]);
}

#[test]
fn log_levels_clamp_to_the_most_verbose() {
    assert_eq!(log_level_from_code(LOG_LEVEL_ERROR), 1);
    assert_eq!(log_level_from_code(3), 3);
    assert_eq!(log_level_from_code(LOG_LEVEL_TRACE), 5);
    assert_eq!(log_level_from_code(0), 5);
    assert_eq!(log_level_from_code(6), 5);
    assert_eq!(log_level_from_code(u64::MAX), 5);
}

#[test]
fn log_path_accepts_text_and_expanded_text() {
    assert_eq!(
        into_log_path(RegistryValue::Text(units("C:\\log.txt"))),
        Some(units("C:\\log.txt"))
    );
    assert_eq!(
        into_log_path(RegistryValue::ExpandableText {
            unexpanded: units("%TMP%\\log.txt"),
            expanded: units("C:\\Temp\\log.txt"),
        }),
        Some(units("C:\\Temp\\log.txt"))
    );
    assert_eq!(into_log_path(RegistryValue::Integer32LE(1)), None);
}
