use sbz_switch::com::Guid;
use sbz_switch::ctsndcr::HardwareInfo;
use sbz_switch::lazy::Lazy;
use sbz_switch::soundcore::SoundCore;
use sbz_switch::text::{
    encode_utf16, field_has_text, field_len, field_text, push_decimal, push_hex, push_hex_fixed,
};

#[test]
fn the_text_of_a_field_ends_at_the_first_zero() {
    assert_eq!(field_len(b"abc\0def\0"), 3);
    assert_eq!(field_len(b"\0abc"), 0);
    assert_eq!(field_len(b"abc"), 3);
    assert_eq!(field_len(b""), 0);
    assert_eq!(field_text(b"abc\0def\0"), Some(String::from("abc")));
    assert_eq!(field_text(b"abc"), Some(String::from("abc")));
    assert_eq!(field_text(b"\0"), Some(String::new()));
}

#[test]
fn text_is_read_as_utf8() {
    assert_eq!(field_text("Lautst\u{e4}rke\0".as_bytes()), Some(String::from("Lautstärke")));
    assert_eq!(field_text("\u{1f50a}".as_bytes()), Some(String::from("🔊")));
    assert!(field_has_text("é\0\u{ff}".as_bytes()));
}

#[test]
fn malformed_text_is_not_read() {
    assert_eq!(field_text(&[0xff, 0]), None);
    assert_eq!(field_text(&[b'a', 0xc3]), None);
    assert_eq!(field_text(&[0xed, 0xa0, 0x80]), None);
    assert!(!field_has_text(&[0x80]));
    // a zero byte cuts a character in two
    assert!(!field_has_text(&[0xc3, 0x00, 0xa9]));
}

#[test]
fn numbers_are_pushed_in_hex_and_decimal() {
    let mut text = String::from("x");
    push_hex(&mut text, 0);
    push_hex(&mut text, 0xdead_beef);
    assert_eq!(text, "x0DEADBEEF");
    let mut text = String::new();
    push_decimal(&mut text, 0);
    push_decimal(&mut text, 4294967295);
    assert_eq!(text, "04294967295");
    let mut text = String::new();
    push_hex_fixed(&mut text, 0xab, 4);
    push_hex_fixed(&mut text, 0x1234, 2);
    push_hex_fixed(&mut text, 7, 0);
    assert_eq!(text, "00AB34");
}

#[test]
fn utf16_agrees_with_the_standard_encoding() {
    for text in ["", "abc", "{0.0.0.00000000}.{guid}", "é€", "🔊a𝄞", "\u{ffff}\u{10000}\u{10ffff}"] {
        let expected: Vec<u16> = text.encode_utf16().collect();
        assert_eq!(encode_utf16(text), expected);
    }
    assert_eq!(encode_utf16("𝄞"), [0xd834, 0xdd1e]);
}

#[test]
fn the_device_path_is_padded_with_zeros() {
    let info = HardwareInfo::for_device(&[0x41, 0x42]);
    assert_eq!(info.info_type, 0);
    assert_eq!(&info.info[..3], &[0x41, 0x42, 0]);
    assert!(info.info[2..].iter().all(|unit| *unit == 0));
    let full = [7u16; 260];
    assert_eq!(HardwareInfo::for_device(&full).info, full);
    assert_eq!(HardwareInfo::for_device(&[]).info, [0u16; 260]);
}

fn clsid() -> Guid {
    Guid { data1: 1, data2: 2, data3: 3, data4: [4, 5, 6, 7, 8, 9, 10, 11] }
}

#[test]
fn a_device_is_bound_by_its_identifier_in_utf16() {
    let core = SoundCore::for_device(&clsid(), "{0.0.0}.é").unwrap();
    assert!(core.class().same(&clsid()));
    let info = core.bind_hardware();
    assert_eq!(info.info_type, 0);
    let expected: Vec<u16> = "{0.0.0}.é".encode_utf16().collect();
    assert_eq!(&info.info[..expected.len()], &expected[..]);
    assert!(info.info[expected.len()..].iter().all(|unit| *unit == 0));
    let cursor = core.features(4);
    assert_eq!(cursor.probe(), Some((4, 0)));
}

#[test]
fn an_identifier_must_fit_the_record() {
    assert!(SoundCore::for_device(&clsid(), &"a".repeat(260)).is_some());
    assert!(SoundCore::for_device(&clsid(), &"a".repeat(261)).is_none());
    // 130 characters outside the basic plane take 260 units
    assert!(SoundCore::for_device(&clsid(), &"𝄞".repeat(130)).is_some());
    assert!(SoundCore::for_device(&clsid(), &"𝄞".repeat(131)).is_none());
}

#[test]
fn a_lazy_value_is_made_once() {
    let mut lazy: Lazy<u32> = Lazy::new();
    assert!(!lazy.is_created());
    assert_eq!(*lazy.get_or_create(|| 5), 5);
    assert!(lazy.is_created());
    assert_eq!(*lazy.get_or_create(|| 6), 5);
    assert_eq!(*lazy.get_or_create(|| panic!("made twice")), 5);
}
