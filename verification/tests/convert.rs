use sbz_switch::convert::{
    collate_set_values, from_param, transpose, try_into_param, DocumentValue, Format,
};
use sbz_switch::soundcore::SoundCoreParamValue;

fn integer(format: Format, i: i64) -> Result<SoundCoreParamValue, &'static str> {
    try_into_param(format, DocumentValue::Integer(i))
}

#[test]
fn json_and_yaml_read_integers_as_signed_where_they_can() {
    for format in [Format::Json, Format::Yaml] {
        assert_eq!(integer(format, 0), Ok(SoundCoreParamValue::I32(0)));
        assert_eq!(integer(format, -1), Ok(SoundCoreParamValue::I32(-1)));
        assert_eq!(integer(format, -2147483648), Ok(SoundCoreParamValue::I32(i32::MIN)));
        assert_eq!(integer(format, 2147483647), Ok(SoundCoreParamValue::I32(i32::MAX)));
        assert_eq!(integer(format, 2147483648), Ok(SoundCoreParamValue::U32(0x8000_0000)));
        assert_eq!(integer(format, 4294967295), Ok(SoundCoreParamValue::U32(u32::MAX)));
    }
}

#[test]
fn toml_reads_the_largest_signed_integer_as_unsigned() {
    assert_eq!(integer(Format::Toml, 2147483646), Ok(SoundCoreParamValue::I32(2147483646)));
    assert_eq!(integer(Format::Toml, 2147483647), Ok(SoundCoreParamValue::U32(2147483647)));
    assert_eq!(integer(Format::Toml, 2147483648), Ok(SoundCoreParamValue::U32(2147483648)));
    assert_eq!(integer(Format::Toml, -2147483648), Ok(SoundCoreParamValue::I32(i32::MIN)));
    assert_eq!(integer(Format::Toml, 4294967295), Ok(SoundCoreParamValue::U32(u32::MAX)));
}

#[test]
fn integers_beyond_32_bits_are_large() {
    for format in [Format::Toml, Format::Json, Format::Yaml] {
        assert_eq!(integer(format, 4294967296), Err("Large integer"));
        assert_eq!(integer(format, -2147483649), Err("Large integer"));
        assert_eq!(integer(format, i64::MAX), Err("Large integer"));
        assert_eq!(integer(format, i64::MIN), Err("Large integer"));
    }
}

#[test]
fn floats_and_booleans_are_taken_as_they_are() {
    assert_eq!(
        try_into_param(Format::Toml, DocumentValue::Float(1.0f32.to_bits())),
        Ok(SoundCoreParamValue::Float(0x3f80_0000))
    );
    assert_eq!(
        try_into_param(Format::Yaml, DocumentValue::Boolean(false)),
        Ok(SoundCoreParamValue::Bool(false))
    );
}

#[test]
fn other_values_are_refused_by_name() {
    assert_eq!(try_into_param(Format::Toml, DocumentValue::Other("Datetime")), Err("Datetime"));
    assert_eq!(try_into_param(Format::Json, DocumentValue::Other("Null")), Err("Null"));
}

#[test]
fn parameter_values_are_written_as_document_values() {
    assert!(matches!(
        from_param(&SoundCoreParamValue::Float(5)),
        Some(DocumentValue::Float(5))
    ));
    assert!(matches!(
        from_param(&SoundCoreParamValue::Bool(true)),
        Some(DocumentValue::Boolean(true))
    ));
    assert!(matches!(
        from_param(&SoundCoreParamValue::U32(u32::MAX)),
        Some(DocumentValue::Integer(4294967295))
    ));
    assert!(matches!(
        from_param(&SoundCoreParamValue::I32(i32::MIN)),
        Some(DocumentValue::Integer(-2147483648))
    ));
    assert!(from_param(&SoundCoreParamValue::Absent).is_none());
}

#[test]
fn written_integers_are_read_back_with_their_number() {
    for format in [Format::Json, Format::Yaml, Format::Toml] {
        for value in [
            SoundCoreParamValue::I32(-5),
            SoundCoreParamValue::I32(0),
            SoundCoreParamValue::U32(0x8000_0000),
            SoundCoreParamValue::U32(u32::MAX),
        ] {
            let written = from_param(&value).unwrap();
            assert_eq!(try_into_param(format, written), Ok(value));
        }
        // a small unsigned integer comes back signed, with its number
        let written = from_param(&SoundCoreParamValue::U32(5)).unwrap();
        assert_eq!(try_into_param(format, written), Ok(SoundCoreParamValue::I32(5)));
    }
}

#[test]
fn transpose_swaps_option_and_result() {
    assert_eq!(transpose::<u8, u8>(Some(Ok(1))), Ok(Some(1)));
    assert_eq!(transpose::<u8, u8>(Some(Err(2))), Err(2));
    assert_eq!(transpose::<u8, u8>(None), Ok(None));
}

#[test]
fn words_are_grouped_in_threes() {
    let words: Vec<String> =
        ["EQ", "On", "true", "Mixer", "Gain", "3"].iter().map(|s| String::from(*s)).collect();
    let groups = collate_set_values(Some(&words));
    assert_eq!(
        groups,
        [
            (String::from("EQ"), String::from("On"), String::from("true")),
            (String::from("Mixer"), String::from("Gain"), String::from("3")),
        ]
    );
    assert!(collate_set_values(None).is_empty());
    assert!(collate_set_values(Some(&Vec::new())).is_empty());
}
