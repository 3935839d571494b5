use indexmap::IndexMap;

use sbz_switch::configuration::{
    coerce_soundcore, is_captured, mute_unmute, Coerced, FeatureReading, ParameterReading,
};
use sbz_switch::ctsndcr::{FeatureInfo, Param, ParamInfo, ParamValue};
use sbz_switch::hresult::{Win32Error, E_FAIL};
use sbz_switch::soundcore::{SoundCoreFeature, SoundCoreParamValue, SoundCoreParameter};
use sbz_switch::{dump, Configuration, EndpointConfiguration};

fn field<const N: usize>(text: &str) -> [u8; N] {
    let mut bytes = [0u8; N];
    bytes[..text.len()].copy_from_slice(text.as_bytes());
    bytes
}

fn feature(id: u32, description: &str) -> SoundCoreFeature {
    SoundCoreFeature::new(
        0,
        &FeatureInfo { feature_id: id, description: field(description), version: field("1") },
    )
}

fn parameter(kind: u32, attributes: u32, description: &str) -> SoundCoreParameter {
    let zero = ParamValue { kind, value: 0 };
    SoundCoreParameter::new(
        String::from("Feature"),
        &ParamInfo {
            param: Param { param: 1, feature: 1, context: 0 },
            param_type: kind,
            data_size: 0,
            min_value: zero,
            max_value: zero,
            step_size: zero,
            default_value: zero,
            param_attributes: attributes,
            description: field(description),
        },
    )
}

fn reading(
    kind: u32,
    attributes: u32,
    description: &str,
    value: Option<Result<SoundCoreParamValue, Win32Error>>,
) -> ParameterReading {
    ParameterReading { parameter: parameter(kind, attributes, description), value }
}

#[test]
fn a_snapshot_holds_writable_scalar_parameters() {
    for kind in 0..=3 {
        assert!(is_captured(&parameter(kind, 0, "p")));
        assert!(is_captured(&parameter(kind, 2, "p")));
        assert!(!is_captured(&parameter(kind, 1, "p")));
        assert!(!is_captured(&parameter(kind, 3, "p")));
    }
    assert!(!is_captured(&parameter(4, 0, "p")));
    assert!(!is_captured(&parameter(5, 0, "p")));
    assert!(!is_captured(&parameter(u32::MAX, 0, "p")));
}

#[test]
fn dump_records_values_in_the_order_of_enumeration() {
    let readings = vec![
        FeatureReading {
            feature: feature(1, "Equalizer"),
            parameters: vec![
                reading(1, 0, "Enabled", Some(Ok(SoundCoreParamValue::Bool(true)))),
                reading(0, 0, "Bass", Some(Ok(SoundCoreParamValue::Float(2.5f32.to_bits())))),
                reading(3, 0, "Preset", Some(Ok(SoundCoreParamValue::I32(-1)))),
            ],
        },
        FeatureReading {
            feature: feature(2, "Device Control"),
            parameters: vec![reading(2, 0, "SelectOutput", Some(Ok(SoundCoreParamValue::U32(1))))],
        },
    ];
    let configuration = dump(0.5f32.to_bits(), &readings);
    let volume = configuration.endpoint.as_ref().unwrap().volume.unwrap();
    assert_eq!(f32::from_bits(volume), 0.5);
    assert_eq!(configuration.volume(), Some(0.5f32.to_bits()));
    let creative = configuration.creative.unwrap();
    let features: Vec<&String> = creative.keys().collect();
    assert_eq!(features, ["Equalizer", "Device Control"]);
    let equalizer: Vec<(&String, &SoundCoreParamValue)> = creative["Equalizer"].iter().collect();
    assert_eq!(equalizer.len(), 3);
    assert_eq!(equalizer[0], (&String::from("Enabled"), &SoundCoreParamValue::Bool(true)));
    assert_eq!(
        equalizer[1],
        (&String::from("Bass"), &SoundCoreParamValue::Float(2.5f32.to_bits()))
    );
    assert_eq!(equalizer[2], (&String::from("Preset"), &SoundCoreParamValue::I32(-1)));
    assert_eq!(creative["Device Control"]["SelectOutput"], SoundCoreParamValue::U32(1));
}

#[test]
fn dump_skips_what_cannot_be_written_back() {
    let readings = vec![FeatureReading {
        feature: feature(1, "Mixer"),
        parameters: vec![
            reading(1, 1, "ReadOnly", Some(Ok(SoundCoreParamValue::Bool(true)))),
            reading(5, 0, "Blob", Some(Ok(SoundCoreParamValue::U32(3)))),
            reading(4, 0, "Odd", Some(Ok(SoundCoreParamValue::U32(3)))),
            reading(2, 0, "Failed", Some(Err(Win32Error { code: E_FAIL }))),
            reading(2, 0, "Absent", Some(Ok(SoundCoreParamValue::Absent))),
            reading(2, 0, "Unread", None),
            reading(2, 0, "Kept", Some(Ok(SoundCoreParamValue::U32(9)))),
        ],
    }];
    let creative = dump(0, &readings).creative.unwrap();
    assert_eq!(creative.len(), 1);
    let mixer = &creative["Mixer"];
    assert_eq!(mixer.len(), 1);
    assert_eq!(mixer["Kept"], SoundCoreParamValue::U32(9));
}

#[test]
fn dump_omits_features_without_applicable_parameters() {
    let readings = vec![
        FeatureReading { feature: feature(1, "Empty"), parameters: vec![] },
        FeatureReading {
            feature: feature(2, "ReadOnly"),
            parameters: vec![reading(1, 1, "p", Some(Ok(SoundCoreParamValue::Bool(true))))],
        },
        FeatureReading {
            feature: feature(3, "Full"),
            parameters: vec![reading(1, 0, "p", Some(Ok(SoundCoreParamValue::Bool(false))))],
        },
    ];
    let creative = dump(0, &readings).creative.unwrap();
    let features: Vec<&String> = creative.keys().collect();
    assert_eq!(features, ["Full"]);
    assert!(dump(0, &Vec::new()).creative.unwrap().is_empty());
}

#[test]
fn a_repeated_name_keeps_its_place_and_takes_the_later_value() {
    let readings = vec![
        FeatureReading {
            feature: feature(1, "A"),
            parameters: vec![
                reading(2, 0, "x", Some(Ok(SoundCoreParamValue::U32(1)))),
                reading(2, 0, "y", Some(Ok(SoundCoreParamValue::U32(2)))),
                reading(2, 0, "x", Some(Ok(SoundCoreParamValue::U32(3)))),
            ],
        },
        FeatureReading {
            feature: feature(2, "B"),
            parameters: vec![reading(2, 0, "z", Some(Ok(SoundCoreParamValue::U32(4))))],
        },
        FeatureReading {
            feature: feature(3, "A"),
            parameters: vec![reading(2, 0, "w", Some(Ok(SoundCoreParamValue::U32(5))))],
        },
    ];
    let creative = dump(0, &readings).creative.unwrap();
    let features: Vec<&String> = creative.keys().collect();
    assert_eq!(features, ["A", "B"]);
    let a: Vec<(&String, &SoundCoreParamValue)> = creative["A"].iter().collect();
    assert_eq!(a, [(&String::from("w"), &SoundCoreParamValue::U32(5))]);
    let first = dump(0, &readings[..1].iter().map(copy_reading).collect());
    let a = &first.creative.unwrap()["A"];
    let entries: Vec<(&String, &SoundCoreParamValue)> = a.iter().collect();
    assert_eq!(
        entries,
        [
            (&String::from("x"), &SoundCoreParamValue::U32(3)),
            (&String::from("y"), &SoundCoreParamValue::U32(2)),
        ]
    );
}

fn copy_reading(reading: &FeatureReading) -> FeatureReading {
    FeatureReading {
        feature: feature(reading.feature.id, &reading.feature.description),
        parameters: reading
            .parameters
            .iter()
            .map(|p| ParameterReading {
                parameter: parameter(p.parameter.kind, p.parameter.attributes, &p.parameter.description),
                value: p.value,
            })
            .collect(),
    }
}

fn fit(kind: u32, value: SoundCoreParamValue) -> Result<Coerced, (String, String)> {
    coerce_soundcore(&feature(1, "F"), &parameter(kind, 0, "P"), &value)
        .map_err(|e| (String::from(e.expected), String::from(e.actual)))
}

#[test]
fn values_of_the_right_kind_fit_as_they_are() {
    let float = SoundCoreParamValue::Float(7);
    assert_eq!(fit(0, float), Ok(Coerced::Value(float)));
    let boolean = SoundCoreParamValue::Bool(true);
    assert_eq!(fit(1, boolean), Ok(Coerced::Value(boolean)));
    let unsigned = SoundCoreParamValue::U32(u32::MAX);
    assert_eq!(fit(2, unsigned), Ok(Coerced::Value(unsigned)));
    let signed = SoundCoreParamValue::I32(i32::MIN);
    assert_eq!(fit(3, signed), Ok(Coerced::Value(signed)));
}

#[test]
fn integers_fit_float_parameters() {
    assert_eq!(fit(0, SoundCoreParamValue::U32(3)), Ok(Coerced::FloatFromU32(3)));
    assert_eq!(fit(0, SoundCoreParamValue::I32(-3)), Ok(Coerced::FloatFromI32(-3)));
}

#[test]
fn integers_change_signedness_where_the_number_fits() {
    assert_eq!(
        fit(2, SoundCoreParamValue::I32(0)),
        Ok(Coerced::Value(SoundCoreParamValue::U32(0)))
    );
    assert_eq!(
        fit(2, SoundCoreParamValue::I32(i32::MAX)),
        Ok(Coerced::Value(SoundCoreParamValue::U32(0x7fff_ffff)))
    );
    assert_eq!(
        fit(3, SoundCoreParamValue::U32(0x7fff_ffff)),
        Ok(Coerced::Value(SoundCoreParamValue::I32(i32::MAX)))
    );
    assert_eq!(
        fit(2, SoundCoreParamValue::I32(-1)),
        Err((String::from("uint"), String::from("int")))
    );
    assert_eq!(
        fit(3, SoundCoreParamValue::U32(0x8000_0000)),
        Err((String::from("int"), String::from("uint")))
    );
}

#[test]
fn nothing_else_fits() {
    let name = |s: &str| String::from(s);
    assert_eq!(fit(1, SoundCoreParamValue::Float(0)), Err((name("bool"), name("float"))));
    assert_eq!(fit(2, SoundCoreParamValue::Float(0)), Err((name("uint"), name("float"))));
    assert_eq!(fit(0, SoundCoreParamValue::Bool(true)), Err((name("float"), name("bool"))));
    assert_eq!(fit(3, SoundCoreParamValue::Bool(true)), Err((name("int"), name("bool"))));
    assert_eq!(fit(1, SoundCoreParamValue::U32(1)), Err((name("bool"), name("uint"))));
    assert_eq!(fit(5, SoundCoreParamValue::U32(1)), Err((name("<unsupported>"), name("uint"))));
    assert_eq!(
        fit(0, SoundCoreParamValue::Absent),
        Err((name("float"), name("<unsupported>")))
    );
}

#[test]
fn the_error_names_the_parameter_and_both_kinds() {
    let error =
        coerce_soundcore(&feature(1, "EQ"), &parameter(1, 0, "On"), &SoundCoreParamValue::I32(3))
            .unwrap_err();
    assert_eq!(error.feature, "EQ");
    assert_eq!(error.parameter, "On");
    assert_eq!(error.message(), "Unsupported value for EQ.On. Expected bool, got int.");
}

fn configuration() -> Configuration {
    let mut equalizer = IndexMap::new();
    equalizer.insert(String::from("Enabled"), SoundCoreParamValue::Bool(true));
    equalizer.insert(String::from("Bass"), SoundCoreParamValue::I32(4));
    let mut creative = IndexMap::new();
    creative.insert(String::from("Equalizer"), equalizer);
    creative.insert(String::from("Empty"), IndexMap::new());
    Configuration { endpoint: Some(EndpointConfiguration { volume: None }), creative: Some(creative) }
}

#[test]
fn a_configured_parameter_is_written_with_its_value_made_to_fit() {
    let plan = configuration().planned_write(&feature(1, "Equalizer"), &parameter(1, 0, "Enabled"));
    assert_eq!(plan.unwrap().unwrap(), Coerced::Value(SoundCoreParamValue::Bool(true)));
    let plan = configuration().planned_write(&feature(1, "Equalizer"), &parameter(0, 0, "Bass"));
    assert_eq!(plan.unwrap().unwrap(), Coerced::FloatFromI32(4));
    let plan = configuration().planned_write(&feature(1, "Equalizer"), &parameter(2, 0, "Bass"));
    assert_eq!(plan.unwrap().unwrap(), Coerced::Value(SoundCoreParamValue::U32(4)));
}

#[test]
fn a_configured_value_that_does_not_fit_is_an_error() {
    let plan = configuration().planned_write(&feature(1, "Equalizer"), &parameter(1, 0, "Bass"));
    let error = plan.unwrap().unwrap_err();
    assert_eq!(error.message(), "Unsupported value for Equalizer.Bass. Expected bool, got int.");
}

#[test]
fn what_is_not_configured_is_not_written() {
    let c = configuration();
    assert!(c.planned_write(&feature(1, "Equalizer"), &parameter(1, 0, "Treble")).is_none());
    assert!(c.planned_write(&feature(1, "Empty"), &parameter(1, 0, "Enabled")).is_none());
    assert!(c.planned_write(&feature(1, "Surround"), &parameter(1, 0, "Enabled")).is_none());
    let nothing = Configuration { endpoint: None, creative: None };
    assert!(nothing.planned_write(&feature(1, "Equalizer"), &parameter(1, 0, "Enabled")).is_none());
}

#[test]
fn the_volume_is_that_of_the_endpoint_settings() {
    assert_eq!(configuration().volume(), None);
    assert_eq!(Configuration { endpoint: None, creative: None }.volume(), None);
    let loud =
        Configuration { endpoint: Some(EndpointConfiguration { volume: Some(9) }), creative: None };
    assert_eq!(loud.volume(), Some(9));
}

#[test]
fn a_muted_device_stays_muted() {
    assert!(mute_unmute(true, false));
    assert!(!mute_unmute(true, true));
    assert!(!mute_unmute(false, false));
    assert!(!mute_unmute(false, true));
}

#[test]
fn names_that_the_device_does_not_show_are_unhandled() {
    let c = configuration();
    let seen = vec![String::from("Surround"), String::from("Empty")];
    assert_eq!(c.unhandled_features(&seen), ["Equalizer"]);
    assert_eq!(c.unhandled_features(&Vec::new()), ["Equalizer", "Empty"]);
    let seen = vec![String::from("Empty"), String::from("Equalizer")];
    assert!(c.unhandled_features(&seen).is_empty());
    let nothing = Configuration { endpoint: None, creative: None };
    assert!(nothing.unhandled_features(&Vec::new()).is_empty());
}

#[test]
fn parameters_that_a_feature_does_not_show_are_unhandled() {
    let c = configuration();
    let seen = vec![String::from("Bass"), String::from("Treble")];
    assert_eq!(c.unhandled_parameters("Equalizer", &seen), ["Enabled"]);
    assert_eq!(c.unhandled_parameters("Equalizer", &Vec::new()), ["Enabled", "Bass"]);
    assert!(c.unhandled_parameters("Empty", &Vec::new()).is_empty());
    assert!(c.unhandled_parameters("Surround", &Vec::new()).is_empty());
    let nothing = Configuration { endpoint: None, creative: None };
    assert!(nothing.unhandled_parameters("Equalizer", &Vec::new()).is_empty());
}
