//! Configurations: what a device is set to, by the names of its features
//! and parameters.
//!
//! A configuration keeps its features, and the parameters of each, in the
//! order in which they were entered; the tables that hold them are those
//! of the `indexmap` crate.

use indexmap::IndexMap;
use vstd::prelude::*;
use vstd::string::StringExecFns;

use crate::hresult::Win32Error;
use crate::soundcore::feature::SoundCoreFeature;
use crate::soundcore::parameter::{SoundCoreParamValue, SoundCoreParameter};

verus! {

/// The insertion-ordered hash table of the `indexmap` crate. Verus sees
/// nothing inside it.
#[verifier::external_type_specification]
#[verifier::external_body]
#[verifier::reject_recursive_types(K)]
#[verifier::reject_recursive_types(V)]
#[verifier::reject_recursive_types(S)]
pub struct ExIndexMap<K, V, S>(IndexMap<K, V, S>);

/// The entries of a table of parameters: each name with its value, in the
/// order of the table.
pub uninterp spec fn parameter_entries(table: IndexMap<String, SoundCoreParamValue>) -> Seq<
    (Seq<char>, SoundCoreParamValue),
>;

/// The entries of a table of features: each name with the entries of its
/// table of parameters, in the order of the table.
pub uninterp spec fn feature_entries(
    table: IndexMap<String, IndexMap<String, SoundCoreParamValue>>,
) -> Seq<(Seq<char>, Seq<(Seq<char>, SoundCoreParamValue)>)>;

/// The place of the first entry with the given name.
pub open spec fn position<V>(entries: Seq<(Seq<char>, V)>, key: Seq<char>) -> Option<int>
    decreases entries.len(),
{
    if entries.len() == 0 {
        None
    } else if entries[0].0 == key {
        Some(0)
    } else {
        match position(entries.drop_first(), key) {
            Some(i) => Some(i + 1),
            None => None,
        }
    }
}

/// What is entered under the given name.
pub open spec fn lookup<V>(entries: Seq<(Seq<char>, V)>, key: Seq<char>) -> Option<V> {
    match position(entries, key) {
        Some(i) => Some(entries[i].1),
        None => None,
    }
}

/// The entries after something was entered under a name: a name that is
/// there keeps its place and gets the new value, a new name comes last.
pub open spec fn inserted<V>(entries: Seq<(Seq<char>, V)>, key: Seq<char>, value: V) -> Seq<
    (Seq<char>, V),
> {
    match position(entries, key) {
        Some(i) => entries.update(i, (key, value)),
        None => entries.push((key, value)),
    }
}

/// An empty table of parameters: `IndexMap::new`.
#[verifier::external_body]
fn new_parameter_table() -> (table: IndexMap<String, SoundCoreParamValue>)
    ensures
        parameter_entries(table).len() == 0,
{
    IndexMap::new()
}

/// Enters a value under a name: `IndexMap::insert`, which replaces the
/// value of a key that is there and leaves the key in its place, and puts
/// a new key last.
#[verifier::external_body]
fn insert_parameter(
    table: &mut IndexMap<String, SoundCoreParamValue>,
    key: String,
    value: SoundCoreParamValue,
)
    ensures
        parameter_entries(*final(table)) == inserted(parameter_entries(*old(table)), key@, value),
{
    table.insert(key, value);
}

/// Looks a name up: `IndexMap::get`, which gives the value stored for the
/// key, if the key is there.
#[verifier::external_body]
fn get_parameter(table: &IndexMap<String, SoundCoreParamValue>, key: &str) -> (value: Option<
    SoundCoreParamValue,
>)
    ensures
        value == lookup(parameter_entries(*table), key@),
{
    table.get(key).copied()
}

/// The number of entries: `IndexMap::len`.
#[verifier::external_body]
fn parameter_count(table: &IndexMap<String, SoundCoreParamValue>) -> (count: usize)
    ensures
        count == parameter_entries(*table).len(),
{
    table.len()
}

/// An empty table of features: `IndexMap::new`.
#[verifier::external_body]
fn new_feature_table() -> (table: IndexMap<String, IndexMap<String, SoundCoreParamValue>>)
    ensures
        feature_entries(table).len() == 0,
{
    IndexMap::new()
}

/// Enters a table of parameters under the name of a feature:
/// `IndexMap::insert`, which replaces the value of a key that is there and
/// leaves the key in its place, and puts a new key last.
#[verifier::external_body]
fn insert_feature(
    table: &mut IndexMap<String, IndexMap<String, SoundCoreParamValue>>,
    key: String,
    parameters: IndexMap<String, SoundCoreParamValue>,
)
    ensures
        feature_entries(*final(table)) == inserted(
            feature_entries(*old(table)),
            key@,
            parameter_entries(parameters),
        ),
{
    table.insert(key, parameters);
}

/// Looks the name of a feature up: `IndexMap::get`, which gives the value
/// stored for the key, if the key is there.
#[verifier::external_body]
fn get_feature<'a>(
    table: &'a IndexMap<String, IndexMap<String, SoundCoreParamValue>>,
    key: &str,
) -> (parameters: Option<&'a IndexMap<String, SoundCoreParamValue>>)
    ensures
        match lookup(feature_entries(*table), key@) {
            Some(entries) => parameters matches Some(found) && parameter_entries(*found)
                == entries,
            None => parameters is None,
        },
{
    table.get(key)
}

/// The names under which a table of parameters holds values, in the order
/// of the table: `IndexMap::keys`, each key cloned.
#[verifier::external_body]
fn parameter_names(table: &IndexMap<String, SoundCoreParamValue>) -> (names: Vec<String>)
    ensures
        names@.len() == parameter_entries(*table).len(),
        forall|i: int| 0 <= i < names@.len() ==> names@[i]@ == parameter_entries(*table)[i].0,
{
    table.keys().cloned().collect()
}

/// The names under which a table of features holds tables, in the order of
/// the table: `IndexMap::keys`, each key cloned.
#[verifier::external_body]
fn feature_names(table: &IndexMap<String, IndexMap<String, SoundCoreParamValue>>) -> (names: Vec<
    String,
>)
    ensures
        names@.len() == feature_entries(*table).len(),
        forall|i: int| 0 <= i < names@.len() ==> names@[i]@ == feature_entries(*table)[i].0,
{
    table.keys().cloned().collect()
}

/// Describes the configuration of a media endpoint.
#[derive(Debug)]
pub struct EndpointConfiguration {
    /// The desired volume level, from 0.0 to 1.0, held as its IEEE-754
    /// single precision bits
    pub volume: Option<u32>,
}

/// Describes a configuration to be applied.
#[derive(Debug)]
pub struct Configuration {
    /// Windows audio endpoint settings
    pub endpoint: Option<EndpointConfiguration>,
    /// Creative SoundBlaster settings
    pub creative: Option<IndexMap<String, IndexMap<String, SoundCoreParamValue>>>,
}

/// What was read of one parameter for a snapshot: the parameter, and the
/// outcome of the read of its value where its value was read.
#[derive(Debug)]
pub struct ParameterReading {
    pub parameter: SoundCoreParameter,
    pub value: Option<Result<SoundCoreParamValue, Win32Error>>,
}

/// What was read of one feature for a snapshot: the feature, and its
/// parameters in the order of their enumeration.
#[derive(Debug)]
pub struct FeatureReading {
    pub feature: SoundCoreFeature,
    pub parameters: Vec<ParameterReading>,
}

/// Whether a snapshot holds the value of a parameter: it holds those that
/// can be written back, which are the parameters that are not read-only
/// and whose value is a float, a boolean or an integer.
pub open spec fn captured(attributes: u32, kind: u32) -> bool {
    attributes % 2 == 0 && kind <= 3
}

/// The entries of a feature after one of its parameters was read: a value
/// that was read and is not absent is entered under the description of the
/// parameter; a failed read, an absent value and a parameter that the
/// snapshot does not hold enter nothing.
pub open spec fn recorded(
    entries: Seq<(Seq<char>, SoundCoreParamValue)>,
    reading: ParameterReading,
) -> Seq<(Seq<char>, SoundCoreParamValue)> {
    if captured(reading.parameter.attributes, reading.parameter.kind) {
        match reading.value {
            Some(Ok(value)) => if value is Absent {
                entries
            } else {
                inserted(entries, reading.parameter.description@, value)
            },
            _ => entries,
        }
    } else {
        entries
    }
}

/// The entries of a feature after its parameters were read, in order.
pub open spec fn feature_output(readings: Seq<ParameterReading>) -> Seq<
    (Seq<char>, SoundCoreParamValue),
>
    decreases readings.len(),
{
    if readings.len() == 0 {
        Seq::empty()
    } else {
        recorded(feature_output(readings.drop_last()), readings.last())
    }
}

/// The entries of a snapshot after its features were read, in order: a
/// feature none of whose parameters entered anything is left out.
pub open spec fn context_output(readings: Seq<FeatureReading>) -> Seq<
    (Seq<char>, Seq<(Seq<char>, SoundCoreParamValue)>),
>
    decreases readings.len(),
{
    if readings.len() == 0 {
        Seq::empty()
    } else {
        let before = context_output(readings.drop_last());
        let output = feature_output(readings.last().parameters@);
        if output.len() == 0 {
            before
        } else {
            inserted(before, readings.last().feature.description@, output)
        }
    }
}

/// Tests whether a snapshot holds the value of a parameter. Only the value
/// of such a parameter needs to be read.
pub fn is_captured(parameter: &SoundCoreParameter) -> (held: bool)
    ensures
        held == captured(parameter.attributes, parameter.kind),
{
    // skip read-only parameters
    !parameter.is_read_only() && parameter.kind <= 3
}

/// Gathers the table of one feature from what was read of its parameters.
fn dump_feature(readings: &Vec<ParameterReading>) -> (table: IndexMap<String, SoundCoreParamValue>)
    ensures
        parameter_entries(table) == feature_output(readings@),
{
    let mut table = new_parameter_table();
    let mut i: usize = 0;
    assert(readings@.take(0) =~= Seq::<ParameterReading>::empty());
    while i < readings.len()
        invariant
            i <= readings@.len(),
            parameter_entries(table) == feature_output(readings@.take(i as int)),
        decreases readings@.len() - i,
    {
        let reading = &readings[i];
        proof {
            assert(readings@.take(i + 1).drop_last() =~= readings@.take(i as int));
            assert(readings@.take(i + 1).last() == readings@[i as int]);
        }
        if is_captured(&reading.parameter) {
            match reading.value {
                Some(Ok(value)) => {
                    match value {
                        SoundCoreParamValue::Absent => {},
                        _ => {
                            insert_parameter(&mut table, reading.parameter.description.clone(), value);
                        },
                    }
                },
                _ => {},
            }
        }
        i += 1;
    }
    assert(readings@.take(i as int) =~= readings@);
    table
}

/// Captures a snapshot of a device's configuration from what was read of
/// it: the volume of its endpoint, as the bits of a float, and its
/// features with their parameters.
pub fn dump(volume: u32, readings: &Vec<FeatureReading>) -> (configuration: Configuration)
    ensures
        configuration.endpoint matches Some(endpoint) && endpoint.volume == Some(volume),
        configuration.creative matches Some(creative) && feature_entries(creative)
            == context_output(readings@),
{
    let mut creative = new_feature_table();
    let mut i: usize = 0;
    assert(readings@.take(0) =~= Seq::<FeatureReading>::empty());
    while i < readings.len()
        invariant
            i <= readings@.len(),
            feature_entries(creative) == context_output(readings@.take(i as int)),
        decreases readings@.len() - i,
    {
        let reading = &readings[i];
        proof {
            assert(readings@.take(i + 1).drop_last() =~= readings@.take(i as int));
            assert(readings@.take(i + 1).last() == readings@[i as int]);
        }
        let table = dump_feature(&reading.parameters);
        // omit feature if no parameters are applicable
        if parameter_count(&table) != 0 {
            insert_feature(&mut creative, reading.feature.description.clone(), table);
        }
        i += 1;
    }
    assert(readings@.take(i as int) =~= readings@);
    Configuration {
        endpoint: Some(EndpointConfiguration { volume: Some(volume) }),
        creative: Some(creative),
    }
}

/// A value made fit for a parameter.
#[derive(Clone, Copy, Debug, PartialEq, Eq, Structural)]
pub enum Coerced {
    /// The value to write.
    Value(SoundCoreParamValue),
    /// The float nearest to this unsigned integer is to be written.
    FloatFromU32(u32),
    /// The float nearest to this signed integer is to be written.
    FloatFromI32(i32),
}

/// A configured value does not fit the parameter it is meant for.
#[derive(Debug)]
pub struct UnsupportedValueError {
    /// The description of the feature
    pub feature: String,
    /// The description of the parameter
    pub parameter: String,
    /// The name of the kind of the parameter
    pub expected: &'static str,
    /// The name of the kind of the value
    pub actual: &'static str,
}

/// The name of a kind of parameter.
pub open spec fn kind_name(kind: u32) -> Seq<char> {
    if kind == 0 {
        "float"@
    } else if kind == 1 {
        "bool"@
    } else if kind == 2 {
        "uint"@
    } else if kind == 3 {
        "int"@
    } else {
        "<unsupported>"@
    }
}

/// The name of the kind of a value.
pub open spec fn value_name(value: SoundCoreParamValue) -> Seq<char> {
    match value {
        SoundCoreParamValue::Float(_) => "float"@,
        SoundCoreParamValue::Bool(_) => "bool"@,
        SoundCoreParamValue::I32(_) => "int"@,
        SoundCoreParamValue::U32(_) => "uint"@,
        SoundCoreParamValue::Absent => "<unsupported>"@,
    }
}

/// The value that fits a parameter of the given kind, for a configured
/// value that can be made to fit.
///
/// A value of the kind of the parameter fits as it is. An integer fits a
/// float parameter as the nearest float. An integer of the other
/// signedness fits an integer parameter if the parameter can hold its
/// number. Nothing else fits.
pub open spec fn coerced(kind: u32, value: SoundCoreParamValue) -> Option<Coerced> {
    match value {
        SoundCoreParamValue::Float(f) => if kind == 0 {
            Some(Coerced::Value(value))
        } else {
            None
        },
        SoundCoreParamValue::Bool(b) => if kind == 1 {
            Some(Coerced::Value(value))
        } else {
            None
        },
        SoundCoreParamValue::U32(i) => if kind == 0 {
            Some(Coerced::FloatFromU32(i))
        } else if kind == 2 {
            Some(Coerced::Value(value))
        } else if kind == 3 && i <= i32::MAX {
            Some(Coerced::Value(SoundCoreParamValue::I32(i as i32)))
        } else {
            None
        },
        SoundCoreParamValue::I32(i) => if kind == 0 {
            Some(Coerced::FloatFromI32(i))
        } else if kind == 2 && 0 <= i {
            Some(Coerced::Value(SoundCoreParamValue::U32(i as u32)))
        } else if kind == 3 {
            Some(Coerced::Value(value))
        } else {
            None
        },
        SoundCoreParamValue::Absent => None,
    }
}

/// Whether an error is the one for a value that does not fit a parameter.
pub open spec fn is_unsupported(
    error: UnsupportedValueError,
    feature: Seq<char>,
    parameter: Seq<char>,
    kind: u32,
    value: SoundCoreParamValue,
) -> bool {
    &&& error.feature@ == feature
    &&& error.parameter@ == parameter
    &&& error.expected@ == kind_name(kind)
    &&& error.actual@ == value_name(value)
}

/// Whether `got` is what making `value` fit a parameter comes to.
pub open spec fn is_coercion(
    got: Result<Coerced, UnsupportedValueError>,
    feature: Seq<char>,
    parameter: Seq<char>,
    kind: u32,
    value: SoundCoreParamValue,
) -> bool {
    match coerced(kind, value) {
        Some(fit) => got matches Ok(c) && c == fit,
        None => got matches Err(e) && is_unsupported(e, feature, parameter, kind, value),
    }
}

/// The text that describes a value that does not fit.
pub open spec fn unsupported_message(error: UnsupportedValueError) -> Seq<char> {
    "Unsupported value for "@ + error.feature@ + "."@ + error.parameter@ + ". Expected "@
        + error.expected@ + ", got "@ + error.actual@ + "."@
}

impl UnsupportedValueError {
    /// Describes the error.
    pub fn message(&self) -> (text: String)
        ensures
            text@ == unsupported_message(*self),
    {
        let mut text = String::from_str("Unsupported value for ");
        text.append(self.feature.as_str());
        text.append(".");
        text.append(self.parameter.as_str());
        text.append(". Expected ");
        text.append(self.expected);
        text.append(", got ");
        text.append(self.actual);
        text.append(".");
        text
    }
}

/// Makes a configured value fit a parameter, or says why it does not fit.
pub fn coerce_soundcore(
    feature: &SoundCoreFeature,
    parameter: &SoundCoreParameter,
    value: &SoundCoreParamValue,
) -> (fit: Result<Coerced, UnsupportedValueError>)
    ensures
        is_coercion(fit, feature.description@, parameter.description@, parameter.kind, *value),
{
    let kind: u32 = parameter.kind;
    let fit: Option<Coerced> = match *value {
        SoundCoreParamValue::Float(_) => if kind == 0 {
            Some(Coerced::Value(*value))
        } else {
            None
        },
        SoundCoreParamValue::Bool(_) => if kind == 1 {
            Some(Coerced::Value(*value))
        } else {
            None
        },
        SoundCoreParamValue::U32(i) => if kind == 0 {
            Some(Coerced::FloatFromU32(i))
        } else if kind == 2 {
            Some(Coerced::Value(*value))
        } else if kind == 3 && i <= 0x7fff_ffff {
            Some(Coerced::Value(SoundCoreParamValue::I32(i as i32)))
        } else {
            None
        },
        SoundCoreParamValue::I32(i) => if kind == 0 {
            Some(Coerced::FloatFromI32(i))
        } else if kind == 2 && 0 <= i {
            Some(Coerced::Value(SoundCoreParamValue::U32(i as u32)))
        } else if kind == 3 {
            Some(Coerced::Value(*value))
        } else {
            None
        },
        SoundCoreParamValue::Absent => None,
    };
    match fit {
        Some(fit) => Ok(fit),
        None => {
            let actual: &'static str = match *value {
                SoundCoreParamValue::Float(_) => "float",
                SoundCoreParamValue::Bool(_) => "bool",
                SoundCoreParamValue::I32(_) => "int",
                SoundCoreParamValue::U32(_) => "uint",
                SoundCoreParamValue::Absent => "<unsupported>",
            };
            let expected: &'static str = match kind {
                0 => "float",
                1 => "bool",
                2 => "uint",
                3 => "int",
                _ => "<unsupported>",
            };
            Err(
                UnsupportedValueError {
                    feature: feature.description.clone(),
                    parameter: parameter.description.clone(),
                    expected,
                    actual,
                },
            )
        },
    }
}

/// The value that a configuration holds for a parameter of a feature, by
/// their descriptions.
pub open spec fn configured(
    creative: Seq<(Seq<char>, Seq<(Seq<char>, SoundCoreParamValue)>)>,
    feature: Seq<char>,
    parameter: Seq<char>,
) -> Option<SoundCoreParamValue> {
    match lookup(creative, feature) {
        Some(table) => lookup(table, parameter),
        None => None,
    }
}

impl Configuration {
    /// The volume that the configuration asks for, as the bits of a float.
    pub fn volume(&self) -> (volume: Option<u32>)
        ensures
            volume == match self.endpoint {
                Some(endpoint) => endpoint.volume,
                None => None,
            },
    {
        match &self.endpoint {
            Some(endpoint) => endpoint.volume,
            None => None,
        }
    }

    /// Decides what to write to a parameter that the driver enumerated:
    /// nothing where the configuration does not name it, else the
    /// configured value made to fit, or the error that it does not fit.
    pub fn planned_write(&self, feature: &SoundCoreFeature, parameter: &SoundCoreParameter) -> (plan:
        Option<Result<Coerced, UnsupportedValueError>>)
        ensures
            match self.creative {
                None => plan is None,
                Some(creative) => match configured(
                    feature_entries(creative),
                    feature.description@,
                    parameter.description@,
                ) {
                    None => plan is None,
                    Some(value) => plan matches Some(fit) && is_coercion(
                        fit,
                        feature.description@,
                        parameter.description@,
                        parameter.kind,
                        value,
                    ),
                },
            },
    {
        match &self.creative {
            None => None,
            Some(creative) => match get_feature(creative, feature.description.as_str()) {
                None => None,
                Some(table) => match get_parameter(table, parameter.description.as_str()) {
                    None => None,
                    Some(value) => Some(coerce_soundcore(feature, parameter, &value)),
                },
            },
        }
    }
}

/// The names of a table, in its order.
pub open spec fn names_of<V>(entries: Seq<(Seq<char>, V)>) -> Seq<Seq<char>> {
    Seq::new(entries.len(), |i: int| entries[i].0)
}

/// The texts of a list of strings.
pub open spec fn texts(strings: Seq<String>) -> Seq<Seq<char>> {
    Seq::new(strings.len(), |i: int| strings[i]@)
}

/// Those of the names that are not among the ones seen, in their order.
pub open spec fn unseen(names: Seq<Seq<char>>, seen: Seq<Seq<char>>) -> Seq<Seq<char>>
    decreases names.len(),
{
    if names.len() == 0 {
        Seq::empty()
    } else if seen.contains(names.last()) {
        unseen(names.drop_last(), seen)
    } else {
        unseen(names.drop_last(), seen).push(names.last())
    }
}

/// Tests whether a name is among the ones seen.
fn is_seen(name: &String, seen: &Vec<String>) -> (found: bool)
    ensures
        found == texts(seen@).contains(name@),
{
    let mut i: usize = 0;
    while i < seen.len()
        invariant
            i <= seen@.len(),
            forall|j: int| 0 <= j < i ==> texts(seen@)[j] != name@,
        decreases seen@.len() - i,
    {
        if seen[i] == *name {
            assert(texts(seen@)[i as int] == name@);
            return true;
        }
        i += 1;
    }
    false
}

/// Keeps those of the names that are not among the ones seen.
fn keep_unseen(names: Vec<String>, seen: &Vec<String>) -> (kept: Vec<String>)
    ensures
        texts(kept@) == unseen(texts(names@), texts(seen@)),
{
    let mut kept: Vec<String> = Vec::new();
    let mut i: usize = 0;
    assert(texts(names@).take(0) =~= Seq::<Seq<char>>::empty());
    assert(texts(kept@) =~= Seq::<Seq<char>>::empty());
    while i < names.len()
        invariant
            i <= names@.len(),
            texts(kept@) == unseen(texts(names@).take(i as int), texts(seen@)),
        decreases names@.len() - i,
    {
        proof {
            assert(texts(names@).take(i + 1).drop_last() =~= texts(names@).take(i as int));
            assert(texts(names@).take(i + 1).last() == names@[i as int]@);
        }
        if !is_seen(&names[i], seen) {
            let ghost before = texts(kept@);
            kept.push(names[i].clone());
            assert(texts(kept@) =~= before.push(names@[i as int]@));
        }
        i += 1;
    }
    assert(texts(names@).take(i as int) =~= texts(names@));
    kept
}

impl Configuration {
    /// The features that the configuration names and that are not among
    /// those that the device has shown, by their descriptions and in the
    /// order of the configuration: what the configuration asks for in
    /// vain.
    pub fn unhandled_features(&self, seen: &Vec<String>) -> (unhandled: Vec<String>)
        ensures
            texts(unhandled@) == match self.creative {
                Some(creative) => unseen(names_of(feature_entries(creative)), texts(seen@)),
                None => Seq::<Seq<char>>::empty(),
            },
    {
        match &self.creative {
            None => {
                let nothing: Vec<String> = Vec::new();
                assert(texts(nothing@) =~= Seq::<Seq<char>>::empty());
                nothing
            },
            Some(creative) => {
                let names = feature_names(creative);
                assert(texts(names@) =~= names_of(feature_entries(*creative)));
                keep_unseen(names, seen)
            },
        }
    }

    /// The parameters that the configuration names for a feature and that
    /// are not among those that the feature has shown, by their
    /// descriptions and in the order of the configuration. A feature that
    /// the configuration does not name has none.
    pub fn unhandled_parameters(&self, feature: &str, seen: &Vec<String>) -> (unhandled: Vec<
        String,
    >)
        ensures
            texts(unhandled@) == match self.creative {
                Some(creative) => match lookup(feature_entries(creative), feature@) {
                    Some(table) => unseen(names_of(table), texts(seen@)),
                    None => Seq::<Seq<char>>::empty(),
                },
                None => Seq::<Seq<char>>::empty(),
            },
    {
        let table = match &self.creative {
            None => None,
            Some(creative) => get_feature(creative, feature),
        };
        match table {
            None => {
                let nothing: Vec<String> = Vec::new();
                assert(texts(nothing@) =~= Seq::<Seq<char>>::empty());
                nothing
            },
            Some(table) => {
                let names = parameter_names(table);
                assert(texts(names@) =~= names_of(parameter_entries(*table)));
                keep_unseen(names, seen)
            },
        }
    }
}

/// Whether applying a configuration mutes the device first and unmutes it
/// afterwards: it does when muting was asked for and the device was not
/// muted already, so that a device that was muted stays muted.
pub fn mute_unmute(mute: bool, already_muted: bool) -> (wrap: bool)
    ensures
        wrap == (mute && !already_muted),
{
    mute && !already_muted
}

} // verus!
