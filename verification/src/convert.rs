//! Values of a configuration as they stand in a document.
//!
//! A configuration is written down as TOML, JSON or YAML. Whichever it is,
//! a value in the document is a float, a boolean, an integer, or something
//! that no parameter can hold. The formats differ in how an integer is
//! told apart as signed or unsigned.

use vstd::prelude::*;

use crate::soundcore::parameter::SoundCoreParamValue;

verus! {

/// The formats in which a configuration is written down.
#[derive(Clone, Copy, Debug, PartialEq, Eq, Structural)]
pub enum Format {
    Toml,
    Json,
    Yaml,
}

/// A value as it stands in a document.
#[derive(Clone, Copy, Debug)]
pub enum DocumentValue {
    /// A float, narrowed to single precision and held as its IEEE-754
    /// bits
    Float(u32),
    /// A boolean
    Boolean(bool),
    /// An integer
    Integer(i64),
    /// A value of another type, with the name of that type
    Other(&'static str),
}

/// The parameter value that an integer of a document stands for, or
/// nothing for an integer that 32 bits cannot hold, signed or unsigned.
///
/// In JSON and YAML an integer is signed if a signed integer can hold it.
/// In TOML the largest signed integer already counts as unsigned.
pub open spec fn integer_param(format: Format, i: int) -> Option<SoundCoreParamValue> {
    if i < i32::MIN || i > u32::MAX {
        None
    } else if format is Toml {
        if i32::MAX <= i {
            Some(SoundCoreParamValue::U32(i as u32))
        } else {
            Some(SoundCoreParamValue::I32(i as i32))
        }
    } else {
        if i <= i32::MAX {
            Some(SoundCoreParamValue::I32(i as i32))
        } else {
            Some(SoundCoreParamValue::U32(i as u32))
        }
    }
}

/// Whether `got` is what reading `value` as a parameter value comes to:
/// the value, or the name of what it is instead.
pub open spec fn is_param_of(
    got: Result<SoundCoreParamValue, &'static str>,
    format: Format,
    value: DocumentValue,
) -> bool {
    match value {
        DocumentValue::Float(bits) => got == Ok::<SoundCoreParamValue, &'static str>(
            SoundCoreParamValue::Float(bits),
        ),
        DocumentValue::Boolean(b) => got == Ok::<SoundCoreParamValue, &'static str>(
            SoundCoreParamValue::Bool(b),
        ),
        DocumentValue::Integer(i) => match integer_param(format, i as int) {
            Some(param) => got == Ok::<SoundCoreParamValue, &'static str>(param),
            None => got matches Err(name) && name@ == "Large integer"@,
        },
        DocumentValue::Other(kind) => got matches Err(name) && name@ == kind@,
    }
}

/// Reads a value of a document as a parameter value.
pub fn try_into_param(format: Format, value: DocumentValue) -> (param: Result<
    SoundCoreParamValue,
    &'static str,
>)
    ensures
        is_param_of(param, format, value),
{
    match value {
        DocumentValue::Float(bits) => Ok(SoundCoreParamValue::Float(bits)),
        DocumentValue::Boolean(b) => Ok(SoundCoreParamValue::Bool(b)),
        DocumentValue::Integer(i) => {
            if i < -0x8000_0000 || 0xffff_ffff < i {
                Err("Large integer")
            } else {
                let unsigned_from: i64 = match format {
                    Format::Toml => 0x7fff_ffff,
                    _ => 0x8000_0000,
                };
                if unsigned_from <= i {
                    Ok(SoundCoreParamValue::U32(i as u32))
                } else {
                    Ok(SoundCoreParamValue::I32(i as i32))
                }
            }
        },
        DocumentValue::Other(kind) => Err(kind),
    }
}

/// The value of a document that stands for a parameter value. The absent
/// value has none: it is written as a text that says so.
pub open spec fn document_value(param: SoundCoreParamValue) -> Option<DocumentValue> {
    match param {
        SoundCoreParamValue::Float(bits) => Some(DocumentValue::Float(bits)),
        SoundCoreParamValue::Bool(b) => Some(DocumentValue::Boolean(b)),
        SoundCoreParamValue::U32(i) => Some(DocumentValue::Integer(i as i64)),
        SoundCoreParamValue::I32(i) => Some(DocumentValue::Integer(i as i64)),
        SoundCoreParamValue::Absent => None,
    }
}

/// Writes a parameter value as a value of a document, or gives nothing for
/// the absent value, which a document holds as the text `<unsupported>`.
pub fn from_param(param: &SoundCoreParamValue) -> (value: Option<DocumentValue>)
    ensures
        value == document_value(*param),
{
    match *param {
        SoundCoreParamValue::Float(bits) => Some(DocumentValue::Float(bits)),
        SoundCoreParamValue::Bool(b) => Some(DocumentValue::Boolean(b)),
        SoundCoreParamValue::U32(i) => Some(DocumentValue::Integer(i as i64)),
        SoundCoreParamValue::I32(i) => Some(DocumentValue::Integer(i as i64)),
        SoundCoreParamValue::Absent => None,
    }
}

/// The number that an integer parameter value holds.
pub open spec fn number_of(param: SoundCoreParamValue) -> Option<int> {
    match param {
        SoundCoreParamValue::U32(i) => Some(i as int),
        SoundCoreParamValue::I32(i) => Some(i as int),
        _ => None,
    }
}

/// An integer of a document is read as a parameter value exactly if 32
/// bits can hold it, and the value then holds the same number. An integer
/// that was written for a parameter value is therefore read back with its
/// number, though an unsigned one may come back signed.
pub proof fn lemma_integer_keeps_number(format: Format, i: int)
    ensures
        integer_param(format, i) is Some <==> i32::MIN <= i <= u32::MAX,
        integer_param(format, i) is Some ==> number_of(integer_param(format, i)->0) == Some(i),
{
}

/// Turns an optional outcome into the outcome of an option.
pub fn transpose<T, E>(value: Option<Result<T, E>>) -> (transposed: Result<Option<T>, E>)
    ensures
        transposed == match value {
            Some(Ok(value)) => Ok::<Option<T>, E>(Some(value)),
            Some(Err(error)) => Err::<Option<T>, E>(error),
            None => Ok::<Option<T>, E>(None),
        },
{
    match value {
        Some(Ok(value)) => Ok(Some(value)),
        Some(Err(error)) => Err(error),
        None => Ok(None),
    }
}

/// Groups the words of repeated command line options, three to an option:
/// the name of a feature, the name of a parameter and a value. No words
/// give no groups.
pub fn collate_set_values(values: Option<&Vec<String>>) -> (groups: Vec<(String, String, String)>)
    requires
        values matches Some(words) ==> words@.len() % 3 == 0,
    ensures
        values is None ==> groups@.len() == 0,
        values matches Some(words) ==> {
            &&& groups@.len() * 3 == words@.len()
            &&& forall|i: int|
                0 <= i < groups@.len() ==> {
                    &&& (#[trigger] groups@[i]).0@ == words@[3 * i]@
                    &&& groups@[i].1@ == words@[3 * i + 1]@
                    &&& groups@[i].2@ == words@[3 * i + 2]@
                }
        },
{
    let mut groups: Vec<(String, String, String)> = Vec::new();
    match values {
        None => {},
        Some(words) => {
            let mut i: usize = 0;
            while i < words.len()
                invariant
                    words@.len() % 3 == 0,
                    i <= words@.len(),
                    i % 3 == 0,
                    groups@.len() * 3 == i,
                    forall|j: int|
                        0 <= j < groups@.len() ==> {
                            &&& (#[trigger] groups@[j]).0@ == words@[3 * j]@
                            &&& groups@[j].1@ == words@[3 * j + 1]@
                            &&& groups@[j].2@ == words@[3 * j + 2]@
                        },
                decreases words@.len() - i,
            {
                let first = words[i].clone();
                let second = words[i + 1].clone();
                let third = words[i + 2].clone();
                groups.push((first, second, third));
                i += 3;
            }
        },
    }
    groups
}

} // verus!
