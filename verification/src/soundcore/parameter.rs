//! Parameters and the typed values they hold.

use vstd::prelude::*;

use crate::ctsndcr::{Param, ParamInfo, ParamValue};
use crate::hresult::{Win32Error, E_ACCESSDENIED};
use crate::text::{field_text, has_text, text_of};

verus! {

/// The kind of a value that is a floating point number.
pub const KIND_FLOAT: u32 = 0;

/// The kind of a value that is a boolean.
pub const KIND_BOOL: u32 = 1;

/// The kind of a value that is an unsigned integer.
pub const KIND_U32: u32 = 2;

/// The kind of a value that is a signed integer.
pub const KIND_I32: u32 = 3;

/// The kind of a value of variable size, which does not travel as 32 bits.
pub const KIND_VARIABLE_SIZE: u32 = 5;

/// The bit of a parameter's attributes that marks it read-only.
pub const ATTRIBUTE_READ_ONLY: u32 = 1;

/// The payload that stands for `true` on the wire.
pub const WIRE_TRUE: u32 = 0xffff_ffff;

/// Captures the value of a parameter.
#[derive(Clone, Copy, Debug, PartialEq, Eq, Structural)]
pub enum SoundCoreParamValue {
    /// A floating point value, held as its IEEE-754 single precision bits.
    Float(u32),
    /// A boolean value
    Bool(bool),
    /// An unsigned integer value
    U32(u32),
    /// A signed integer value
    I32(i32),
    /// No value
    Absent,
}

/// The signed integer whose two's complement representation is `bits`.
pub open spec fn signed_of(bits: u32) -> int {
    if bits < 0x8000_0000 {
        bits as int
    } else {
        bits - 0x1_0000_0000
    }
}

/// The two's complement representation of a signed integer.
pub open spec fn bits_of(value: i32) -> int {
    if value < 0 {
        value + 0x1_0000_0000
    } else {
        value as int
    }
}

/// The value that a kind and a payload stand for.
pub open spec fn decoded(wire: ParamValue) -> SoundCoreParamValue {
    if wire.kind == KIND_FLOAT {
        SoundCoreParamValue::Float(wire.value)
    } else if wire.kind == KIND_BOOL {
        SoundCoreParamValue::Bool(wire.value != 0)
    } else if wire.kind == KIND_U32 {
        SoundCoreParamValue::U32(wire.value)
    } else if wire.kind == KIND_I32 {
        SoundCoreParamValue::I32(signed_of(wire.value) as i32)
    } else {
        SoundCoreParamValue::Absent
    }
}

/// The kind and payload that stand for a value; the absent value has neither.
pub open spec fn encoded(value: SoundCoreParamValue) -> Option<ParamValue> {
    match value {
        SoundCoreParamValue::Float(bits) => Some(ParamValue { kind: KIND_FLOAT, value: bits }),
        SoundCoreParamValue::Bool(b) => Some(
            ParamValue { kind: KIND_BOOL, value: if b { WIRE_TRUE } else { 0 } },
        ),
        SoundCoreParamValue::U32(u) => Some(ParamValue { kind: KIND_U32, value: u }),
        SoundCoreParamValue::I32(i) => Some(ParamValue { kind: KIND_I32, value: bits_of(i) as u32 }),
        SoundCoreParamValue::Absent => None,
    }
}

/// Reads a value off the wire.
pub fn convert_param_value(value: &ParamValue) -> (converted: SoundCoreParamValue)
    ensures
        converted == decoded(*value),
{
    match value.kind {
        0 => SoundCoreParamValue::Float(value.value),
        1 => SoundCoreParamValue::Bool(value.value != 0),
        2 => SoundCoreParamValue::U32(value.value),
        3 => {
            let bits: u32 = value.value;
            assert(bits as i32 == signed_of(bits)) by {
                assert(bits < 0x8000_0000u32 ==> bits as i32 == bits) by (bit_vector);
                assert(bits >= 0x8000_0000u32 ==> bits as i32 == bits - 0x1_0000_0000) by (bit_vector);
            }
            SoundCoreParamValue::I32(bits as i32)
        },
        _ => SoundCoreParamValue::Absent,
    }
}

impl SoundCoreParamValue {
    /// Writes a value for the wire. The absent value cannot be written.
    pub fn to_wire(&self) -> (wire: Option<ParamValue>)
        ensures
            wire == encoded(*self),
            wire is None <==> *self is Absent,
    {
        match *self {
            SoundCoreParamValue::Float(bits) => Some(ParamValue { kind: KIND_FLOAT, value: bits }),
            SoundCoreParamValue::Bool(b) => Some(
                ParamValue { kind: KIND_BOOL, value: if b { WIRE_TRUE } else { 0 } },
            ),
            SoundCoreParamValue::U32(u) => Some(ParamValue { kind: KIND_U32, value: u }),
            SoundCoreParamValue::I32(i) => {
                assert(i as u32 == bits_of(i)) by {
                    assert(i < 0 ==> i as u32 == i + 0x1_0000_0000) by (bit_vector);
                    assert(i >= 0 ==> i as u32 == i) by (bit_vector);
                }
                Some(ParamValue { kind: KIND_I32, value: i as u32 })
            },
            SoundCoreParamValue::Absent => None,
        }
    }
}

/// Represents a parameter of a feature.
#[derive(Debug)]
pub struct SoundCoreParameter {
    /// The context in which the parameter was enumerated
    pub context: u32,
    /// The numeric ID of the feature that owns the parameter
    pub feature_id: u32,
    /// The description of the feature that owns the parameter
    pub feature_description: String,
    /// A numeric ID for this value
    pub id: u32,
    /// The kind of the value
    pub kind: u32,
    /// The size of the value, or `None`
    pub size: Option<u32>,
    /// The minimum acceptable value, or `Absent`
    pub min_value: SoundCoreParamValue,
    /// The maximum acceptable value, or `Absent`
    pub max_value: SoundCoreParamValue,
    /// The distance between acceptable values, or `Absent`
    pub step_size: SoundCoreParamValue,
    /// Parameter attributes
    pub attributes: u32,
    /// A description of the parameter
    pub description: String,
}

/// A parameter as a mathematical value.
pub struct SoundCoreParameterView {
    pub context: u32,
    pub feature_id: u32,
    pub feature_description: Seq<char>,
    pub id: u32,
    pub kind: u32,
    pub size: Option<u32>,
    pub min_value: SoundCoreParamValue,
    pub max_value: SoundCoreParamValue,
    pub step_size: SoundCoreParamValue,
    pub attributes: u32,
    pub description: Seq<char>,
}

impl View for SoundCoreParameter {
    type V = SoundCoreParameterView;

    open spec fn view(&self) -> SoundCoreParameterView {
        SoundCoreParameterView {
            context: self.context,
            feature_id: self.feature_id,
            feature_description: self.feature_description@,
            id: self.id,
            kind: self.kind,
            size: self.size,
            min_value: self.min_value,
            max_value: self.max_value,
            step_size: self.step_size,
            attributes: self.attributes,
            description: self.description@,
        }
    }
}

/// The parameter that a driver record describes, within the feature whose
/// description is `feature_description`.
pub open spec fn parameter_of(
    feature_description: Seq<char>,
    info: ParamInfo,
) -> SoundCoreParameterView {
    SoundCoreParameterView {
        context: info.param.context,
        feature_id: info.param.feature,
        feature_description,
        id: info.param.param,
        kind: info.param_type,
        size: if info.param_type == KIND_VARIABLE_SIZE {
            Some(info.data_size)
        } else {
            None
        },
        min_value: decoded(info.min_value),
        max_value: decoded(info.max_value),
        step_size: decoded(info.step_size),
        attributes: info.param_attributes,
        description: text_of(info.description@),
    }
}

/// What a read of a parameter comes to, given what the driver answered.
///
/// A parameter of variable size is absent whatever was answered. Otherwise a
/// success carries the value, a denied access means that the value does not
/// apply at the moment, and any other failure is an error.
pub open spec fn value_read(
    kind: u32,
    reply: Option<(i32, ParamValue)>,
) -> Result<SoundCoreParamValue, Win32Error> {
    match reply {
        Some((status, wire)) => {
            if kind == KIND_VARIABLE_SIZE {
                Ok(SoundCoreParamValue::Absent)
            } else if status >= 0 {
                Ok(decoded(wire))
            } else if status == E_ACCESSDENIED {
                Ok(SoundCoreParamValue::Absent)
            } else {
                Err(Win32Error { code: status })
            }
        },
        None => Ok(SoundCoreParamValue::Absent),
    }
}

impl SoundCoreParameter {
    /// Reads a parameter out of a driver record.
    ///
    /// The description of the record must be readable text, which
    /// [`ParamInfo::is_readable`] tests.
    pub fn new(feature_description: String, info: &ParamInfo) -> (parameter: SoundCoreParameter)
        requires
            info.readable(),
        ensures
            parameter@ == parameter_of(feature_description@, *info),
    {
        let description = field_text(info.description.as_slice()).unwrap();
        SoundCoreParameter {
            context: info.param.context,
            feature_id: info.param.feature,
            feature_description,
            id: info.param.param,
            description,
            attributes: info.param_attributes,
            kind: info.param_type,
            size: match info.param_type {
                5 => Some(info.data_size),
                _ => None,
            },
            min_value: convert_param_value(&info.min_value),
            max_value: convert_param_value(&info.max_value),
            step_size: convert_param_value(&info.step_size),
        }
    }

    /// The place of this parameter in the driver's address space.
    pub open spec fn address(&self) -> Param {
        Param { param: self.id, feature: self.feature_id, context: self.context }
    }

    /// Whether the driver marks the parameter read-only.
    pub open spec fn read_only(&self) -> bool {
        self.attributes % 2 == 1
    }

    /// Tests whether the driver marks the parameter read-only.
    pub fn is_read_only(&self) -> (read_only: bool)
        ensures
            read_only == self.read_only(),
    {
        let attributes: u32 = self.attributes;
        assert((attributes & 1 != 0) == (attributes % 2 == 1)) by (bit_vector);
        attributes & ATTRIBUTE_READ_ONLY != 0
    }

    /// The question to put to the driver in order to read the value, or
    /// `None` for a parameter of variable size, whose value is not asked for.
    pub fn get_request(&self) -> (request: Option<Param>)
        ensures
            self.kind == KIND_VARIABLE_SIZE ==> request is None,
            self.kind != KIND_VARIABLE_SIZE ==> request == Some(self.address()),
    {
        if self.kind == KIND_VARIABLE_SIZE {
            None
        } else {
            Some(Param { param: self.id, feature: self.feature_id, context: self.context })
        }
    }

    /// Gets the value of a parameter from the driver's answer to
    /// [`get_request`](Self::get_request): the status and what it wrote.
    /// Where there was nothing to ask there is no answer to give.
    ///
    /// May return `SoundCoreParamValue::Absent` when getting a parameter that
    /// is not currently applicable.
    pub fn get(&self, reply: Option<(i32, ParamValue)>) -> (value: Result<
        SoundCoreParamValue,
        Win32Error,
    >)
        requires
            reply is None ==> self.kind == KIND_VARIABLE_SIZE,
        ensures
            value == value_read(self.kind, reply),
    {
        // varsize -> not supported
        if self.kind == KIND_VARIABLE_SIZE {
            return Ok(SoundCoreParamValue::Absent);
        }
        match reply {
            None => Ok(SoundCoreParamValue::Absent),
            Some((status, wire)) => {
                if status >= 0 {
                    Ok(convert_param_value(&wire))
                } else if status == E_ACCESSDENIED {
                    Ok(SoundCoreParamValue::Absent)
                } else {
                    Err(Win32Error::new(status))
                }
            },
        }
    }

    /// The order to give the driver in order to write `value`: where, and
    /// the kind and payload.
    ///
    /// The absent value cannot be written.
    pub fn set_request(&self, value: &SoundCoreParamValue) -> (request: (Param, ParamValue))
        requires
            !(*value is Absent),
        ensures
            request.0 == self.address(),
            Some(request.1) == encoded(*value),
    {
        let param = Param { param: self.id, feature: self.feature_id, context: self.context };
        (param, value.to_wire().unwrap())
    }

    /// Sets the value of a parameter: reads the driver's answer to
    /// [`set_request`](Self::set_request).
    ///
    /// Any failure is an error, a denied access too: it is what the driver
    /// answers when the parameter is not currently applicable.
    pub fn set(&mut self, status: i32) -> (outcome: Result<(), Win32Error>)
        ensures
            *final(self) == *old(self),
            status >= 0 ==> outcome == Ok::<(), Win32Error>(()),
            status < 0 ==> outcome == Err::<(), Win32Error>(Win32Error { code: status }),
    {
        if status >= 0 {
            Ok(())
        } else {
            Err(Win32Error::new(status))
        }
    }
}

/// Writing a value and reading it back gives the value again, for every
/// value but the absent one; what is written carries the kind of the value:
/// 0 for a float, 1 for a boolean, 2 for an unsigned and 3 for a signed
/// integer.
pub proof fn lemma_wire_round_trip(value: SoundCoreParamValue)
    requires
        !(value is Absent),
    ensures
        encoded(value) is Some,
        decoded(encoded(value)->0) == value,
        value is Float ==> encoded(value)->0.kind == 0,
        value is Bool ==> encoded(value)->0.kind == 1,
        value is U32 ==> encoded(value)->0.kind == 2,
        value is I32 ==> encoded(value)->0.kind == 3,
{
}

} // verus!
