//! Errors of the SoundCore API.

use vstd::prelude::*;
use vstd::std_specs::convert::FromSpecImpl;
use vstd::string::StringExecFns;

use crate::hresult::{message_of, Win32Error};
use crate::media::GetPropertyError;

verus! {

/// Describes an error that occurred while acting on Creative's SoundCore API.
#[derive(Clone, Copy, Debug, PartialEq, Eq, Structural)]
pub enum SoundCoreError {
    /// Some Win32 error occurred.
    Win32(Win32Error),
    /// The specified device does not support implement the SoundCore API.
    NotSupported,
}

/// The text that describes an error of the SoundCore API.
pub open spec fn sound_core_message(error: SoundCoreError, detail: Option<Seq<char>>) -> Seq<
    char,
> {
    match error {
        SoundCoreError::Win32(inner) => "Win32Error: "@ + message_of(inner.code, detail),
        SoundCoreError::NotSupported => "SoundCore not supported"@,
    }
}

/// What a failure to get a property means for the SoundCore API: a
/// property of an unexpected type means that the device is not one of
/// those that the API serves; a failure stays the failure it is.
pub open spec fn from_property_error(err: GetPropertyError) -> SoundCoreError {
    match err {
        GetPropertyError::UnexpectedType(_) => SoundCoreError::NotSupported,
        GetPropertyError::Win32(inner) => SoundCoreError::Win32(inner),
    }
}

impl SoundCoreError {
    /// Describes the error. `detail` is the system's description of the
    /// operating system error that it wraps, where there is one.
    pub fn message(&self, detail: Option<&str>) -> (text: String)
        ensures
            text@ == sound_core_message(
                *self,
                match detail {
                    Some(detail) => Some(detail@),
                    None => None,
                },
            ),
    {
        match self {
            SoundCoreError::Win32(inner) => {
                let mut text = String::from_str("Win32Error: ");
                let message = inner.message(detail);
                text.append(message.as_str());
                text
            },
            SoundCoreError::NotSupported => String::from_str("SoundCore not supported"),
        }
    }
}

impl From<Win32Error> for SoundCoreError {
    fn from(err: Win32Error) -> (error: SoundCoreError) {
        SoundCoreError::Win32(err)
    }
}

impl FromSpecImpl<Win32Error> for SoundCoreError {
    open spec fn obeys_from_spec() -> bool {
        true
    }

    open spec fn from_spec(err: Win32Error) -> SoundCoreError {
        SoundCoreError::Win32(err)
    }
}

impl From<GetPropertyError> for SoundCoreError {
    fn from(err: GetPropertyError) -> (error: SoundCoreError) {
        match err {
            GetPropertyError::UnexpectedType(_) => SoundCoreError::NotSupported,
            GetPropertyError::Win32(inner) => SoundCoreError::Win32(inner),
        }
    }
}

impl FromSpecImpl<GetPropertyError> for SoundCoreError {
    open spec fn obeys_from_spec() -> bool {
        true
    }

    open spec fn from_spec(err: GetPropertyError) -> SoundCoreError {
        from_property_error(err)
    }
}

} // verus!
