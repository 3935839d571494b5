//! Status codes of the binary object protocol.
//!
//! Every method of a binary object answers with a 32-bit signed status. A
//! negative status is a failure; zero and the positive values are successes.

use vstd::prelude::*;
use vstd::string::StringExecFns;

use crate::text::{hex_text, push_hex};

verus! {

/// The plain success status.
pub const S_OK: i32 = 0;

/// The object does not offer the interface that was asked for.
pub const E_NOINTERFACE: i32 = -2147467262;

/// The operation was aborted.
pub const E_ABORT: i32 = -2147467260;

/// The unspecified failure; the driver also answers with it when an
/// enumeration has no further item.
pub const E_FAIL: i32 = -2147467259;

/// The caller may not do this now.
pub const E_ACCESSDENIED: i32 = -2147024891;

/// The facility number of statuses that wrap an operating system error.
pub const FACILITY_WIN32: i32 = 7;

/// Whether `status` reports a failure.
pub open spec fn is_failure(status: i32) -> bool {
    status < 0
}

/// The facility field of a status: bits 16 to 28 of its two's complement
/// representation.
pub open spec fn facility_of(status: i32) -> int {
    (unsigned_of(status) / 0x1_0000) % 0x2000
}

/// The code field of a status: its low 16 bits.
pub open spec fn code_of(status: i32) -> int {
    unsigned_of(status) % 0x1_0000
}

/// The two's complement representation of a status, as a natural number.
pub open spec fn unsigned_of(status: i32) -> int {
    if status < 0 {
        status + 0x1_0000_0000
    } else {
        status as int
    }
}

/// The text that describes a failed status: the status in upper-case
/// hexadecimal digits after a fixed opening, and, for a status that wraps
/// an operating system error which the system can describe, that
/// description after a colon.
pub open spec fn message_of(status: i32, detail: Option<Seq<char>>) -> Seq<char> {
    let plain = "Unexpected HRESULT: "@ + hex_text(unsigned_of(status) as nat);
    if facility_of(status) == FACILITY_WIN32 && detail is Some {
        plain + ": "@ + detail->0
    } else {
        plain
    }
}

/// A cast to unsigned gives the two's complement representation.
proof fn lemma_unsigned_of(status: i32)
    ensures
        (status as u32) == unsigned_of(status),
{
    assert(status < 0 ==> (status as u32) == status + 0x1_0000_0000) by (bit_vector);
    assert(status >= 0 ==> (status as u32) == status) by (bit_vector);
}

/// A failure reported by a binary object.
#[derive(Clone, Copy, Debug, PartialEq, Eq, Structural)]
pub struct Win32Error {
    /// The status as the object returned it.
    pub code: i32,
}

impl Win32Error {
    /// Wraps a status.
    pub fn new(code: i32) -> (error: Win32Error)
        ensures
            error.code == code,
    {
        Win32Error { code }
    }

    /// The facility that raised the failure.
    pub fn facility(&self) -> (facility: i32)
        ensures
            facility == facility_of(self.code),
    {
        let code: i32 = self.code;
        assert(((code >> 16) & 0x1fff) == (((code as u32) / 0x1_0000) % 0x2000) as i32)
            by (bit_vector);
        proof {
            lemma_unsigned_of(code);
        }
        (code >> 16) & 0x1fff
    }
}

impl Win32Error {
    /// Whether the failure wraps an operating system error, for which the
    /// system may have a description.
    pub fn is_system_error(&self) -> (system: bool)
        ensures
            system == (facility_of(self.code) == FACILITY_WIN32),
    {
        self.facility() == FACILITY_WIN32
    }

    /// The operating system error that the failure wraps, where it wraps
    /// one: the code field of the status.
    pub fn system_code(&self) -> (code: u32)
        ensures
            code == code_of(self.code),
    {
        let status: i32 = self.code;
        assert(((status & 0xffff) as u32) == ((status as u32) % 0x1_0000)) by (bit_vector);
        proof {
            lemma_unsigned_of(status);
        }
        (status & 0xffff) as u32
    }

    /// Describes the failure. `detail` is the system's description of the
    /// wrapped operating system error, where it has one; it is left out
    /// for a failure that wraps none.
    pub fn message(&self, detail: Option<&str>) -> (text: String)
        ensures
            text@ == message_of(
                self.code,
                match detail {
                    Some(detail) => Some(detail@),
                    None => None,
                },
            ),
    {
        let status: i32 = self.code;
        proof {
            lemma_unsigned_of(status);
        }
        let mut text = String::from_str("Unexpected HRESULT: ");
        push_hex(&mut text, status as u32);
        if self.is_system_error() {
            match detail {
                Some(detail) => {
                    text.append(": ");
                    text.append(detail);
                },
                None => {},
            }
        }
        text
    }
}

/// Splits a status into success and failure.
///
/// The successful status is handed through, since some methods use it to
/// carry a small amount of information.
pub fn check(result: i32) -> (checked: Result<i32, Win32Error>)
    ensures
        is_failure(result) ==> checked == Err::<i32, Win32Error>(Win32Error { code: result }),
        !is_failure(result) ==> checked == Ok::<i32, Win32Error>(result),
{
    if result < 0 {
        Err(Win32Error::new(result))
    } else {
        Ok(result)
    }
}

} // verus!
