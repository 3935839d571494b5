//! Audio endpoints as the operating system describes them.
//!
//! An endpoint is known by an identifier and carries properties, among
//! them the class of the object that controls its sound card.

pub mod event;

use vstd::prelude::*;
use vstd::std_specs::convert::FromSpecImpl;
use vstd::string::{StringExecFns, StringSliceAdditionalSpecFns};

use crate::com::Guid;
use crate::hresult::{message_of, Win32Error};
use crate::soundcore::error::{from_property_error, SoundCoreError};
use crate::text::{decimal_text, digit_char, hex_fixed, push_decimal};

verus! {

/// The type of a property that has no value.
pub const VT_EMPTY: u16 = 0;

/// The type of a property whose value is text.
pub const VT_LPWSTR: u16 = 31;

/// Describes an error that occurred while retrieving a property from a device.
#[derive(Clone, Copy, Debug, PartialEq, Eq, Structural)]
pub enum GetPropertyError {
    /// A Win32 error occurred.
    Win32(Win32Error),
    /// The returned value was not the expected type.
    UnexpectedType(u16),
}

/// The text that describes a failure to get a property.
pub open spec fn property_message(error: GetPropertyError, detail: Option<Seq<char>>) -> Seq<
    char,
> {
    match error {
        GetPropertyError::Win32(inner) => message_of(inner.code, detail),
        GetPropertyError::UnexpectedType(code) => "returned property value was of unexpected type "@
            + decimal_text(code as nat),
    }
}

impl GetPropertyError {
    /// The error for a property that has no value: its type is that of
    /// the empty value, where text was expected.
    pub fn not_found() -> (error: GetPropertyError)
        ensures
            error == GetPropertyError::UnexpectedType(VT_EMPTY),
    {
        GetPropertyError::UnexpectedType(VT_EMPTY)
    }

    /// Describes the error. `detail` is the system's description of the
    /// operating system error that it wraps, where there is one.
    pub fn message(&self, detail: Option<&str>) -> (text: String)
        ensures
            text@ == property_message(
                *self,
                match detail {
                    Some(detail) => Some(detail@),
                    None => None,
                },
            ),
    {
        match self {
            GetPropertyError::Win32(inner) => inner.message(detail),
            GetPropertyError::UnexpectedType(code) => {
                let mut text = String::from_str("returned property value was of unexpected type ");
                push_decimal(&mut text, *code as u32);
                text
            },
        }
    }
}

impl From<Win32Error> for GetPropertyError {
    fn from(error: Win32Error) -> (wrapped: GetPropertyError) {
        GetPropertyError::Win32(error)
    }
}

impl FromSpecImpl<Win32Error> for GetPropertyError {
    open spec fn obeys_from_spec() -> bool {
        true
    }

    open spec fn from_spec(error: Win32Error) -> GetPropertyError {
        GetPropertyError::Win32(error)
    }
}

/// What was read of one property of a device: the status of the read, the
/// type of the value and, for a value that is text, the text.
#[derive(Clone, Debug)]
pub struct PropertyRead {
    pub status: i32,
    pub vt: u16,
    pub text: String,
}

/// The properties of a device that this library reads.
#[derive(Clone, Debug)]
pub struct PropertyStore {
    /// The friendly name of the audio interface
    pub interface_name: PropertyRead,
    /// The description of the device
    pub device_description: PropertyRead,
    /// The class of the controlling object, as newer sound cards give it
    pub clsid_ae5: PropertyRead,
    /// The class of the controlling object, as older sound cards give it
    pub clsid_z: PropertyRead,
}

/// Represents an audio device: what the operating system answered when it
/// was asked for the identifier of the device and for its properties.
#[derive(Debug)]
pub struct Endpoint {
    /// The identifier, or the failure to get it
    pub id: Result<String, Win32Error>,
    /// The properties, or the failure to open the store that holds them
    pub properties: Result<PropertyStore, Win32Error>,
}

/// The text that a read of a property comes to: the failure of a failed
/// read, nothing for a property without a value, the text of a property
/// that is text, and an error that names the type of any other.
pub open spec fn string_value_of(read: PropertyRead) -> Result<Option<Seq<char>>, GetPropertyError> {
    if read.status < 0 {
        Err(GetPropertyError::Win32(Win32Error { code: read.status }))
    } else if read.vt == VT_EMPTY {
        Ok(None)
    } else if read.vt != VT_LPWSTR {
        Err(GetPropertyError::UnexpectedType(read.vt))
    } else {
        Ok(Some(read.text@))
    }
}

/// The text of a property that a device must have: a property without a
/// value is an error here.
pub open spec fn required_value_of(
    properties: Result<PropertyStore, Win32Error>,
    read: spec_fn(PropertyStore) -> PropertyRead,
) -> Result<Seq<char>, GetPropertyError> {
    match properties {
        Err(error) => Err(GetPropertyError::Win32(error)),
        Ok(store) => match string_value_of(read(store)) {
            Err(error) => Err(error),
            Ok(None) => Err(GetPropertyError::UnexpectedType(VT_EMPTY)),
            Ok(Some(text)) => Ok(text),
        },
    }
}

/// The text that names the class of the controlling object of a device:
/// the newer property where it has a value, else the older one. A device
/// with neither is not supported, and so is one whose property is not
/// text.
pub open spec fn clsid_text_of(endpoint: Endpoint) -> Result<Seq<char>, SoundCoreError> {
    match endpoint.properties {
        Err(error) => Err(SoundCoreError::Win32(error)),
        Ok(store) => match string_value_of(store.clsid_ae5) {
            Err(error) => Err(from_property_error(error)),
            Ok(Some(text)) => Ok(text),
            Ok(None) => match string_value_of(store.clsid_z) {
                Err(error) => Err(from_property_error(error)),
                Ok(Some(text)) => Ok(text),
                Ok(None) => Err(SoundCoreError::NotSupported),
            },
        },
    }
}

/// Whether `got` holds the text, or the error, that `expected` describes.
pub open spec fn is_text_result<E>(got: Result<String, E>, expected: Result<Seq<char>, E>) -> bool {
    match expected {
        Ok(text) => got matches Ok(s) && s@ == text,
        Err(error) => got matches Err(e) && e == error,
    }
}

impl PropertyRead {
    /// Reads the property as text.
    pub fn string_value(&self) -> (value: Result<Option<String>, GetPropertyError>)
        ensures
            match string_value_of(*self) {
                Ok(Some(text)) => value matches Ok(Some(s)) && s@ == text,
                Ok(None) => value matches Ok(None),
                Err(error) => value matches Err(e) && e == error,
            },
    {
        if self.status < 0 {
            Err(GetPropertyError::Win32(Win32Error::new(self.status)))
        } else if self.vt == VT_EMPTY {
            Ok(None)
        } else if self.vt != VT_LPWSTR {
            Err(GetPropertyError::UnexpectedType(self.vt))
        } else {
            Ok(Some(self.text.clone()))
        }
    }

    /// Reads a property that a device must have.
    fn required(&self) -> (value: Result<String, GetPropertyError>)
        ensures
            is_text_result(
                value,
                match string_value_of(*self) {
                    Err(error) => Err(error),
                    Ok(None) => Err(GetPropertyError::UnexpectedType(VT_EMPTY)),
                    Ok(Some(text)) => Ok(text),
                },
            ),
    {
        match self.string_value() {
            Err(error) => Err(error),
            Ok(None) => Err(GetPropertyError::not_found()),
            Ok(Some(text)) => Ok(text),
        }
    }
}

impl Endpoint {
    /// Gets the ID of the endpoint.
    pub fn id(&self) -> (id: Result<String, Win32Error>)
        ensures
            match self.id {
                Ok(text) => id matches Ok(s) && s@ == text@,
                Err(error) => id matches Err(e) && e == error,
            },
    {
        match &self.id {
            Ok(text) => Ok(text.clone()),
            Err(error) => Err(*error),
        }
    }

    /// Gets the friendly name of the audio interface (sound adapter).
    pub fn interface(&self) -> (name: Result<String, GetPropertyError>)
        ensures
            is_text_result(
                name,
                required_value_of(self.properties, |store: PropertyStore| store.interface_name),
            ),
    {
        match &self.properties {
            Err(error) => Err(GetPropertyError::Win32(*error)),
            Ok(store) => store.interface_name.required(),
        }
    }

    /// Gets a description of the audio endpoint (speakers, headphones, etc).
    pub fn description(&self) -> (description: Result<String, GetPropertyError>)
        ensures
            is_text_result(
                description,
                required_value_of(
                    self.properties,
                    |store: PropertyStore| store.device_description,
                ),
            ),
    {
        match &self.properties {
            Err(error) => Err(GetPropertyError::Win32(*error)),
            Ok(store) => store.device_description.required(),
        }
    }

    /// The text that names the class of the controlling object.
    fn clsid_text(&self) -> (text: Result<String, SoundCoreError>)
        ensures
            is_text_result(text, clsid_text_of(*self)),
    {
        match &self.properties {
            Err(error) => Err(SoundCoreError::Win32(*error)),
            Ok(store) => match store.clsid_ae5.string_value() {
                Err(error) => Err(SoundCoreError::from(error)),
                Ok(Some(text)) => Ok(text),
                Ok(None) => match store.clsid_z.string_value() {
                    Err(error) => Err(SoundCoreError::from(error)),
                    Ok(Some(text)) => Ok(text),
                    Ok(None) => Err(SoundCoreError::NotSupported),
                },
            },
        }
    }

    /// Gets the CLSID of the class implementing Creative's APIs.
    ///
    /// This allows discovery of a SoundCore implementation for devices that support it.
    pub fn clsid(&self) -> (clsid: Result<Guid, SoundCoreError>)
        ensures
            match clsid_text_of(*self) {
                Err(error) => clsid == Err::<Guid, SoundCoreError>(error),
                Ok(text) => match guid_digits(vstd::utf8::encode_utf8(text)) {
                    Some(digits) => if all_hex(digits) {
                        clsid matches Ok(guid) && guid_written(digits, guid)
                    } else {
                        clsid == Err::<Guid, SoundCoreError>(SoundCoreError::NotSupported)
                    },
                    None => clsid == Err::<Guid, SoundCoreError>(SoundCoreError::NotSupported),
                },
            },
    {
        match self.clsid_text() {
            Err(error) => Err(error),
            Ok(text) => parse_guid(text.as_str()),
        }
    }
}

/// Whether a byte is a hexadecimal digit, of either case.
pub open spec fn is_hex_digit(b: u8) -> bool {
    (0x30 <= b <= 0x39) || (0x41 <= b <= 0x46) || (0x61 <= b <= 0x66)
}

/// The value of a hexadecimal digit.
pub open spec fn digit_value(b: u8) -> nat {
    if 0x30 <= b <= 0x39 {
        (b - 0x30) as nat
    } else if 0x41 <= b <= 0x46 {
        (b - 0x41 + 10) as nat
    } else if 0x61 <= b <= 0x66 {
        (b - 0x61 + 10) as nat
    } else {
        0
    }
}

/// Whether every byte is a hexadecimal digit.
pub open spec fn all_hex(digits: Seq<u8>) -> bool {
    forall|i: int| 0 <= i < digits.len() ==> is_hex_digit(#[trigger] digits[i])
}

/// The number that hexadecimal digits write, most significant first.
pub open spec fn hex_number(digits: Seq<u8>) -> nat
    decreases digits.len(),
{
    if digits.len() == 0 {
        0
    } else {
        hex_number(digits.drop_last()) * 16 + digit_value(digits.last())
    }
}

/// The 32 places of the digits of an identity written in one of the three
/// accepted forms, or `None` for any other text:
///
/// - `{xxxxxxxx-xxxx-xxxx-xxxx-xxxxxxxxxxxx}`, in braces and with hyphens,
/// - `xxxxxxxx-xxxx-xxxx-xxxx-xxxxxxxxxxxx`, with hyphens,
/// - `xxxxxxxxxxxxxxxxxxxxxxxxxxxxxxxx`, the digits alone.
pub open spec fn guid_digits(text: Seq<u8>) -> Option<Seq<u8>> {
    if text.len() == 38 && text[0] == 0x7b && text[37] == 0x7d && text[9] == 0x2d && text[14]
        == 0x2d && text[19] == 0x2d && text[24] == 0x2d {
        Some(
            text.subrange(1, 9) + text.subrange(10, 14) + text.subrange(15, 19) + text.subrange(
                20,
                24,
            ) + text.subrange(25, 37),
        )
    } else if text.len() == 36 && text[8] == 0x2d && text[13] == 0x2d && text[18] == 0x2d
        && text[23] == 0x2d {
        Some(
            text.subrange(0, 8) + text.subrange(9, 13) + text.subrange(14, 18) + text.subrange(
                19,
                23,
            ) + text.subrange(24, 36),
        )
    } else if text.len() == 32 {
        Some(text)
    } else {
        None
    }
}

/// Whether an identity is the one that 32 hexadecimal digits write: eight
/// digits for the first field, four for each of the next two, and two for
/// each of the eight bytes of the last.
pub open spec fn guid_written(digits: Seq<u8>, guid: Guid) -> bool {
    &&& guid.data1 == hex_number(digits.subrange(0, 8))
    &&& guid.data2 == hex_number(digits.subrange(8, 12))
    &&& guid.data3 == hex_number(digits.subrange(12, 16))
    &&& forall|i: int|
        0 <= i < 8 ==> #[trigger] guid.data4@[i] == hex_number(
            digits.subrange(16 + 2 * i, 18 + 2 * i),
        )
}

/// Sixteen to a power.
pub open spec fn pow16(n: nat) -> nat
    decreases n,
{
    if n == 0 {
        1
    } else {
        16 * pow16((n - 1) as nat)
    }
}

/// A number of `n` hexadecimal digits is below sixteen to the `n`.
pub proof fn lemma_hex_number_bound(digits: Seq<u8>)
    ensures
        hex_number(digits) < pow16(digits.len()),
    decreases digits.len(),
{
    if digits.len() != 0 {
        lemma_hex_number_bound(digits.drop_last());
    }
}

/// The powers of sixteen up to the eighth.
proof fn lemma_pow16_values()
    ensures
        pow16(0) == 1,
        pow16(1) == 0x10,
        pow16(2) == 0x100,
        pow16(3) == 0x1000,
        pow16(4) == 0x1_0000,
        pow16(5) == 0x10_0000,
        pow16(6) == 0x100_0000,
        pow16(7) == 0x1000_0000,
        pow16(8) == 0x1_0000_0000,
{
    reveal_with_fuel(pow16, 10);
}

/// Appends a range of bytes to a vector.
fn copy_range(digits: &mut Vec<u8>, bytes: &[u8], from: usize, to: usize)
    requires
        from <= to <= bytes@.len(),
    ensures
        final(digits)@ == old(digits)@ + bytes@.subrange(from as int, to as int),
{
    let mut i: usize = from;
    while i < to
        invariant
            from <= i <= to <= bytes@.len(),
            digits@ == old(digits)@ + bytes@.subrange(from as int, i as int),
        decreases to - i,
    {
        digits.push(bytes[i]);
        i += 1;
        assert(digits@ =~= old(digits)@ + bytes@.subrange(from as int, i as int));
    }
}

/// Tests whether a byte is a hexadecimal digit.
fn is_hex(b: u8) -> (hex: bool)
    ensures
        hex == is_hex_digit(b),
{
    (0x30 <= b && b <= 0x39) || (0x41 <= b && b <= 0x46) || (0x61 <= b && b <= 0x66)
}

/// Tests whether every byte is a hexadecimal digit.
fn is_all_hex(digits: &[u8]) -> (hex: bool)
    ensures
        hex == all_hex(digits@),
{
    let mut i: usize = 0;
    while i < digits.len()
        invariant
            i <= digits@.len(),
            forall|j: int| 0 <= j < i ==> is_hex_digit(#[trigger] digits@[j]),
        decreases digits@.len() - i,
    {
        if !is_hex(digits[i]) {
            return false;
        }
        i += 1;
    }
    true
}

/// Reads the number that up to eight hexadecimal digits write.
fn hex_field(digits: &[u8], from: usize, to: usize) -> (value: u32)
    requires
        from <= to <= digits@.len(),
        to - from <= 8,
        all_hex(digits@),
    ensures
        value == hex_number(digits@.subrange(from as int, to as int)),
{
    let ghost field = digits@.subrange(from as int, to as int);
    let mut value: u32 = 0;
    let mut i: usize = from;
    while i < to
        invariant
            from <= i <= to <= digits@.len(),
            to - from <= 8,
            all_hex(digits@),
            field == digits@.subrange(from as int, to as int),
            value == hex_number(field.take(i - from)),
        decreases to - i,
    {
        let b: u8 = digits[i];
        assert(is_hex_digit(b));
        let d: u32 = if b <= 0x39 {
            (b - 0x30) as u32
        } else if b <= 0x46 {
            (b - 0x41 + 10) as u32
        } else {
            (b - 0x61 + 10) as u32
        };
        proof {
            let before = field.take(i - from);
            let after = field.take(i - from + 1);
            assert(after.drop_last() =~= before);
            assert(after.last() == b);
            lemma_hex_number_bound(before);
            lemma_pow16_values();
            assert(before.len() <= 7);
            lemma_pow16_monotonic(before.len(), 7);
        }
        value = value * 16 + d;
        i += 1;
    }
    assert(field.take(to - from) =~= field);
    value
}

/// Sixteen to a power grows with the power.
proof fn lemma_pow16_monotonic(n: nat, m: nat)
    requires
        n <= m,
    ensures
        pow16(n) <= pow16(m),
    decreases m,
{
    if n < m {
        lemma_pow16_monotonic(n, (m - 1) as nat);
    }
}

/// Reads an identity written in one of the three accepted forms, with
/// hexadecimal digits of either case.
///
/// Any other text names no class that this library can use: the device is
/// not supported.
pub fn parse_guid(src: &str) -> (parsed: Result<Guid, SoundCoreError>)
    ensures
        match guid_digits(src.spec_bytes()) {
            Some(digits) => if all_hex(digits) {
                parsed matches Ok(guid) && guid_written(digits, guid)
            } else {
                parsed == Err::<Guid, SoundCoreError>(SoundCoreError::NotSupported)
            },
            None => parsed == Err::<Guid, SoundCoreError>(SoundCoreError::NotSupported),
        },
{
    let bytes = src.as_bytes();
    let n = bytes.len();
    let mut digits: Vec<u8> = Vec::new();
    if n == 38 && bytes[0] == 0x7b && bytes[37] == 0x7d && bytes[9] == 0x2d && bytes[14] == 0x2d
        && bytes[19] == 0x2d && bytes[24] == 0x2d {
        copy_range(&mut digits, bytes, 1, 9);
        copy_range(&mut digits, bytes, 10, 14);
        copy_range(&mut digits, bytes, 15, 19);
        copy_range(&mut digits, bytes, 20, 24);
        copy_range(&mut digits, bytes, 25, 37);
    } else if n == 36 && bytes[8] == 0x2d && bytes[13] == 0x2d && bytes[18] == 0x2d && bytes[23]
        == 0x2d {
        copy_range(&mut digits, bytes, 0, 8);
        copy_range(&mut digits, bytes, 9, 13);
        copy_range(&mut digits, bytes, 14, 18);
        copy_range(&mut digits, bytes, 19, 23);
        copy_range(&mut digits, bytes, 24, 36);
    } else if n == 32 {
        copy_range(&mut digits, bytes, 0, 32);
    } else {
        return Err(SoundCoreError::NotSupported);
    }
    assert(digits@ =~= guid_digits(bytes@)->0);
    assert(digits@.len() == 32);
    if !is_all_hex(digits.as_slice()) {
        return Err(SoundCoreError::NotSupported);
    }
    proof {
        lemma_pow16_values();
        lemma_hex_number_bound(digits@.subrange(8, 12));
        lemma_hex_number_bound(digits@.subrange(12, 16));
    }
    let data1 = hex_field(digits.as_slice(), 0, 8);
    let data2 = hex_field(digits.as_slice(), 8, 12) as u16;
    let data3 = hex_field(digits.as_slice(), 12, 16) as u16;
    let mut data4: [u8; 8] = [0u8; 8];
    let mut i: usize = 0;
    while i < 8
        invariant
            i <= 8,
            digits@.len() == 32,
            all_hex(digits@),
            forall|j: int|
                0 <= j < i ==> #[trigger] data4@[j] == hex_number(
                    digits@.subrange(16 + 2 * j, 18 + 2 * j),
                ),
        decreases 8 - i,
    {
        proof {
            lemma_pow16_values();
            lemma_hex_number_bound(digits@.subrange(16 + 2 * i, 18 + 2 * i));
        }
        data4[i] = hex_field(digits.as_slice(), 16 + 2 * i, 18 + 2 * i) as u8;
        i += 1;
    }
    Ok(Guid { data1, data2, data3, data4 })
}

/// The bytes of a text of plain characters.
pub open spec fn ascii_bytes(text: Seq<char>) -> Seq<u8> {
    Seq::new(text.len(), |i: int| text[i] as u8)
}

/// Whether a character is a hexadecimal digit.
pub open spec fn is_hex_char(c: char) -> bool {
    '\0' <= c <= '\u{7f}' && is_hex_digit(c as u8)
}

/// The digit for a number below 16 is a hexadecimal digit with that
/// number for its value.
proof fn lemma_digit_char_value(d: int)
    requires
        0 <= d < 16,
    ensures
        is_hex_char(digit_char(d)),
        digit_value(digit_char(d) as u8) == d,
{
}

/// A number written with a fixed number of digits has that many digits,
/// all of them hexadecimal.
proof fn lemma_hex_fixed_digits(n: nat, width: nat)
    ensures
        hex_fixed(n, width).len() == width,
        forall|i: int| 0 <= i < width ==> is_hex_char(#[trigger] hex_fixed(n, width)[i]),
    decreases width,
{
    if width != 0 {
        lemma_hex_fixed_digits(n / 16, (width - 1) as nat);
        lemma_digit_char_value((n % 16) as int);
    }
}

/// A number that fits the digits it is written with is read back from
/// them.
proof fn lemma_hex_fixed_number(n: nat, width: nat)
    requires
        n < pow16(width),
    ensures
        hex_number(ascii_bytes(hex_fixed(n, width))) == n,
    decreases width,
{
    if width != 0 {
        let rest = hex_fixed(n / 16, (width - 1) as nat);
        let last = digit_char((n % 16) as int);
        lemma_hex_fixed_digits(n / 16, (width - 1) as nat);
        lemma_hex_fixed_number(n / 16, (width - 1) as nat);
        lemma_digit_char_value((n % 16) as int);
        let bytes = ascii_bytes(hex_fixed(n, width));
        assert(bytes.drop_last() =~= ascii_bytes(rest));
        assert(bytes.last() == last as u8);
    } else {
        assert(ascii_bytes(hex_fixed(n, width)).len() == 0);
    }
}

/// An identity that is written out is read back: the text that
/// [`Guid::text`] gives is in the braced form, and the identity that its
/// digits write is the one that was written. So is every identity that
/// [`parse_guid`] returns for that text, field by field.
pub proof fn lemma_written_guid_is_read(guid: Guid)
    ensures
        guid_digits(vstd::utf8::encode_utf8(guid.text())) is Some,
        all_hex(guid_digits(vstd::utf8::encode_utf8(guid.text()))->0),
        guid_written(guid_digits(vstd::utf8::encode_utf8(guid.text()))->0, guid),
        forall|other: Guid|
            guid_written(guid_digits(vstd::utf8::encode_utf8(guid.text()))->0, other)
                ==> other.equals(guid),
{
    reveal_strlit("{");
    reveal_strlit("-");
    reveal_strlit("}");
    lemma_pow16_values();
    let h1 = hex_fixed(guid.data1 as nat, 8);
    let h2 = hex_fixed(guid.data2 as nat, 4);
    let h3 = hex_fixed(guid.data3 as nat, 4);
    let b = |i: int| hex_fixed(guid.data4@[i] as nat, 2);
    lemma_hex_fixed_digits(guid.data1 as nat, 8);
    lemma_hex_fixed_digits(guid.data2 as nat, 4);
    lemma_hex_fixed_digits(guid.data3 as nat, 4);
    lemma_hex_fixed_number(guid.data1 as nat, 8);
    lemma_hex_fixed_number(guid.data2 as nat, 4);
    lemma_hex_fixed_number(guid.data3 as nat, 4);
    assert forall|i: int| 0 <= i < 8 implies (#[trigger] b(i)).len() == 2 && is_hex_char(b(i)[0])
        && is_hex_char(b(i)[1]) && hex_number(ascii_bytes(b(i))) == guid.data4@[i] by {
        lemma_hex_fixed_digits(guid.data4@[i] as nat, 2);
        lemma_hex_fixed_number(guid.data4@[i] as nat, 2);
    }
    let text = guid.text();
    let punctuated = seq!['{'] + h1 + seq!['-'] + h2 + seq!['-'] + h3 + seq!['-'] + b(0) + b(1)
        + seq!['-'] + b(2) + b(3) + b(4) + b(5) + b(6) + b(7) + seq!['}'];
    assert("{"@ =~= seq!['{']);
    assert("-"@ =~= seq!['-']);
    assert("}"@ =~= seq!['}']);
    assert(text == punctuated);
    assert(text.len() == 38);
    let place = |i: int|
        if i < 9 {
            i - 1
        } else if i < 14 {
            i - 2
        } else if i < 19 {
            i - 3
        } else if i < 24 {
            i - 4
        } else {
            i - 5
        };
    let digits = h1 + h2 + h3 + b(0) + b(1) + b(2) + b(3) + b(4) + b(5) + b(6) + b(7);
    assert(digits.len() == 32);
    assert forall|i: int| 0 <= i < 32 implies is_hex_char(#[trigger] digits[i]) by {
        if i >= 16 {
            let k = (i - 16) / 2;
            assert(digits[i] == b(k)[i - 16 - 2 * k]);
        }
    }
    assert(text[0] == '{' && text[37] == '}' && text[9] == '-' && text[14] == '-' && text[19]
        == '-' && text[24] == '-');
    assert forall|i: int|
        0 < i < 37 && i != 9 && i != 14 && i != 19 && i != 24 implies #[trigger] text[i]
        == digits[place(i)] by {}
    assert(vstd::utf8::is_ascii_chars(text)) by {
        assert forall|i: int| 0 <= i < text.len() implies '\0' <= #[trigger] text[i]
            <= '\u{7f}' by {
            if 0 < i < 37 && i != 9 && i != 14 && i != 19 && i != 24 {
                assert(text[i] == digits[place(i)]);
                assert(is_hex_char(digits[place(i)]));
            } else {
                assert(text[i] == '{' || text[i] == '}' || text[i] == '-');
            }
        }
    }
    vstd::utf8::is_ascii_chars_encode_utf8(text);
    let bytes = vstd::utf8::encode_utf8(text);
    assert(bytes.len() == 38);
    assert(bytes[0] == 0x7b && bytes[37] == 0x7d && bytes[9] == 0x2d && bytes[14] == 0x2d
        && bytes[19] == 0x2d && bytes[24] == 0x2d) by {
        assert(bytes[0] == text[0] as u8);
        assert(bytes[37] == text[37] as u8);
        assert(bytes[9] == text[9] as u8);
        assert(bytes[14] == text[14] as u8);
        assert(bytes[19] == text[19] as u8);
        assert(bytes[24] == text[24] as u8);
    }
    let read = guid_digits(bytes)->0;
    assert(guid_digits(bytes) is Some);
    assert(read.len() == 32);
    assert(read =~= ascii_bytes(digits)) by {
        assert forall|j: int| 0 <= j < 32 implies #[trigger] read[j] == digits[j] as u8 by {
            let i = if j < 8 {
                j + 1
            } else if j < 12 {
                j + 2
            } else if j < 16 {
                j + 3
            } else if j < 20 {
                j + 4
            } else {
                j + 5
            };
            assert(read[j] == bytes[i]);
            assert(bytes[i] == text[i] as u8);
            assert(text[i] == digits[place(i)]);
        }
    }
    assert(all_hex(read)) by {
        assert forall|j: int| 0 <= j < read.len() implies is_hex_digit(#[trigger] read[j]) by {
            assert(is_hex_char(digits[j]));
        }
    }
    assert(read.subrange(0, 8) =~= ascii_bytes(h1));
    assert(read.subrange(8, 12) =~= ascii_bytes(h2));
    assert(read.subrange(12, 16) =~= ascii_bytes(h3));
    assert forall|i: int| 0 <= i < 8 implies #[trigger] guid.data4@[i] == hex_number(
        read.subrange(16 + 2 * i, 18 + 2 * i),
    ) by {
        assert(read.subrange(16 + 2 * i, 18 + 2 * i) =~= ascii_bytes(b(i))) by {
            assert(digits[16 + 2 * i] == b(i)[0]);
            assert(digits[17 + 2 * i] == b(i)[1]);
        }
    }
    assert forall|other: Guid| guid_written(read, other) implies other.equals(guid) by {
        assert forall|i: int| 0 <= i < 8 implies other.data4@[i] == guid.data4@[i] by {}
        assert(other.data4@ =~= guid.data4@);
    }
}

} // verus!
