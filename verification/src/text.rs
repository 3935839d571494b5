//! Text held in the fixed-size fields of driver records.
//!
//! The driver writes a description as UTF-8 bytes into a field of fixed size
//! and ends it with a zero byte when it is shorter than the field.

use vstd::prelude::*;
use vstd::slice::slice_subrange;
use vstd::string::StringExecFns;
use vstd::utf8::*;

verus! {

/// The number of bytes of text in a field: the place of its first zero byte,
/// or the length of the field when it holds none.
pub open spec fn text_len(field: Seq<u8>) -> int
    decreases field.len(),
{
    if field.len() == 0 || field[0] == 0 {
        0
    } else {
        1 + text_len(field.drop_first())
    }
}

/// The bytes of the text in a field.
pub open spec fn text_bytes(field: Seq<u8>) -> Seq<u8> {
    field.take(text_len(field))
}

/// Whether the text in a field is well-formed UTF-8.
pub open spec fn has_text(field: Seq<u8>) -> bool {
    valid_utf8(text_bytes(field))
}

/// The text in a field, for a field that [`has_text`].
pub open spec fn text_of(field: Seq<u8>) -> Seq<char> {
    decode_utf8(text_bytes(field))
}

/// `text_len` is the one position that no zero byte precedes and at which
/// the field either ends or holds a zero byte.
pub proof fn lemma_text_len(field: Seq<u8>, n: int)
    requires
        0 <= n <= field.len(),
        forall|j: int| 0 <= j < n ==> field[j] != 0,
        n == field.len() || field[n] == 0,
    ensures
        text_len(field) == n,
    decreases field.len(),
{
    if n > 0 {
        let rest = field.drop_first();
        assert(field[0] != 0);
        assert forall|j: int| 0 <= j < n - 1 implies rest[j] != 0 by {
            assert(rest[j] == field[j + 1]);
        }
        lemma_text_len(rest, n - 1);
    }
}

/// Finds the end of the text in a field.
pub fn field_len(field: &[u8]) -> (n: usize)
    ensures
        n == text_len(field@),
        n <= field@.len(),
{
    let mut i: usize = 0;
    while i < field.len() && field[i] != 0
        invariant
            i <= field@.len(),
            forall|j: int| 0 <= j < i ==> field@[j] != 0,
        decreases field@.len() - i,
    {
        i += 1;
    }
    proof {
        lemma_text_len(field@, i as int);
    }
    i
}

/// Reads bytes as UTF-8 text.
///
/// This is `core::str::from_utf8` with its error dropped. The standard
/// library documents that it succeeds exactly on well-formed UTF-8 and that
/// the text it returns is made of the very bytes it was given.
#[verifier::external_body]
fn utf8_text<'a>(bytes: &'a [u8]) -> (text: Option<&'a str>)
    ensures
        text is Some <==> valid_utf8(bytes@),
        text is Some ==> encode_utf8(text->0@) == bytes@,
{
    core::str::from_utf8(bytes).ok()
}

/// Whether the text in a field can be read.
pub fn field_has_text(field: &[u8]) -> (readable: bool)
    ensures
        readable == has_text(field@),
{
    let n = field_len(field);
    utf8_text(slice_subrange(field, 0, n)).is_some()
}

/// Reads the text in a field, or nothing when the bytes before the first
/// zero are not well-formed UTF-8.
pub fn field_text(field: &[u8]) -> (text: Option<String>)
    ensures
        text is Some <==> has_text(field@),
        text is Some ==> text->0@ == text_of(field@),
{
    let n = field_len(field);
    match utf8_text(slice_subrange(field, 0, n)) {
        Some(text) => {
            proof {
                encode_utf8_decode_utf8(text@);
            }
            Some(text.to_owned())
        },
        None => None,
    }
}

/// The digit for a number below 16, in upper case where it is a letter.
pub open spec fn digit_char(d: int) -> char {
    if d == 0 {
        '0'
    } else if d == 1 {
        '1'
    } else if d == 2 {
        '2'
    } else if d == 3 {
        '3'
    } else if d == 4 {
        '4'
    } else if d == 5 {
        '5'
    } else if d == 6 {
        '6'
    } else if d == 7 {
        '7'
    } else if d == 8 {
        '8'
    } else if d == 9 {
        '9'
    } else if d == 10 {
        'A'
    } else if d == 11 {
        'B'
    } else if d == 12 {
        'C'
    } else if d == 13 {
        'D'
    } else if d == 14 {
        'E'
    } else {
        'F'
    }
}

/// A number in upper-case hexadecimal digits, without leading zeros.
pub open spec fn hex_text(n: nat) -> Seq<char>
    decreases n,
{
    if n < 16 {
        seq![digit_char(n as int)]
    } else {
        hex_text(n / 16).push(digit_char((n % 16) as int))
    }
}

/// The text of one digit.
fn digit_text(d: u32) -> (text: &'static str)
    requires
        d < 16,
    ensures
        text@ == seq![digit_char(d as int)],
{
    proof {
        reveal_strlit("0");
        reveal_strlit("1");
        reveal_strlit("2");
        reveal_strlit("3");
        reveal_strlit("4");
        reveal_strlit("5");
        reveal_strlit("6");
        reveal_strlit("7");
        reveal_strlit("8");
        reveal_strlit("9");
        reveal_strlit("A");
        reveal_strlit("B");
        reveal_strlit("C");
        reveal_strlit("D");
        reveal_strlit("E");
        reveal_strlit("F");
    }
    let text = match d {
        0 => "0",
        1 => "1",
        2 => "2",
        3 => "3",
        4 => "4",
        5 => "5",
        6 => "6",
        7 => "7",
        8 => "8",
        9 => "9",
        10 => "A",
        11 => "B",
        12 => "C",
        13 => "D",
        14 => "E",
        _ => "F",
    };
    assert(text@ =~= seq![digit_char(d as int)]);
    text
}

/// Appends a number in upper-case hexadecimal digits, without leading
/// zeros.
pub fn push_hex(text: &mut String, n: u32)
    ensures
        final(text)@ == old(text)@ + hex_text(n as nat),
    decreases n,
{
    if n >= 16 {
        push_hex(text, n / 16);
    }
    text.append(digit_text(n % 16));
    proof {
        if n >= 16 {
            assert(old(text)@ + hex_text((n / 16) as nat) + seq![digit_char((n % 16) as int)]
                =~= old(text)@ + hex_text(n as nat));
        }
    }
}

/// A number in decimal digits, without leading zeros.
pub open spec fn decimal_text(n: nat) -> Seq<char>
    decreases n,
{
    if n < 10 {
        seq![digit_char(n as int)]
    } else {
        decimal_text(n / 10).push(digit_char((n % 10) as int))
    }
}

/// Appends a number in decimal digits, without leading zeros.
pub fn push_decimal(text: &mut String, n: u32)
    ensures
        final(text)@ == old(text)@ + decimal_text(n as nat),
    decreases n,
{
    if n >= 10 {
        push_decimal(text, n / 10);
    }
    text.append(digit_text(n % 10));
    proof {
        if n >= 10 {
            assert(old(text)@ + decimal_text((n / 10) as nat) + seq![digit_char((n % 10) as int)]
                =~= old(text)@ + decimal_text(n as nat));
        }
    }
}

/// The low digits of a number in upper-case hexadecimal, as many as
/// `width` says: the number itself, with leading zeros, if it has no more
/// digits than that.
pub open spec fn hex_fixed(n: nat, width: nat) -> Seq<char>
    decreases width,
{
    if width == 0 {
        Seq::empty()
    } else {
        hex_fixed(n / 16, (width - 1) as nat).push(digit_char((n % 16) as int))
    }
}

/// Appends the low `width` digits of a number in upper-case hexadecimal.
pub fn push_hex_fixed(text: &mut String, n: u32, width: u32)
    ensures
        final(text)@ == old(text)@ + hex_fixed(n as nat, width as nat),
    decreases width,
{
    if width > 0 {
        push_hex_fixed(text, n / 16, width - 1);
        text.append(digit_text(n % 16));
        assert(old(text)@ + hex_fixed((n / 16) as nat, (width - 1) as nat) + seq![
            digit_char((n % 16) as int),
        ] =~= old(text)@ + hex_fixed(n as nat, width as nat));
    } else {
        assert(old(text)@ + hex_fixed(n as nat, 0) =~= old(text)@);
    }
}

/// The UTF-16 units of one character: the character itself where it fits
/// 16 bits, else a high and a low surrogate.
pub open spec fn utf16_of_char(c: char) -> Seq<u16> {
    let v = c as u32;
    if v < 0x1_0000 {
        seq![v as u16]
    } else {
        seq![(0xd800 + (v - 0x1_0000) / 0x400) as u16, (0xdc00 + (v - 0x1_0000) % 0x400) as u16]
    }
}

/// The UTF-16 units of a text.
pub open spec fn utf16_of(chars: Seq<char>) -> Seq<u16>
    decreases chars.len(),
{
    if chars.len() == 0 {
        Seq::empty()
    } else {
        utf16_of(chars.drop_last()) + utf16_of_char(chars.last())
    }
}

/// Encodes a text in UTF-16.
pub fn encode_utf16(text: &str) -> (units: Vec<u16>)
    ensures
        units@ == utf16_of(text@),
{
    let mut units: Vec<u16> = Vec::new();
    let n = text.unicode_len();
    let mut i: usize = 0;
    assert(text@.take(0) =~= Seq::<char>::empty());
    while i < n
        invariant
            n == text@.len(),
            i <= n,
            units@ == utf16_of(text@.take(i as int)),
        decreases n - i,
    {
        let c = text.get_char(i);
        let v: u32 = c as u32;
        proof {
            assert(text@.take(i + 1).drop_last() =~= text@.take(i as int));
            assert(text@.take(i + 1).last() == c);
            vstd::utf8::char_is_scalar(c);
        }
        if v < 0x1_0000 {
            units.push(v as u16);
            assert(units@ =~= utf16_of(text@.take(i as int)) + utf16_of_char(c));
        } else {
            let w: u32 = v - 0x1_0000;
            units.push((0xd800 + w / 0x400) as u16);
            units.push((0xdc00 + w % 0x400) as u16);
            assert(units@ =~= utf16_of(text@.take(i as int)) + utf16_of_char(c));
        }
        i += 1;
    }
    assert(text@.take(i as int) =~= text@);
    units
}

} // verus!
