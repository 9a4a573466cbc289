use vstd::prelude::*;
use vstd::string::{StrSliceExecFns, StringExecFns};
use vstd::utf8::is_ascii_chars;
use crate::errors::{content_of, Error, ErrorView};
use crate::marshal::text_in;
use crate::value::{required, type_mismatch, ValueView};

verus! {

/// `hex::FromHexError`, the reason for which a text is not hexadecimal. It
/// is carried through and never looked into.
#[verifier::external_type_specification]
#[verifier::external_body]
pub struct ExFromHexError(hex::FromHexError);

/// The value of one hexadecimal digit, given as its ASCII code: `0` to `9`,
/// `a` to `f` or `A` to `F`.
pub open spec fn hex_value(b: u8) -> Option<u8> {
    if 48 <= b <= 57 {
        Some((b - 48) as u8)
    } else if 97 <= b <= 102 {
        Some((b - 87) as u8)
    } else if 65 <= b <= 70 {
        Some((b - 55) as u8)
    } else {
        None
    }
}

/// A text is hexadecimal when it holds an even number of digits and nothing
/// else.
pub open spec fn is_hex_text(text: Seq<u8>) -> bool {
    text.len() % 2 == 0 && forall|i: int| 0 <= i < text.len() ==> hex_value(#[trigger] text[i]) is Some
}

/// The bytes that a hexadecimal text spells, two digits to the byte, the
/// high digit first.
pub open spec fn hex_decoded(text: Seq<u8>) -> Seq<u8> {
    Seq::new(
        text.len() / 2,
        |i: int| (hex_value(text[2 * i])->Some_0 * 16 + hex_value(text[2 * i + 1])->Some_0) as u8,
    )
}

/// Decodes a hexadecimal text with `hex::FromHex::from_hex` for `Vec<u8>`.
///
/// That function succeeds exactly on an even number of hexadecimal digits,
/// upper or lower case, and then returns one byte for each pair of digits,
/// the first digit of the pair being the high half of the byte.
#[verifier::external_body]
fn from_hex(text: &[u8]) -> (r: Result<Vec<u8>, hex::FromHexError>)
    ensures
        r is Ok <==> is_hex_text(text@),
        r is Ok ==> r->Ok_0@ == hex_decoded(text@),
{
    hex::FromHex::from_hex(text)
}

/// Where the first colon stands, or the length where there is none.
pub open spec fn colon_at(s: Seq<char>) -> nat
    decreases s.len(),
{
    if s.len() == 0 || s[0] == ':' {
        0
    } else {
        1 + colon_at(s.drop_first())
    }
}

/// What stands before the first colon.
pub open spec fn first_segment(s: Seq<char>) -> Seq<char> {
    s.take(colon_at(s) as int)
}

/// What stands after the first colon, if there is one.
pub open spec fn after_first_colon(s: Seq<char>) -> Option<Seq<char>> {
    if colon_at(s) < s.len() {
        Some(s.skip(colon_at(s) as int + 1))
    } else {
        None
    }
}

/// The number that four hexadecimal digits spell.
pub open spec fn field_value(chars: Seq<char>) -> Option<u32> {
    let text = Seq::new(chars.len(), |i: int| chars[i] as u8);
    if chars.len() == 4 && is_ascii_chars(chars) && is_hex_text(text) {
        Some((hex_decoded(text)[0] * 256 + hex_decoded(text)[1]) as u32)
    } else {
        None
    }
}

/// A hardware identifier has the form `source:vHHHHpHHHHdHHHH`, where each
/// `H` is a hexadecimal digit. It is read as the source, which stands before
/// the first colon, and the three numbers at the fixed places of the segment
/// that follows: vendor, product and device. A text without a colon, with a
/// second segment of fewer than fifteen characters, or with anything but
/// digits at those places has no reading.
pub open spec fn modalias_of(s: Seq<char>) -> Option<(Seq<char>, u32, u32, u32)> {
    match after_first_colon(s) {
        Some(rest) => {
            let ids = first_segment(rest);
            if ids.len() < 15 {
                None
            } else {
                match (
                    field_value(ids.subrange(1, 5)),
                    field_value(ids.subrange(6, 10)),
                    field_value(ids.subrange(11, 15)),
                ) {
                    (Some(vendor), Some(product), Some(device)) => Some(
                        (first_segment(s), vendor, product, device),
                    ),
                    _ => None,
                }
            }
        },
        None => None,
    }
}

/// An answer read as a hardware identifier.
pub open spec fn modalias_in(answer: Result<ValueView, ErrorView>) -> Result<
    (Seq<char>, u32, u32, u32),
    ErrorView,
> {
    match text_in(answer) {
        Ok(text) => required(modalias_of(text)),
        Err(e) => Err(e),
    }
}

proof fn colon_found(s: Seq<char>, k: int)
    requires
        0 <= k <= s.len(),
        forall|j: int| 0 <= j < k ==> s[j] != ':',
        k == s.len() || s[k] == ':',
    ensures
        colon_at(s) == k,
    decreases k,
{
    if k > 0 {
        let rest = s.drop_first();
        assert forall|j: int| 0 <= j < k - 1 implies rest[j] != ':' by {
            assert(rest[j] == s[j + 1]);
        }
        colon_found(rest, k - 1);
    }
}

/// Finds the first colon at or after `from`.
fn colon_from(s: &str, from: usize, len: usize) -> (at: usize)
    requires
        len == s@.len(),
        from <= len,
    ensures
        from <= at <= len,
        at - from == colon_at(s@.skip(from as int)),
{
    let mut i: usize = from;
    while i < len && s.get_char(i) != ':'
        invariant
            from <= i <= len,
            len == s@.len(),
            forall|j: int| from <= j < i ==> s@[j] != ':',
        decreases len - i,
    {
        i += 1;
    }
    proof {
        colon_found(s@.skip(from as int), i - from);
    }
    i
}

/// Reads four hexadecimal digits as a number.
fn hex_field(field: &str) -> (r: Option<u32>)
    requires
        field@.len() == 4,
    ensures
        r == field_value(field@),
{
    if !field.is_ascii() {
        return None;
    }
    let text = field.as_bytes();
    proof {
        vstd::string::is_ascii_spec_bytes(field);
        assert(text@ =~= Seq::new(field@.len(), |i: int| field@[i] as u8));
    }
    match from_hex(text) {
        Ok(bytes) => {
            assert(bytes@.len() == 2);
            let high: u32 = bytes[0] as u32;
            let low: u32 = bytes[1] as u32;
            Some(high * 16 * 16 + low)
        },
        Err(_) => None,
    }
}

/// Reads a hardware identifier of the form `source:vHHHHpHHHHdHHHH` as its
/// source, vendor, product and device. A text of another form is a type
/// mismatch.
pub fn parse_modalias(m: &str) -> (r: Result<(String, u32, u32, u32), Error>)
    ensures
        content_of(r) == required(modalias_of(m@)),
{
    let len = m.unicode_len();
    let first = colon_from(m, 0, len);
    assert(m@.skip(0) =~= m@);
    if first >= len {
        return Err(type_mismatch());
    }
    let end = colon_from(m, first + 1, len);
    let ids = m.substring_char(first + 1, end);
    proof {
        let rest = m@.skip(first + 1);
        assert(ids@ =~= first_segment(rest));
    }
    if end - (first + 1) < 15 {
        return Err(type_mismatch());
    }
    let vendor = hex_field(ids.substring_char(1, 5));
    let product = hex_field(ids.substring_char(6, 10));
    let device = hex_field(ids.substring_char(11, 15));
    match (vendor, product, device) {
        (Some(vendor), Some(product), Some(device)) => {
            let source = String::from_str(m.substring_char(0, first));
            assert(source@ =~= first_segment(m@));
            Ok((source, vendor, product, device))
        },
        _ => Err(type_mismatch()),
    }
}

} // verus!
