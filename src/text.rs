//! Conversions between bytes, characters and strings, whitespace trimming
//! and the reading of decimal numbers.
use vstd::prelude::*;
use vstd::utf8::*;

verus! {

/// Whether `c` has Unicode's White_Space property, which `str::trim` removes.
pub open spec fn is_white_space(c: char) -> bool {
    let u = c as u32;
    ||| 0x9 <= u <= 0xd
    ||| u == 0x20
    ||| u == 0x85
    ||| u == 0xa0
    ||| u == 0x1680
    ||| 0x2000 <= u <= 0x200a
    ||| u == 0x2028
    ||| u == 0x2029
    ||| u == 0x202f
    ||| u == 0x205f
    ||| u == 0x3000
}

/// The text `s` without its leading whitespace.
pub open spec fn trim_front(s: Seq<char>) -> Seq<char>
    decreases s.len(),
{
    if s.len() > 0 && is_white_space(s[0]) {
        trim_front(s.drop_first())
    } else {
        s
    }
}

/// The text `s` without its trailing whitespace.
pub open spec fn trim_back(s: Seq<char>) -> Seq<char>
    decreases s.len(),
{
    if s.len() > 0 && is_white_space(s.last()) {
        trim_back(s.drop_last())
    } else {
        s
    }
}

/// The text `s` without its leading and trailing whitespace.
pub open spec fn trimmed(s: Seq<char>) -> Seq<char> {
    trim_back(trim_front(s))
}

pub open spec fn is_decimal_digit(c: char) -> bool {
    0x30 <= (c as u32) <= 0x39
}

/// The number that the decimal digits `d` denote.
pub open spec fn decimal_value(d: Seq<char>) -> int
    decreases d.len(),
{
    if d.len() == 0 {
        0
    } else {
        decimal_value(d.drop_last()) * 10 + ((d.last() as u32) - 0x30)
    }
}

/// One or more decimal digits.
pub open spec fn all_decimal_digits(d: Seq<char>) -> bool {
    d.len() > 0 && forall|i: int| 0 <= i < d.len() ==> is_decimal_digit(#[trigger] d[i])
}

/// The text `s` without one leading `+`, if it has one.
pub open spec fn unsigned_part(s: Seq<char>) -> Seq<char> {
    if s.len() > 0 && s[0] == '+' {
        s.drop_first()
    } else {
        s
    }
}

/// The `usize` that `s` denotes: an optional `+`, then one or more decimal
/// digits, of a value that fits.
pub open spec fn usize_of_text(s: Seq<char>) -> Option<usize> {
    let d = unsigned_part(s);
    if all_decimal_digits(d) && decimal_value(d) <= usize::MAX {
        Some(decimal_value(d) as usize)
    } else {
        None
    }
}

/// Relies on `String::from_utf8`: it succeeds exactly on valid UTF-8 and then
/// holds the decoded characters.
#[verifier::external_body]
pub(crate) fn decode_utf8_chars(b: &[u8]) -> (r: Option<Vec<char>>)
    ensures
        r is Some <==> valid_utf8(b@),
        r matches Some(v) ==> v@ == decode_utf8(b@),
{
    String::from_utf8(b.to_vec()).ok().map(|s| s.chars().collect())
}

/// Relies on `String`'s `FromIterator<char>`: the characters in their order.
#[verifier::external_body]
pub(crate) fn string_from_chars(v: &[char]) -> (r: String)
    ensures
        r@ == v@,
{
    v.iter().collect()
}

/// Relies on `str::trim`: the text without leading and trailing characters
/// of Unicode's White_Space property.
#[verifier::external_body]
pub(crate) fn trim_text(s: &str) -> (r: String)
    ensures
        r@ == trimmed(s@),
{
    s.trim().to_string()
}

/// Relies on `usize`'s `FromStr`: an optional `+` and decimal digits, with
/// an error on anything else and on overflow.
#[verifier::external_body]
pub(crate) fn parse_usize(s: &str) -> (r: Option<usize>)
    ensures
        r == usize_of_text(s@),
{
    s.parse::<usize>().ok()
}

} // verus!
