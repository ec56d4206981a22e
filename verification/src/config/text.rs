//! Texts of a description: names of types, and colour codes.

use vstd::prelude::*;
use vstd::string::StringExecFns;

verus! {

/// What is left of a text once the white space at its two ends is taken
/// off.
pub uninterp spec fn trimmed(text: Seq<char>) -> Seq<char>;

/// The text without the characters `c` at its two ends.
pub open spec fn without(text: Seq<char>, c: char) -> Seq<char>
    decreases text.len(),
{
    if text.len() > 0 && text.first() == c {
        without(text.drop_first(), c)
    } else if text.len() > 0 && text.last() == c {
        without(text.drop_last(), c)
    } else {
        text
    }
}

/// The value of a digit of base sixteen, in either case.
pub open spec fn hex_digit(c: char) -> Option<int> {
    if '0' <= c <= '9' {
        Some(c as int - '0' as int)
    } else if 'a' <= c <= 'f' {
        Some(c as int - 'a' as int + 10)
    } else if 'A' <= c <= 'F' {
        Some(c as int - 'A' as int + 10)
    } else {
        None
    }
}

/// The number that a text of digits of base sixteen stands for; none where
/// the text holds anything else.
pub open spec fn hex_digits(digits: Seq<char>) -> Option<int>
    decreases digits.len(),
{
    if digits.len() == 0 {
        Some(0)
    } else {
        match (hex_digits(digits.drop_last()), hex_digit(digits.last())) {
            (Some(value), Some(digit)) => Some(16 * value + digit),
            _ => None,
        }
    }
}

/// The number below two to the 32 that a text stands for in base sixteen:
/// a plus sign or none, then one digit at least and digits only.
pub open spec fn hex_number(text: Seq<char>) -> Option<u32> {
    let digits = if text.len() > 0 && text.first() == '+' {
        text.drop_first()
    } else {
        text
    };
    if digits.len() == 0 {
        None
    } else {
        match hex_digits(digits) {
            Some(value) => if value <= u32::MAX {
                Some(value as u32)
            } else {
                None
            },
            None => None,
        }
    }
}

/// The letter `c` in upper case, or `c` itself where `c` is no small letter
/// from a to z.
pub open spec fn upper_char(c: char) -> char {
    if 'a' <= c <= 'z' {
        ((c as u8 - 32) as u8) as char
    } else {
        c
    }
}

/// The text with each small letter from a to z in upper case.
pub open spec fn uppercase(text: Seq<char>) -> Seq<char> {
    Seq::new(text.len(), |i: int| upper_char(text[i]))
}

/// `str::trim` of the standard library: the text without the white space at
/// its two ends. Which characters are white space is the standard library's
/// to say; the result is known by its name only.
#[verifier::external_body]
pub(crate) fn trim<'a>(text: &'a str) -> (r: &'a str)
    ensures
        r@ == trimmed(text@),
{
    text.trim()
}

/// `str::trim_matches` of the standard library with one character as its
/// pattern: the text with that character taken off its two ends as often as
/// it stands there.
#[verifier::external_body]
pub(crate) fn trim_matches<'a>(text: &'a str, c: char) -> (r: &'a str)
    ensures
        r@ == without(text@, c),
{
    text.trim_matches(c)
}

/// `u32::from_str_radix` of the standard library for base sixteen: the
/// number that the text stands for, where the text is a plus sign or none
/// and then one digit at least and digits only, and the number is below
/// two to the 32; else nothing.
#[verifier::external_body]
pub(crate) fn parse_hex(text: &str) -> (r: Option<u32>)
    ensures
        r == hex_number(text@),
{
    u32::from_str_radix(text, 16).ok()
}

/// `str::to_ascii_uppercase` of the standard library: a copy of the text
/// with each small letter from a to z in upper case and every other
/// character as it is.
#[verifier::external_body]
pub(crate) fn to_ascii_uppercase(text: &str) -> (r: String)
    ensures
        r@ == uppercase(text@),
{
    text.to_ascii_uppercase()
}

/// Whether the text `upper` is the word `word`.
pub fn is_word(upper: &String, word: &str) -> (r: bool)
    ensures
        r == (upper@ == word@),
{
    let wanted = String::from_str(word);
    *upper == wanted
}

} // verus!
