//! Text helpers: the models of the text operations the library relies on, and
//! the calls that perform them.

use vstd::prelude::*;
use itertools::Itertools;

verus! {

/// Whether `c` has the Unicode `White_Space` property.
pub open spec fn is_white_space(c: char) -> bool {
    let n = c as u32;
    ||| 0x09 <= n <= 0x0D
    ||| n == 0x20
    ||| n == 0x85
    ||| n == 0xA0
    ||| n == 0x1680
    ||| 0x2000 <= n <= 0x200A
    ||| n == 0x2028
    ||| n == 0x2029
    ||| n == 0x202F
    ||| n == 0x205F
    ||| n == 0x3000
}

/// `s` without its leading white space.
pub open spec fn trimmed_start(s: Seq<char>) -> Seq<char>
    decreases s.len(),
{
    if s.len() > 0 && is_white_space(s[0]) {
        trimmed_start(s.skip(1))
    } else {
        s
    }
}

/// `s` without its trailing white space.
pub open spec fn trimmed_end(s: Seq<char>) -> Seq<char>
    decreases s.len(),
{
    if s.len() > 0 && is_white_space(s.last()) {
        trimmed_end(s.drop_last())
    } else {
        s
    }
}

/// `s` without its leading and trailing white space.
pub open spec fn trimmed(s: Seq<char>) -> Seq<char> {
    trimmed_end(trimmed_start(s))
}

/// The character of one decimal digit.
pub open spec fn digit_char(d: nat) -> char
    recommends
        d < 10,
{
    (48 + d) as char
}

/// The decimal digits of `n`, most significant first, without padding.
pub open spec fn decimal_digits(n: nat) -> Seq<char>
    decreases n,
{
    if n < 10 {
        seq![digit_char(n)]
    } else {
        decimal_digits(n / 10).push(digit_char(n % 10))
    }
}

/// The texts of `items` in order, with `sep` between each two neighbours.
pub open spec fn joined(items: Seq<Seq<char>>, sep: Seq<char>) -> Seq<char>
    decreases items.len(),
{
    if items.len() == 0 {
        Seq::empty()
    } else if items.len() == 1 {
        items[0]
    } else {
        joined(items.drop_last(), sep) + sep + items.last()
    }
}

/// The items in order, with `sep` as an item of its own between each two
/// neighbours.
pub open spec fn interspersed(items: Seq<Seq<char>>, sep: Seq<char>) -> Seq<Seq<char>>
    decreases items.len(),
{
    if items.len() <= 1 {
        items
    } else {
        interspersed(items.drop_last(), sep).push(sep).push(items.last())
    }
}

/// The texts one behind the other.
pub open spec fn concatenated(items: Seq<Seq<char>>) -> Seq<char>
    decreases items.len(),
{
    if items.len() == 0 {
        Seq::empty()
    } else {
        concatenated(items.drop_last()) + items.last()
    }
}

/// The text filled up with spaces at its end to `width` characters; a text
/// that is as long or longer stays as it is.
pub open spec fn padded(text: Seq<char>, width: nat) -> Seq<char> {
    if text.len() >= width {
        text
    } else {
        text + Seq::new((width - text.len()) as nat, |i: int| ' ')
    }
}

/// The text filled up with zeros at its front to `width` characters; a text
/// that is as long or longer stays as it is.
pub open spec fn zero_filled(text: Seq<char>, width: nat) -> Seq<char> {
    if text.len() >= width {
        text
    } else {
        Seq::new((width - text.len()) as nat, |i: int| '0') + text
    }
}

/// The decimal digits of a number, behind a minus sign where it is negative.
pub open spec fn signed_decimal(n: int) -> Seq<char> {
    if n < 0 {
        seq!['-'] + decimal_digits((-n) as nat)
    } else {
        decimal_digits(n as nat)
    }
}

/// The views of a vector of strings.
pub open spec fn texts_of(items: Seq<String>) -> Seq<Seq<char>> {
    items.map_values(|s: String| s@)
}

/// Whether `c` is one of the ten decimal digits.
pub open spec fn is_digit(c: char) -> bool {
    48 <= c as u32 <= 57
}

/// The number that a run of decimal digits writes.
pub open spec fn digits_value(s: Seq<char>) -> int
    decreases s.len(),
{
    if s.len() == 0 {
        0
    } else {
        digits_value(s.drop_last()) * 10 + (s.last() as u32 - 48)
    }
}

/// The number that a text writes in decimal: an optional sign, `+` or `-`,
/// and then one digit or more, and nothing else. Other texts write none.
pub open spec fn number_value(s: Seq<char>) -> Option<int> {
    let signed = s.len() > 0 && (s[0] == '-' || s[0] == '+');
    let digits = if signed {
        s.skip(1)
    } else {
        s
    };
    if digits.len() == 0 || !(forall|i: int| 0 <= i < digits.len() ==> is_digit(#[trigger] digits[i])) {
        None
    } else if signed && s[0] == '-' {
        Some(-digits_value(digits))
    } else {
        Some(digits_value(digits))
    }
}

/// The 64-bit number that a text writes, if it writes one that fits.
pub open spec fn parsed_number(s: Seq<char>) -> Option<i64> {
    match number_value(s) {
        Some(value) => if i64::MIN <= value <= i64::MAX {
            Some(value as i64)
        } else {
            None
        },
        None => None,
    }
}

/// The message with which the parsing of a text as a 64-bit number fails.
pub uninterp spec fn number_error_text(s: Seq<char>) -> Seq<char>;

/// The text that Rust's `Debug` formatting shows for a string: quoted, with
/// the characters that need it escaped.
pub uninterp spec fn debug_quoted(s: Seq<char>) -> Seq<char>;

/// Calls `str::trim`, which returns the text without the leading and trailing
/// characters that have the `White_Space` property.
#[verifier::external_body]
pub(crate) fn trim_text(s: &str) -> (r: String)
    ensures
        r@ == trimmed(s@),
{
    s.trim().to_string()
}

/// Formats an unsigned number with `Display`, which writes its decimal digits.
#[verifier::external_body]
pub(crate) fn decimal_text(n: usize) -> (r: String)
    ensures
        r@ == decimal_digits(n as nat),
{
    format!("{}", n)
}

/// Formats a signed number with `Display`, which writes a minus sign before
/// the decimal digits of a negative number.
#[verifier::external_body]
pub(crate) fn signed_decimal_text(n: i64) -> (r: String)
    ensures
        r@ == signed_decimal(n as int),
{
    format!("{}", n)
}

/// Formats a text with a width and the `<` alignment, which fills it up with
/// spaces at its end; the width counts characters. Formatting holds a width
/// in 16 bits and panics on a larger one, so the width is taken in 16 bits.
#[verifier::external_body]
pub(crate) fn pad_text(text: &str, width: u16) -> (r: String)
    ensures
        r@ == padded(text@, width as nat),
{
    format!("{:<1$}", text, width as usize)
}

/// Formats a text with a width, the fill `0` and the `>` alignment, which
/// fills it up with zeros at its front; the width counts characters.
/// Formatting holds a width in 16 bits and panics on a larger one, so the
/// width is taken in 16 bits.
#[verifier::external_body]
pub(crate) fn zero_fill_text(text: &str, width: u16) -> (r: String)
    ensures
        r@ == zero_filled(text@, width as nat),
{
    format!("{:0>1$}", text, width as usize)
}

/// Calls `Itertools::intersperse`, which hands the items on in order and puts
/// a clone of `sep` between each two neighbours.
#[verifier::external_body]
pub(crate) fn intersperse_texts(items: Vec<String>, sep: String) -> (r: Vec<String>)
    ensures
        texts_of(r@) == interspersed(texts_of(items@), sep@),
{
    Itertools::intersperse(items.into_iter(), sep).collect()
}

/// Formats a string with `Debug`; the result depends on the characters alone.
#[verifier::external_body]
pub(crate) fn debug_text(s: &str) -> (r: String)
    ensures
        r@ == debug_quoted(s@),
{
    format!("{:?}", s)
}

/// Calls `str::parse::<i64>`, which reads an optional sign and then decimal
/// digits only, and fails on an empty text, on any other character and on a
/// number that does not fit. A failure is handed on as its message.
#[verifier::external_body]
pub(crate) fn parse_number(text: &str) -> (r: Result<i64, String>)
    ensures
        r is Ok <==> parsed_number(text@) is Some,
        r matches Ok(n) ==> parsed_number(text@) == Some(n),
        r matches Err(message) ==> message@ == number_error_text(text@),
{
    match text.parse::<i64>() {
        Ok(n) => Ok(n),
        Err(e) => Err(format!("{}", e)),
    }
}

/// Calls `Itertools::join`, which writes the items in order and puts `sep`
/// between each two neighbours.
#[verifier::external_body]
pub(crate) fn join_texts(items: &Vec<String>, sep: &str) -> (r: String)
    ensures
        r@ == joined(texts_of(items@), sep@),
{
    items.iter().join(sep)
}

} // verus!
