//! Text forms of numbers and bytes.

use vstd::prelude::*;

verus! {

/// Texts as mathematical values.
pub open spec fn texts_view(texts: Seq<String>) -> Seq<Seq<char>> {
    Seq::new(texts.len(), |i: int| texts[i]@)
}

/// The character of a digit below ten.
pub open spec fn digit_char(d: nat) -> char {
    ((48 + d) as u8) as char
}

/// The lower-case character of a digit below sixteen.
pub open spec fn hex_digit_char(d: nat) -> char {
    if d < 10 {
        ((48 + d) as u8) as char
    } else {
        ((87 + d) as u8) as char
    }
}

/// A number in decimal, without leading zeros.
pub open spec fn decimal_text(n: nat) -> Seq<char>
    decreases n,
{
    if n < 10 {
        seq![digit_char(n)]
    } else {
        decimal_text(n / 10).push(digit_char(n % 10))
    }
}

/// Bytes in lower-case hexadecimal, two characters for each byte.
pub open spec fn hex_text(bytes: Seq<u8>) -> Seq<char> {
    Seq::new(
        2 * bytes.len(),
        |i: int|
            hex_digit_char(
                if i % 2 == 0 {
                    (bytes[i / 2] / 16) as nat
                } else {
                    (bytes[i / 2] % 16) as nat
                },
            ),
    )
}

/// A decimal digit.
pub open spec fn is_digit(c: char) -> bool {
    '0' <= c <= '9'
}

/// One or more decimal digits.
pub open spec fn is_decimal(text: Seq<char>) -> bool {
    text.len() > 0 && forall|i: int| 0 <= i < text.len() ==> is_digit(#[trigger] text[i])
}

/// The number that decimal digits spell.
pub open spec fn decimal_value(text: Seq<char>) -> nat
    decreases text.len(),
{
    if text.len() == 0 {
        0
    } else {
        decimal_value(text.drop_last()) * 10 + ((text.last() as u32 - 48) as nat)
    }
}

/// The text without the one `+` that may stand in front of a number.
pub open spec fn without_plus(text: Seq<char>) -> Seq<char> {
    if text.len() > 0 && text[0] == '+' {
        text.drop_first()
    } else {
        text
    }
}

/// A text that can be read as a `usize`: decimal digits, with or without a
/// `+` in front, that spell a number within the type's range.
pub open spec fn is_usize_text(text: Seq<char>) -> bool {
    is_decimal(without_plus(text)) && decimal_value(without_plus(text)) <= usize::MAX
}

/// The description that the standard library gives of its refusal to read a
/// text as a `usize`.
pub uninterp spec fn usize_refusal(text: Seq<char>) -> Seq<char>;

/// What reading a text as a `usize` gives: the number that it spells, or the
/// description `refusal` if it spells none.
pub open spec fn usize_reading(text: Seq<char>, refusal: Seq<char>) -> Result<usize, Seq<char>> {
    if is_usize_text(text) {
        Ok(decimal_value(without_plus(text)) as usize)
    } else {
        Err(refusal)
    }
}

/// What reading a text gave, as a mathematical value.
pub open spec fn reading_view(r: Result<usize, String>) -> Result<usize, Seq<char>> {
    match r {
        Ok(n) => Ok(n),
        Err(description) => Err(description@),
    }
}

/// Calls `str::parse::<usize>`. The contract claims what the standard
/// library documents: the text is read exactly when it is decimal digits
/// after an optional `+` and the number fits, and the result is that number.
/// The description of a refusal is named.
#[verifier::external_body]
pub(crate) fn parse_usize(text: &str) -> (r: Result<usize, String>)
    ensures
        reading_view(r) == usize_reading(text@, usize_refusal(text@)),
{
    text.parse::<usize>().map_err(|e| e.to_string())
}

/// Calls `hex::encode`, which writes each byte as two lower-case
/// hexadecimal digits.
#[verifier::external_body]
pub(crate) fn hex_encode(bytes: &[u8]) -> (text: String)
    ensures
        text@ == hex_text(bytes@),
{
    hex::encode(bytes)
}

/// Calls `String::push`.
#[verifier::external_body]
pub(crate) fn push_char(text: &mut String, c: char)
    ensures
        final(text)@ == old(text)@.push(c),
{
    text.push(c)
}

/// `n` in decimal.
pub fn decimal(n: usize) -> (text: String)
    ensures
        text@ == decimal_text(n as nat),
    decreases n,
{
    if n < 10 {
        let mut text = String::new();
        push_char(&mut text, (48u8 + n as u8) as char);
        text
    } else {
        let mut text = decimal(n / 10);
        push_char(&mut text, (48u8 + (n % 10) as u8) as char);
        text
    }
}

} // verus!
