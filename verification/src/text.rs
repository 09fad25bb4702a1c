//! Text and byte building blocks: UTF-8 appends, one-line text and decimal numbers.

use vstd::prelude::*;
use vstd::string::*;
use vstd::utf8::*;

verus! {

/// `String::push`: the character is added at the end.
pub assume_specification[ String::push ](text: &mut String, character: char)
    ensures
        final(text)@ == old(text)@.push(character),
;

/// The UTF-8 bytes of a text.
pub open spec fn utf8(text: Seq<char>) -> Seq<u8> {
    encode_utf8(text)
}

/// What `single_line` puts in place of one character.
pub open spec fn flattened(character: char) -> char {
    if character == '\r' || character == '\n' || character == '\t' {
        ' '
    } else {
        character
    }
}

/// A text with its line breaks and tabs replaced by spaces.
pub open spec fn on_one_line(text: Seq<char>) -> Seq<char> {
    text.map_values(|character: char| flattened(character))
}

/// The text holds no carriage return, line feed or tab.
pub open spec fn is_one_line(text: Seq<char>) -> bool {
    forall|i: int|
        0 <= i < text.len() ==> text[i] != '\r' && text[i] != '\n' && #[trigger] text[i] != '\t'
}

/// The decimal digit of a number below ten.
pub open spec fn digit(n: nat) -> char {
    (48 + n) as u8 as char
}

/// A natural number in decimal, without leading zeros.
pub open spec fn nat_text(n: nat) -> Seq<char>
    decreases n,
{
    if n < 10 {
        seq![digit(n)]
    } else {
        nat_text(n / 10).push(digit(n % 10))
    }
}

/// An integer in decimal, with a minus sign where it is negative.
pub open spec fn int_text(n: int) -> Seq<char> {
    if n < 0 {
        "-"@ + nat_text((-n) as nat)
    } else {
        nat_text(n as nat)
    }
}

/// The view of a phrase that may be missing.
pub open spec fn phrase_view(phrase: Option<&str>) -> Option<Seq<char>> {
    match phrase {
        Some(phrase) => Some(phrase@),
        None => None,
    }
}

/// The view of a text that may be missing.
pub open spec fn text_view(text: Option<String>) -> Option<Seq<char>> {
    match text {
        Some(text) => Some(text@),
        None => None,
    }
}

/// Adds bytes at the end of a buffer.
pub fn append_bytes(output: &mut Vec<u8>, bytes: &[u8])
    ensures
        final(output)@ == old(output)@ + bytes@,
{
    output.extend_from_slice(bytes);
    assert(output@ =~= old(output)@ + bytes@);
}

/// Adds the UTF-8 bytes of a text at the end of a buffer.
pub fn append_text(output: &mut Vec<u8>, text: &str)
    ensures
        final(output)@ == old(output)@ + utf8(text@),
{
    append_bytes(output, text.as_bytes());
}

/// A text with its line breaks and tabs replaced by spaces.
pub fn single_line(value: &str) -> (line: String)
    ensures
        line@ == on_one_line(value@),
{
    let mut line = String::new();
    for character in characters: value.chars()
        invariant
            characters.seq() == value@,
            line@ == on_one_line(value@.take(characters.index())),
    {
        proof {
            let done = value@.take(characters.index());
            assert(value@.take(characters.index() + 1) =~= done.push(character));
            assert(on_one_line(done.push(character)) =~= on_one_line(done).push(
                flattened(character),
            ));
        }
        line.push(
            if character == '\r' || character == '\n' || character == '\t' {
                ' '
            } else {
                character
            },
        );
    }
    assert(value@.take(value@.len() as int) =~= value@);
    line
}

/// Adds a number in decimal at the end of a text.
pub fn push_decimal(text: &mut String, n: u64)
    ensures
        final(text)@ == old(text)@ + nat_text(n as nat),
    decreases n,
{
    if n >= 10 {
        push_decimal(text, n / 10);
    }
    let last: u8 = 48 + (n % 10) as u8;
    text.push(last as char);
    assert(text@ =~= old(text)@ + nat_text(n as nat));
}

/// A signed number in decimal.
pub fn decimal(n: i64) -> (text: String)
    ensures
        text@ == int_text(n as int),
{
    let mut text = String::new();
    if n < 0 {
        text.append("-");
        let magnitude: u64 = (-(n + 1)) as u64 + 1;
        push_decimal(&mut text, magnitude);
    } else {
        push_decimal(&mut text, n as u64);
    }
    assert(text@ =~= int_text(n as int));
    text
}

} // verus!
