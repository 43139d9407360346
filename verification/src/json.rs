//! JSON text for plain strings.

use vstd::prelude::*;

verus! {

/// The lower-case hexadecimal digit of a number below sixteen.
pub open spec fn hex_digit(n: u8) -> char {
    if n < 10 {
        (48 + n) as u8 as char
    } else {
        (87 + n) as u8 as char
    }
}

/// What one character of a string is written as inside a JSON string
/// literal: the quotation mark and the backslash behind a backslash; the
/// control characters below the space by their letter where they have one
/// (`b`, `t`, `n`, `f`, `r`), else as `\u00` and two hexadecimal digits;
/// every other character as it is.
pub open spec fn escaped(c: char) -> Seq<char> {
    if c == '"' {
        seq!['\\', '"']
    } else if c == '\\' {
        seq!['\\', '\\']
    } else if c == '\u{8}' {
        seq!['\\', 'b']
    } else if c == '\t' {
        seq!['\\', 't']
    } else if c == '\n' {
        seq!['\\', 'n']
    } else if c == '\u{c}' {
        seq!['\\', 'f']
    } else if c == '\r' {
        seq!['\\', 'r']
    } else if (c as u32) < 0x20 {
        seq!['\\', 'u', '0', '0', hex_digit((c as u8) / 16), hex_digit((c as u8) % 16)]
    } else {
        seq![c]
    }
}

/// The characters of a text, each as it is written inside a JSON string
/// literal.
pub open spec fn escaped_text(text: Seq<char>) -> Seq<char>
    decreases text.len(),
{
    if text.len() == 0 {
        Seq::empty()
    } else {
        escaped_text(text.drop_last()) + escaped(text.last())
    }
}

/// The JSON string literal of a text: the escaped text between quotation
/// marks.
pub open spec fn json_string(text: Seq<char>) -> Seq<char> {
    seq!['"'] + escaped_text(text) + seq!['"']
}

/// Writes `text` as a JSON string literal with `serde_json::to_string`,
/// which puts the text between quotation marks and escapes it by its table
/// of escapes, as `escaped` has it. On a string it fails only where its
/// buffer refuses a write, and the buffer is a vector, which takes every
/// write: so there is always a result.
#[verifier::external_body]
pub(crate) fn quote(text: &str) -> (out: Option<String>)
    ensures
        match out {
            Some(literal) => literal@ == json_string(text@),
            None => false,
        },
{
    serde_json::to_string(text).ok()
}

} // verus!
