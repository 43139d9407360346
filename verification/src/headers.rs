//! HTTP header maps. The map is `http::HeaderMap`; what it holds is named
//! here as a sequence of (name, value) pairs, and the few operations that the
//! library needs are stated over that sequence.

use crate::text::bytes_as_chars;
use http::{HeaderMap, HeaderName, HeaderValue};
use vstd::prelude::*;
use vstd::string::StringSliceAdditionalSpecFns;

verus! {

/// `http::HeaderValue`: the value of one header, carried as it is.
#[verifier::external_type_specification]
#[verifier::external_body]
pub struct ExHeaderValue(HeaderValue);

/// `http::HeaderMap`: the map itself; see `header_entries` for what it
/// holds.
#[verifier::external_type_specification]
#[verifier::external_body]
#[verifier::reject_recursive_types(T)]
pub struct ExHeaderMap<T>(HeaderMap<T>);

/// The (name, value) pairs that a header map holds, in the order in which
/// the map yields them: a name once for each of its values.
pub uninterp spec fn header_entries(map: HeaderMap) -> Seq<(Seq<char>, Seq<u8>)>;

/// A character that a stored header name can hold: visible ASCII, neither a
/// colon nor an upper-case letter.
pub open spec fn is_name_char(c: char) -> bool {
    33 <= c as u32 <= 126 && c != ':' && !('A' <= c <= 'Z')
}

/// A byte that a stored header value can hold: a tab, or anything from the
/// space upward but DEL.
pub open spec fn is_value_byte(b: u8) -> bool {
    b == 9 || (b >= 32 && b != 127)
}

/// What holds of every stored header: the name is not empty and made of name
/// characters, the value of value bytes.
pub open spec fn is_header(entry: (Seq<char>, Seq<u8>)) -> bool {
    &&& entry.0.len() > 0
    &&& forall|i: int| 0 <= i < entry.0.len() ==> is_name_char(#[trigger] entry.0[i])
    &&& forall|i: int| 0 <= i < entry.1.len() ==> is_value_byte(#[trigger] entry.1[i])
}

/// A byte that is visible ASCII text: a tab, or from the space to the tilde.
pub open spec fn is_text_byte(b: u8) -> bool {
    b == 9 || (32 <= b < 127)
}

/// A header value that is text all through.
pub open spec fn is_text(value: Seq<u8>) -> bool {
    forall|i: int| 0 <= i < value.len() ==> is_text_byte(#[trigger] value[i])
}

/// A header value all of whose bytes a stored value can hold.
pub open spec fn is_value(value: Seq<u8>) -> bool {
    forall|i: int| 0 <= i < value.len() ==> is_value_byte(#[trigger] value[i])
}

/// No character of `name` is an upper-case letter.
pub open spec fn is_lower(name: Seq<char>) -> bool {
    forall|i: int| 0 <= i < name.len() ==> !('A' <= #[trigger] name[i] <= 'Z')
}

/// A character of a header name as it is written in lower case: a
/// lower-case letter, a digit, or one of the marks of a token.
pub open spec fn is_token_char(c: char) -> bool {
    ||| 'a' <= c <= 'z'
    ||| '0' <= c <= '9'
    ||| c == '!' || c == '#' || c == '$' || c == '%' || c == '&' || c == '\'' || c == '*'
    ||| c == '+' || c == '-' || c == '.' || c == '^' || c == '_' || c == '`' || c == '|'
    ||| c == '~'
}

/// A header name as it is written in lower case: not empty, and made of
/// token characters.
pub open spec fn is_token(name: Seq<char>) -> bool {
    &&& name.len() > 0
    &&& forall|i: int| 0 <= i < name.len() ==> is_token_char(#[trigger] name[i])
}

/// The longest header name that `http` takes, in bytes.
pub open spec fn longest_name() -> int {
    65535
}

/// A number of entries up to which a header map is sure to take one more.
pub open spec fn roomy() -> int {
    6000
}

/// Some entry carries the name.
pub open spec fn has_name(entries: Seq<(Seq<char>, Seq<u8>)>, name: Seq<char>) -> bool {
    exists|i: int| 0 <= i < entries.len() && (#[trigger] entries[i]).0 == name
}

/// The value of the first entry that carries the name.
pub open spec fn first_value(entries: Seq<(Seq<char>, Seq<u8>)>, name: Seq<char>) -> Option<
    Seq<u8>,
>
    decreases entries.len(),
{
    if entries.len() == 0 {
        None
    } else if entries[0].0 == name {
        Some(entries[0].1)
    } else {
        first_value(entries.drop_first(), name)
    }
}

/// `HeaderMap::new` makes a map that holds nothing.
pub assume_specification[ HeaderMap::<HeaderValue>::new ]() -> (map: HeaderMap<HeaderValue>)
    ensures
        header_entries(map) == Seq::<(Seq<char>, Seq<u8>)>::empty(),
;

/// `HeaderMap::clone`, which derived code provides; nothing is said of it.
pub assume_specification<T: Clone>[ <HeaderMap<T> as Clone>::clone ](
    map: &HeaderMap<T>,
) -> HeaderMap<T>
;

/// Reads the map out through `HeaderMap::iter`: each name by
/// `HeaderName::as_str`, each value by `HeaderValue::as_bytes`. The result is
/// what the map holds, in the map's order, and every pair of it is a header
/// as `http` admits them.
#[verifier::external_body]
pub(crate) fn entries_of(map: &HeaderMap) -> (out: Vec<(String, Vec<u8>)>)
    ensures
        out.deep_view() == header_entries(*map),
        forall|i: int| 0 <= i < out.len() ==> is_header(#[trigger] out.deep_view()[i]),
{
    map.iter().map(|(name, value)| (name.as_str().to_string(), value.as_bytes().to_vec())).collect()
}

/// Looks a name up through `HeaderMap::get`, which returns the first value
/// stored under it; the value is handed out by `HeaderValue::as_bytes`.
/// `get` reads the name asked for as a header name, folding upper case to
/// lower and finding nothing under a text that is no name; so the name is
/// required to be a token in lower case, which `get` takes as it stands.
#[verifier::external_body]
pub(crate) fn value_of(map: &HeaderMap, name: &str) -> (out: Option<Vec<u8>>)
    requires
        is_token(name@),
    ensures
        match out {
            Some(value) => first_value(header_entries(*map), name@) == Some(value@),
            None => first_value(header_entries(*map), name@) is None,
        },
{
    map.get(name).map(|value| value.as_bytes().to_vec())
}

/// Adds a header under a name that the map does not hold yet: the name goes
/// through `HeaderName::from_bytes`, the value through `HeaderValue::from_str`
/// and the pair through `HeaderMap::try_insert`, which puts a new name behind
/// the entries that are there. Where one of the three refuses, nothing
/// changes and the result is `false`. `from_bytes` takes a token of up to
/// 65535 bytes and nothing else that is in lower case; `from_str` takes a
/// text whose bytes are tabs or from the space upward, but DEL, and nothing
/// else; `try_insert` refuses only a map that has grown to thousands of
/// entries, of which 6000 is a bound on the safe side.
#[verifier::external_body]
pub(crate) fn add_header(map: &mut HeaderMap, name: &str, value: &str) -> (done: bool)
    requires
        is_lower(name@),
        !has_name(header_entries(*old(map)), name@),
    ensures
        done ==> header_entries(*final(map)) == header_entries(*old(map)).push(
            (name@, value.spec_bytes()),
        ),
        !done ==> header_entries(*final(map)) == header_entries(*old(map)),
        done ==> is_token(name@) && name@.len() <= longest_name() && is_value(value.spec_bytes()),
        is_token(name@) && name@.len() <= longest_name() && is_value(value.spec_bytes())
            && header_entries(*old(map)).len() < roomy() ==> done,
{
    match (HeaderName::from_bytes(name.as_bytes()), HeaderValue::from_str(value)) {
        (Ok(name), Ok(value)) => map.try_insert(name, value).is_ok(),
        _ => false,
    }
}

/// The text of a header value, which it has where each of its bytes is
/// visible ASCII: the bytes read as characters.
pub fn value_text(value: &Vec<u8>) -> (out: Option<String>)
    ensures
        match out {
            Some(text) => is_text(value@) && text@ == bytes_as_chars(value@),
            None => !is_text(value@),
        },
{
    let mut text = String::new();
    let mut i: usize = 0;
    while i < value.len()
        invariant
            i <= value.len(),
            is_text(value@.take(i as int)),
            text@ == bytes_as_chars(value@.take(i as int)),
        decreases value.len() - i,
    {
        let b = value[i];
        if !(b == 9 || (32 <= b && b < 127)) {
            return None;
        }
        text.push(b as char);
        i += 1;
    }
    assert(value@.take(value.len() as int) =~= value@);
    Some(text)
}

} // verus!
