//! The payload of a record: the header block, a blank line, and the body.
//! A payload is made from headers whose values are text, and reads back as
//! what it was made of.

use crate::error::Error;
use crate::headers::{is_header, is_name_char, is_text, is_text_byte, value_text};
use crate::text::{bytes_as_chars, chars_as_bytes, chars_of, joined, lemma_joined_push, occurs_at};
use vstd::prelude::*;

verus! {

/// Carriage return and line feed, which end a line.
pub open spec fn crlf() -> Seq<char> {
    seq!['\r', '\n']
}

/// The line of one header: name, colon, space, value.
pub open spec fn header_line(entry: (Seq<char>, Seq<u8>)) -> Seq<char> {
    entry.0 + seq![':', ' '] + bytes_as_chars(entry.1)
}

/// The lines of the entries, in their order.
pub open spec fn header_lines(entries: Seq<(Seq<char>, Seq<u8>)>) -> Seq<Seq<char>> {
    Seq::new(entries.len(), |i: int| header_line(entries[i]))
}

/// The header block: the lines of the entries with a line end between each
/// two, and none behind the last.
pub open spec fn header_block(entries: Seq<(Seq<char>, Seq<u8>)>) -> Seq<char> {
    joined(header_lines(entries), crlf())
}

/// The payload of a record: header block, blank line, body.
pub open spec fn record_payload(entries: Seq<(Seq<char>, Seq<u8>)>, body: Seq<u8>) -> Seq<u8> {
    chars_as_bytes(header_block(entries) + crlf() + crlf()) + body
}

/// Every value of the entries is text.
pub open spec fn all_text(entries: Seq<(Seq<char>, Seq<u8>)>) -> bool {
    forall|i: int| 0 <= i < entries.len() ==> is_text((#[trigger] entries[i]).1)
}

/// Entry `at` is the first whose value is not text.
pub open spec fn first_not_text(entries: Seq<(Seq<char>, Seq<u8>)>, at: int) -> bool {
    &&& 0 <= at < entries.len()
    &&& !is_text(entries[at].1)
    &&& all_text(entries.take(at))
}

/// The four bytes of a blank line: the end of one line, and the end of an
/// empty one.
pub open spec fn blank_line() -> Seq<u8> {
    seq![13u8, 10u8, 13u8, 10u8]
}

/// The first blank line of `payload` starts at `at`.
pub open spec fn first_blank_line(payload: Seq<u8>, at: int) -> bool {
    &&& occurs_at(payload, blank_line(), at)
    &&& forall|p: int| 0 <= p < at ==> !occurs_at(payload, blank_line(), p)
}

/// What a payload reads back as: the bytes before its first blank line,
/// which are the header block, and the bytes behind it, which are the body.
/// A payload without a blank line reads back as nothing.
pub open spec fn payload_parts(payload: Seq<u8>) -> Option<(Seq<u8>, Seq<u8>)> {
    if exists|at: int| first_blank_line(payload, at) {
        let at = choose|at: int| first_blank_line(payload, at);
        Some((payload.take(at), payload.skip(at + 4)))
    } else {
        None
    }
}

/// The payload reads back as the header block of the entries and the body,
/// byte for byte.
pub open spec fn reads_back(
    payload: Seq<u8>,
    entries: Seq<(Seq<char>, Seq<u8>)>,
    body: Seq<u8>,
) -> bool {
    payload_parts(payload) == Some((chars_as_bytes(header_block(entries)), body))
}

/// The pairs of a list of headers as texts and byte sequences.
pub open spec fn pairs_of(pairs: Seq<(String, Vec<u8>)>) -> Seq<(Seq<char>, Seq<u8>)> {
    Seq::new(pairs.len(), |i: int| (pairs[i].0@, pairs[i].1@))
}

/// The pairs that `entries_of` hands out are the entries of the map.
pub(crate) proof fn lemma_pairs(pairs: Vec<(String, Vec<u8>)>)
    ensures
        pairs_of(pairs@) == pairs.deep_view(),
{
    assert(pairs_of(pairs@) =~~= pairs.deep_view());
}

/// Renders the headers to their block, or names the first header whose
/// value is not text.
pub(crate) fn block_of(pairs: &Vec<(String, Vec<u8>)>) -> (out: Result<Vec<char>, Error>)
    ensures
        match out {
            Ok(block) => all_text(pairs_of(pairs@)) && block@ == header_block(pairs_of(pairs@)),
            Err(Error::HeaderNotText(name)) => exists|at: int|
                first_not_text(pairs_of(pairs@), at) && name@ == pairs_of(pairs@)[at].0,
            Err(_) => false,
        },
{
    let ghost entries = pairs_of(pairs@);
    let mut block: Vec<char> = Vec::new();
    let mut i: usize = 0;
    while i < pairs.len()
        invariant
            i <= pairs.len(),
            entries == pairs_of(pairs@),
            all_text(entries.take(i as int)),
            block@ == joined(header_lines(entries).take(i as int), crlf()),
        decreases pairs.len() - i,
    {
        let name = &pairs[i].0;
        let value = &pairs[i].1;
        let text = match value_text(value) {
            Some(text) => text,
            None => {
                assert(first_not_text(entries, i as int));
                return Err(Error::HeaderNotText(name.clone()));
            },
        };
        proof {
            lemma_joined_push(
                header_lines(entries).take(i as int),
                crlf(),
                header_line(entries[i as int]),
            );
            assert(header_lines(entries).take(i + 1) =~= header_lines(entries).take(i as int).push(
                header_line(entries[i as int]),
            ));
        }
        if i > 0 {
            block.push('\r');
            block.push('\n');
        }
        let mut name_chars = chars_of(name.as_str());
        block.append(&mut name_chars);
        block.push(':');
        block.push(' ');
        let mut value_chars = chars_of(text.as_str());
        block.append(&mut value_chars);
        i += 1;
    }
    assert(entries.take(pairs.len() as int) =~= entries);
    assert(header_lines(entries).take(pairs.len() as int) =~= header_lines(entries));
    Ok(block)
}

/// The payload for a list of headers and a body.
pub(crate) fn payload_of(pairs: &Vec<(String, Vec<u8>)>, body: &[u8]) -> (out: Result<
    Vec<u8>,
    Error,
>)
    ensures
        match out {
            Ok(payload) => all_text(pairs_of(pairs@)) && payload@ == record_payload(
                pairs_of(pairs@),
                body@,
            ),
            Err(Error::HeaderNotText(name)) => exists|at: int|
                first_not_text(pairs_of(pairs@), at) && name@ == pairs_of(pairs@)[at].0,
            Err(_) => false,
        },
{
    let mut block = match block_of(pairs) {
        Ok(block) => block,
        Err(e) => { return Err(e); },
    };
    block.push('\r');
    block.push('\n');
    block.push('\r');
    block.push('\n');
    let mut payload: Vec<u8> = Vec::new();
    let mut i: usize = 0;
    while i < block.len()
        invariant
            i <= block.len(),
            payload@ == chars_as_bytes(block@.take(i as int)),
        decreases block.len() - i,
    {
        payload.push(block[i] as u8);
        i += 1;
    }
    let ghost lead = payload@;
    let mut k: usize = 0;
    while k < body.len()
        invariant
            k <= body.len(),
            payload@ == lead + body@.take(k as int),
        decreases body.len() - k,
    {
        payload.push(body[k]);
        k += 1;
    }
    Ok(payload)
}

/// Whether the blank line stands in `payload` at `at`.
fn blank_line_at(payload: &[u8], at: usize) -> (out: bool)
    ensures
        out == occurs_at(payload@, blank_line(), at as int),
{
    if payload.len() < 4 || at > payload.len() - 4 {
        return false;
    }
    let found = payload[at] == 13 && payload[at + 1] == 10 && payload[at + 2] == 13 && payload[at
        + 3] == 10;
    proof {
        if found {
            assert(payload@.subrange(at as int, at + 4) =~= blank_line());
        }
    }
    found
}

/// Reads a payload back: the header block and the body, parted at the
/// first blank line.
pub fn read_payload(payload: &[u8]) -> (out: Option<(Vec<u8>, Vec<u8>)>)
    ensures
        match out {
            Some((block, body)) => payload_parts(payload@) == Some((block@, body@)),
            None => payload_parts(payload@) is None,
        },
{
    let mut at: usize = 0;
    while at < payload.len()
        invariant
            at <= payload.len(),
            forall|p: int| 0 <= p < at ==> !occurs_at(payload@, blank_line(), p),
        decreases payload.len() - at,
    {
        if blank_line_at(payload, at) {
            assert(first_blank_line(payload@, at as int));
            let mut block: Vec<u8> = Vec::new();
            let mut i: usize = 0;
            while i < at
                invariant
                    i <= at <= payload.len(),
                    block@ == payload@.take(i as int),
                decreases at - i,
            {
                block.push(payload[i]);
                i += 1;
            }
            let mut body: Vec<u8> = Vec::new();
            let mut k: usize = at + 4;
            while k < payload.len()
                invariant
                    at + 4 <= k <= payload.len(),
                    body@ == payload@.skip(at + 4).take(k - (at + 4)),
                decreases payload.len() - k,
            {
                body.push(payload[k]);
                k += 1;
            }
            return Some((block, body));
        }
        at += 1;
    }
    assert(forall|c: int| !first_blank_line(payload@, c));
    None
}

/// A text in which every carriage return is followed by a line feed and
/// then by a character that is no carriage return, all within the text; and
/// whose characters are ASCII.
pub open spec fn is_block_text(block: Seq<char>) -> bool {
    &&& forall|i: int|
        0 <= i < block.len() && #[trigger] block[i] == '\r' ==> i + 2 < block.len() && block[i
            + 1] == '\n' && block[i + 2] != '\r'
    &&& forall|i: int| 0 <= i < block.len() ==> (#[trigger] block[i]) as u32 <= 127
}

/// Among the ASCII characters, only the carriage return is written as
/// byte 13.
proof fn lemma_carriage_return(c: char)
    requires
        c as u32 <= 127,
    ensures
        c as u8 == 13u8 <==> c == '\r',
{
}

/// The line of a header whose value is text holds no carriage return, is
/// ASCII, and is not empty.
proof fn lemma_line(entry: (Seq<char>, Seq<u8>))
    requires
        is_header(entry),
        is_text(entry.1),
    ensures
        header_line(entry).len() > 0,
        forall|i: int|
            0 <= i < header_line(entry).len() ==> (#[trigger] header_line(entry)[i]) != '\r'
                && header_line(entry)[i] as u32 <= 127,
{
    let line = header_line(entry);
    let name = entry.0.len() as int;
    assert forall|i: int| 0 <= i < line.len() implies (#[trigger] line[i]) != '\r' && line[i] as u32
        <= 127 by {
        if i < name {
            assert(is_name_char(entry.0[i]));
        } else if i >= name + 2 {
            assert(is_text_byte(entry.1[i - name - 2]));
        }
    }
}

/// The header block of headers whose values are text is a block text; where
/// there is a header, it starts with a character that is no carriage
/// return.
proof fn lemma_block(entries: Seq<(Seq<char>, Seq<u8>)>)
    requires
        forall|i: int| 0 <= i < entries.len() ==> is_header(#[trigger] entries[i]),
        all_text(entries),
    ensures
        is_block_text(header_block(entries)),
        entries.len() > 0 ==> header_block(entries).len() > 0 && header_block(entries)[0] != '\r',
    decreases entries.len(),
{
    if entries.len() > 0 {
        let before = entries.drop_last();
        let line = header_line(entries.last());
        lemma_block(before);
        lemma_line(entries.last());
        assert(header_lines(entries).drop_last() =~= header_lines(before));
        if entries.len() > 1 {
            let head = header_block(before);
            let block = header_block(entries);
            assert(block == head + crlf() + line);
            assert forall|i: int| 0 <= i < block.len() && #[trigger] block[i] == '\r' implies i + 2
                < block.len() && block[i + 1] == '\n' && block[i + 2] != '\r' by {
                if i < head.len() {
                    assert(head[i] == '\r');
                } else {
                    assert(i == head.len());
                }
            }
        }
    }
}

/// A payload reads back as what it was made of: the header block and the
/// body come out byte for byte, whatever the body holds, for every list of
/// headers whose values are text.
pub proof fn lemma_payload_round_trip(entries: Seq<(Seq<char>, Seq<u8>)>, body: Seq<u8>)
    requires
        forall|i: int| 0 <= i < entries.len() ==> is_header(#[trigger] entries[i]),
        all_text(entries),
    ensures
        payload_parts(record_payload(entries, body)) == Some(
            (chars_as_bytes(header_block(entries)), body),
        ),
{
    let block = header_block(entries);
    let payload = record_payload(entries, body);
    let n = block.len() as int;
    lemma_block(entries);
    assert(payload.subrange(n, n + 4) =~= blank_line());
    assert forall|p: int| 0 <= p < n implies !occurs_at(payload, blank_line(), p) by {
        if occurs_at(payload, blank_line(), p) {
            let window = payload.subrange(p, p + 4);
            assert(window[0] == 13u8 && window[2] == 13u8);
            lemma_carriage_return(block[p]);
            lemma_carriage_return(block[p + 2]);
        }
    }
    assert(first_blank_line(payload, n));
}

} // verus!
