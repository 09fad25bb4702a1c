//! HTTP headers as the capture reads and writes them.

use vstd::prelude::*;
use vstd::string::*;

use crate::media::{is_event_stream, names_event_stream};
use crate::text::{append_bytes, append_text, utf8};

verus! {

/// The header collection of the `http` crate. Its contents are what `header_entries` names.
#[verifier::external_type_specification]
#[verifier::external_body]
#[verifier::reject_recursive_types(T)]
pub struct ExHeaderMap<T>(http::HeaderMap<T>);

/// The header value type of the `http` crate, which `http::HeaderMap` holds.
#[verifier::external_type_specification]
#[verifier::external_body]
pub struct ExHeaderValue(http::HeaderValue);

/// What a header map holds: name and value of each header, in the order in which
/// `HeaderMap::iter` visits them.
pub uninterp spec fn header_entries(headers: http::HeaderMap<http::HeaderValue>) -> Seq<(Seq<char>, Seq<u8>)>;

/// One header: its lower-case name and the raw bytes of its value.
pub struct HeaderLine {
    pub name: String,
    pub value: Vec<u8>,
}

impl View for HeaderLine {
    type V = (Seq<char>, Seq<u8>);

    open spec fn view(&self) -> (Seq<char>, Seq<u8>) {
        (self.name@, self.value@)
    }
}

/// The headers that a list of lines stands for.
pub open spec fn line_views(lines: Seq<HeaderLine>) -> Seq<(Seq<char>, Seq<u8>)> {
    lines.map_values(|line: HeaderLine| line@)
}

/// A header of this name is among the entries.
pub open spec fn has_header(entries: Seq<(Seq<char>, Seq<u8>)>, name: Seq<char>) -> bool {
    exists|i: int| 0 <= i < entries.len() && (#[trigger] entries[i]).0 == name
}

/// The value of the first header of this name.
pub open spec fn first_value(
    entries: Seq<(Seq<char>, Seq<u8>)>,
    name: Seq<char>,
) -> Option<Seq<u8>>
    decreases entries.len(),
{
    if entries.len() == 0 {
        None
    } else if entries[0].0 == name {
        Some(entries[0].1)
    } else {
        first_value(entries.drop_first(), name)
    }
}

/// `HeaderMap::iter`: every name and value pair, in the map's own order.
#[verifier::external_body]
fn header_lines(headers: &http::HeaderMap<http::HeaderValue>) -> (lines: Vec<HeaderLine>)
    ensures
        line_views(lines@) == header_entries(*headers),
{
    headers.iter().map(
        |(name, value)| HeaderLine { name: name.as_str().to_string(), value: value.as_bytes().to_vec() },
    ).collect()
}

/// `HeaderMap::keys`: every name that occurs in the map, once each.
#[verifier::external_body]
fn header_names(headers: &http::HeaderMap<http::HeaderValue>) -> (names: Vec<String>)
    ensures
        text_views(names@).no_duplicates(),
        forall|name: Seq<char>| #[trigger]
            text_views(names@).contains(name) <==> has_header(header_entries(*headers), name),
{
    headers.keys().map(|name| name.as_str().to_string()).collect()
}

/// `HeaderMap::get` by a lower-case name: the first value under that name, in the order of
/// `HeaderMap::iter`. The lookup parses the name first, so only plain names are admitted.
#[verifier::external_body]
fn header_value(headers: &http::HeaderMap<http::HeaderValue>, name: &str) -> (value: Option<Vec<u8>>)
    requires
        is_plain_name(name@),
    ensures
        bytes_view(value) == first_value(header_entries(*headers), name@),
{
    headers.get(name).map(|value| value.as_bytes().to_vec())
}

/// The texts that a list of strings holds.
pub open spec fn text_views(texts: Seq<String>) -> Seq<Seq<char>> {
    texts.map_values(|text: String| text@)
}

/// The bytes in an optional buffer.
pub open spec fn bytes_view(value: Option<Vec<u8>>) -> Option<Seq<u8>> {
    match value {
        Some(bytes) => Some(bytes@),
        None => None,
    }
}

/// A header name of lower-case letters and hyphens, at most 64 of them.
pub open spec fn is_plain_name(name: Seq<char>) -> bool {
    &&& 0 < name.len() <= 64
    &&& forall|i: int|
        0 <= i < name.len() ==> 'a' <= #[trigger] name[i] <= 'z' || name[i] == '-'
}

/// The bytes of one header line.
pub open spec fn header_line(entry: (Seq<char>, Seq<u8>)) -> Seq<u8> {
    utf8(entry.0) + utf8(": "@) + entry.1 + utf8("\r\n"@)
}

/// The bytes of all header lines, in order.
pub open spec fn header_block(entries: Seq<(Seq<char>, Seq<u8>)>) -> Seq<u8>
    decreases entries.len(),
{
    if entries.len() == 0 {
        Seq::empty()
    } else {
        header_block(entries.drop_last()) + header_line(entries.last())
    }
}

/// The first content type among the entries names an event stream.
pub open spec fn declares_event_stream(entries: Seq<(Seq<char>, Seq<u8>)>) -> bool {
    match first_value(entries, "content-type"@) {
        Some(value) => names_event_stream(value),
        None => false,
    }
}

/// Adds header lines at the end of a buffer.
pub fn append_header_lines(output: &mut Vec<u8>, lines: &Vec<HeaderLine>)
    ensures
        final(output)@ == old(output)@ + header_block(line_views(lines@)),
{
    let ghost entries = line_views(lines@);
    for i in 0..lines.len()
        invariant
            entries == line_views(lines@),
            output@ == old(output)@ + header_block(entries.take(i as int)),
    {
        append_text(output, lines[i].name.as_str());
        append_text(output, ": ");
        append_bytes(output, lines[i].value.as_slice());
        append_text(output, "\r\n");
        proof {
            let upto = entries.take(i + 1);
            assert(upto.drop_last() =~= entries.take(i as int));
            assert(upto.last() == lines@[i as int]@);
            assert(output@ =~= old(output)@ + header_block(upto));
        }
    }
    assert(entries.take(lines@.len() as int) =~= entries);
}

/// Adds every header of a map at the end of a buffer, one line each.
pub fn append_headers(output: &mut Vec<u8>, headers: &http::HeaderMap<http::HeaderValue>)
    ensures
        final(output)@ == old(output)@ + header_block(header_entries(*headers)),
{
    let lines = header_lines(headers);
    append_header_lines(output, &lines);
}

/// Whether a header of this name is in the map.
pub fn names_header(headers: &http::HeaderMap<http::HeaderValue>, name: &str) -> (found: bool)
    ensures
        found == has_header(header_entries(*headers), name@),
{
    let names = header_names(headers);
    let wanted = name.to_string();
    for i in 0..names.len()
        invariant
            wanted@ == name@,
            forall|j: int| 0 <= j < i ==> (#[trigger] names@[j])@ != name@,
            forall|n: Seq<char>| #[trigger]
                text_views(names@).contains(n) <==> has_header(header_entries(*headers), n),
    {
        if names[i] == wanted {
            assert(text_views(names@)[i as int] == name@);
            assert(text_views(names@).contains(name@));
            return true;
        }
    }
    assert(!text_views(names@).contains(name@));
    false
}

/// Whether a response with these headers is an event stream: the first content type names one.
pub fn is_event_stream_response(headers: &http::HeaderMap<http::HeaderValue>) -> (named: bool)
    ensures
        named == declares_event_stream(header_entries(*headers)),
{
    proof {
        reveal_strlit("content-type");
    }
    match header_value(headers, "content-type") {
        Some(value) => is_event_stream(value.as_slice()),
        None => false,
    }
}

} // verus!
