//! What every call comes to: how what it was given relates to what it gives back or leaves.

use vstd::prelude::*;
use vstd::string::*;
use vstd::utf8::*;

use crate::body::{
    aggregated_section, aggregation_error, aggregation_note, append_aggregated,
    append_aggregation_error, append_noted_body, append_response_body, is_body_section,
    is_noted_section, outcome_view,
};
use crate::capture::{end_marker, HttpCapture, PendingRecord};
use crate::header_laws::{are_completing, law_request_is_completed};
use crate::headers::{
    append_header_lines, append_headers, declares_event_stream, header_block, header_entries,
    is_event_stream_response, line_views, names_header, HeaderLine,
};
use crate::record_laws::{
    is_failure_section, is_made_of, law_head_is_captured_whole, law_missing_aggregator_is_written,
    law_ordinary_body_is_written, lemma_failure_section,
};
use crate::request::{append_decimal, append_request_headers};
use crate::text::{append_bytes, append_text, nat_text, on_one_line, push_decimal, text_view};
use crate::text_laws::{
    is_flattened, is_numeral, law_number_is_read_back, lemma_flattened, number_of,
};

verus! {

/// What is appended stands whole behind what was there.
pub proof fn law_appended_behind(
    bytes_output: &mut Vec<u8>,
    bytes: &[u8],
    text_output: &mut Vec<u8>,
    text: &str,
    number_output: &mut Vec<u8>,
    number: u64,
    line: &mut String,
)
    requires
        call_ensures(append_bytes, (bytes_output, bytes), ()),
        call_ensures(append_text, (text_output, text), ()),
        call_ensures(append_decimal, (number_output, number), ()),
        call_ensures(push_decimal, (line, number), ()),
    ensures
        final(bytes_output)@ == old(bytes_output)@ + bytes@,
        final(text_output)@ == old(text_output)@ + encode_utf8(text@),
        exists|digits: Seq<char>|
            {
                &&& #[trigger] is_numeral(digits)
                &&& number_of(digits) == number
                &&& final(number_output)@ == old(number_output)@ + encode_utf8(digits)
                &&& final(line)@ == old(line)@ + digits
            },
{
    law_number_is_read_back(number as nat);
    assert(is_numeral(nat_text(number as nat)));
}

/// All headers of a map are written behind what was there, and so are all of a list.
pub proof fn law_headers_appended(
    output: &mut Vec<u8>,
    headers: &http::HeaderMap<http::HeaderValue>,
    lines_output: &mut Vec<u8>,
    lines: &Vec<HeaderLine>,
)
    requires
        call_ensures(append_headers, (output, headers), ()),
        call_ensures(append_header_lines, (lines_output, lines), ()),
    ensures
        final(output)@ == old(output)@ + header_block(header_entries(*headers)),
        exists|entries: Seq<(Seq<char>, Seq<u8>)>|
            {
                &&& entries.len() == lines@.len()
                &&& forall|i: int|
                    0 <= i < lines@.len() ==> (#[trigger] entries[i]).0 == lines@[i].name@
                        && entries[i].1 == lines@[i].value@
                &&& final(lines_output)@ == old(lines_output)@ + #[trigger] header_block(entries)
            },
{
    let entries = line_views(lines@);
    assert(final(lines_output)@ == old(lines_output)@ + header_block(entries));
}

/// A header is found exactly where one of that name is in the map, and a response is an event
/// stream exactly where its first content type says so.
pub proof fn law_headers_read(
    headers: &http::HeaderMap<http::HeaderValue>,
    name: &str,
    found: bool,
    is_stream: bool,
)
    requires
        call_ensures(names_header, (headers, name), found),
        call_ensures(is_event_stream_response, (headers,), is_stream),
    ensures
        found <==> exists|i: int|
            0 <= i < header_entries(*headers).len() && (#[trigger] header_entries(*headers)[i]).0
                == name@,
        is_stream <==> declares_event_stream(header_entries(*headers)),
{
}

/// The header section of a request is appended whole: its headers, and the lines that complete
/// it.
pub proof fn law_request_headers_appended(
    output: &mut Vec<u8>,
    url: &str,
    headers: &http::HeaderMap<http::HeaderValue>,
    body_len: usize,
)
    requires
        call_ensures(append_request_headers, (output, url, headers, body_len), ()),
    ensures
        exists|host_part: Seq<u8>, length_part: Seq<u8>|
            {
                &&& #[trigger] are_completing(
                    host_part,
                    length_part,
                    url@,
                    header_entries(*headers),
                    body_len as nat,
                )
                &&& final(output)@ == old(output)@ + (header_block(header_entries(*headers))
                    + host_part + length_part)
            },
{
    law_request_is_completed(url@, header_entries(*headers), body_len as nat);
}

/// The head of a response is taken in whole where it is the first, and not at all after another
/// or after the end.
pub proof fn law_begun_response<F: Fn(&str) -> Result<serde_json::Value, String>>(
    capture: &mut HttpCapture<F>,
    status: u16,
    headers: &http::HeaderMap<http::HeaderValue>,
)
    requires
        call_ensures(HttpCapture::<F>::begin_response, (capture, status, headers), ()),
    ensures
        old(capture)@.response_started || old(capture)@.finished ==> final(capture)@
            == old(capture)@,
        !old(capture)@.response_started && !old(capture)@.finished ==> {
            &&& final(capture)@ == old(capture)@.with_head(status, header_entries(*headers))
            &&& final(capture)@.response_status == Some(status)
            &&& final(capture)@.response_started
            &&& final(capture)@.response_is_sse == declares_event_stream(header_entries(*headers))
        },
        final(capture).aggregator() == old(capture).aggregator(),
{
    if !old(capture)@.response_started && !old(capture)@.finished {
        law_head_is_captured_whole(old(capture)@, status, header_entries(*headers));
    }
}

/// A piece of the body is taken in whole until the end, and nothing is after it.
pub proof fn law_appended_piece<F: Fn(&str) -> Result<serde_json::Value, String>>(
    capture: &mut HttpCapture<F>,
    piece: &[u8],
)
    requires
        call_ensures(HttpCapture::<F>::append_response_body, (capture, piece), ()),
    ensures
        old(capture)@.finished ==> final(capture)@ == old(capture)@,
        !old(capture)@.finished ==> {
            &&& final(capture)@.response_body == old(capture)@.response_body + piece@
            &&& final(capture)@.data == old(capture)@.data
            &&& final(capture)@.response_is_sse == old(capture)@.response_is_sse
            &&& final(capture)@.response_started == old(capture)@.response_started
            &&& final(capture)@.response_status == old(capture)@.response_status
            &&& final(capture)@.id == old(capture)@.id
            &&& final(capture)@.timestamp == old(capture)@.timestamp
            &&& !final(capture)@.finished
        },
        final(capture).aggregator() == old(capture).aggregator(),
{
}

/// What an ending does to a capture, and what it hands out: everything that was taken in, with
/// its result, once.
pub open spec fn is_ended<F: Fn(&str) -> Result<serde_json::Value, String>>(
    before: HttpCapture<F>,
    after: HttpCapture<F>,
    pending: Option<PendingRecord<F>>,
    result: Seq<char>,
) -> bool {
    &&& after@.finished
    &&& after@.id == before@.id
    &&& after@.timestamp == before@.timestamp
    &&& after@.response_status == before@.response_status
    &&& before@.finished ==> pending is None
    &&& !before@.finished ==> (pending matches Some(pending) && pending@.data == before@.data
        && pending@.response_body == before@.response_body && pending@.response_is_sse
        == before@.response_is_sse && pending@.result == result && pending.aggregator()
        == before.aggregator())
}

/// Every way to end a capture hands out the same, but for the result: the words of the caller, or
/// that the exchange is complete, or the whole error on one line, or that it is incomplete.
pub proof fn law_endings<F: Fn(&str) -> Result<serde_json::Value, String>>(
    ended: &mut HttpCapture<F>,
    result: &str,
    ended_with: Option<PendingRecord<F>>,
    finished: &mut HttpCapture<F>,
    finished_with: Option<PendingRecord<F>>,
    failed: &mut HttpCapture<F>,
    error: &str,
    failed_with: Option<PendingRecord<F>>,
    dropped: &mut HttpCapture<F>,
    dropped_with: Option<PendingRecord<F>>,
)
    requires
        call_ensures(HttpCapture::<F>::finish_with_result, (ended, result), ended_with),
        call_ensures(HttpCapture::<F>::finish, (finished,), finished_with),
        call_ensures(HttpCapture::<F>::finish_with_error, (failed, error), failed_with),
        call_ensures(HttpCapture::<F>::abandon, (dropped,), dropped_with),
    ensures
        is_ended(*old(ended), *final(ended), ended_with, result@),
        is_ended(*old(finished), *final(finished), finished_with, "complete"@),
        exists|line: Seq<char>|
            #[trigger] is_flattened(line, error@) && is_ended(
                *old(failed),
                *final(failed),
                failed_with,
                "error: "@ + line,
            ),
        is_ended(*old(dropped), *final(dropped), dropped_with, "incomplete"@),
{
    lemma_flattened(error@);
    let line = on_one_line(error@);
    assert(is_flattened(line, error@));
    assert(is_ended(*old(failed), *final(failed), failed_with, "error: "@ + line));
}

/// A rendered record holds what was handed out, and an ordinary body whole.
pub proof fn law_rendered<F: Fn(&str) -> Result<serde_json::Value, String>>(
    pending: &PendingRecord<F>,
    record: Vec<u8>,
    noted: (Vec<u8>, Option<String>),
)
    requires
        pending.wf(),
        call_ensures(PendingRecord::<F>::render, (pending,), record),
        call_ensures(PendingRecord::<F>::render_noted, (pending,), noted),
    ensures
        pending@.is_record(pending.aggregator(), record@),
        pending@.is_noted_record(pending.aggregator(), noted.0@, text_view(noted.1)),
        !pending@.response_is_sse ==> {
            &&& is_made_of(record@, pending@.data, pending@.response_body, pending@.result)
            &&& noted.0@ == record@
            &&& noted.1 is None
        },
        pending@.response_is_sse && pending.aggregator() is None ==> exists|section: Seq<u8>|
            #[trigger] is_failure_section(section, "no SSE aggregator configured"@) && is_made_of(
                record@,
                pending@.data,
                section,
                pending@.result,
            ),
{
    if !pending@.response_is_sse {
        let section = choose|section: Seq<u8>|
            #[trigger] is_noted_section(
                section,
                text_view(noted.1),
                pending@.response_body,
                false,
                pending.aggregator(),
            ) && noted.0@ == pending@.data + section + end_marker(pending@.result);
        assert(text_view(noted.1) is None);
        law_ordinary_body_is_written(pending@, pending.aggregator(), record@);
        law_ordinary_body_is_written(pending@, pending.aggregator(), noted.0@);
    } else if pending.aggregator() is None {
        law_missing_aggregator_is_written::<F>(pending@, record@, None);
    }
}

/// What is written for an event stream: the document whole, or one line with the whole error, and
/// that error as a note.
pub proof fn law_aggregation_written(
    output: &mut Vec<u8>,
    outcome: &Result<Vec<u8>, String>,
    failed_output: &mut Vec<u8>,
    error: &str,
    note: Option<String>,
)
    requires
        call_ensures(append_aggregated, (output, outcome), ()),
        call_ensures(append_aggregation_error, (failed_output, error), ()),
        call_ensures(aggregation_note, (outcome,), note),
    ensures
        match *outcome {
            Ok(document) => final(output)@ == old(output)@ + document@ && note is None,
            Err(cause) => {
                &&& exists|section: Seq<u8>|
                    #[trigger] is_failure_section(section, cause@) && final(output)@ == old(output)@ + section
                &&& note matches Some(line) && is_flattened(line@, cause@)
            },
        },
        exists|section: Seq<u8>|
            #[trigger] is_failure_section(section, error@) && final(failed_output)@ == old(failed_output)@ + section,
{
    lemma_failure_section(error@);
    assert(is_failure_section(aggregation_error(error@), error@));
    if let Err(cause) = *outcome {
        lemma_failure_section(cause@);
        lemma_flattened(cause@);
        assert(aggregated_section(outcome_view(*outcome)) == aggregation_error(cause@));
        assert(is_failure_section(aggregation_error(cause@), cause@));
    }
}

/// An ordinary body is appended whole, and an event stream that nothing aggregates is never.
pub proof fn law_body_appended<F: Fn(&str) -> Result<serde_json::Value, String>>(
    output: &mut Vec<u8>,
    noted_output: &mut Vec<u8>,
    body: &[u8],
    is_sse: bool,
    aggregator: &Option<F>,
    note: Option<String>,
)
    requires
        call_ensures(append_response_body::<F>, (output, body, is_sse, aggregator), ()),
        call_ensures(append_noted_body::<F>, (noted_output, body, is_sse, aggregator), note),
    ensures
        !is_sse ==> {
            &&& final(output)@ == old(output)@ + body@
            &&& final(noted_output)@ == old(noted_output)@ + body@
            &&& note is None
        },
        is_sse && *aggregator is None ==> {
            &&& exists|section: Seq<u8>|
                #[trigger] is_failure_section(section, "no SSE aggregator configured"@) && final(output)@ == old(output)@ + section
            &&& exists|section: Seq<u8>|
                #[trigger] is_failure_section(section, "no SSE aggregator configured"@) && final(noted_output)@ == old(noted_output)@ + section
        },
{
    let section = choose|section: Seq<u8>|
        final(output)@ == old(output)@ + section && #[trigger] is_body_section(
            section,
            body@,
            is_sse,
            *aggregator,
        );
    let noted = choose|section: Seq<u8>|
        final(noted_output)@ == old(noted_output)@ + section && #[trigger] is_noted_section(
            section,
            text_view(note),
            body@,
            is_sse,
            *aggregator,
        );
    lemma_failure_section("no SSE aggregator configured"@);
    assert(is_body_section(section, body@, is_sse, *aggregator));
    assert(is_noted_section(noted, text_view(note), body@, is_sse, *aggregator));
}

} // verus!
