//! What the record of an exchange holds, byte for byte, whatever the exchange was.

use vstd::prelude::*;
use vstd::string::*;
use vstd::utf8::*;

use crate::body::{
    aggregated_section, aggregation_error, answer_outcome, failure_note, is_body_section,
    is_noted_section, json_document, lossy_text, repaired_text,
};
use crate::capture::{
    end_marker, is_random_uuid, is_utc_timestamp, request_section, status_reason, CaptureView,
    HttpCapture, PendingView,
};
use crate::headers::{declares_event_stream, header_block, header_entries};
use crate::request::request_header_block;
use crate::text::{nat_text, on_one_line};
use crate::text_laws::{is_flattened, is_numeral, law_number_is_read_back, lemma_flattened, number_of};

verus! {

/// What a started capture has written: the line that opens the record, the request line, the
/// header section, an empty line, the body whole, and the line behind which the response comes.
/// So the body is read back from the record as it was sent.
pub proof fn law_request_is_captured_whole<F: Fn(&str) -> Result<serde_json::Value, String>>(
    id: String,
    timestamp: String,
    method: &str,
    url: &str,
    headers: &http::HeaderMap<http::HeaderValue>,
    body: &[u8],
    sse_aggregator: Option<F>,
    capture: HttpCapture<F>,
)
    requires
        call_ensures(
            HttpCapture::<F>::start_as,
            (id, timestamp, method, url, headers, body, sse_aggregator),
            capture,
        ),
    ensures
        capture@.id == id@,
        capture@.timestamp == timestamp@,
        !capture@.finished,
        !capture@.response_started,
        !capture@.response_is_sse,
        capture@.response_status is None,
        capture@.response_body.len() == 0,
        ({
            let opening = encode_utf8("===== HTTP CAPTURE id="@) + encode_utf8(id@) + encode_utf8(
                " timestamp="@,
            ) + encode_utf8(timestamp@) + encode_utf8(" =====\r\n"@) + encode_utf8(
                "----- REQUEST -----\r\n"@,
            ) + encode_utf8(method@) + encode_utf8(" "@) + encode_utf8(url@) + encode_utf8(
                " HTTP/1.1\r\n"@,
            );
            let section = request_header_block(url@, header_entries(*headers), body@.len());
            let closing = encode_utf8("\r\n"@) + encode_utf8("----- RESPONSE -----\r\n"@);
            let data = capture@.data;
            let end = data.len() - closing.len();
            &&& data == opening + section + encode_utf8("\r\n"@) + body@ + closing
            &&& 0 <= end - body@.len()
            &&& data.subrange(end - body@.len(), end) == body@
            &&& data.skip(end) == closing
        }),
{
    lemma_request_section(
        id@,
        timestamp@,
        method@,
        url@,
        header_entries(*headers),
        body@,
    );
}

/// A capture that is started now has written the same, with an id and a time of its own.
pub proof fn law_new_capture_is_whole<F: Fn(&str) -> Result<serde_json::Value, String>>(
    method: &str,
    url: &str,
    headers: &http::HeaderMap<http::HeaderValue>,
    body: &[u8],
    sse_aggregator: Option<F>,
    capture: HttpCapture<F>,
    id: &str,
    timestamp: &str,
)
    requires
        call_ensures(
            HttpCapture::<F>::start,
            (method, url, headers, body, sse_aggregator),
            capture,
        ),
        call_ensures(HttpCapture::<F>::id, (&capture,), id),
        call_ensures(HttpCapture::<F>::timestamp, (&capture,), timestamp),
    ensures
        is_random_uuid(id@),
        is_utc_timestamp(timestamp@),
        capture@.id == id@,
        capture@.timestamp == timestamp@,
        !capture@.finished,
        !capture@.response_started,
        !capture@.response_is_sse,
        capture@.response_status is None,
        capture@.response_body.len() == 0,
        capture.aggregator() == sse_aggregator,
        ({
            let opening = encode_utf8("===== HTTP CAPTURE id="@) + encode_utf8(id@) + encode_utf8(
                " timestamp="@,
            ) + encode_utf8(timestamp@) + encode_utf8(" =====\r\n"@) + encode_utf8(
                "----- REQUEST -----\r\n"@,
            ) + encode_utf8(method@) + encode_utf8(" "@) + encode_utf8(url@) + encode_utf8(
                " HTTP/1.1\r\n"@,
            );
            let section = request_header_block(url@, header_entries(*headers), body@.len());
            let closing = encode_utf8("\r\n"@) + encode_utf8("----- RESPONSE -----\r\n"@);
            let data = capture@.data;
            let end = data.len() - closing.len();
            &&& data == opening + section + encode_utf8("\r\n"@) + body@ + closing
            &&& 0 <= end - body@.len()
            &&& data.subrange(end - body@.len(), end) == body@
            &&& data.skip(end) == closing
        }),
{
    lemma_request_section(
        id@,
        timestamp@,
        method@,
        url@,
        header_entries(*headers),
        body@,
    );
}

proof fn lemma_request_section(
    id: Seq<char>,
    timestamp: Seq<char>,
    method: Seq<char>,
    url: Seq<char>,
    entries: Seq<(Seq<char>, Seq<u8>)>,
    body: Seq<u8>,
)
    ensures
        ({
            let opening = encode_utf8("===== HTTP CAPTURE id="@) + encode_utf8(id) + encode_utf8(
                " timestamp="@,
            ) + encode_utf8(timestamp) + encode_utf8(" =====\r\n"@) + encode_utf8(
                "----- REQUEST -----\r\n"@,
            ) + encode_utf8(method) + encode_utf8(" "@) + encode_utf8(url) + encode_utf8(
                " HTTP/1.1\r\n"@,
            );
            let section = request_header_block(url, entries, body.len());
            let closing = encode_utf8("\r\n"@) + encode_utf8("----- RESPONSE -----\r\n"@);
            let data = request_section(id, timestamp, method, url, entries, body);
            let end = data.len() - closing.len();
            &&& data == opening + section + encode_utf8("\r\n"@) + body + closing
            &&& 0 <= end - body.len()
            &&& data.subrange(end - body.len(), end) == body
            &&& data.skip(end) == closing
        }),
{
    let opening = encode_utf8("===== HTTP CAPTURE id="@) + encode_utf8(id) + encode_utf8(
        " timestamp="@,
    ) + encode_utf8(timestamp) + encode_utf8(" =====\r\n"@) + encode_utf8(
        "----- REQUEST -----\r\n"@,
    ) + encode_utf8(method) + encode_utf8(" "@) + encode_utf8(url) + encode_utf8(
        " HTTP/1.1\r\n"@,
    );
    let section = request_header_block(url, entries, body.len());
    let closing = encode_utf8("\r\n"@) + encode_utf8("----- RESPONSE -----\r\n"@);
    let head = opening + section + encode_utf8("\r\n"@);
    let data = request_section(id, timestamp, method, url, entries, body);
    assert(data =~= head + body + closing);
    let end = data.len() - closing.len();
    assert(data.subrange(end - body.len(), end) =~= body);
    assert(data.skip(end) =~= closing);
}

/// The first head of a response is written behind what is there: the status in digits, its
/// phrase where it has one, every header, and an empty line. Nothing else changes but what is
/// noted of the head.
pub proof fn law_head_is_captured_whole(
    capture: CaptureView,
    status: u16,
    entries: Seq<(Seq<char>, Seq<u8>)>,
)
    requires
        !capture.response_started,
        !capture.finished,
    ensures
        ({
            let after = capture.with_head(status, entries);
            &&& after.response_started
            &&& after.response_status == Some(status)
            &&& after.response_is_sse == declares_event_stream(entries)
            &&& after.id == capture.id
            &&& after.timestamp == capture.timestamp
            &&& after.response_body == capture.response_body
            &&& !after.finished
            &&& exists|digits: Seq<char>|
                {
                    &&& #[trigger] is_numeral(digits)
                    &&& number_of(digits) == status
                    &&& after.data == capture.data + encode_utf8("HTTP/1.1 "@) + encode_utf8(
                        digits,
                    ) + (match status_reason(status) {
                        Some(phrase) => encode_utf8(" "@) + encode_utf8(phrase),
                        None => Seq::<u8>::empty(),
                    }) + encode_utf8("\r\n"@) + header_block(entries) + encode_utf8("\r\n"@)
                }
        }),
{
    let digits = nat_text(status as nat);
    law_number_is_read_back(status as nat);
    assert(is_numeral(digits));
    assert(capture.with_head(status, entries).data =~= capture.data + encode_utf8("HTTP/1.1 "@)
        + encode_utf8(digits) + (match status_reason(status) {
        Some(phrase) => encode_utf8(" "@) + encode_utf8(phrase),
        None => Seq::<u8>::empty(),
    }) + encode_utf8("\r\n"@) + header_block(entries) + encode_utf8("\r\n"@));
}

/// A piece of the body is kept whole, behind the pieces before it, and nothing else changes.
pub proof fn law_body_is_captured_whole(capture: CaptureView, piece: Seq<u8>)
    requires
        !capture.finished,
    ensures
        ({
            let after = capture.with_body(piece);
            &&& after.response_body.len() == capture.response_body.len() + piece.len()
            &&& after.response_body.take(capture.response_body.len() as int)
                == capture.response_body
            &&& after.response_body.skip(capture.response_body.len() as int) == piece
            &&& after.id == capture.id
            &&& after.timestamp == capture.timestamp
            &&& after.data == capture.data
            &&& after.response_is_sse == capture.response_is_sse
            &&& after.response_started == capture.response_started
            &&& after.response_status == capture.response_status
            &&& !after.finished
        }),
{
    let after = capture.with_body(piece);
    assert(after.response_body.take(capture.response_body.len() as int) =~= capture.response_body);
    assert(after.response_body.skip(capture.response_body.len() as int) =~= piece);
}

/// An ending hands out all that was taken in, with its result, and keeps what the capture is
/// known by.
pub proof fn law_ending_hands_out_all(capture: CaptureView, result: Seq<char>)
    ensures
        capture.ending(result).data == capture.data,
        capture.ending(result).response_body == capture.response_body,
        capture.ending(result).response_is_sse == capture.response_is_sse,
        capture.ending(result).result == result,
        capture.closed().finished,
        capture.closed().id == capture.id,
        capture.closed().timestamp == capture.timestamp,
        capture.closed().response_status == capture.response_status,
{
}

/// A record is made of what came before the body, a section for the body, and the line that ends
/// it with this result.
pub open spec fn is_made_of(
    record: Seq<u8>,
    data: Seq<u8>,
    section: Seq<u8>,
    result: Seq<char>,
) -> bool {
    record == data + section + encode_utf8("\r\n----- HTTP CAPTURE END "@) + encode_utf8(result)
        + encode_utf8(" -----\r\n"@)
}

/// A section that says that an event stream could not be aggregated, with the error on one line.
pub open spec fn is_failure_section(section: Seq<u8>, error: Seq<char>) -> bool {
    exists|line: Seq<char>|
        {
            &&& #[trigger] is_flattened(line, error)
            &&& section == encode_utf8("[SSE response aggregation failed: "@) + encode_utf8(line)
                + encode_utf8("]"@)
        }
}

/// A failure has one section.
pub proof fn lemma_failure_section(error: Seq<char>)
    ensures
        is_failure_section(aggregation_error(error), error),
        forall|section: Seq<u8>| #[trigger]
            is_failure_section(section, error) ==> section == aggregation_error(error),
{
    lemma_flattened(error);
    assert(is_flattened(on_one_line(error), error));
}

proof fn lemma_made_of(record: Seq<u8>, data: Seq<u8>, section: Seq<u8>, result: Seq<char>)
    ensures
        is_made_of(record, data, section, result) <==> record == data + section + end_marker(
            result,
        ),
{
    assert(data + section + end_marker(result) =~= data + section + encode_utf8(
        "\r\n----- HTTP CAPTURE END "@,
    ) + encode_utf8(result) + encode_utf8(" -----\r\n"@));
}

/// The record of an exchange that is no event stream holds the body of the response whole, as it
/// came in.
pub proof fn law_ordinary_body_is_written<F: Fn(&str) -> Result<serde_json::Value, String>>(
    pending: PendingView,
    aggregator: Option<F>,
    record: Seq<u8>,
)
    requires
        !pending.response_is_sse,
    ensures
        pending.is_record(aggregator, record) <==> is_made_of(
            record,
            pending.data,
            pending.response_body,
            pending.result,
        ),
        pending.is_noted_record(aggregator, record, None) <==> is_made_of(
            record,
            pending.data,
            pending.response_body,
            pending.result,
        ),
{
    lemma_made_of(record, pending.data, pending.response_body, pending.result);
    assert(is_body_section(
        pending.response_body,
        pending.response_body,
        pending.response_is_sse,
        aggregator,
    ));
    assert(is_noted_section(
        pending.response_body,
        None,
        pending.response_body,
        pending.response_is_sse,
        aggregator,
    ));
}

/// The record of an event stream without an aggregator says so in the place of the body, and so
/// does the note.
pub proof fn law_missing_aggregator_is_written<F: Fn(&str) -> Result<serde_json::Value, String>>(
    pending: PendingView,
    record: Seq<u8>,
    note: Option<Seq<char>>,
)
    requires
        pending.response_is_sse,
    ensures
        pending.is_record(None::<F>, record) <==> exists|section: Seq<u8>|
            #[trigger] is_failure_section(section, "no SSE aggregator configured"@) && is_made_of(
                record,
                pending.data,
                section,
                pending.result,
            ),
        pending.is_noted_record(None::<F>, record, note) ==> note == Some(
            "no SSE aggregator configured"@,
        ),
{
    let error = "no SSE aggregator configured"@;
    let section = aggregation_error(error);
    lemma_failure_section(error);
    lemma_made_of(record, pending.data, section, pending.result);
    assert(is_body_section(section, pending.response_body, true, None::<F>));
    reveal_strlit("no SSE aggregator configured");
    lemma_flattened(error);
    assert(is_flattened(error, error));
}

/// What is written for an event stream, from the aggregator's answer: the document that the
/// answer is written out as, whole and unchanged, or the failure to answer or to write it out.
pub open spec fn is_answer_section(
    section: Seq<u8>,
    note: Option<Seq<char>>,
    answer: Result<serde_json::Value, String>,
) -> bool {
    match answer {
        Ok(value) => match json_document(value) {
            Ok(document) => section == document && note is None,
            Err(error) => is_failure_section(section, error) && (note matches Some(line)
                && is_flattened(line, error)),
        },
        Err(error) => is_failure_section(section, error@) && (note matches Some(line)
            && is_flattened(line, error@)),
    }
}

/// The text of a body: what its bytes encode, or, where they are no valid UTF-8, what is made of
/// them.
pub open spec fn is_text_of(text: Seq<char>, body: Seq<u8>) -> bool {
    if valid_utf8(body) {
        text == decode_utf8(body)
    } else {
        text == repaired_text(body)
    }
}

proof fn lemma_answer_section(
    section: Seq<u8>,
    note: Option<Seq<char>>,
    answer: Result<serde_json::Value, String>,
)
    ensures
        is_answer_section(section, note, answer) <==> section == aggregated_section(
            answer_outcome(answer),
        ) && note == failure_note(answer_outcome(answer)),
{
    match answer_outcome(answer) {
        Ok(document) => {},
        Err(error) => {
            lemma_failure_section(error);
            lemma_flattened(error);
        },
    }
}

/// The record of an event stream holds, in the place of the events, what the aggregator answered
/// to the text of the whole body: the whole document, or one line about the failure. The note is
/// there where the answer failed, and says the same.
pub proof fn law_aggregated_document_is_written<
    F: Fn(&str) -> Result<serde_json::Value, String>,
>(pending: PendingView, aggregate: F, record: Seq<u8>, note: Option<Seq<char>>)
    requires
        pending.response_is_sse,
        pending.is_noted_record(Some(aggregate), record, note),
    ensures
        exists|text: &str, answer: Result<serde_json::Value, String>, section: Seq<u8>|
            {
                &&& is_text_of(text@, pending.response_body)
                &&& #[trigger] call_ensures(aggregate, (text,), answer)
                &&& #[trigger] is_answer_section(section, note, answer)
                &&& is_made_of(record, pending.data, section, pending.result)
            },
{
    let section = choose|section: Seq<u8>|
        #[trigger] is_noted_section(section, note, pending.response_body, true, Some(aggregate))
            && record == pending.data + section + end_marker(pending.result);
    let (text, answer) = choose|text: &str, answer: Result<serde_json::Value, String>|
        text@ == lossy_text(pending.response_body) && #[trigger] call_ensures(
            aggregate,
            (text,),
            answer,
        ) && section == aggregated_section(answer_outcome(answer)) && note == failure_note(
            answer_outcome(answer),
        );
    assert(call_ensures(aggregate, (text,), answer));
    lemma_answer_section(section, note, answer);
    lemma_made_of(record, pending.data, section, pending.result);
}

/// The same of a record without its note.
pub proof fn law_aggregated_record<F: Fn(&str) -> Result<serde_json::Value, String>>(
    pending: PendingView,
    aggregate: F,
    record: Seq<u8>,
)
    requires
        pending.response_is_sse,
        pending.is_record(Some(aggregate), record),
    ensures
        exists|
            text: &str,
            answer: Result<serde_json::Value, String>,
            section: Seq<u8>,
            note: Option<Seq<char>>,
        |
            {
                &&& is_text_of(text@, pending.response_body)
                &&& #[trigger] call_ensures(aggregate, (text,), answer)
                &&& #[trigger] is_answer_section(section, note, answer)
                &&& is_made_of(record, pending.data, section, pending.result)
            },
{
    let section = choose|section: Seq<u8>|
        #[trigger] is_body_section(section, pending.response_body, true, Some(aggregate)) && record
            == pending.data + section + end_marker(pending.result);
    let (text, answer) = choose|text: &str, answer: Result<serde_json::Value, String>|
        text@ == lossy_text(pending.response_body) && #[trigger] call_ensures(
            aggregate,
            (text,),
            answer,
        ) && section == aggregated_section(answer_outcome(answer));
    assert(call_ensures(aggregate, (text,), answer));
    lemma_answer_section(section, failure_note(answer_outcome(answer)), answer);
    lemma_made_of(record, pending.data, section, pending.result);
}

/// The status of a response is shown in digits, and its absence in words.
pub proof fn law_status_is_shown<F: Fn(&str) -> Result<serde_json::Value, String>>(
    capture: &HttpCapture<F>,
    text: String,
)
    requires
        call_ensures(HttpCapture::<F>::status_text, (capture,), text),
    ensures
        match capture@.response_status {
            Some(status) => is_numeral(text@) && number_of(text@) == status,
            None => text@ == "no response"@,
        },
{
    if let Some(status) = capture@.response_status {
        law_number_is_read_back(status as nat);
    }
}

} // verus!
