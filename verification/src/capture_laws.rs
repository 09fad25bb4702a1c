//! What holds of captures as a whole.

use vstd::prelude::*;

use crate::body::{aggregated_section, aggregation_error, answer_outcome, is_body_section, lossy_text};
use crate::capture::{
    end_marker, is_random_uuid, is_utc_timestamp, response_head, status_reason,
    CaptureView, PendingView,
};
use crate::headers::{declares_event_stream, has_header, header_block, header_line};
use crate::request::{content_length_line, host_line, request_header_block, url_authority};
use crate::text::{flattened, is_one_line, on_one_line};

verus! {

/// Only the first response head counts.
pub proof fn law_first_head_counts(
    capture: CaptureView,
    first: u16,
    first_entries: Seq<(Seq<char>, Seq<u8>)>,
    second: u16,
    second_entries: Seq<(Seq<char>, Seq<u8>)>,
)
    ensures
        capture.with_head(first, first_entries).with_head(second, second_entries)
            == capture.with_head(first, first_entries),
{
}

/// Two body pieces, one after the other, are taken in as their concatenation.
pub proof fn law_body_pieces_join(capture: CaptureView, first: Seq<u8>, second: Seq<u8>)
    ensures
        capture.with_body(first).with_body(second) == capture.with_body(first + second),
{
    assert(capture.response_body + first + second =~= capture.response_body + (first + second));
}

/// A body piece may come in before the head: the head stands before it in the record all the
/// same.
pub proof fn law_head_and_body_commute(
    capture: CaptureView,
    status: u16,
    entries: Seq<(Seq<char>, Seq<u8>)>,
    piece: Seq<u8>,
)
    ensures
        capture.with_head(status, entries).with_body(piece) == capture.with_body(piece).with_head(
            status,
            entries,
        ),
{
}

/// Once the record is handed out nothing changes a capture any more, so that no second ending
/// hands out a record.
pub proof fn law_nothing_after_the_end(
    capture: CaptureView,
    status: u16,
    entries: Seq<(Seq<char>, Seq<u8>)>,
    piece: Seq<u8>,
)
    ensures
        capture.closed().finished,
        capture.closed().with_head(status, entries) == capture.closed(),
        capture.closed().with_body(piece) == capture.closed(),
        capture.closed().closed() == capture.closed(),
{
}

/// The record of an ordinary exchange: the request, the head of the response, its body as it
/// came in, and the end marker.
pub proof fn law_ordinary_exchange<F: Fn(&str) -> Result<serde_json::Value, String>>(
    id: Seq<char>,
    timestamp: Seq<char>,
    opening: Seq<u8>,
    status: u16,
    entries: Seq<(Seq<char>, Seq<u8>)>,
    body: Seq<u8>,
    result: Seq<char>,
    aggregator: Option<F>,
    record: Seq<u8>,
)
    requires
        !declares_event_stream(entries),
    ensures
        CaptureView::started(id, timestamp, opening).with_head(status, entries).with_body(
            body,
        ).ending(result).is_record(aggregator, record) <==> record == opening + response_head(
            status,
            status_reason(status),
            entries,
        ) + body + end_marker(result),
{
    let pending = CaptureView::started(id, timestamp, opening).with_head(status, entries).with_body(
        body,
    ).ending(result);
    assert(pending.response_body =~= body);
    assert(is_body_section(body, pending.response_body, pending.response_is_sse, aggregator));
}

/// Something that a capture takes in.
pub enum CaptureEvent {
    /// The head of a response.
    Head { status: u16, entries: Seq<(Seq<char>, Seq<u8>)> },
    /// A piece of the response body.
    Body(Seq<u8>),
    /// An ending, with its result.
    End(Seq<char>),
}

/// A capture after one event.
pub open spec fn after_event(capture: CaptureView, event: CaptureEvent) -> CaptureView {
    match event {
        CaptureEvent::Head { status, entries } => capture.with_head(status, entries),
        CaptureEvent::Body(piece) => capture.with_body(piece),
        CaptureEvent::End(_) => capture.closed(),
    }
}

/// A capture after these events.
pub open spec fn after_events(capture: CaptureView, events: Seq<CaptureEvent>) -> CaptureView
    decreases events.len(),
{
    if events.len() == 0 {
        capture
    } else {
        after_event(after_events(capture, events.drop_last()), events.last())
    }
}

/// What a capture hands out in the course of these events: something at an ending that finds it
/// unfinished.
pub open spec fn handed_out(capture: CaptureView, events: Seq<CaptureEvent>) -> Seq<PendingView>
    decreases events.len(),
{
    if events.len() == 0 {
        Seq::empty()
    } else {
        let earlier = handed_out(capture, events.drop_last());
        let before = after_events(capture, events.drop_last());
        match events.last() {
            CaptureEvent::End(result) if !before.finished => earlier.push(before.ending(result)),
            _ => earlier,
        }
    }
}

/// There is an ending among these events.
pub open spec fn has_ending(events: Seq<CaptureEvent>) -> bool {
    exists|i: int| 0 <= i < events.len() && #[trigger] events[i] is End
}

/// The first head among these events, if there is one.
pub open spec fn first_head(events: Seq<CaptureEvent>) -> Option<
    (u16, Seq<(Seq<char>, Seq<u8>)>),
>
    decreases events.len(),
{
    if events.len() == 0 {
        None
    } else {
        match (first_head(events.drop_last()), events.last()) {
            (Some(head), _) => Some(head),
            (None, CaptureEvent::Head { status, entries }) => Some((status, entries)),
            (None, _) => None,
        }
    }
}

/// A head that may be missing, written out.
pub open spec fn head_bytes(head: Option<(u16, Seq<(Seq<char>, Seq<u8>)>)>) -> Seq<u8> {
    match head {
        Some((status, entries)) => response_head(status, status_reason(status), entries),
        None => Seq::empty(),
    }
}

/// A head that may be missing declares an event stream.
pub open spec fn head_is_event_stream(head: Option<(u16, Seq<(Seq<char>, Seq<u8>)>)>) -> bool {
    head matches Some((_, entries)) && declares_event_stream(entries)
}

/// The pieces of the response body among these events, one after the other.
pub open spec fn body_bytes(events: Seq<CaptureEvent>) -> Seq<u8>
    decreases events.len(),
{
    if events.len() == 0 {
        Seq::empty()
    } else {
        match events.last() {
            CaptureEvent::Body(piece) => body_bytes(events.drop_last()) + piece,
            _ => body_bytes(events.drop_last()),
        }
    }
}

/// What a capture has taken in before its ending: the first head after the request, and the
/// pieces of the body in the order in which they came.
pub proof fn law_events_are_taken_in(
    id: Seq<char>,
    timestamp: Seq<char>,
    opening: Seq<u8>,
    events: Seq<CaptureEvent>,
)
    requires
        !has_ending(events),
    ensures
        ({
            let capture = after_events(CaptureView::started(id, timestamp, opening), events);
            let head = first_head(events);
            &&& !capture.finished
            &&& capture.id == id
            &&& capture.timestamp == timestamp
            &&& capture.data == opening + head_bytes(head)
            &&& capture.response_body == body_bytes(events)
            &&& capture.response_is_sse == head_is_event_stream(head)
            &&& capture.response_started == head is Some
            &&& capture.response_status == (match head {
                Some((status, _)) => Some(status),
                None => None,
            })
        }),
    decreases events.len(),
{
    if events.len() == 0 {
        assert(opening =~= opening + head_bytes(first_head(events)));
    } else {
        lemma_no_ending_before(events);
        law_events_are_taken_in(id, timestamp, opening, events.drop_last());
        assert(opening + Seq::<u8>::empty() =~= opening);
    }
}

proof fn lemma_no_ending_before(events: Seq<CaptureEvent>)
    requires
        !has_ending(events),
        events.len() > 0,
    ensures
        !has_ending(events.drop_last()),
        !(events.last() is End),
{
    let shorter = events.drop_last();
    assert forall|i: int| 0 <= i < shorter.len() implies !(#[trigger] shorter[i] is End) by {
        assert(events[i] == shorter[i]);
    }
    assert(events[events.len() - 1] == events.last());
}

/// However often a capture is ended, and whatever comes in between, it hands out one record: that
/// of the first ending, with what was taken in before it.
pub proof fn law_one_record(
    id: Seq<char>,
    timestamp: Seq<char>,
    opening: Seq<u8>,
    before: Seq<CaptureEvent>,
    result: Seq<char>,
    later: Seq<CaptureEvent>,
)
    requires
        !has_ending(before),
    ensures
        handed_out(
            CaptureView::started(id, timestamp, opening),
            before.push(CaptureEvent::End(result)) + later,
        ) == seq![
            PendingView {
                data: opening + head_bytes(first_head(before)),
                response_body: body_bytes(before),
                response_is_sse: head_is_event_stream(first_head(before)),
                result,
            },
        ],
        handed_out(CaptureView::started(id, timestamp, opening), before).len() == 0,
{
    let start = CaptureView::started(id, timestamp, opening);
    let ended = before.push(CaptureEvent::End(result));
    law_events_are_taken_in(id, timestamp, opening, before);
    lemma_nothing_handed_out(start, before);
    assert(ended.drop_last() =~= before);
    assert(handed_out(start, ended) =~= seq![after_events(start, before).ending(result)]);
    lemma_nothing_more_handed_out(start, ended, later);
}

proof fn lemma_nothing_handed_out(capture: CaptureView, events: Seq<CaptureEvent>)
    requires
        !has_ending(events),
    ensures
        handed_out(capture, events) == Seq::<PendingView>::empty(),
    decreases events.len(),
{
    if events.len() > 0 {
        lemma_no_ending_before(events);
        lemma_nothing_handed_out(capture, events.drop_last());
    }
}

proof fn lemma_nothing_more_handed_out(
    capture: CaptureView,
    ended: Seq<CaptureEvent>,
    later: Seq<CaptureEvent>,
)
    requires
        after_events(capture, ended).finished,
    ensures
        handed_out(capture, ended + later) == handed_out(capture, ended),
        after_events(capture, ended + later) == after_events(capture, ended),
    decreases later.len(),
{
    if later.len() == 0 {
        assert(ended + later =~= ended);
    } else {
        lemma_nothing_more_handed_out(capture, ended, later.drop_last());
        assert((ended + later).drop_last() =~= ended + later.drop_last());
        assert((ended + later).last() == later.last());
    }
}

/// An event stream is never written raw: in the place of its body stands what the aggregator
/// answered to the text of the body, as a document or as the note that aggregation failed.
pub proof fn law_event_stream_is_aggregated<F: Fn(&str) -> Result<serde_json::Value, String>>(
    pending: PendingView,
    aggregate: F,
    record: Seq<u8>,
)
    requires
        pending.response_is_sse,
    ensures
        pending.is_record(Some(aggregate), record) <==> exists|
            text: &str,
            answer: Result<serde_json::Value, String>,
        |
            {
                &&& text@ == lossy_text(pending.response_body)
                &&& #[trigger] call_ensures(aggregate, (text,), answer)
                &&& record == pending.data + aggregated_section(answer_outcome(answer))
                    + end_marker(pending.result)
            },
{
    if pending.is_record(Some(aggregate), record) {
        let section = choose|section: Seq<u8>|
            #[trigger] is_body_section(section, pending.response_body, true, Some(aggregate))
                && record == pending.data + section + end_marker(pending.result);
        let (text, answer) = choose|text: &str, answer: Result<serde_json::Value, String>|
            text@ == lossy_text(pending.response_body) && #[trigger] call_ensures(
                aggregate,
                (text,),
                answer,
            ) && section == aggregated_section(answer_outcome(answer));
        assert(call_ensures(aggregate, (text,), answer));
    }
    assert forall|text: &str, answer: Result<serde_json::Value, String>|
        {
            &&& text@ == lossy_text(pending.response_body)
            &&& #[trigger] call_ensures(aggregate, (text,), answer)
            &&& record == pending.data + aggregated_section(answer_outcome(answer)) + end_marker(
                pending.result,
            )
        } implies pending.is_record(Some(aggregate), record) by {
        lemma_answer_gives_section(pending.response_body, aggregate, text, answer);
    }
}

proof fn lemma_answer_gives_section<F: Fn(&str) -> Result<serde_json::Value, String>>(
    body: Seq<u8>,
    aggregate: F,
    text: &str,
    answer: Result<serde_json::Value, String>,
)
    requires
        text@ == lossy_text(body),
        call_ensures(aggregate, (text,), answer),
    ensures
        is_body_section(
            aggregated_section(answer_outcome(answer)),
            body,
            true,
            Some(aggregate),
        ),
{
    let aggregator = Some(aggregate);
    assert(call_ensures(aggregator->0, (text,), answer));
}

/// Without an aggregator the record of an event stream is the same whatever the body was.
pub proof fn law_unaggregated_event_stream<F: Fn(&str) -> Result<serde_json::Value, String>>(
    pending: PendingView,
    record: Seq<u8>,
)
    requires
        pending.response_is_sse,
    ensures
        pending.is_record(None::<F>, record) <==> record == pending.data + aggregation_error(
            "no SSE aggregator configured"@,
        ) + end_marker(pending.result),
{
    assert(is_body_section(
        aggregation_error("no SSE aggregator configured"@),
        pending.response_body,
        pending.response_is_sse,
        None::<F>,
    ));
}

/// A flattened text is one line, of the same length, and flattening it again changes nothing.
/// A text that is one line stays as it is.
pub proof fn law_flattening(text: Seq<char>)
    ensures
        is_one_line(on_one_line(text)),
        on_one_line(text).len() == text.len(),
        on_one_line(on_one_line(text)) == on_one_line(text),
        is_one_line(text) ==> on_one_line(text) == text,
{
    assert forall|i: int| 0 <= i < text.len() implies on_one_line(text)[i] == flattened(text[i]) by {}
    assert(on_one_line(on_one_line(text)) =~= on_one_line(text));
    if is_one_line(text) {
        assert(on_one_line(text) =~= text);
    }
}

/// The result that an error leaves in the end marker is one line, whatever the error says.
pub proof fn law_error_result_is_one_line(error: Seq<char>)
    ensures
        is_one_line("error: "@ + on_one_line(error)),
{
    reveal_strlit("error: ");
    law_flattening(error);
    let result = "error: "@ + on_one_line(error);
    assert forall|i: int| 0 <= i < result.len() implies result[i] != '\r' && result[i] != '\n'
        && #[trigger] result[i] != '\t' by {
        if i >= 7 {
            assert(result[i] == on_one_line(error)[i - 7]);
        }
    }
}

/// The id and the time of a started capture are one line each.
pub proof fn law_opening_line(id: Seq<char>, timestamp: Seq<char>)
    requires
        is_random_uuid(id),
        is_utc_timestamp(timestamp),
    ensures
        is_one_line(id),
        is_one_line(timestamp),
{
    assert forall|i: int| 0 <= i < id.len() implies id[i] != '\r' && id[i] != '\n' && #[trigger]
        id[i] != '\t' by {}
    assert forall|i: int| 0 <= i < timestamp.len() implies timestamp[i] != '\r' && timestamp[i]
        != '\n' && #[trigger] timestamp[i] != '\t' by {}
}

/// A line stands somewhere in a block of lines.
pub open spec fn stands_in(line: Seq<u8>, block: Seq<u8>) -> bool {
    exists|before: Seq<u8>, after: Seq<u8>| block == #[trigger] (before + line + after)
}

/// Every header of a map has its line in the block.
pub proof fn law_every_header_is_written(entries: Seq<(Seq<char>, Seq<u8>)>, i: int)
    requires
        0 <= i < entries.len(),
    ensures
        stands_in(header_line(entries[i]), header_block(entries)),
    decreases entries.len(),
{
    let line = header_line(entries[i]);
    let shorter = header_block(entries.drop_last());
    if i == entries.len() - 1 {
        assert(header_block(entries) =~= shorter + line + Seq::empty());
    } else {
        law_every_header_is_written(entries.drop_last(), i);
        let (before, after) = choose|before: Seq<u8>, after: Seq<u8>|
            shorter == #[trigger] (before + line + after);
        assert(header_block(entries) =~= before + line + (after + header_line(entries.last())));
    }
}

proof fn lemma_stands_in_longer(line: Seq<u8>, block: Seq<u8>, more: Seq<u8>)
    requires
        stands_in(line, block),
    ensures
        stands_in(line, block + more),
{
    let (before, after) = choose|before: Seq<u8>, after: Seq<u8>|
        block == #[trigger] (before + line + after);
    assert(block + more =~= before + line + (after + more));
}

/// Every captured request states a content length: its own header, or the length of its body.
pub proof fn law_content_length_is_stated(
    url: Seq<char>,
    entries: Seq<(Seq<char>, Seq<u8>)>,
    body_len: nat,
)
    ensures
        exists|line: Seq<u8>|
            {
                &&& #[trigger] stands_in(line, request_header_block(url, entries, body_len))
                &&& line == content_length_line(body_len) || exists|i: int|
                    0 <= i < entries.len() && (#[trigger] entries[i]).0 == "content-length"@ && line
                        == header_line(entries[i])
            },
{
    let block = request_header_block(url, entries, body_len);
    if has_header(entries, "content-length"@) {
        let i = choose|i: int|
            0 <= i < entries.len() && (#[trigger] entries[i]).0 == "content-length"@;
        let line = header_line(entries[i]);
        law_every_header_is_written(entries, i);
        lemma_stands_in_longer(line, header_block(entries), block.skip(
            header_block(entries).len() as int,
        ));
        assert(block =~= header_block(entries) + block.skip(header_block(entries).len() as int));
        assert(stands_in(line, block));
    } else {
        let line = content_length_line(body_len);
        let before = block.take(block.len() - line.len());
        assert(block =~= before + line + Seq::empty());
        assert(stands_in(line, block));
    }
}

/// Every captured request names a host, where its headers or its URL do.
pub proof fn law_host_is_named(url: Seq<char>, entries: Seq<(Seq<char>, Seq<u8>)>, body_len: nat)
    requires
        has_header(entries, "host"@) || (url_authority(url) matches Some((Some(_), _))),
    ensures
        exists|line: Seq<u8>|
            {
                &&& #[trigger] stands_in(line, request_header_block(url, entries, body_len))
                &&& line == host_line(url_authority(url)) && line.len() > 0 || exists|i: int|
                    0 <= i < entries.len() && (#[trigger] entries[i]).0 == "host"@ && line
                        == header_line(entries[i])
            },
{
    let block = request_header_block(url, entries, body_len);
    if has_header(entries, "host"@) {
        let i = choose|i: int| 0 <= i < entries.len() && (#[trigger] entries[i]).0 == "host"@;
        let line = header_line(entries[i]);
        law_every_header_is_written(entries, i);
        lemma_stands_in_longer(line, header_block(entries), block.skip(
            header_block(entries).len() as int,
        ));
        assert(block =~= header_block(entries) + block.skip(header_block(entries).len() as int));
        assert(stands_in(line, block));
    } else {
        let line = host_line(url_authority(url));
        let head = header_block(entries) + line;
        assert(block =~= header_block(entries) + line + block.skip(head.len() as int));
        assert(stands_in(line, block));
        lemma_host_line_is_not_empty(url_authority(url));
    }
}

proof fn lemma_host_line_is_not_empty(authority: Option<(Option<Seq<char>>, Option<u16>)>)
    requires
        authority matches Some((Some(_), _)),
    ensures
        host_line(authority).len() > 0,
{
    let start = crate::text::utf8("host: "@);
    assert(start.len() > 0) by {
        reveal_strlit("host: ");
        vstd::utf8::is_ascii_chars_encode_utf8("host: "@);
    }
}

} // verus!
