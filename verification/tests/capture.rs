use cc_switch::body::{
    aggregation_note, append_aggregated, append_aggregation_error, append_noted_body,
    append_response_body,
};
use cc_switch::capture::HttpCapture;
use http::{HeaderMap, HeaderValue};
use serde_json::Value;

type Aggregator = fn(&str) -> Result<Value, String>;

fn joined(text: &str) -> Result<Value, String> {
    Ok(Value::String(text.to_string()))
}

fn refusing(_text: &str) -> Result<Value, String> {
    Err("line one\nline two".to_string())
}

fn headers(name: &'static str, value: &'static str) -> HeaderMap {
    let mut headers = HeaderMap::new();
    headers.insert(name, HeaderValue::from_static(value));
    headers
}

fn started(aggregator: Option<Aggregator>) -> HttpCapture<Aggregator> {
    HttpCapture::start_as(
        "ID".to_string(),
        "T".to_string(),
        "POST",
        "https://h/p",
        &headers("x-a", "1"),
        b"BODY",
        aggregator,
    )
}

const REQUEST: &str = "===== HTTP CAPTURE id=ID timestamp=T =====\r\n\
----- REQUEST -----\r\n\
POST https://h/p HTTP/1.1\r\n\
x-a: 1\r\n\
host: h\r\n\
content-length: 4\r\n\
\r\n\
BODY\r\n\
----- RESPONSE -----\r\n";

fn text(bytes: Vec<u8>) -> String {
    String::from_utf8(bytes).unwrap()
}

#[test]
fn ordinary_exchange_is_one_record() {
    let mut capture = started(None);
    capture.begin_response(200, &headers("content-type", "application/json"));
    capture.append_response_body(b"{\"a\":");
    capture.append_response_body(b"1}");
    assert_eq!(capture.status_text(), "200");
    let record = text(capture.finish().unwrap().render());
    let expected = REQUEST.to_string()
        + "HTTP/1.1 200 OK\r\ncontent-type: application/json\r\n\r\n{\"a\":1}"
        + "\r\n----- HTTP CAPTURE END complete -----\r\n";
    assert_eq!(record, expected);
}

#[test]
fn record_is_handed_out_once() {
    let mut capture = started(None);
    assert!(capture.finish().is_some());
    assert!(capture.finish().is_none());
    assert!(capture.finish_with_error("late").is_none());
    assert!(capture.abandon().is_none());
}

#[test]
fn nothing_is_taken_in_after_the_end() {
    let mut capture = started(None);
    let record = text(capture.finish_with_result("done").unwrap().render());
    assert_eq!(record, REQUEST.to_string() + "\r\n----- HTTP CAPTURE END done -----\r\n");
    capture.begin_response(500, &HeaderMap::new());
    capture.append_response_body(b"late");
    assert_eq!(capture.status_text(), "no response");
}

#[test]
fn only_the_first_head_counts() {
    let mut capture = started(None);
    capture.begin_response(404, &HeaderMap::new());
    capture.begin_response(200, &headers("content-type", "text/event-stream"));
    capture.append_response_body(b"x");
    let record = text(capture.finish().unwrap().render());
    assert_eq!(
        record,
        REQUEST.to_string()
            + "HTTP/1.1 404 Not Found\r\n\r\nx\r\n----- HTTP CAPTURE END complete -----\r\n"
    );
}

#[test]
fn head_stands_before_an_early_body() {
    let mut capture = started(None);
    capture.append_response_body(b"early");
    capture.begin_response(204, &HeaderMap::new());
    let record = text(capture.finish().unwrap().render());
    assert_eq!(
        record,
        REQUEST.to_string()
            + "HTTP/1.1 204 No Content\r\n\r\nearly\r\n----- HTTP CAPTURE END complete -----\r\n"
    );
}

#[test]
fn status_without_a_phrase_has_none() {
    let mut capture = started(None);
    capture.begin_response(599, &HeaderMap::new());
    let record = text(capture.finish().unwrap().render());
    assert_eq!(
        record,
        REQUEST.to_string() + "HTTP/1.1 599\r\n\r\n\r\n----- HTTP CAPTURE END complete -----\r\n"
    );
}

#[test]
fn error_is_noted_on_one_line() {
    let mut capture = started(None);
    let record = text(capture.finish_with_error("reset\r\nby peer").unwrap().render());
    assert_eq!(
        record,
        REQUEST.to_string() + "\r\n----- HTTP CAPTURE END error: reset  by peer -----\r\n"
    );
}

#[test]
fn abandoned_capture_is_incomplete() {
    let mut capture = started(None);
    capture.append_response_body(b"half");
    let record = text(capture.abandon().unwrap().render());
    assert_eq!(
        record,
        REQUEST.to_string() + "half\r\n----- HTTP CAPTURE END incomplete -----\r\n"
    );
}

#[test]
fn event_stream_is_aggregated() {
    let mut capture = started(Some(joined));
    capture.begin_response(200, &headers("content-type", "text/event-stream; charset=utf-8"));
    capture.append_response_body(b"data: \"x\"\n\n");
    let record = text(capture.finish().unwrap().render());
    let expected = REQUEST.to_string()
        + "HTTP/1.1 200 OK\r\ncontent-type: text/event-stream; charset=utf-8\r\n\r\n"
        + "\"data: \\\"x\\\"\\n\\n\""
        + "\r\n----- HTTP CAPTURE END complete -----\r\n";
    assert_eq!(record, expected);
}

#[test]
fn failed_aggregation_is_noted() {
    let mut record = b">".to_vec();
    let aggregator: Option<Aggregator> = Some(refusing);
    append_response_body(&mut record, b"data: secret\n\n", true, &aggregator);
    assert_eq!(text(record), ">[SSE response aggregation failed: line one line two]");
}

#[test]
fn event_stream_without_an_aggregator_is_not_written() {
    let mut record = Vec::new();
    let aggregator: Option<Aggregator> = None;
    append_response_body(&mut record, b"data: secret\n\n", true, &aggregator);
    assert_eq!(
        text(record),
        "[SSE response aggregation failed: no SSE aggregator configured]"
    );
}

#[test]
fn ordinary_body_is_written_as_it_came() {
    let mut record = Vec::new();
    let aggregator: Option<Aggregator> = Some(joined);
    append_response_body(&mut record, b"\xff\x00", false, &aggregator);
    assert_eq!(record, vec![0xff, 0x00]);
}

#[test]
fn aggregator_is_given_repaired_text() {
    let mut record = Vec::new();
    let aggregator: Option<Aggregator> = Some(joined);
    append_response_body(&mut record, b"a\xffb", true, &aggregator);
    assert_eq!(text(record), "\"a\u{fffd}b\"");
}

#[test]
fn aggregation_outcomes() {
    let mut record = Vec::new();
    append_aggregated(&mut record, &Ok(b"{}".to_vec()));
    append_aggregated(&mut record, &Err("a\tb".to_string()));
    append_aggregation_error(&mut record, "");
    assert_eq!(
        text(record),
        "{}[SSE response aggregation failed: a b][SSE response aggregation failed: ]"
    );
}

#[test]
fn started_capture_has_an_id_and_a_time() {
    let capture: HttpCapture<Aggregator> =
        HttpCapture::start("GET", "https://h/", &HeaderMap::new(), b"", None);
    let other: HttpCapture<Aggregator> =
        HttpCapture::start("GET", "https://h/", &HeaderMap::new(), b"", None);
    let id = capture.id().to_string();
    assert_eq!(id.len(), 36);
    assert_eq!(id.as_bytes()[14], b'4');
    assert!(id.chars().enumerate().all(|(i, c)| if matches!(i, 8 | 13 | 18 | 23) {
        c == '-'
    } else {
        matches!(c, '0'..='9' | 'a'..='f')
    }));
    assert_ne!(id, other.id());
    let timestamp = capture.timestamp().to_string();
    assert!(timestamp.ends_with("+00:00"));
    assert!(timestamp.len() >= 25);
    assert!(timestamp.chars().all(|c| c.is_ascii_digit() || "-+:T.".contains(c)));
    let mut capture = capture;
    let record = text(capture.finish().unwrap().render());
    assert!(record.starts_with(&format!(
        "===== HTTP CAPTURE id={id} timestamp={timestamp} =====\r\n----- REQUEST -----\r\nGET https://h/ HTTP/1.1\r\n"
    )));
}

#[test]
fn many_events_make_one_record() {
    let mut capture = started(None);
    capture.append_response_body(b"one ");
    capture.begin_response(200, &headers("x-b", "2"));
    capture.append_response_body(b"two");
    capture.begin_response(500, &headers("x-c", "3"));
    let mut records = Vec::new();
    records.extend(capture.finish_with_error("broken"));
    capture.append_response_body(b" three");
    capture.begin_response(404, &HeaderMap::new());
    records.extend(capture.finish());
    records.extend(capture.abandon());
    assert_eq!(records.len(), 1);
    let expected = REQUEST.to_string()
        + "HTTP/1.1 200 OK\r\nx-b: 2\r\n\r\none two"
        + "\r\n----- HTTP CAPTURE END error: broken -----\r\n";
    assert_eq!(text(records[0].render()), expected);
    assert_eq!(capture.status_text(), "200");
}

#[test]
fn failed_aggregation_is_handed_out_to_report() {
    let stream = headers("content-type", "text/event-stream");
    let noted = |aggregator: Option<Aggregator>| {
        let mut capture = started(aggregator);
        capture.begin_response(200, &stream);
        capture.append_response_body(b"data: x\n\n");
        let pending = capture.finish().unwrap();
        let (record, note) = pending.render_noted();
        assert_eq!(record, pending.render());
        note
    };
    assert_eq!(noted(Some(joined)), None);
    assert_eq!(noted(Some(refusing)), Some("line one line two".to_string()));
    assert_eq!(noted(None), Some("no SSE aggregator configured".to_string()));

    let mut capture = started(Some(refusing));
    capture.begin_response(200, &headers("content-type", "text/plain"));
    assert_eq!(capture.finish().unwrap().render_noted().1, None);
}

#[test]
fn body_sections_come_with_their_note() {
    let mut record = Vec::new();
    let note = append_noted_body(&mut record, b"x", true, &Some(refusing as Aggregator));
    assert_eq!(note, Some("line one line two".to_string()));
    assert_eq!(text(record), "[SSE response aggregation failed: line one line two]");
    assert_eq!(aggregation_note(&Ok(b"{}".to_vec())), None);
    assert_eq!(aggregation_note(&Err("a\tb".to_string())), Some("a b".to_string()));
}
