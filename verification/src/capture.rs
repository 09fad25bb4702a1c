//! One HTTP exchange, assembled in memory and handed out as a single record.

use vstd::prelude::*;
use vstd::string::*;

use crate::body::{
    append_noted_body, is_body_section, is_noted_section, lemma_noted_section, takes_any_text,
};
use crate::headers::{
    append_headers, declares_event_stream, header_block, header_entries, is_event_stream_response,
};
use crate::request::{append_decimal, append_request_headers, request_header_block};
use crate::text::{
    append_bytes, append_text, nat_text, on_one_line, phrase_view, push_decimal, single_line,
    text_view, utf8,
};

verus! {

/// A lower-case hexadecimal digit.
pub open spec fn is_hex_digit(character: char) -> bool {
    '0' <= character <= '9' || 'a' <= character <= 'f'
}

/// A random UUID in its hyphenated form: five groups of lower-case hexadecimal digits, with
/// the version and variant digits of a version 4 UUID.
pub open spec fn is_random_uuid(id: Seq<char>) -> bool {
    &&& id.len() == 36
    &&& forall|i: int|
        0 <= i < 36 ==> if i == 8 || i == 13 || i == 18 || i == 23 {
            #[trigger] id[i] == '-'
        } else {
            is_hex_digit(id[i])
        }
    &&& id[14] == '4'
    &&& id[19] == '8' || id[19] == '9' || id[19] == 'a' || id[19] == 'b'
}

/// A character of a date and time in RFC 3339 form.
pub open spec fn is_timestamp_character(character: char) -> bool {
    '0' <= character <= '9' || character == '-' || character == '+' || character == ':'
        || character == 'T' || character == '.'
}

/// A date and time in RFC 3339 form, with the offset of UTC at its end.
pub open spec fn is_utc_timestamp(timestamp: Seq<char>) -> bool {
    &&& timestamp.len() >= 25
    &&& timestamp.skip(timestamp.len() - 6) == "+00:00"@
    &&& forall|i: int|
        0 <= i < timestamp.len() ==> is_timestamp_character(#[trigger] timestamp[i])
}

/// `Uuid::new_v4` of the `uuid` crate, in its display form. The digits are random, so only
/// their form is claimed. The call asks the system for random bytes and needs that to succeed.
#[verifier::external_body]
fn new_capture_id() -> (id: String)
    ensures
        is_random_uuid(id@),
{
    uuid::Uuid::new_v4().to_string()
}

/// `Utc::now` of the `chrono` crate, in the form of `DateTime::to_rfc3339`. The moment is the
/// clock's, so only the form is claimed. The call needs a clock that is past 1970.
#[verifier::external_body]
fn current_timestamp() -> (timestamp: String)
    ensures
        is_utc_timestamp(timestamp@),
{
    chrono::Utc::now().to_rfc3339()
}

/// The reason phrase that `StatusCode::canonical_reason` gives a status code, if any.
pub uninterp spec fn status_reason(status: u16) -> Option<Seq<char>>;

/// `StatusCode::canonical_reason` of the `http` crate, for the code that `StatusCode::from_u16`
/// makes of a number. The table depends on the code alone, and `status_reason` is its name; a
/// number that is no status code has no phrase.
#[verifier::external_body]
fn canonical_reason(status: u16) -> (phrase: Option<&'static str>)
    ensures
        phrase_view(phrase) == status_reason(status),
        !(100 <= status <= 999) ==> phrase is None,
{
    match http::StatusCode::from_u16(status) {
        Ok(code) => code.canonical_reason(),
        Err(_) => None,
    }
}

/// The opening of a record, up to where the response begins.
pub open spec fn request_section(
    id: Seq<char>,
    timestamp: Seq<char>,
    method: Seq<char>,
    url: Seq<char>,
    entries: Seq<(Seq<char>, Seq<u8>)>,
    body: Seq<u8>,
) -> Seq<u8> {
    utf8("===== HTTP CAPTURE id="@) + utf8(id) + utf8(" timestamp="@) + utf8(timestamp) + utf8(
        " =====\r\n"@,
    ) + utf8("----- REQUEST -----\r\n"@) + utf8(method) + utf8(" "@) + utf8(url) + utf8(
        " HTTP/1.1\r\n"@,
    ) + request_header_block(url, entries, body.len()) + utf8("\r\n"@) + body + utf8("\r\n"@)
        + utf8("----- RESPONSE -----\r\n"@)
}

/// The status line and headers of a response.
pub open spec fn response_head(
    status: u16,
    reason: Option<Seq<char>>,
    entries: Seq<(Seq<char>, Seq<u8>)>,
) -> Seq<u8> {
    utf8("HTTP/1.1 "@) + utf8(nat_text(status as nat)) + (match reason {
        Some(phrase) => utf8(" "@) + utf8(phrase),
        None => Seq::empty(),
    }) + utf8("\r\n"@) + header_block(entries) + utf8("\r\n"@)
}

/// The line that ends a record.
pub open spec fn end_marker(result: Seq<char>) -> Seq<u8> {
    utf8("\r\n----- HTTP CAPTURE END "@) + utf8(result) + utf8(" -----\r\n"@)
}

/// A response status as it is shown.
pub open spec fn shown_status(status: Option<u16>) -> Seq<char> {
    match status {
        Some(status) => nat_text(status as nat),
        None => "no response"@,
    }
}

/// A capture, as its state determines everything that it will write.
pub struct CaptureView {
    /// What tells this capture from others.
    pub id: Seq<char>,
    /// When it was started.
    pub timestamp: Seq<char>,
    /// What is written so far, up to the head of the response.
    pub data: Seq<u8>,
    /// The body of the response so far.
    pub response_body: Seq<u8>,
    /// The response is an event stream.
    pub response_is_sse: bool,
    /// The head of the response is written.
    pub response_started: bool,
    /// The status of the response, once its head is written.
    pub response_status: Option<u16>,
    /// The record is handed out.
    pub finished: bool,
}

impl CaptureView {
    /// A capture that has just been started.
    pub open spec fn started(
        id: Seq<char>,
        timestamp: Seq<char>,
        data: Seq<u8>,
    ) -> CaptureView {
        CaptureView {
            id,
            timestamp,
            data,
            response_body: Seq::empty(),
            response_is_sse: false,
            response_started: false,
            response_status: None,
            finished: false,
        }
    }

    /// The capture after the head of a response came in. Only the first head counts, and none
    /// does once the record is handed out.
    pub open spec fn with_head(
        self,
        status: u16,
        entries: Seq<(Seq<char>, Seq<u8>)>,
    ) -> CaptureView {
        if self.response_started || self.finished {
            self
        } else {
            CaptureView {
                response_started: true,
                response_status: Some(status),
                response_is_sse: declares_event_stream(entries),
                data: self.data + response_head(status, status_reason(status), entries),
                ..self
            }
        }
    }

    /// The capture after a piece of the response body came in.
    pub open spec fn with_body(self, piece: Seq<u8>) -> CaptureView {
        if self.finished {
            self
        } else {
            CaptureView { response_body: self.response_body + piece, ..self }
        }
    }

    /// The capture after its record was handed out.
    pub open spec fn closed(self) -> CaptureView {
        if self.finished {
            self
        } else {
            CaptureView {
                finished: true,
                data: Seq::empty(),
                response_body: Seq::empty(),
                ..self
            }
        }
    }

    /// What this capture hands out when it ends with this result.
    pub open spec fn ending(self, result: Seq<char>) -> PendingView {
        PendingView {
            data: self.data,
            response_body: self.response_body,
            response_is_sse: self.response_is_sse,
            result,
        }
    }
}

/// What a finished capture has left to write.
pub struct PendingView {
    pub data: Seq<u8>,
    pub response_body: Seq<u8>,
    pub response_is_sse: bool,
    pub result: Seq<char>,
}

impl PendingView {
    /// These bytes are the record, with what the aggregator makes of an event stream.
    pub open spec fn is_record<F: Fn(&str) -> Result<serde_json::Value, String>>(
        self,
        aggregator: Option<F>,
        record: Seq<u8>,
    ) -> bool {
        exists|section: Seq<u8>|
            {
                &&& #[trigger] is_body_section(
                    section,
                    self.response_body,
                    self.response_is_sse,
                    aggregator,
                )
                &&& record == self.data + section + end_marker(self.result)
            }
    }

    /// These bytes are the record, and this is the error of a failed aggregation, if there was
    /// one, on one line.
    pub open spec fn is_noted_record<F: Fn(&str) -> Result<serde_json::Value, String>>(
        self,
        aggregator: Option<F>,
        record: Seq<u8>,
        note: Option<Seq<char>>,
    ) -> bool {
        exists|section: Seq<u8>|
            {
                &&& #[trigger] is_noted_section(
                    section,
                    note,
                    self.response_body,
                    self.response_is_sse,
                    aggregator,
                )
                &&& record == self.data + section + end_marker(self.result)
            }
    }
}

/// A capture of one HTTP exchange.
pub struct HttpCapture<F> {
    id: String,
    timestamp: String,
    data: Vec<u8>,
    response_body: Vec<u8>,
    sse_aggregator: Option<F>,
    response_is_sse: bool,
    response_started: bool,
    response_status: Option<u16>,
    finished: bool,
}

impl<F> View for HttpCapture<F> {
    type V = CaptureView;

    closed spec fn view(&self) -> CaptureView {
        CaptureView {
            id: self.id@,
            timestamp: self.timestamp@,
            data: self.data@,
            response_body: self.response_body@,
            response_is_sse: self.response_is_sse,
            response_started: self.response_started,
            response_status: self.response_status,
            finished: self.finished,
        }
    }
}

/// A finished capture, taken out of circulation and ready to be written as one record.
pub struct PendingRecord<F> {
    data: Vec<u8>,
    response_body: Vec<u8>,
    response_is_sse: bool,
    sse_aggregator: Option<F>,
    result: String,
}

impl<F> View for PendingRecord<F> {
    type V = PendingView;

    closed spec fn view(&self) -> PendingView {
        PendingView {
            data: self.data@,
            response_body: self.response_body@,
            response_is_sse: self.response_is_sse,
            result: self.result@,
        }
    }
}

impl<F: Fn(&str) -> Result<serde_json::Value, String>> PendingRecord<F> {
    /// What turns an event stream into a document.
    pub closed spec fn aggregator(self) -> Option<F> {
        self.sse_aggregator
    }

    /// The aggregator takes every text.
    pub open spec fn wf(self) -> bool {
        takes_any_text(self.aggregator())
    }

    /// The bytes of the record.
    pub fn render(&self) -> (record: Vec<u8>)
        requires
            self.wf(),
        ensures
            self@.is_record(self.aggregator(), record@),
    {
        let (record, note) = self.render_noted();
        proof {
            let section = choose|section: Seq<u8>|
                #[trigger] is_noted_section(
                    section,
                    text_view(note),
                    self@.response_body,
                    self@.response_is_sse,
                    self.aggregator(),
                ) && record@ == self@.data + section + end_marker(self@.result);
            lemma_noted_section(
                section,
                text_view(note),
                self@.response_body,
                self@.response_is_sse,
                self.aggregator(),
            );
        }
        record
    }

    /// The bytes of the record, and the error of a failed aggregation, if there was one, on one
    /// line, for a caller to report.
    pub fn render_noted(&self) -> (rendered: (Vec<u8>, Option<String>))
        requires
            self.wf(),
        ensures
            self@.is_noted_record(self.aggregator(), rendered.0@, text_view(rendered.1)),
    {
        let mut record: Vec<u8> = Vec::new();
        append_bytes(&mut record, self.data.as_slice());
        assert(record@ =~= self.data@);
        let note = append_noted_body(
            &mut record,
            self.response_body.as_slice(),
            self.response_is_sse,
            &self.sse_aggregator,
        );
        let ghost section = choose|section: Seq<u8>|
            record@ == self.data@ + section && #[trigger] is_noted_section(
                section,
                text_view(note),
                self.response_body@,
                self.response_is_sse,
                self.sse_aggregator,
            );
        append_text(&mut record, "\r\n----- HTTP CAPTURE END ");
        append_text(&mut record, self.result.as_str());
        append_text(&mut record, " -----\r\n");
        assert(record@ =~= self.data@ + section + end_marker(self.result@));
        assert(is_noted_section(
            section,
            text_view(note),
            self@.response_body,
            self@.response_is_sse,
            self.aggregator(),
        ));
        (record, note)
    }
}

impl<F: Fn(&str) -> Result<serde_json::Value, String>> HttpCapture<F> {
    /// What turns an event stream into a document.
    pub closed spec fn aggregator(self) -> Option<F> {
        self.sse_aggregator
    }

    /// The aggregator takes every text.
    pub open spec fn wf(self) -> bool {
        takes_any_text(self.aggregator())
    }

    /// Starts a capture with a new id and the current time.
    pub fn start(
        method: &str,
        url: &str,
        headers: &http::HeaderMap<http::HeaderValue>,
        body: &[u8],
        sse_aggregator: Option<F>,
    ) -> (capture: Self)
        requires
            takes_any_text(sse_aggregator),
        ensures
            capture.wf(),
            capture.aggregator() == sse_aggregator,
            is_random_uuid(capture@.id),
            is_utc_timestamp(capture@.timestamp),
            capture@ == CaptureView::started(
                capture@.id,
                capture@.timestamp,
                request_section(
                    capture@.id,
                    capture@.timestamp,
                    method@,
                    url@,
                    header_entries(*headers),
                    body@,
                ),
            ),
    {
        let id = new_capture_id();
        let timestamp = current_timestamp();
        Self::start_as(id, timestamp, method, url, headers, body, sse_aggregator)
    }

    /// Starts a capture with a given id and time.
    pub fn start_as(
        id: String,
        timestamp: String,
        method: &str,
        url: &str,
        headers: &http::HeaderMap<http::HeaderValue>,
        body: &[u8],
        sse_aggregator: Option<F>,
    ) -> (capture: Self)
        requires
            takes_any_text(sse_aggregator),
        ensures
            capture.wf(),
            capture.aggregator() == sse_aggregator,
            capture@ == CaptureView::started(
                id@,
                timestamp@,
                request_section(id@, timestamp@, method@, url@, header_entries(*headers), body@),
            ),
    {
        let mut data: Vec<u8> = Vec::new();
        append_text(&mut data, "===== HTTP CAPTURE id=");
        append_text(&mut data, id.as_str());
        append_text(&mut data, " timestamp=");
        append_text(&mut data, timestamp.as_str());
        append_text(&mut data, " =====\r\n");
        append_text(&mut data, "----- REQUEST -----\r\n");
        append_text(&mut data, method);
        append_text(&mut data, " ");
        append_text(&mut data, url);
        append_text(&mut data, " HTTP/1.1\r\n");
        append_request_headers(&mut data, url, headers, body.len());
        append_text(&mut data, "\r\n");
        append_bytes(&mut data, body);
        append_text(&mut data, "\r\n");
        append_text(&mut data, "----- RESPONSE -----\r\n");
        assert(data@ =~= request_section(
            id@,
            timestamp@,
            method@,
            url@,
            header_entries(*headers),
            body@,
        ));
        let capture = HttpCapture {
            id,
            timestamp,
            data,
            response_body: Vec::new(),
            sse_aggregator,
            response_is_sse: false,
            response_started: false,
            response_status: None,
            finished: false,
        };
        assert(capture@.response_body =~= Seq::empty());
        capture
    }

    /// Takes in the head of the response.
    pub fn begin_response(&mut self, status: u16, headers: &http::HeaderMap<http::HeaderValue>)
        ensures
            final(self)@ == old(self)@.with_head(status, header_entries(*headers)),
            final(self).aggregator() == old(self).aggregator(),
    {
        if self.response_started || self.finished {
            return;
        }
        self.response_started = true;
        self.response_status = Some(status);
        self.response_is_sse = is_event_stream_response(headers);
        append_text(&mut self.data, "HTTP/1.1 ");
        append_decimal(&mut self.data, status as u64);
        if let Some(reason) = canonical_reason(status) {
            append_text(&mut self.data, " ");
            append_text(&mut self.data, reason);
        }
        append_text(&mut self.data, "\r\n");
        append_headers(&mut self.data, headers);
        append_text(&mut self.data, "\r\n");
        assert(self.data@ =~= old(self)@.with_head(status, header_entries(*headers)).data);
    }

    /// Takes in a piece of the response body.
    pub fn append_response_body(&mut self, body: &[u8])
        ensures
            final(self)@ == old(self)@.with_body(body@),
            final(self).aggregator() == old(self).aggregator(),
    {
        if self.finished {
            return;
        }
        append_bytes(&mut self.response_body, body);
    }

    /// Ends the capture with a result, and hands out what is to be written. Only the first
    /// ending does.
    pub fn finish_with_result(&mut self, result: &str) -> (pending: Option<PendingRecord<F>>)
        requires
            old(self).wf(),
        ensures
            final(self)@ == old(self)@.closed(),
            final(self).wf(),
            pending is Some <==> !old(self)@.finished,
            pending matches Some(pending) ==> {
                &&& pending@ == old(self)@.ending(result@)
                &&& pending.aggregator() == old(self).aggregator()
                &&& pending.wf()
            },
    {
        if self.finished {
            return None;
        }
        self.finished = true;
        let mut data: Vec<u8> = Vec::new();
        let mut response_body: Vec<u8> = Vec::new();
        std::mem::swap(&mut data, &mut self.data);
        std::mem::swap(&mut response_body, &mut self.response_body);
        let sse_aggregator = self.sse_aggregator.take();
        Some(
            PendingRecord {
                data,
                response_body,
                response_is_sse: self.response_is_sse,
                sse_aggregator,
                result: result.to_string(),
            },
        )
    }

    /// Ends the capture after a complete exchange.
    pub fn finish(&mut self) -> (pending: Option<PendingRecord<F>>)
        requires
            old(self).wf(),
        ensures
            final(self)@ == old(self)@.closed(),
            final(self).wf(),
            pending is Some <==> !old(self)@.finished,
            pending matches Some(pending) ==> {
                &&& pending@ == old(self)@.ending("complete"@)
                &&& pending.aggregator() == old(self).aggregator()
                &&& pending.wf()
            },
    {
        self.finish_with_result("complete")
    }

    /// Ends the capture after an error, which is noted on one line.
    pub fn finish_with_error(&mut self, error: &str) -> (pending: Option<PendingRecord<F>>)
        requires
            old(self).wf(),
        ensures
            final(self)@ == old(self)@.closed(),
            final(self).wf(),
            pending is Some <==> !old(self)@.finished,
            pending matches Some(pending) ==> {
                &&& pending@ == old(self)@.ending("error: "@ + on_one_line(error@))
                &&& pending.aggregator() == old(self).aggregator()
                &&& pending.wf()
            },
    {
        let mut result = String::new();
        result.append("error: ");
        let line = single_line(error);
        result.append(line.as_str());
        assert(result@ =~= "error: "@ + on_one_line(error@));
        self.finish_with_result(result.as_str())
    }

    /// What tells this capture from others.
    pub fn id(&self) -> (id: &str)
        ensures
            id@ == self@.id,
    {
        self.id.as_str()
    }

    /// When the capture was started.
    pub fn timestamp(&self) -> (timestamp: &str)
        ensures
            timestamp@ == self@.timestamp,
    {
        self.timestamp.as_str()
    }

    /// The status of the response, in words where there is none.
    pub fn status_text(&self) -> (text: String)
        ensures
            text@ == shown_status(self@.response_status),
    {
        match self.response_status {
            Some(status) => {
                let mut text = String::new();
                push_decimal(&mut text, status as u64);
                assert(text@ =~= nat_text(status as nat));
                text
            },
            None => "no response".to_string(),
        }
    }

    /// Ends a capture that is given up before the exchange was over.
    pub fn abandon(&mut self) -> (pending: Option<PendingRecord<F>>)
        requires
            old(self).wf(),
        ensures
            final(self)@ == old(self)@.closed(),
            final(self).wf(),
            pending is Some <==> !old(self)@.finished,
            pending matches Some(pending) ==> {
                &&& pending@ == old(self)@.ending("incomplete"@)
                &&& pending.aggregator() == old(self).aggregator()
                &&& pending.wf()
            },
    {
        self.finish_with_result("incomplete")
    }
}

} // verus!
