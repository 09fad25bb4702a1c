//! The body section of a captured response.
//!
//! An ordinary body is written as it came. An event stream is never written raw: what an
//! aggregator makes of it stands in its place.

use vstd::prelude::*;
use vstd::string::*;
use vstd::utf8::*;

use crate::text::{append_bytes, append_text, on_one_line, single_line, text_view, utf8};

verus! {

/// A JSON value of the `serde_json` crate. What it holds is what `json_document` names.
#[verifier::external_type_specification]
#[verifier::external_body]
pub struct ExJsonValue(serde_json::Value);

/// What a JSON value holds, as `serde_json::to_vec` writes it out: the bytes of the compact
/// document, or the text of the error.
pub uninterp spec fn json_document(value: serde_json::Value) -> Result<Seq<u8>, Seq<char>>;

/// The text that `String::from_utf8_lossy` reads out of bytes that are no valid UTF-8.
pub uninterp spec fn repaired_text(bytes: Seq<u8>) -> Seq<char>;

/// The text of a body: decoded where it is valid UTF-8, else repaired.
pub open spec fn lossy_text(bytes: Seq<u8>) -> Seq<char> {
    if valid_utf8(bytes) {
        decode_utf8(bytes)
    } else {
        repaired_text(bytes)
    }
}

/// The outcome of writing out or aggregating a response, with its views.
pub open spec fn outcome_view(outcome: Result<Vec<u8>, String>) -> Result<Seq<u8>, Seq<char>> {
    match outcome {
        Ok(bytes) => Ok(bytes@),
        Err(error) => Err(error@),
    }
}

/// `serde_json::to_vec` on a JSON value: the result depends on the value alone, and
/// `json_document` is its name. An error is handed on as its text.
#[verifier::external_body]
fn json_bytes(value: &serde_json::Value) -> (document: Result<Vec<u8>, String>)
    ensures
        outcome_view(document) == json_document(*value),
{
    serde_json::to_vec(value).map_err(|error| error.to_string())
}

/// `String::from_utf8_lossy`: valid UTF-8 is decoded as it is. What is made of other bytes
/// depends on the bytes alone, and `repaired_text` is its name.
#[verifier::external_body]
fn read_lossy(bytes: &[u8]) -> (text: String)
    ensures
        valid_utf8(bytes@) ==> text@ == decode_utf8(bytes@),
        !valid_utf8(bytes@) ==> text@ == repaired_text(bytes@),
{
    String::from_utf8_lossy(bytes).into_owned()
}

/// What is written where an event stream could not be aggregated.
pub open spec fn aggregation_error(error: Seq<char>) -> Seq<u8> {
    utf8("[SSE response aggregation failed: "@) + utf8(on_one_line(error)) + utf8("]"@)
}

/// What is written for an event stream, from the outcome of its aggregation.
pub open spec fn aggregated_section(outcome: Result<Seq<u8>, Seq<char>>) -> Seq<u8> {
    match outcome {
        Ok(document) => document,
        Err(error) => aggregation_error(error),
    }
}

/// The outcome of an aggregation, from the aggregator's answer.
pub open spec fn answer_outcome(
    answer: Result<serde_json::Value, String>,
) -> Result<Seq<u8>, Seq<char>> {
    match answer {
        Ok(value) => json_document(value),
        Err(error) => Err(error@),
    }
}

/// The aggregator, where there is one, takes every text.
pub open spec fn takes_any_text<F: Fn(&str) -> Result<serde_json::Value, String>>(
    aggregator: Option<F>,
) -> bool {
    aggregator matches Some(aggregate) ==> forall|text: &str|
        call_requires(aggregate, (text,))
}

/// A section is what the capture writes for a body: the body itself, or, for an event stream,
/// what the aggregator answered when it was given the text of the body.
pub open spec fn is_body_section<F: Fn(&str) -> Result<serde_json::Value, String>>(
    section: Seq<u8>,
    body: Seq<u8>,
    is_sse: bool,
    aggregator: Option<F>,
) -> bool {
    if !is_sse {
        section == body
    } else {
        match aggregator {
            None => section == aggregation_error("no SSE aggregator configured"@),
            Some(aggregate) => exists|text: &str, answer: Result<serde_json::Value, String>|
                {
                    &&& text@ == lossy_text(body)
                    &&& #[trigger] call_ensures(aggregate, (text,), answer)
                    &&& section == aggregated_section(answer_outcome(answer))
                },
        }
    }
}

/// What is to be reported of an aggregation, from its outcome: the error of a failed one, on one
/// line.
pub open spec fn failure_note(outcome: Result<Seq<u8>, Seq<char>>) -> Option<Seq<char>> {
    match outcome {
        Ok(_) => None,
        Err(error) => Some(on_one_line(error)),
    }
}

/// A section is what the capture writes for a body, and the note is what is to be reported of it:
/// the error of a failed aggregation, if there was one. Both go by the same answer.
pub open spec fn is_noted_section<F: Fn(&str) -> Result<serde_json::Value, String>>(
    section: Seq<u8>,
    note: Option<Seq<char>>,
    body: Seq<u8>,
    is_sse: bool,
    aggregator: Option<F>,
) -> bool {
    if !is_sse {
        section == body && note is None
    } else {
        match aggregator {
            None => {
                &&& section == aggregation_error("no SSE aggregator configured"@)
                &&& note == Some(on_one_line("no SSE aggregator configured"@))
            },
            Some(aggregate) => exists|text: &str, answer: Result<serde_json::Value, String>|
                {
                    &&& text@ == lossy_text(body)
                    &&& #[trigger] call_ensures(aggregate, (text,), answer)
                    &&& section == aggregated_section(answer_outcome(answer))
                    &&& note == failure_note(answer_outcome(answer))
                },
        }
    }
}

/// A section with its note is a section.
pub proof fn lemma_noted_section<F: Fn(&str) -> Result<serde_json::Value, String>>(
    section: Seq<u8>,
    note: Option<Seq<char>>,
    body: Seq<u8>,
    is_sse: bool,
    aggregator: Option<F>,
)
    requires
        is_noted_section(section, note, body, is_sse, aggregator),
    ensures
        is_body_section(section, body, is_sse, aggregator),
{
    if is_sse && aggregator is Some {
        let aggregate = aggregator->0;
        let (text, answer) = choose|text: &str, answer: Result<serde_json::Value, String>|
            text@ == lossy_text(body) && #[trigger] call_ensures(aggregate, (text,), answer)
                && section == aggregated_section(answer_outcome(answer)) && note == failure_note(
                answer_outcome(answer),
            );
        assert(call_ensures(aggregator->0, (text,), answer));
    }
}

/// Adds the note that an event stream could not be aggregated, on one line.
pub fn append_aggregation_error(record: &mut Vec<u8>, error: &str)
    ensures
        final(record)@ == old(record)@ + aggregation_error(error@),
{
    append_text(record, "[SSE response aggregation failed: ");
    let line = single_line(error);
    append_text(record, line.as_str());
    append_text(record, "]");
    assert(record@ =~= old(record)@ + aggregation_error(error@));
}

/// Adds what is written for an event stream, from the outcome of its aggregation.
pub fn append_aggregated(record: &mut Vec<u8>, outcome: &Result<Vec<u8>, String>)
    ensures
        final(record)@ == old(record)@ + aggregated_section(outcome_view(*outcome)),
{
    match outcome {
        Ok(document) => append_bytes(record, document.as_slice()),
        Err(error) => append_aggregation_error(record, error.as_str()),
    }
}

/// The error of a failed aggregation, on one line.
pub fn aggregation_note(outcome: &Result<Vec<u8>, String>) -> (note: Option<String>)
    ensures
        text_view(note) == failure_note(outcome_view(*outcome)),
{
    match outcome {
        Ok(_) => None,
        Err(error) => Some(single_line(error.as_str())),
    }
}

/// Adds the body section of a response, and hands out the error of a failed aggregation, if there
/// was one, on one line.
pub fn append_noted_body<F: Fn(&str) -> Result<serde_json::Value, String>>(
    record: &mut Vec<u8>,
    body: &[u8],
    is_sse: bool,
    aggregator: &Option<F>,
) -> (note: Option<String>)
    requires
        takes_any_text(*aggregator),
    ensures
        exists|section: Seq<u8>|
            final(record)@ == old(record)@ + section && #[trigger] is_noted_section(
                section,
                text_view(note),
                body@,
                is_sse,
                *aggregator,
            ),
{
    if !is_sse {
        append_bytes(record, body);
        assert(is_noted_section(body@, None, body@, is_sse, *aggregator));
        return None;
    }
    match aggregator {
        None => {
            append_aggregation_error(record, "no SSE aggregator configured");
            let note = Some(single_line("no SSE aggregator configured"));
            assert(is_noted_section(
                aggregation_error("no SSE aggregator configured"@),
                text_view(note),
                body@,
                is_sse,
                *aggregator,
            ));
            note
        },
        Some(aggregate) => {
            let text = read_lossy(body);
            let text_ref = text.as_str();
            let answer = aggregate(text_ref);
            let ghost given = answer;
            let outcome = match answer {
                Ok(value) => json_bytes(&value),
                Err(error) => Err(error),
            };
            append_aggregated(record, &outcome);
            let note = aggregation_note(&outcome);
            proof {
                let section = aggregated_section(outcome_view(outcome));
                assert(outcome_view(outcome) == answer_outcome(given));
                assert(call_ensures(*aggregate, (text_ref,), given));
                assert(is_noted_section(section, text_view(note), body@, is_sse, *aggregator));
            }
            note
        },
    }
}

/// Adds the body section of a response.
pub fn append_response_body<F: Fn(&str) -> Result<serde_json::Value, String>>(
    record: &mut Vec<u8>,
    body: &[u8],
    is_sse: bool,
    aggregator: &Option<F>,
)
    requires
        takes_any_text(*aggregator),
    ensures
        exists|section: Seq<u8>|
            final(record)@ == old(record)@ + section && #[trigger] is_body_section(
                section,
                body@,
                is_sse,
                *aggregator,
            ),
{
    let note = append_noted_body(record, body, is_sse, aggregator);
    proof {
        let section = choose|section: Seq<u8>|
            record@ == old(record)@ + section && #[trigger] is_noted_section(
                section,
                text_view(note),
                body@,
                is_sse,
                *aggregator,
            );
        lemma_noted_section(section, text_view(note), body@, is_sse, *aggregator);
    }
}

} // verus!
