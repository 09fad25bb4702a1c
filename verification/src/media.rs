//! Recognising an event stream by its content type.

use vstd::prelude::*;
use vstd::string::*;

use crate::text::utf8;

verus! {

/// A byte that may stand in a readable header value: visible ASCII, a space or a tab.
pub open spec fn is_readable(byte: u8) -> bool {
    32 <= byte < 127 || byte == 9
}

/// A space or a tab.
pub open spec fn is_blank(byte: u8) -> bool {
    byte == 32 || byte == 9
}

/// The bytes before the first semicolon.
pub open spec fn before_semicolon(value: Seq<u8>) -> Seq<u8>
    decreases value.len(),
{
    if value.len() == 0 || value[0] == 59 {
        Seq::empty()
    } else {
        seq![value[0]] + before_semicolon(value.drop_first())
    }
}

/// The bytes without the blanks in front.
pub open spec fn trim_start(value: Seq<u8>) -> Seq<u8>
    decreases value.len(),
{
    if value.len() > 0 && is_blank(value[0]) {
        trim_start(value.drop_first())
    } else {
        value
    }
}

/// The bytes without the blanks behind.
pub open spec fn trim_end(value: Seq<u8>) -> Seq<u8>
    decreases value.len(),
{
    if value.len() > 0 && is_blank(value.last()) {
        trim_end(value.drop_last())
    } else {
        value
    }
}

/// A byte with an upper-case ASCII letter made lower-case.
pub open spec fn lower(byte: u8) -> u8 {
    if 65 <= byte <= 90 {
        (byte + 32) as u8
    } else {
        byte
    }
}

/// A content type names an event stream: it is readable, and what stands before its
/// parameters is `text/event-stream`, in any case and between any blanks.
pub open spec fn names_event_stream(value: Seq<u8>) -> bool {
    &&& forall|i: int| 0 <= i < value.len() ==> is_readable(#[trigger] value[i])
    &&& trim_start(trim_end(before_semicolon(value))).map_values(|byte: u8| lower(byte)) == utf8(
        "text/event-stream"@,
    )
}

/// Where the first semicolon stands is where the bytes before it end.
pub proof fn lemma_before_semicolon(value: Seq<u8>, n: int)
    requires
        0 <= n <= value.len(),
        forall|i: int| 0 <= i < n ==> value[i] != 59,
        n < value.len() ==> value[n] == 59,
    ensures
        before_semicolon(value) == value.take(n),
    decreases n,
{
    if n > 0 {
        lemma_before_semicolon(value.drop_first(), n - 1);
        assert(value.take(n) =~= seq![value[0]] + value.drop_first().take(n - 1));
    } else {
        assert(value.take(0) =~= Seq::empty());
    }
}

/// Whether a content type names an event stream.
pub fn is_event_stream(value: &[u8]) -> (named: bool)
    ensures
        named == names_event_stream(value@),
{
    let mut end: usize = value.len();
    for i in 0..value.len()
        invariant
            end <= value@.len(),
            forall|j: int| 0 <= j < i ==> is_readable(#[trigger] value@[j]),
            forall|j: int| 0 <= j < i && j < end ==> value@[j] != 59,
            end < i ==> value@[end as int] == 59,
            end >= i ==> end == value@.len(),
    {
        let byte: u8 = value[i];
        if !(32 <= byte && byte < 127 || byte == 9) {
            return false;
        }
        if byte == 59 && end == value.len() {
            end = i;
        }
    }
    let ghost part = before_semicolon(value@);
    proof {
        lemma_before_semicolon(value@, end as int);
    }
    while end > 0 && (value[end - 1] == 32 || value[end - 1] == 9)
        invariant
            end <= value@.len(),
            trim_end(part) == trim_end(value@.take(end as int)),
        decreases end,
    {
        assert(value@.take(end as int).drop_last() =~= value@.take(end - 1));
        end = end - 1;
    }
    assert(trim_end(part) == value@.take(end as int));
    let mut start: usize = 0;
    assert(value@.subrange(0, end as int) =~= value@.take(end as int));
    while start < end && (value[start] == 32 || value[start] == 9)
        invariant
            start <= end <= value@.len(),
            trim_start(trim_end(part)) == trim_start(value@.subrange(start as int, end as int)),
        decreases end - start,
    {
        assert(value@.subrange(start as int, end as int).drop_first() =~= value@.subrange(
            start + 1,
            end as int,
        ));
        start = start + 1;
    }
    let ghost trimmed = value@.subrange(start as int, end as int);
    assert(trim_start(trim_end(part)) == trimmed);
    let wanted = "text/event-stream".as_bytes();
    let ghost lowered = trimmed.map_values(|byte: u8| lower(byte));
    if end - start != wanted.len() {
        assert(lowered.len() != wanted@.len());
        return false;
    }
    for i in 0..wanted.len()
        invariant
            start + wanted@.len() == end,
            end <= value@.len(),
            trimmed == value@.subrange(start as int, end as int),
            trimmed == trim_start(trim_end(before_semicolon(value@))),
            wanted@ == utf8("text/event-stream"@),
            lowered == trimmed.map_values(|byte: u8| lower(byte)),
            forall|j: int| 0 <= j < i ==> lowered[j] == wanted@[j],
    {
        let byte: u8 = value[start + i];
        let small: u8 = if 65 <= byte && byte <= 90 {
            byte + 32
        } else {
            byte
        };
        if small != wanted[i] {
            assert(lowered[i as int] != wanted@[i as int]);
            return false;
        }
    }
    assert(lowered =~= wanted@);
    true
}

} // verus!
