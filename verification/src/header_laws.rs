//! What holds of every header section that is written, and of every content type that is read.

use vstd::prelude::*;
use vstd::utf8::*;

use crate::headers::{declares_event_stream, first_value, header_block};
use crate::media::{
    before_semicolon, is_event_stream, lemma_before_semicolon, lower, names_event_stream, trim_end,
    trim_start,
};
use crate::request::{
    content_length_line, host_line, request_header_block, url_authority,
};
use crate::text::{nat_text, utf8};
use crate::text_laws::{is_numeral, law_number_is_read_back, number_of};

verus! {

/// A header more is a line more: the name, a colon and a space, the bytes of the value, and a
/// line break, after what the other headers come to. No header comes to nothing.
pub proof fn law_header_lines(
    entries: Seq<(Seq<char>, Seq<u8>)>,
    name: Seq<char>,
    value: Seq<u8>,
)
    ensures
        header_block(Seq::empty()) == Seq::<u8>::empty(),
        header_block(entries.push((name, value))) == header_block(entries) + encode_utf8(name)
            + encode_utf8(": "@) + value + encode_utf8("\r\n"@),
{
    assert(entries.push((name, value)).drop_last() =~= entries);
    assert(header_block(entries.push((name, value))) =~= header_block(entries) + encode_utf8(name)
        + encode_utf8(": "@) + value + encode_utf8("\r\n"@));
}

/// Nothing but spaces and tabs.
pub open spec fn all_blank(bytes: Seq<u8>) -> bool {
    forall|i: int| 0 <= i < bytes.len() ==> #[trigger] bytes[i] == 32 || bytes[i] == 9
}

/// The name of the event stream type, each letter in either case.
pub open spec fn is_type_name(bytes: Seq<u8>) -> bool {
    let name = "text/event-stream"@;
    &&& bytes.len() == name.len()
    &&& forall|i: int|
        0 <= i < name.len() ==> #[trigger] bytes[i] == name[i] as int || ('a' <= name[i] <= 'z'
            && bytes[i] + 32 == name[i] as int)
}

/// A content type in four parts: blanks, the name of the event stream type, blanks, and either
/// nothing or a semicolon with anything behind it.
pub open spec fn is_typed(
    value: Seq<u8>,
    lead: Seq<u8>,
    name: Seq<u8>,
    trail: Seq<u8>,
    rest: Seq<u8>,
) -> bool {
    &&& value == lead + name + trail + rest
    &&& all_blank(lead)
    &&& is_type_name(name)
    &&& all_blank(trail)
    &&& rest.len() > 0 ==> rest[0] == 59
}

/// A content type is taken for an event stream exactly where all its bytes are visible ASCII,
/// spaces or tabs, and it is the name of that type, in either case, with blanks around it and
/// perhaps parameters behind it.
pub proof fn law_content_type(value: &[u8], named: bool)
    requires
        call_ensures(is_event_stream, (value,), named),
    ensures
        named <==> {
            &&& forall|i: int| 0 <= i < value@.len() ==> 32 <= #[trigger] value@[i] < 127 || value@[i]
                == 9
            &&& exists|lead: Seq<u8>, name: Seq<u8>, trail: Seq<u8>, rest: Seq<u8>|
                is_typed(value@, lead, name, trail, rest)
        },
{
    let bytes = value@;
    if named {
        lemma_named_is_typed(bytes);
    }
    if exists|lead: Seq<u8>, name: Seq<u8>, trail: Seq<u8>, rest: Seq<u8>|
        is_typed(bytes, lead, name, trail, rest) {
        let (lead, name, trail, rest) = choose|
            lead: Seq<u8>,
            name: Seq<u8>,
            trail: Seq<u8>,
            rest: Seq<u8>,
        |
            is_typed(bytes, lead, name, trail, rest);
        lemma_typed_core(bytes, lead, name, trail, rest);
    }
}

proof fn lemma_type_name(bytes: Seq<u8>)
    ensures
        is_type_name(bytes) <==> bytes.map_values(|byte: u8| lower(byte)) == utf8(
            "text/event-stream"@,
        ),
        is_type_name(bytes) ==> bytes.len() == 17,
        is_type_name(bytes) ==> forall|i: int|
            0 <= i < bytes.len() ==> #[trigger] bytes[i] != 59 && bytes[i] != 32 && bytes[i] != 9,
{
    let name = "text/event-stream"@;
    reveal_strlit("text/event-stream");
    is_ascii_chars_encode_utf8(name);
    let lowered = bytes.map_values(|byte: u8| lower(byte));
    if is_type_name(bytes) {
        assert forall|i: int| 0 <= i < lowered.len() implies lowered[i] == utf8(name)[i] by {
            assert(bytes[i] == name[i] as int || ('a' <= name[i] <= 'z' && bytes[i] + 32 == name[i] as int));
        }
        assert(lowered =~= utf8(name));
    }
    if lowered == utf8(name) {
        assert(bytes.len() == lowered.len());
        assert forall|i: int| 0 <= i < name.len() implies #[trigger] bytes[i] == name[i] as int || (
        'a' <= name[i] <= 'z' && bytes[i] + 32 == name[i] as int) by {
            assert(lowered[i] == lower(bytes[i]));
            assert(utf8(name)[i] == name[i] as u8);
        }
    }
}

proof fn lemma_named_is_typed(value: Seq<u8>)
    requires
        names_event_stream(value),
    ensures
        exists|lead: Seq<u8>, name: Seq<u8>, trail: Seq<u8>, rest: Seq<u8>|
            is_typed(value, lead, name, trail, rest),
{
    let part = before_semicolon(value);
    lemma_before_semicolon_splits(value);
    lemma_trim_end_splits(part);
    let ended = trim_end(part);
    lemma_trim_start_splits(ended);
    let name = trim_start(ended);
    let lead = ended.take(ended.len() - name.len());
    let trail = part.skip(ended.len() as int);
    let rest = value.skip(part.len() as int);
    lemma_type_name(name);
    assert(value =~= lead + name + trail + rest);
    assert(is_typed(value, lead, name, trail, rest));
}

proof fn lemma_before_semicolon_splits(value: Seq<u8>)
    ensures
        before_semicolon(value).len() <= value.len(),
        before_semicolon(value) == value.take(before_semicolon(value).len() as int),
        before_semicolon(value).len() < value.len() ==> value[before_semicolon(value).len() as int]
            == 59,
    decreases value.len(),
{
    let part = before_semicolon(value);
    if value.len() > 0 && value[0] != 59 {
        lemma_before_semicolon_splits(value.drop_first());
        assert(part =~= value.take(part.len() as int));
    } else {
        assert(part =~= value.take(0));
    }
}

proof fn lemma_trim_end_splits(value: Seq<u8>)
    ensures
        trim_end(value).len() <= value.len(),
        trim_end(value) == value.take(trim_end(value).len() as int),
        all_blank(value.skip(trim_end(value).len() as int)),
    decreases value.len(),
{
    let ended = trim_end(value);
    if value.len() > 0 && (value.last() == 32 || value.last() == 9) {
        let shorter = value.drop_last();
        lemma_trim_end_splits(shorter);
        assert(ended =~= value.take(ended.len() as int));
        assert forall|i: int| 0 <= i < value.len() - ended.len() implies #[trigger] value.skip(
            ended.len() as int,
        )[i] == 32 || value.skip(ended.len() as int)[i] == 9 by {
            if i < shorter.len() - ended.len() {
                assert(value.skip(ended.len() as int)[i] == shorter.skip(ended.len() as int)[i]);
            }
        }
    } else {
        assert(value =~= value.take(value.len() as int));
    }
}

proof fn lemma_trim_start_splits(value: Seq<u8>)
    ensures
        trim_start(value).len() <= value.len(),
        trim_start(value) == value.skip(value.len() - trim_start(value).len()),
        all_blank(value.take(value.len() - trim_start(value).len())),
    decreases value.len(),
{
    let started = trim_start(value);
    if value.len() > 0 && (value[0] == 32 || value[0] == 9) {
        let shorter = value.drop_first();
        lemma_trim_start_splits(shorter);
        let n = value.len() - started.len();
        assert(started =~= value.skip(n));
        assert forall|i: int| 0 <= i < n implies #[trigger] value.take(n)[i] == 32 || value.take(
            n,
        )[i] == 9 by {
            if i > 0 {
                assert(value.take(n)[i] == shorter.take(n - 1)[i - 1]);
            }
        }
    } else {
        assert(value =~= value.skip(0));
    }
}

proof fn lemma_typed_core(
    value: Seq<u8>,
    lead: Seq<u8>,
    name: Seq<u8>,
    trail: Seq<u8>,
    rest: Seq<u8>,
)
    requires
        is_typed(value, lead, name, trail, rest),
    ensures
        trim_start(trim_end(before_semicolon(value))) == name,
        name.map_values(|byte: u8| lower(byte)) == utf8("text/event-stream"@),
{
    lemma_type_name(name);
    let part = lead + name + trail;
    assert forall|i: int| 0 <= i < part.len() implies value[i] != 59 by {
        if i < lead.len() {
            assert(value[i] == lead[i]);
        } else if i < lead.len() + name.len() {
            assert(value[i] == name[i - lead.len()]);
        } else {
            assert(value[i] == trail[i - lead.len() - name.len()]);
        }
    }
    lemma_before_semicolon(value, part.len() as int);
    assert(value.take(part.len() as int) =~= part);
    assert((lead + name).last() == name.last());
    lemma_trim_end_takes(lead + name, trail);
    lemma_trim_start_takes(lead, name);
}

proof fn lemma_trim_end_takes(kept: Seq<u8>, trail: Seq<u8>)
    requires
        all_blank(trail),
        kept.len() > 0,
        kept.last() != 32,
        kept.last() != 9,
    ensures
        trim_end(kept + trail) == kept,
    decreases trail.len(),
{
    if trail.len() == 0 {
        assert(kept + trail =~= kept);
    } else {
        assert((kept + trail).last() == trail[trail.len() - 1]);
        assert((kept + trail).drop_last() =~= kept + trail.drop_last());
        assert(all_blank(trail.drop_last())) by {
            assert forall|i: int| 0 <= i < trail.len() - 1 implies #[trigger] trail.drop_last()[i]
                == 32 || trail.drop_last()[i] == 9 by {
                assert(trail.drop_last()[i] == trail[i]);
            }
        }
        lemma_trim_end_takes(kept, trail.drop_last());
    }
}

proof fn lemma_trim_start_takes(lead: Seq<u8>, kept: Seq<u8>)
    requires
        all_blank(lead),
        kept.len() > 0,
        kept[0] != 32,
        kept[0] != 9,
    ensures
        trim_start(lead + kept) == kept,
    decreases lead.len(),
{
    if lead.len() == 0 {
        assert(lead + kept =~= kept);
    } else {
        assert((lead + kept)[0] == lead[0]);
        assert((lead + kept).drop_first() =~= lead.drop_first() + kept);
        assert(all_blank(lead.drop_first())) by {
            assert forall|i: int| 0 <= i < lead.len() - 1 implies #[trigger] lead.drop_first()[i]
                == 32 || lead.drop_first()[i] == 9 by {
                assert(lead.drop_first()[i] == lead[i + 1]);
            }
        }
        lemma_trim_start_takes(lead.drop_first(), kept);
    }
}

/// The first content type decides whether a response is an event stream, and one without a
/// content type is none.
pub proof fn law_first_content_type_decides(entries: Seq<(Seq<char>, Seq<u8>)>, i: int)
    requires
        0 <= i <= entries.len(),
        forall|j: int| 0 <= j < i ==> (#[trigger] entries[j]).0 != "content-type"@,
        i < entries.len() ==> entries[i].0 == "content-type"@,
    ensures
        declares_event_stream(entries) <==> i < entries.len() && names_event_stream(entries[i].1),
{
    lemma_first_value(entries, "content-type"@, i);
}

proof fn lemma_first_value(entries: Seq<(Seq<char>, Seq<u8>)>, name: Seq<char>, i: int)
    requires
        0 <= i <= entries.len(),
        forall|j: int| 0 <= j < i ==> (#[trigger] entries[j]).0 != name,
        i < entries.len() ==> entries[i].0 == name,
    ensures
        first_value(entries, name) == if i < entries.len() {
            Some(entries[i].1)
        } else {
            None
        },
    decreases entries.len(),
{
    if i > 0 {
        assert(entries[0].0 != name);
        let rest = entries.drop_first();
        assert forall|j: int| 0 <= j < i - 1 implies (#[trigger] rest[j]).0 != name by {
            assert(rest[j] == entries[j + 1]);
        }
        lemma_first_value(rest, name, i - 1);
    }
}

/// A line that states this content length.
pub open spec fn is_length_line(line: Seq<u8>, length: nat) -> bool {
    exists|digits: Seq<char>|
        {
            &&& #[trigger] is_numeral(digits)
            &&& number_of(digits) == length
            &&& line == encode_utf8("content-length: "@) + encode_utf8(digits) + encode_utf8(
                "\r\n"@,
            )
        }
}

/// A line that names this host, with this port where there is one.
pub open spec fn is_host_line(line: Seq<u8>, host: Seq<char>, port: Option<u16>) -> bool {
    match port {
        None => line == encode_utf8("host: "@) + encode_utf8(host) + encode_utf8("\r\n"@),
        Some(port) => exists|digits: Seq<char>|
            {
                &&& #[trigger] is_numeral(digits)
                &&& number_of(digits) == port
                &&& line == encode_utf8("host: "@) + encode_utf8(host) + encode_utf8(":"@)
                    + encode_utf8(digits) + encode_utf8("\r\n"@)
            },
    }
}

/// These two lines complete a request with these headers: the host of its URL, where it has one
/// and no header names a host, and the length of its body, where no header states one.
pub open spec fn are_completing(
    host_part: Seq<u8>,
    length_part: Seq<u8>,
    url: Seq<char>,
    entries: Seq<(Seq<char>, Seq<u8>)>,
    body_len: nat,
) -> bool {
    let names_host = exists|i: int| 0 <= i < entries.len() && (#[trigger] entries[i]).0 == "host"@;
    let states_length = exists|i: int|
        0 <= i < entries.len() && (#[trigger] entries[i]).0 == "content-length"@;
    &&& match url_authority(url) {
        Some((Some(host), port)) if !names_host => is_host_line(host_part, host, port),
        _ => host_part.len() == 0,
    }
    &&& if states_length {
        length_part.len() == 0
    } else {
        is_length_line(length_part, body_len)
    }
}

/// The header section of a request is what its headers come to, unchanged, and behind it the
/// lines that complete it. So every captured request states a length and, where one is known,
/// names a host, and no line is added that a header makes needless.
pub proof fn law_request_is_completed(
    url: Seq<char>,
    entries: Seq<(Seq<char>, Seq<u8>)>,
    body_len: nat,
)
    ensures
        exists|host_part: Seq<u8>, length_part: Seq<u8>|
            {
                &&& #[trigger] are_completing(host_part, length_part, url, entries, body_len)
                &&& request_header_block(url, entries, body_len) == header_block(entries)
                    + host_part + length_part
            },
        forall|host_part: Seq<u8>, length_part: Seq<u8>| #[trigger]
            are_completing(host_part, length_part, url, entries, body_len)
                ==> request_header_block(url, entries, body_len) == header_block(entries)
                + host_part + length_part,
{
    let names_host = exists|i: int| 0 <= i < entries.len() && (#[trigger] entries[i]).0 == "host"@;
    let states_length = exists|i: int|
        0 <= i < entries.len() && (#[trigger] entries[i]).0 == "content-length"@;
    let block = request_header_block(url, entries, body_len);
    let host_part = if names_host {
        Seq::<u8>::empty()
    } else {
        host_line(url_authority(url))
    };
    let length_part = if states_length {
        Seq::<u8>::empty()
    } else {
        content_length_line(body_len)
    };
    lemma_numerals_agree();
    law_number_is_read_back(body_len);
    assert(is_numeral(nat_text(body_len)));
    if let Some((Some(host), Some(port))) = url_authority(url) {
        law_number_is_read_back(port as nat);
        assert(is_numeral(nat_text(port as nat)));
    }
    assert(are_completing(host_part, length_part, url, entries, body_len));
    assert(block =~= header_block(entries) + host_part + length_part);
    assert forall|h: Seq<u8>, l: Seq<u8>| #[trigger]
        are_completing(h, l, url, entries, body_len) implies block == header_block(entries) + h
        + l by {
        assert(h =~= host_part);
        assert(l =~= length_part);
    }
}

/// A number has one numeral.
proof fn lemma_numerals_agree()
    ensures
        forall|a: Seq<char>, b: Seq<char>|
            #![trigger is_numeral(a), is_numeral(b)]
            is_numeral(a) && is_numeral(b) && number_of(a) == number_of(b) ==> a == b,
{
    assert forall|a: Seq<char>, b: Seq<char>|
        #![trigger is_numeral(a), is_numeral(b)]
        is_numeral(a) && is_numeral(b) && number_of(a) == number_of(b) implies a == b by {
        lemma_numeral_is_text(a);
        lemma_numeral_is_text(b);
    }
}

proof fn lemma_numeral_is_text(digits: Seq<char>)
    requires
        is_numeral(digits),
    ensures
        number_of(digits) >= 0,
        digits[0] != '0' ==> number_of(digits) > 0,
        digits == nat_text(number_of(digits) as nat),
    decreases digits.len(),
{
    let shorter = digits.drop_last();
    let last = digits.last() as int - '0' as int;
    assert('0' <= digits[digits.len() - 1] <= '9');
    assert(0 <= last <= 9);
    if digits.len() == 1 {
        assert(shorter =~= Seq::empty());
        assert(number_of(shorter) == 0);
        assert(digits =~= nat_text(number_of(digits) as nat));
    } else {
        assert(is_numeral(shorter)) by {
            assert(shorter[0] == digits[0]);
            assert forall|i: int| 0 <= i < shorter.len() implies '0' <= #[trigger] shorter[i]
                <= '9' by {
                assert(shorter[i] == digits[i]);
            }
        }
        lemma_numeral_is_text(shorter);
        let n = number_of(digits);
        assert(n / 10 == number_of(shorter) && n % 10 == last);
        assert(nat_text(n as nat) == nat_text((n / 10) as nat).push(
            crate::text::digit((n % 10) as nat),
        ));
        assert(digits =~= shorter.push(digits.last()));
    }
}

} // verus!
