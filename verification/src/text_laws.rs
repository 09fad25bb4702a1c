//! What holds of every text that is flattened, written as bytes, or made from a number.

use vstd::prelude::*;
use vstd::string::*;
use vstd::utf8::*;

use crate::text::{
    decimal, digit, flattened, nat_text, on_one_line, single_line, utf8,
};

verus! {

/// One text is the other with a space in the place of every carriage return, line feed and tab,
/// and with every other character where it was.
pub open spec fn is_flattened(line: Seq<char>, text: Seq<char>) -> bool {
    &&& line.len() == text.len()
    &&& forall|i: int|
        0 <= i < text.len() ==> {
            if text[i] == '\r' || text[i] == '\n' || text[i] == '\t' {
                #[trigger] line[i] == ' '
            } else {
                line[i] == text[i]
            }
        }
}

/// Flattening touches line breaks and tabs alone: each becomes a space, and every other
/// character stays where it was.
pub proof fn law_only_breaks_are_flattened(value: &str, line: String)
    requires
        call_ensures(single_line, (value,), line),
    ensures
        line@.len() == value@.len(),
        forall|i: int|
            0 <= i < value@.len() && (value@[i] == '\r' || value@[i] == '\n' || value@[i] == '\t')
                ==> #[trigger] line@[i] == ' ',
        forall|i: int|
            0 <= i < value@.len() && value@[i] != '\r' && value@[i] != '\n' && value@[i] != '\t'
                ==> #[trigger] line@[i] == value@[i],
        is_flattened(line@, value@),
{
    lemma_flattened(value@);
}

/// A flattened text is flattened from its text, and from it alone.
pub proof fn lemma_flattened(text: Seq<char>)
    ensures
        is_flattened(on_one_line(text), text),
        forall|line: Seq<char>| #[trigger] is_flattened(line, text) ==> line == on_one_line(text),
{
    assert forall|i: int| 0 <= i < text.len() implies #[trigger] on_one_line(text)[i] == flattened(
        text[i],
    ) by {}
    assert forall|line: Seq<char>| #[trigger] is_flattened(line, text) implies line
        == on_one_line(text) by {
        assert forall|i: int| 0 <= i < text.len() implies line[i] == on_one_line(text)[i] by {
            assert(on_one_line(text)[i] == flattened(text[i]));
        }
        assert(line =~= on_one_line(text));
    }
}

/// A text is read back from the bytes that are written for it.
pub proof fn law_text_is_read_back(text: Seq<char>)
    ensures
        utf8(text) == encode_utf8(text),
        valid_utf8(utf8(text)),
        decode_utf8(utf8(text)) == text,
{
    encode_utf8_valid_utf8(text);
    encode_utf8_decode_utf8(text);
}

/// The number that decimal digits stand for.
pub open spec fn number_of(digits: Seq<char>) -> int
    decreases digits.len(),
{
    if digits.len() == 0 {
        0
    } else {
        10 * number_of(digits.drop_last()) + (digits.last() as int - '0' as int)
    }
}

/// Decimal digits, with no zero in front unless it is the only one.
pub open spec fn is_numeral(digits: Seq<char>) -> bool {
    &&& digits.len() > 0
    &&& digits.len() > 1 ==> digits[0] != '0'
    &&& forall|i: int| 0 <= i < digits.len() ==> '0' <= #[trigger] digits[i] <= '9'
}

/// A natural number is read back from its digits.
pub proof fn law_number_is_read_back(n: nat)
    ensures
        is_numeral(nat_text(n)),
        number_of(nat_text(n)) == n,
    decreases n,
{
    let text = nat_text(n);
    if n < 10 {
        assert(text.drop_last() =~= Seq::empty());
        assert(number_of(text.drop_last()) == 0);
        assert(text.last() == digit(n));
    } else {
        law_number_is_read_back(n / 10);
        assert(text.drop_last() =~= nat_text(n / 10));
        assert(text.last() == digit(n % 10));
        assert(nat_text(n / 10)[0] != '0') by {
            if nat_text(n / 10).len() == 1 {
                assert(n / 10 < 10) by {
                    if n / 10 >= 10 {
                        assert(nat_text(n / 10).len() == nat_text(n / 100).len() + 1);
                        law_number_is_read_back(n / 100);
                    }
                }
            }
        }
    }
}

/// A signed number is read back from its text: a minus sign stands in front of a negative one,
/// and then the digits of its magnitude.
pub proof fn law_signed_number_is_read_back(n: i64, text: String)
    requires
        call_ensures(decimal, (n,), text),
    ensures
        n >= 0 ==> is_numeral(text@) && number_of(text@) == n,
        n < 0 ==> text@.len() > 0 && text@[0] == '-' && is_numeral(text@.skip(1)) && number_of(
            text@.skip(1),
        ) == -n,
{
    reveal_strlit("-");
    if n < 0 {
        law_number_is_read_back((-n) as nat);
        assert(text@.skip(1) =~= nat_text((-n) as nat));
    } else {
        law_number_is_read_back(n as nat);
    }
}

} // verus!
