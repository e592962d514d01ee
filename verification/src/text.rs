//! Pieces of text that the names in a report are put together from.

use vstd::prelude::*;
use vstd::utf8::{decode_utf8, valid_utf8};

verus! {

/// The character of the decimal digit `d`.
pub open spec fn digit(d: nat) -> char {
    ('0' as int + d) as char
}

/// The decimal notation of `n`, without leading zeros.
pub open spec fn decimal(n: nat) -> Seq<char>
    decreases n,
{
    if n < 10 {
        seq![digit(n)]
    } else {
        decimal(n / 10).push(digit(n % 10))
    }
}

/// The decimal notation of `n`, with a minus sign in front of a negative number.
pub open spec fn signed_decimal(n: int) -> Seq<char> {
    if n < 0 {
        seq!['-'] + decimal((-n) as nat)
    } else {
        decimal(n as nat)
    }
}

/// The text that a path spells, if it spells one: a path is bytes, and those
/// are text where they are UTF-8.
pub open spec fn path_text(path: Option<Seq<u8>>) -> Option<Seq<char>> {
    match path {
        Some(bytes) => if valid_utf8(bytes) {
            Some(decode_utf8(bytes))
        } else {
            None
        },
        None => None,
    }
}

/// `before`, the path's text and `after`, or nothing at all for a path that
/// spells no text.
pub open spec fn path_part(before: Seq<char>, path: Option<Seq<u8>>, after: Seq<char>) -> Seq<
    char,
> {
    match path_text(path) {
        Some(text) => before + text + after,
        None => Seq::empty(),
    }
}

/// The contents of each string.
pub open spec fn texts(strings: Seq<String>) -> Seq<Seq<char>> {
    Seq::new(strings.len(), |i: int| strings[i]@)
}

/// All `parts`, one behind the other.
pub open spec fn concatenation(parts: Seq<Seq<char>>) -> Seq<char>
    decreases parts.len(),
{
    if parts.len() == 0 {
        Seq::empty()
    } else {
        concatenation(parts.drop_last()) + parts.last()
    }
}

/// The bytes of a path that may be absent.
pub open spec fn path_bytes(path: Option<Vec<u8>>) -> Option<Seq<u8>> {
    match path {
        Some(bytes) => Some(bytes@),
        None => None,
    }
}

fn digit_text(d: u128) -> (text: &'static str)
    requires
        d < 10,
    ensures
        text@ == seq![digit(d as nat)],
{
    proof {
        reveal_strlit("0");
        reveal_strlit("1");
        reveal_strlit("2");
        reveal_strlit("3");
        reveal_strlit("4");
        reveal_strlit("5");
        reveal_strlit("6");
        reveal_strlit("7");
        reveal_strlit("8");
        reveal_strlit("9");
    }
    if d == 0 {
        "0"
    } else if d == 1 {
        "1"
    } else if d == 2 {
        "2"
    } else if d == 3 {
        "3"
    } else if d == 4 {
        "4"
    } else if d == 5 {
        "5"
    } else if d == 6 {
        "6"
    } else if d == 7 {
        "7"
    } else if d == 8 {
        "8"
    } else {
        "9"
    }
}

/// Writes `n` in decimal notation.
pub fn to_decimal(n: u128) -> (text: String)
    ensures
        text@ == decimal(n as nat),
        is_numeral(text@),
        number(text@) == n,
    decreases n,
{
    proof {
        law_decimal_is_read_back(n as nat);
    }
    if n < 10 {
        digit_text(n).to_owned()
    } else {
        let mut text = to_decimal(n / 10);
        text.append(digit_text(n % 10));
        text
    }
}

/// Writes `n` in decimal notation, with its sign if it is negative.
pub fn to_signed_decimal(n: i128) -> (text: String)
    ensures
        text@ == signed_decimal(n as int),
{
    if n < 0 {
        proof {
            reveal_strlit("-");
        }
        let mut text = "-".to_owned();
        let magnitude: u128 = (-(n + 1)) as u128 + 1;
        let digits = to_decimal(magnitude);
        text.append(digits.as_str());
        assert(text@ =~= seq!['-'] + decimal((-n) as nat));
        text
    } else {
        to_decimal(n as u128)
    }
}

/// Reads bytes as text.
///
/// Calls `std::str::from_utf8`, of which this claims what its documentation
/// says: it succeeds exactly on UTF-8, and then gives the text that is encoded.
#[verifier::external_body]
fn utf8_text(bytes: &[u8]) -> (text: Option<&str>)
    ensures
        text is Some <==> valid_utf8(bytes@),
        text matches Some(s) ==> s@ == decode_utf8(bytes@),
{
    std::str::from_utf8(bytes).ok()
}

/// Writes `before`, the path and `after`, or nothing for a path that is absent
/// or is no text.
pub fn to_path_part(before: &str, path: Option<&Vec<u8>>, after: &str) -> (text: String)
    ensures
        text@ == path_part(
            before@,
            match path {
                Some(bytes) => Some(bytes@),
                None => None,
            },
            after@,
        ),
{
    match path {
        Some(bytes) => match utf8_text(bytes.as_slice()) {
            Some(shown) => {
                let mut text = before.to_owned();
                text.append(shown);
                text.append(after);
                text
            },
            None => String::new(),
        },
        None => String::new(),
    }
}

/// Puts all `parts` one behind the other.
pub fn concatenate(parts: &Vec<String>) -> (text: String)
    ensures
        text@ == concatenation(texts(parts@)),
        holds_all(text@, texts(parts@)),
{
    let mut text = String::new();
    let mut i: usize = 0;
    while i < parts.len()
        invariant
            i <= parts.len(),
            text@ == concatenation(texts(parts@).take(i as int)),
        decreases parts.len() - i,
    {
        text.append(parts[i].as_str());
        proof {
            let next = texts(parts@).take(i + 1);
            assert(next.drop_last() =~= texts(parts@).take(i as int));
        }
        i = i + 1;
    }
    assert(texts(parts@).take(i as int) =~= texts(parts@));
    proof {
        law_concatenation_holds_all(texts(parts@));
    }
    text
}

// ---------------------------------------------------------------------------
// What the texts tell
// ---------------------------------------------------------------------------

/// Whether the character is a decimal digit.
pub open spec fn is_digit(c: char) -> bool {
    '0' as int <= c as int <= '9' as int
}

/// Whether the text is made of decimal digits, at least one, and starts with `0`
/// only if that is all.
pub open spec fn is_numeral(text: Seq<char>) -> bool {
    &&& text.len() > 0
    &&& forall|i: int| 0 <= i < text.len() ==> is_digit(#[trigger] text[i])
    &&& text.len() > 1 ==> text[0] != '0'
}

/// The number that decimal digits stand for.
pub open spec fn number(text: Seq<char>) -> int
    decreases text.len(),
{
    if text.len() == 0 {
        0
    } else {
        10 * number(text.drop_last()) + (text.last() as int - '0' as int)
    }
}

/// A number can be read from its decimal notation, which is made of digits and
/// has no leading zeros.
pub proof fn law_decimal_is_read_back(n: nat)
    ensures
        is_numeral(decimal(n)),
        number(decimal(n)) == n,
        decimal(n)[0] == '0' ==> n == 0,
    decreases n,
{
    let text = decimal(n);
    if n < 10 {
        assert(text.drop_last() =~= Seq::empty());
        assert(number(text.drop_last()) == 0);
    } else {
        law_decimal_is_read_back(n / 10);
        assert(text.drop_last() =~= decimal(n / 10));
    }
}

/// A number with a sign can be read from its notation: a minus sign stands in
/// front exactly if the number is negative.
pub proof fn law_signed_decimal_is_read_back(n: int)
    ensures
        signed_decimal(n)[0] == '-' <==> n < 0,
        n < 0 ==> is_numeral(signed_decimal(n).skip(1)) && number(signed_decimal(n).skip(1)) == -n,
        n >= 0 ==> is_numeral(signed_decimal(n)) && number(signed_decimal(n)) == n,
{
    if n < 0 {
        law_decimal_is_read_back((-n) as nat);
        assert(signed_decimal(n).skip(1) =~= decimal((-n) as nat));
    } else {
        law_decimal_is_read_back(n as nat);
        assert(is_digit(signed_decimal(n)[0]));
    }
}

/// How many characters the parts have together.
pub open spec fn total_len(parts: Seq<Seq<char>>) -> int
    decreases parts.len(),
{
    if parts.len() == 0 {
        0
    } else {
        total_len(parts.drop_last()) + parts.last().len()
    }
}

/// Whether the text holds all parts one behind the other and nothing else: each
/// stands behind as many characters as those before it have.
pub open spec fn holds_all(text: Seq<char>, parts: Seq<Seq<char>>) -> bool {
    &&& text.len() == total_len(parts)
    &&& forall|i: int|
        0 <= i < parts.len() ==> {
            &&& 0 <= total_len(parts.take(i)) <= total_len(parts.take(i)) + parts[i].len()
                <= text.len()
            &&& text.subrange(
                total_len(parts.take(i)),
                total_len(parts.take(i)) + parts[i].len(),
            ) == #[trigger] parts[i]
        }
}

/// What is put together of parts holds each of them, in order, and nothing else.
pub proof fn law_concatenation_holds_all(parts: Seq<Seq<char>>)
    ensures
        holds_all(concatenation(parts), parts),
    decreases parts.len(),
{
    let text = concatenation(parts);
    if parts.len() > 0 {
        let front = parts.drop_last();
        law_concatenation_holds_all(front);
        assert forall|i: int| 0 <= i < parts.len() implies {
            &&& 0 <= total_len(parts.take(i)) <= total_len(parts.take(i)) + parts[i].len()
                <= text.len()
            &&& text.subrange(
                total_len(parts.take(i)),
                total_len(parts.take(i)) + parts[i].len(),
            ) == #[trigger] parts[i]
        } by {
            if i < front.len() {
                assert(front[i] == parts[i]);
                assert(front.take(i) =~= parts.take(i));
                let start = total_len(parts.take(i));
                assert(text.subrange(start, start + parts[i].len()) =~= concatenation(
                    front,
                ).subrange(start, start + parts[i].len()));
            } else {
                assert(parts.take(i) =~= front);
                assert(text.subrange(total_len(front), text.len() as int) =~= parts[i]);
            }
        }
    }
}

/// The part of a path is there exactly if the bytes of the path are text, and then
/// holds that text between what stands before and after it.
pub proof fn law_path_part(before: Seq<char>, bytes: Seq<u8>, after: Seq<char>)
    ensures
        path_part(before, None, after).len() == 0,
        !valid_utf8(bytes) ==> path_part(before, Some(bytes), after).len() == 0,
        valid_utf8(bytes) ==> path_part(before, Some(bytes), after) == before + decode_utf8(bytes)
            + after,
{
}

/// The contents of strings are those of each of them, in order.
pub proof fn law_texts(strings: Seq<String>)
    ensures
        texts(strings).len() == strings.len(),
        forall|i: int| 0 <= i < strings.len() ==> texts(strings)[i] == (#[trigger] strings[i])@,
{
}

} // verus!
