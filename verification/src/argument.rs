//! Index arguments: reading a position from the text of an argument.

use vstd::prelude::*;

verus! {

/// The value of a decimal digit; `None` for any other character.
pub open spec fn digit_value(c: char) -> Option<nat> {
    match c {
        '0' => Some(0),
        '1' => Some(1),
        '2' => Some(2),
        '3' => Some(3),
        '4' => Some(4),
        '5' => Some(5),
        '6' => Some(6),
        '7' => Some(7),
        '8' => Some(8),
        '9' => Some(9),
        _ => None,
    }
}

/// Whether every character of `digits` is a decimal digit.
pub open spec fn all_digits(digits: Seq<char>) -> bool {
    forall|i: int| 0 <= i < digits.len() ==> (#[trigger] digit_value(digits[i])) is Some
}

/// The number that a sequence of decimal digits denotes, most significant
/// digit first. Leading zeros do not count; the empty sequence denotes zero.
pub open spec fn digits_value(digits: Seq<char>) -> nat
    decreases digits.len(),
{
    if digits.len() == 0 {
        0
    } else {
        10 * digits_value(digits.drop_last()) + digit_value(digits.last()).unwrap_or(0)
    }
}

/// The digits of an argument: the text without a leading plus sign.
pub open spec fn unsigned_part(text: Seq<char>) -> Seq<char> {
    if text.len() > 0 && text[0] == '+' {
        text.skip(1)
    } else {
        text
    }
}

/// The index that `text` denotes: an optional plus sign followed by one or
/// more decimal digits and nothing else. Text of any other shape, the empty
/// text and a lone sign included, denotes none.
pub open spec fn index_value(text: Seq<char>) -> Option<nat> {
    let digits = unsigned_part(text);
    if digits.len() > 0 && all_digits(digits) {
        Some(digits_value(digits))
    } else {
        None
    }
}

fn digit_of(c: char) -> (digit: Option<usize>)
    ensures
        match digit {
            Some(d) => digit_value(c) == Some(d as nat) && d < 10,
            None => digit_value(c) is None,
        },
{
    match c {
        '0' => Some(0),
        '1' => Some(1),
        '2' => Some(2),
        '3' => Some(3),
        '4' => Some(4),
        '5' => Some(5),
        '6' => Some(6),
        '7' => Some(7),
        '8' => Some(8),
        '9' => Some(9),
        _ => None,
    }
}

/// The text of an argument that does not denote an index.
#[derive(Debug, PartialEq, Eq)]
pub struct InvalidArgument {
    pub argument: String,
}

/// A longer run of digits denotes at least as much as any of its prefixes.
proof fn lemma_prefix_value(digits: Seq<char>, n: int)
    requires
        0 <= n <= digits.len(),
    ensures
        digits_value(digits.take(n)) <= digits_value(digits),
    decreases digits.len(),
{
    if n == digits.len() {
        assert(digits.take(n) =~= digits);
    } else {
        lemma_prefix_value(digits.drop_last(), n);
        assert(digits.drop_last().take(n) =~= digits.take(n));
    }
}

/// Reads an index from the text of an argument: an optional plus sign, then
/// decimal digits only. Anything else is refused, and so is a number too
/// large to be an index.
pub fn parse_index(text: &str) -> (result: Result<usize, InvalidArgument>)
    ensures
        match result {
            Ok(index) => index_value(text@) == Some(index as nat),
            Err(error) => {
                &&& error.argument@ == text@
                &&& index_value(text@) matches Some(value) ==> value > usize::MAX
            },
        },
{
    let ghost sign: int = if text@.len() > 0 && text@[0] == '+' { 1 } else { 0 };
    let mut value: usize = 0;
    let mut at_start = true;
    let mut any_digit = false;
    for c in it: text.chars()
        invariant
            it.seq() == text@,
            sign == if text@.len() > 0 && text@[0] == '+' { 1int } else { 0int },
            at_start == (it.index() == 0),
            !at_start ==> sign <= it.index(),
            at_start ==> value == 0 && !any_digit,
            !at_start ==> all_digits(text@.subrange(sign, it.index())),
            !at_start ==> value == digits_value(text@.subrange(sign, it.index())),
            !at_start ==> any_digit == (sign < it.index()),
    {
        let ghost k: int = it.index();
        if at_start && c == '+' {
            at_start = false;
        } else {
            at_start = false;
            let ghost before: Seq<char> = text@.subrange(sign, k);
            let ghost now: Seq<char> = text@.subrange(sign, k + 1);
            let ghost rest: Seq<char> = unsigned_part(text@);
            assert(now.drop_last() =~= before);
            assert(rest.take(k + 1 - sign) =~= now);
            let next = match digit_of(c) {
                Some(d) => match value.checked_mul(10) {
                    Some(tens) => tens.checked_add(d),
                    None => None,
                },
                None => None,
            };
            match next {
                Some(n) => {
                    value = n;
                    any_digit = true;
                },
                None => {
                    proof {
                        if index_value(text@) is Some {
                            lemma_prefix_value(rest, k + 1 - sign);
                        }
                    }
                    return Err(InvalidArgument { argument: text.to_owned() });
                },
            }
        }
    }
    assert(text@.subrange(sign, text@.len() as int) =~= unsigned_part(text@));
    if any_digit {
        Ok(value)
    } else {
        Err(InvalidArgument { argument: text.to_owned() })
    }
}

} // verus!
