use vstd::prelude::*;

use crate::input::types::{GbaButton, ParsedInput};
use crate::text::{chars_of, lowercase_text, lowercased, spells, trim_text, trimmed};

verus! {

/// The smallest repeat count a compound command may carry.
pub const MIN_COMPOUND_REPEAT: u8 = 2;

/// The largest repeat count a compound command may carry.
pub const MAX_COMPOUND_REPEAT: u8 = 9;

/// The button whose name is exactly `t`, if any.
pub open spec fn button_named(t: Seq<char>) -> Option<GbaButton> {
    if t == "a"@ {
        Some(GbaButton::A)
    } else if t == "b"@ {
        Some(GbaButton::B)
    } else if t == "up"@ {
        Some(GbaButton::Up)
    } else if t == "down"@ {
        Some(GbaButton::Down)
    } else if t == "left"@ {
        Some(GbaButton::Left)
    } else if t == "right"@ {
        Some(GbaButton::Right)
    } else if t == "start"@ {
        Some(GbaButton::Start)
    } else if t == "select"@ {
        Some(GbaButton::Select)
    } else if t == "l"@ {
        Some(GbaButton::L)
    } else if t == "r"@ {
        Some(GbaButton::R)
    } else {
        None
    }
}

/// The command that a whole normalized line spells out as a keyword.
pub open spec fn keyword(t: Seq<char>) -> Option<ParsedInput> {
    match button_named(t) {
        Some(b) => Some(ParsedInput::Button(b)),
        None => if t == "wait"@ {
            Some(ParsedInput::Wait)
        } else if t == "anarchy"@ {
            Some(ParsedInput::VoteAnarchy)
        } else if t == "democracy"@ {
            Some(ParsedInput::VoleDemocracy)
        } else {
            None
        },
    }
}

pub open spec fn is_decimal_digit(c: char) -> bool {
    '0' <= c <= '9'
}

/// The length of the longest run of decimal digits that ends `t`.
pub open spec fn trailing_digit_count(t: Seq<char>) -> nat
    decreases t.len(),
{
    if t.len() > 0 && is_decimal_digit(t.last()) {
        1 + trailing_digit_count(t.drop_last())
    } else {
        0
    }
}

/// The number that a run of decimal digits writes.
pub open spec fn digits_value(d: Seq<char>) -> nat
    decreases d.len(),
{
    if d.len() == 0 {
        0
    } else {
        digits_value(d.drop_last()) * 10 + (d.last() as int - '0' as int) as nat
    }
}

/// A button name followed by a repeat count: the trailing digits are the count, and
/// what stands before them must be a button name. Counts outside
/// `MIN_COMPOUND_REPEAT..=MAX_COMPOUND_REPEAT` are refused.
pub open spec fn compound_of(t: Seq<char>) -> Option<ParsedInput> {
    let k = trailing_digit_count(t);
    let split = t.len() - k;
    if k == 0 {
        None
    } else {
        match button_named(t.subrange(0, split)) {
            None => None,
            Some(b) => {
                let n = digits_value(t.subrange(split, t.len() as int));
                if MIN_COMPOUND_REPEAT <= n <= MAX_COMPOUND_REPEAT {
                    Some(ParsedInput::Compound(b, n as u8))
                } else {
                    None
                }
            },
        }
    }
}

/// The command a trimmed, lower-cased chat line stands for.
pub open spec fn parse_spec(t: Seq<char>) -> Option<ParsedInput> {
    match keyword(t) {
        Some(p) => Some(p),
        None => compound_of(t),
    }
}

fn button_in(cs: &Vec<char>, start: usize, end: usize) -> (r: Option<GbaButton>)
    requires
        start <= end <= cs@.len(),
    ensures
        r == button_named(cs@.subrange(start as int, end as int)),
{
    if spells(cs, start, end, "a") {
        Some(GbaButton::A)
    } else if spells(cs, start, end, "b") {
        Some(GbaButton::B)
    } else if spells(cs, start, end, "up") {
        Some(GbaButton::Up)
    } else if spells(cs, start, end, "down") {
        Some(GbaButton::Down)
    } else if spells(cs, start, end, "left") {
        Some(GbaButton::Left)
    } else if spells(cs, start, end, "right") {
        Some(GbaButton::Right)
    } else if spells(cs, start, end, "start") {
        Some(GbaButton::Start)
    } else if spells(cs, start, end, "select") {
        Some(GbaButton::Select)
    } else if spells(cs, start, end, "l") {
        Some(GbaButton::L)
    } else if spells(cs, start, end, "r") {
        Some(GbaButton::R)
    } else {
        None
    }
}

fn parse_compound(cs: &Vec<char>) -> (r: Option<ParsedInput>)
    ensures
        r == compound_of(cs@),
{
    let n = cs.len();
    // Count the trailing digits.
    let mut k: usize = 0;
    assert(cs@.subrange(0, n as int) =~= cs@);
    while k < n && '0' <= cs[n - 1 - k] && cs[n - 1 - k] <= '9'
        invariant
            n == cs@.len(),
            k <= n,
            forall|p: int| n - k <= p < n ==> is_decimal_digit(#[trigger] cs@[p]),
            trailing_digit_count(cs@) == k + trailing_digit_count(cs@.subrange(0, n - k)),
        decreases n - k,
    {
        let ghost head = cs@.subrange(0, n - k);
        assert(head.drop_last() =~= cs@.subrange(0, n - k - 1));
        k = k + 1;
    }
    proof {
        let head = cs@.subrange(0, n - k);
        if k < n {
            assert(head.last() == cs@[n - 1 - k]);
        }
        assert(trailing_digit_count(head) == 0);
    }
    if k == 0 {
        return None;
    }
    let split = n - k;
    // The count, held at 10 once it is known to exceed every allowed count.
    let mut value: u8 = 0;
    let mut j: usize = split;
    assert(cs@.subrange(split as int, split as int) =~= Seq::<char>::empty());
    while j < n
        invariant
            n == cs@.len(),
            split <= j <= n,
            forall|p: int| split <= p < n ==> is_decimal_digit(#[trigger] cs@[p]),
            value == if digits_value(cs@.subrange(split as int, j as int)) < 10 {
                digits_value(cs@.subrange(split as int, j as int))
            } else {
                10
            },
        decreases n - j,
    {
        let ghost prev = cs@.subrange(split as int, j as int);
        let ghost next = cs@.subrange(split as int, j + 1);
        assert(next.drop_last() =~= prev);
        assert(next.last() == cs@[j as int]);
        let d = (cs[j] as u32 - '0' as u32) as u8;
        let grown = value * 10 + d;
        value = if grown < 10 {
            grown
        } else {
            10
        };
        j = j + 1;
    }
    assert(cs@.subrange(split as int, n as int) =~= cs@.subrange(
        cs@.len() - trailing_digit_count(cs@),
        cs@.len() as int,
    ));
    match button_in(cs, 0, split) {
        None => None,
        Some(b) => {
            if MIN_COMPOUND_REPEAT <= value && value <= MAX_COMPOUND_REPEAT {
                Some(ParsedInput::Compound(b, value))
            } else {
                None
            }
        },
    }
}

/// Whatever the line, a compound command that comes out of parsing carries a repeat
/// count from `MIN_COMPOUND_REPEAT` to `MAX_COMPOUND_REPEAT`, and stands for that many
/// presses of its button.
pub proof fn lemma_compound_count_bounded(t: Seq<char>)
    ensures
        parse_spec(t) matches Some(ParsedInput::Compound(b, n)) ==> {
            &&& MIN_COMPOUND_REPEAT <= n <= MAX_COMPOUND_REPEAT
            &&& ParsedInput::Compound(b, n).expanded().len() == n
            &&& forall|i: int| 0 <= i < n ==> #[trigger] ParsedInput::Compound(b, n).expanded()[i] == b
        },
{
}

/// Parses a line that is already trimmed and lower-cased.
pub fn parse_normalized(text: &str) -> (r: Option<ParsedInput>)
    ensures
        r == parse_spec(text@),
{
    let cs = chars_of(text);
    let n = cs.len();
    assert(cs@.subrange(0, n as int) =~= text@);
    if let Some(b) = button_in(&cs, 0, n) {
        Some(ParsedInput::Button(b))
    } else if spells(&cs, 0, n, "wait") {
        Some(ParsedInput::Wait)
    } else if spells(&cs, 0, n, "anarchy") {
        Some(ParsedInput::VoteAnarchy)
    } else if spells(&cs, 0, n, "democracy") {
        Some(ParsedInput::VoleDemocracy)
    } else {
        parse_compound(&cs)
    }
}

/// Parses a chat line: surrounding white space is ignored and letters match in any
/// case. Anything that is not a command gives `None`.
pub fn parse_chat_message(text: &str) -> (r: Option<ParsedInput>)
    ensures
        r == parse_spec(lowercased(trimmed(text@))),
{
    let t = trim_text(text);
    let lower = lowercase_text(t);
    parse_normalized(lower.as_str())
}

} // verus!
