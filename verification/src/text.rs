//! Searching and cutting texts.

use vstd::prelude::*;

verus! {

/// The place of the first `c` in `text`, or the length of `text` where it
/// holds none.
pub open spec fn first_index(text: Seq<char>, c: char) -> int
    decreases text.len(),
{
    if text.len() == 0 || text[0] == c {
        0
    } else {
        1 + first_index(text.skip(1), c)
    }
}

/// `first_index` is where the first `c` stands: no `c` comes before it, and
/// it is within the text only where a `c` is there.
pub proof fn lemma_first_index(text: Seq<char>, c: char)
    ensures
        0 <= first_index(text, c) <= text.len(),
        forall|i: int| 0 <= i < first_index(text, c) ==> text[i] != c,
        first_index(text, c) < text.len() ==> text[first_index(text, c)] == c,
    decreases text.len(),
{
    if text.len() > 0 && text[0] != c {
        let rest = text.skip(1);
        lemma_first_index(rest, c);
        assert forall|i: int| 0 <= i < first_index(text, c) implies text[i] != c by {
            if i > 0 {
                assert(text[i] == rest[i - 1]);
            }
        }
    }
}

/// The place that no `c` comes before, and that holds a `c` or ends the
/// text, is `first_index`.
pub proof fn lemma_first_index_is(text: Seq<char>, c: char, n: int)
    requires
        0 <= n <= text.len(),
        forall|i: int| 0 <= i < n ==> text[i] != c,
        n == text.len() || text[n] == c,
    ensures
        first_index(text, c) == n,
{
    lemma_first_index(text, c);
}

/// Finds the first `c` in `text`; gives the number of characters where there
/// is none.
pub fn find_char(text: &str, c: char) -> (index: usize)
    ensures
        index == first_index(text@, c),
{
    let length: usize = text.unicode_len();
    let mut index: usize = 0;
    for ch in it: text.chars()
        invariant
            index == it.index(),
            it.seq() == text@,
            text@.len() == length,
            forall|i: int| 0 <= i < index ==> text@[i] != c,
    {
        if ch == c {
            proof {
                lemma_first_index_is(text@, c, index as int);
            }
            return index;
        }
        index += 1;
    }
    proof {
        lemma_first_index_is(text@, c, index as int);
    }
    index
}

/// What stands behind `prefix` in `text`, where `text` begins with it.
pub open spec fn after_prefix(text: Seq<char>, prefix: Seq<char>) -> Option<Seq<char>> {
    if prefix.is_prefix_of(text) {
        Some(text.skip(prefix.len() as int))
    } else {
        None
    }
}

/// Whether two texts hold the same characters.
pub fn same_text(a: &str, b: &str) -> (same: bool)
    ensures
        same == (a@ == b@),
{
    a.to_owned() == b.to_owned()
}

/// What stands behind `prefix` in `text`, where `text` begins with it.
pub fn strip_prefix<'a>(text: &'a str, prefix: &str) -> (rest: Option<&'a str>)
    ensures
        match rest {
            Some(rest) => after_prefix(text@, prefix@) == Some(rest@),
            None => after_prefix(text@, prefix@) is None,
        },
{
    let length: usize = text.unicode_len();
    let cut: usize = prefix.unicode_len();
    if cut <= length && same_text(text.substring_char(0, cut), prefix) {
        Some(text.substring_char(cut, length))
    } else {
        None
    }
}

/// `c` is one of the digits `0` to `9`.
pub open spec fn is_digit(c: char) -> bool {
    '0' <= c <= '9'
}

/// The number that a digit stands for.
pub open spec fn digit_value(c: char) -> int {
    c as int - '0' as int
}

/// The number that a sequence of digits writes in base ten.
pub open spec fn decimal_value(digits: Seq<char>) -> nat
    decreases digits.len(),
{
    if digits.len() == 0 {
        0
    } else {
        (10 * decimal_value(digits.drop_last()) + digit_value(digits.last())) as nat
    }
}

/// The digits of a number text: what stands behind a leading `+`, or all of
/// it.
pub open spec fn digits_of(text: Seq<char>) -> Seq<char> {
    if text.len() > 0 && text[0] == '+' {
        text.skip(1)
    } else {
        text
    }
}

/// The number that `text` writes, where it is a number no greater than
/// `max`: an optional `+` and then one or more digits, nothing else.
pub open spec fn decimal_within(text: Seq<char>, max: nat) -> Option<nat> {
    let digits = digits_of(text);
    if digits.len() > 0 && (forall|i: int| 0 <= i < digits.len() ==> is_digit(#[trigger] digits[i]))
        && decimal_value(digits) <= max {
        Some(decimal_value(digits))
    } else {
        None
    }
}

/// More digits never write a smaller number.
pub proof fn lemma_decimal_value_grows(digits: Seq<char>, k: int)
    requires
        0 <= k <= digits.len(),
        forall|i: int| 0 <= i < digits.len() ==> is_digit(#[trigger] digits[i]),
    ensures
        decimal_value(digits.take(k)) <= decimal_value(digits),
    decreases digits.len() - k,
{
    if k == digits.len() {
        assert(digits.take(k) =~= digits);
    } else {
        let longer = digits.take(k + 1);
        assert(longer.drop_last() =~= digits.take(k));
        lemma_decimal_value_grows(digits, k + 1);
    }
}

/// Reads `text` as a number no greater than `max`.
pub fn parse_decimal(text: &str, max: u32) -> (value: Option<u32>)
    ensures
        match value {
            Some(v) => decimal_within(text@, max as nat) == Some(v as nat),
            None => decimal_within(text@, max as nat) is None,
        },
{
    let length: usize = text.unicode_len();
    let ghost digits = digits_of(text@);
    let ghost start: int = text@.len() - digits.len();
    let mut value: u32 = 0;
    let mut index: usize = 0;
    let mut signed: bool = false;
    for ch in it: text.chars()
        invariant
            index == it.index(),
            it.seq() == text@,
            text@.len() == length,
            digits == digits_of(text@),
            start == text@.len() - digits.len(),
            signed == (index > 0 && start == 1),
            index > 0 ==> index >= start,
            value <= max,
            index > 0 ==> value == decimal_value(digits.take(index - start)),
            index == 0 ==> value == 0,
            forall|i: int| 0 <= i < index - start ==> is_digit(#[trigger] digits[i]),
    {
        if index == 0 && ch == '+' {
            signed = true;
        } else {
            let ghost place: int = index - start;
            if ch < '0' || ch > '9' {
                assert(!is_digit(digits[place]));
                return None;
            }
            let next: u64 = value as u64 * 10 + (ch as u64 - '0' as u64);
            proof {
                assert(digits.take(place + 1).drop_last() =~= digits.take(place));
                assert(decimal_value(digits.take(0)) == 0);
            }
            if next > max as u64 {
                proof {
                    if forall|i: int| 0 <= i < digits.len() ==> is_digit(#[trigger] digits[i]) {
                        lemma_decimal_value_grows(digits, place + 1);
                    }
                }
                return None;
            }
            value = next as u32;
        }
        index += 1;
    }
    assert(digits.take(digits.len() as int) =~= digits);
    if (signed && index == 1) || index == 0 {
        None
    } else {
        Some(value)
    }
}

} // verus!
