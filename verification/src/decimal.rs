use crate::text::char_count_bound;
use vstd::prelude::*;

verus! {

/// Whether `c` is one of the ten characters `0` to `9`.
pub open spec fn is_decimal_digit(c: char) -> bool {
    '0' <= c <= '9'
}

/// The number that a decimal digit stands for; zero for any other character.
pub open spec fn digit_of(c: char) -> nat {
    if is_decimal_digit(c) {
        (c as nat - '0' as nat) as nat
    } else {
        0
    }
}

/// The character that writes `d`, for `d` below ten.
pub open spec fn digit_char(d: nat) -> char {
    if d == 0 {
        '0'
    } else if d == 1 {
        '1'
    } else if d == 2 {
        '2'
    } else if d == 3 {
        '3'
    } else if d == 4 {
        '4'
    } else if d == 5 {
        '5'
    } else if d == 6 {
        '6'
    } else if d == 7 {
        '7'
    } else if d == 8 {
        '8'
    } else {
        '9'
    }
}

/// Whether every character of `text` is a decimal digit.
pub open spec fn all_decimal_digits(text: Seq<char>) -> bool {
    forall|i: int| 0 <= i < text.len() ==> is_decimal_digit(#[trigger] text[i])
}

/// The number that a run of decimal digits writes, most significant digit
/// first. The empty run writes zero.
pub open spec fn decimal_value(digits: Seq<char>) -> nat
    decreases digits.len(),
{
    if digits.len() == 0 {
        0
    } else {
        10 * decimal_value(digits.drop_last()) + digit_of(digits.last())
    }
}

/// `text` without the one plus sign that may lead it.
pub open spec fn unsigned_part(text: Seq<char>) -> Seq<char> {
    if text.len() > 0 && text[0] == '+' {
        text.skip(1)
    } else {
        text
    }
}

/// The index that `text` writes, if it writes one: an optional plus sign,
/// then one decimal digit or more and nothing else, for a number that fits
/// a `usize`. Spaces, a minus sign and digits of other scripts are not read.
pub open spec fn index_of(text: Seq<char>) -> Option<usize> {
    let digits = unsigned_part(text);
    if digits.len() > 0 && all_decimal_digits(digits) && decimal_value(digits) <= usize::MAX {
        Some(decimal_value(digits) as usize)
    } else {
        None
    }
}

/// How `n` is written in decimal: without sign, and without leading zeros
/// but for zero itself.
pub open spec fn decimal_text(n: nat) -> Seq<char>
    decreases n,
{
    if n < 10 {
        seq![digit_char(n)]
    } else {
        decimal_text(n / 10).push(digit_char(n % 10))
    }
}

/// Reading more digits never gives a smaller number.
proof fn lemma_prefix_value(digits: Seq<char>, n: int)
    requires
        0 <= n <= digits.len(),
    ensures
        decimal_value(digits.take(n)) <= decimal_value(digits),
    decreases digits.len() - n,
{
    if n == digits.len() {
        assert(digits.take(n) =~= digits);
    } else {
        lemma_prefix_value(digits.drop_last(), n);
        assert(digits.drop_last().take(n) =~= digits.take(n));
    }
}

/// Reads an index from `text`, as [`index_of`] defines it.
pub fn parse_index(text: &str) -> (parsed: Option<usize>)
    ensures
        parsed == index_of(text@),
{
    let bound = char_count_bound(text);
    let ghost digits = unsigned_part(text@);
    let mut value: usize = 0;
    let mut seen: usize = 0;
    let mut signed = false;
    for c in it: text.chars()
        invariant
            it.seq() == text@,
            text@.len() <= bound,
            digits == unsigned_part(text@),
            seen == it.index(),
            signed <==> seen > 0 && text@[0] == '+',
            ({
                let read = seen - if signed { 1int } else { 0int };
                &&& 0 <= read <= digits.len()
                &&& all_decimal_digits(digits.take(read))
                &&& value == decimal_value(digits.take(read))
            }),
    {
        let ghost read = seen - if signed { 1int } else { 0int };
        if seen == 0 && c == '+' {
            signed = true;
        } else if '0' <= c && c <= '9' {
            let digit: usize = (c as u32 - '0' as u32) as usize;
            proof {
                assert(digits.take(read + 1).drop_last() =~= digits.take(read));
                lemma_prefix_value(digits, read + 1);
            }
            let tens = match value.checked_mul(10) {
                Some(tens) => tens,
                None => {
                    return None;
                },
            };
            value = match tens.checked_add(digit) {
                Some(sum) => sum,
                None => {
                    return None;
                },
            };
        } else {
            return None;
        }
        seen = seen + 1;
    }
    if seen == 0 || (signed && seen == 1) {
        return None;
    }
    proof {
        let read = seen - if signed { 1int } else { 0int };
        assert(digits.take(read) =~= digits);
    }
    Some(value)
}

/// The one-character text of a digit.
fn digit_text(d: usize) -> (text: &'static str)
    requires
        d < 10,
    ensures
        text@ == seq![digit_char(d as nat)],
{
    proof {
        reveal_strlit("0");
        reveal_strlit("1");
        reveal_strlit("2");
        reveal_strlit("3");
        reveal_strlit("4");
        reveal_strlit("5");
        reveal_strlit("6");
        reveal_strlit("7");
        reveal_strlit("8");
        reveal_strlit("9");
    }
    if d == 0 {
        "0"
    } else if d == 1 {
        "1"
    } else if d == 2 {
        "2"
    } else if d == 3 {
        "3"
    } else if d == 4 {
        "4"
    } else if d == 5 {
        "5"
    } else if d == 6 {
        "6"
    } else if d == 7 {
        "7"
    } else if d == 8 {
        "8"
    } else {
        "9"
    }
}

/// Writes `n` in decimal at the end of `out`.
pub fn push_decimal(out: &mut String, n: usize)
    ensures
        final(out)@ == old(out)@ + decimal_text(n as nat),
    decreases n,
{
    if n >= 10 {
        push_decimal(out, n / 10);
    }
    out.append(digit_text(n % 10));
}

/// Writes `n` in decimal, as [`decimal_text`] defines it.
pub fn index_text(n: usize) -> (text: String)
    ensures
        text@ == decimal_text(n as nat),
{
    let mut text = String::new();
    push_decimal(&mut text, n);
    text
}

/// What `decimal_text` writes is a run of digits that writes the same number
/// back.
pub proof fn lemma_decimal_text_value(n: nat)
    ensures
        decimal_text(n).len() > 0,
        all_decimal_digits(decimal_text(n)),
        decimal_value(decimal_text(n)) == n,
    decreases n,
{
    if n < 10 {
        assert(decimal_value(decimal_text(n).drop_last()) == 0);
    } else {
        lemma_decimal_text_value(n / 10);
        assert(decimal_text(n).drop_last() =~= decimal_text(n / 10));
    }
}

/// An index written by [`index_text`] is read back by [`parse_index`] as the
/// same index.
pub proof fn lemma_index_text_reads_back(n: usize)
    ensures
        index_of(decimal_text(n as nat)) == Some(n),
{
    lemma_decimal_text_value(n as nat);
}

} // verus!
