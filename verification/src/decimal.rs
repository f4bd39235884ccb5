//! Whole numbers as the table writes them: decimal text.
//!
//! DynamoDB carries every number as a string. This module fixes the notation
//! (`decimal`), and gives the two readings the crate needs: a signed whole
//! number as a condition compares it (`number_value`), and an unsigned
//! timestamp as a caller receives it (`unsigned_value`).

use vstd::prelude::*;
use vstd::string::*;

verus! {

/// One more than the largest magnitude the table keeps exactly: 38 digits.
pub open spec fn number_bound() -> int {
    100_000_000_000_000_000_000_000_000_000_000_000_000int
}

/// `number_bound`, for executable code.
pub const NUMBER_BOUND: u128 = 100_000_000_000_000_000_000_000_000_000_000_000_000u128;

/// The character that writes the digit `d`.
pub open spec fn digit_char(d: int) -> char {
    if d == 0 {
        '0'
    } else if d == 1 {
        '1'
    } else if d == 2 {
        '2'
    } else if d == 3 {
        '3'
    } else if d == 4 {
        '4'
    } else if d == 5 {
        '5'
    } else if d == 6 {
        '6'
    } else if d == 7 {
        '7'
    } else if d == 8 {
        '8'
    } else {
        '9'
    }
}

/// Whether `c` is one of the ten digits.
pub open spec fn is_digit(c: char) -> bool {
    '0' <= c && c <= '9'
}

/// The digit that `c` writes.
pub open spec fn digit_of(c: char) -> int {
    c as int - '0' as int
}

/// The digits of `n`, most significant first, without leading zeros.
pub open spec fn digits(n: nat) -> Seq<char>
    decreases n,
{
    if n < 10 {
        seq![digit_char(n as int)]
    } else {
        digits(n / 10).push(digit_char((n % 10) as int))
    }
}

/// `n` in decimal, with a minus sign in front of a negative number.
pub open spec fn decimal(n: int) -> Seq<char> {
    if n < 0 {
        seq!['-'] + digits((-n) as nat)
    } else {
        digits(n as nat)
    }
}

/// Whether `text` is one digit or more and nothing else.
pub open spec fn all_digits(text: Seq<char>) -> bool {
    text.len() > 0 && forall|i: int| 0 <= i < text.len() ==> is_digit(#[trigger] text[i])
}

/// The number that a run of digits writes; leading zeros count for nothing.
pub open spec fn digits_value(text: Seq<char>) -> nat
    decreases text.len(),
{
    if text.len() == 0 {
        0
    } else {
        (digits_value(text.drop_last()) * 10 + digit_of(text.last())) as nat
    }
}

/// `text` as a signed whole number: an optional minus sign, then digits, of
/// magnitude below `number_bound`. Any other text is no number.
pub open spec fn number_value(text: Seq<char>) -> Option<int> {
    if text.len() > 0 && text[0] == '-' {
        let rest = text.subrange(1, text.len() as int);
        if all_digits(rest) && digits_value(rest) < number_bound() {
            Some(-(digits_value(rest) as int))
        } else {
            None
        }
    } else if all_digits(text) && digits_value(text) < number_bound() {
        Some(digits_value(text) as int)
    } else {
        None
    }
}

/// `text` as an unsigned 64-bit number: an optional plus sign, then digits, of
/// value up to `u64::MAX`. Any other text is no such number.
pub open spec fn unsigned_value(text: Seq<char>) -> Option<u64> {
    let rest = if text.len() > 0 && text[0] == '+' {
        text.subrange(1, text.len() as int)
    } else {
        text
    };
    if all_digits(rest) && digits_value(rest) <= u64::MAX {
        Some(digits_value(rest) as u64)
    } else {
        None
    }
}

/// A digit's character is a digit and writes that digit.
pub proof fn lemma_digit_char(d: int)
    requires
        0 <= d < 10,
    ensures
        is_digit(digit_char(d)),
        digit_of(digit_char(d)) == d,
        digit_char(d) != '-',
        digit_char(d) != '+',
{
}

/// The digits of `n` are digits, start with no sign, and write `n`.
pub proof fn lemma_digits(n: nat)
    ensures
        all_digits(digits(n)),
        digits_value(digits(n)) == n,
        digits(n)[0] != '-',
        digits(n)[0] != '+',
    decreases n,
{
    if n < 10 {
        lemma_digit_char(n as int);
        let text = digits(n);
        assert(text.drop_last().len() == 0);
        assert(digits_value(text.drop_last()) == 0);
        assert(text.last() == digit_char(n as int));
    } else {
        lemma_digits(n / 10);
        lemma_digit_char((n % 10) as int);
        let shorter = digits(n / 10);
        let text = digits(n);
        assert(text == shorter.push(digit_char((n % 10) as int)));
        assert(text.drop_last() =~= shorter);
        assert(text.last() == digit_char((n % 10) as int));
        assert(text[0] == shorter[0]);
        assert forall|i: int| 0 <= i < text.len() implies is_digit(#[trigger] text[i]) by {
            if i < shorter.len() {
                assert(text[i] == shorter[i]);
            }
        }
    }
}

/// Decimal text reads back as the number it was written from.
pub proof fn lemma_decimal_reads_back(n: int)
    requires
        -number_bound() < n < number_bound(),
    ensures
        number_value(decimal(n)) == Some(n),
{
    if n < 0 {
        let magnitude = (-n) as nat;
        lemma_digits(magnitude);
        let text = decimal(n);
        assert(text[0] == '-');
        assert(text.subrange(1, text.len() as int) =~= digits(magnitude));
    } else {
        lemma_digits(n as nat);
    }
}

/// The decimal text of a number that fits 64 unsigned bits reads back as that
/// timestamp.
pub proof fn lemma_decimal_reads_back_unsigned(n: u64)
    ensures
        unsigned_value(decimal(n as int)) == Some(n),
{
    lemma_digits(n as nat);
}

/// A run of digits is worth at least as much as any run it starts with.
pub proof fn lemma_digits_value_grows(text: Seq<char>, k: int)
    requires
        all_digits(text),
        0 <= k <= text.len(),
    ensures
        digits_value(text.subrange(0, k)) <= digits_value(text),
    decreases text.len() - k,
{
    if k == text.len() {
        assert(text.subrange(0, k) =~= text);
    } else {
        let longer = text.subrange(0, k + 1);
        assert(longer.drop_last() =~= text.subrange(0, k));
        assert(is_digit(text[k]));
        assert(longer.last() == text[k]);
        assert(digits_value(longer) == digits_value(text.subrange(0, k)) * 10 + digit_of(
            text[k],
        ));
        lemma_digits_value_grows(text, k + 1);
    }
}

/// The one-character text of a digit.
fn digit_text(d: u128) -> (text: &'static str)
    requires
        d < 10,
    ensures
        text@ == seq![digit_char(d as int)],
{
    proof {
        reveal_strlit("0");
        reveal_strlit("1");
        reveal_strlit("2");
        reveal_strlit("3");
        reveal_strlit("4");
        reveal_strlit("5");
        reveal_strlit("6");
        reveal_strlit("7");
        reveal_strlit("8");
        reveal_strlit("9");
    }
    let text = if d == 0 {
        "0"
    } else if d == 1 {
        "1"
    } else if d == 2 {
        "2"
    } else if d == 3 {
        "3"
    } else if d == 4 {
        "4"
    } else if d == 5 {
        "5"
    } else if d == 6 {
        "6"
    } else if d == 7 {
        "7"
    } else if d == 8 {
        "8"
    } else {
        "9"
    };
    assert(text@ =~= seq![digit_char(d as int)]);
    text
}

/// Writes the digits of `n`.
fn format_digits(n: u128) -> (text: String)
    ensures
        text@ == digits(n as nat),
    decreases n,
{
    if n < 10 {
        digit_text(n).to_owned()
    } else {
        let mut text = format_digits(n / 10);
        text.append(digit_text(n % 10));
        assert(text@ =~= digits(n as nat));
        text
    }
}

/// Writes `n` in decimal.
pub fn format_number(n: i128) -> (text: String)
    ensures
        text@ == decimal(n as int),
{
    if n < 0 {
        let magnitude: u128 = ((-(n + 1)) as u128) + 1;
        let mut text = "-".to_owned();
        let tail = format_digits(magnitude);
        text.append(tail.as_str());
        proof {
            reveal_strlit("-");
            assert(text@ =~= decimal(n as int));
        }
        text
    } else {
        format_digits(n as u128)
    }
}

/// Reads the digits of `text` from position `from` to its end.
///
/// The answer is `None` when that stretch is empty, holds anything but digits,
/// or is worth more than 128 unsigned bits hold.
fn parse_digits(text: &str, from: usize) -> (value: Option<u128>)
    requires
        from <= text@.len(),
    ensures
        ({
            let rest = text@.subrange(from as int, text@.len() as int);
            match value {
                Some(v) => all_digits(rest) && digits_value(rest) == v,
                None => !all_digits(rest) || digits_value(rest) > u128::MAX,
            }
        }),
{
    let len: usize = text.unicode_len();
    let ghost rest = text@.subrange(from as int, text@.len() as int);
    if from == len {
        return None;
    }
    let mut value: u128 = 0;
    let mut i: usize = from;
    while i < len
        invariant
            from <= i <= len,
            len == text@.len(),
            rest == text@.subrange(from as int, text@.len() as int),
            forall|j: int| 0 <= j < i - from ==> is_digit(#[trigger] rest[j]),
            value == digits_value(rest.subrange(0, i - from)),
        decreases len - i,
    {
        let c: char = text.get_char(i);
        assert(c == rest[i - from]);
        if c < '0' || c > '9' {
            return None;
        }
        let d: u128 = (c as u32 - '0' as u32) as u128;
        proof {
            let longer = rest.subrange(0, i - from + 1);
            assert(longer.drop_last() =~= rest.subrange(0, i - from));
            assert(longer.last() == c);
            assert(digits_value(longer) == value * 10 + d);
            if value * 10 + d > u128::MAX {
                if all_digits(rest) {
                    lemma_digits_value_grows(rest, i - from + 1);
                }
            }
        }
        if value > (u128::MAX - d) / 10 {
            return None;
        }
        value = value * 10 + d;
        i = i + 1;
    }
    assert(rest.subrange(0, i - from) =~= rest);
    Some(value)
}

/// Reads `text` as a signed whole number.
pub fn parse_number(text: &str) -> (value: Option<i128>)
    ensures
        match number_value(text@) {
            Some(n) => value == Some(n as i128) && n == n as i128,
            None => value is None,
        },
{
    let len: usize = text.unicode_len();
    let negative: bool = len > 0 && text.get_char(0) == '-';
    let from: usize = if negative {
        1
    } else {
        0
    };
    proof {
        if !negative {
            assert(text@.subrange(0, text@.len() as int) =~= text@);
        }
    }
    match parse_digits(text, from) {
        Some(magnitude) => {
            if magnitude < NUMBER_BOUND {
                if negative {
                    Some(-(magnitude as i128))
                } else {
                    Some(magnitude as i128)
                }
            } else {
                None
            }
        },
        None => None,
    }
}

/// Reads `text` as an unsigned 64-bit number.
pub fn parse_unsigned(text: &str) -> (value: Option<u64>)
    ensures
        value == unsigned_value(text@),
{
    let len: usize = text.unicode_len();
    let signed: bool = len > 0 && text.get_char(0) == '+';
    let from: usize = if signed {
        1
    } else {
        0
    };
    proof {
        if !signed {
            assert(text@.subrange(0, text@.len() as int) =~= text@);
        }
    }
    match parse_digits(text, from) {
        Some(v) => {
            if v <= u64::MAX as u128 {
                Some(v as u64)
            } else {
                None
            }
        },
        None => None,
    }
}

} // verus!
