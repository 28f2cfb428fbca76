//! Unsigned integers as decimal text, and back.

use vstd::prelude::*;

verus! {

broadcast use vstd::string::group_string_axioms;

/// The character that stands for the digit `d`.
pub open spec fn digit_char(d: int) -> char {
    if d == 0 {
        '0'
    } else if d == 1 {
        '1'
    } else if d == 2 {
        '2'
    } else if d == 3 {
        '3'
    } else if d == 4 {
        '4'
    } else if d == 5 {
        '5'
    } else if d == 6 {
        '6'
    } else if d == 7 {
        '7'
    } else if d == 8 {
        '8'
    } else {
        '9'
    }
}

/// The digit that `c` stands for, if it is one of `0` to `9`.
pub open spec fn digit_value(c: char) -> Option<int> {
    if c == '0' {
        Some(0)
    } else if c == '1' {
        Some(1)
    } else if c == '2' {
        Some(2)
    } else if c == '3' {
        Some(3)
    } else if c == '4' {
        Some(4)
    } else if c == '5' {
        Some(5)
    } else if c == '6' {
        Some(6)
    } else if c == '7' {
        Some(7)
    } else if c == '8' {
        Some(8)
    } else if c == '9' {
        Some(9)
    } else {
        None
    }
}

/// `n` in decimal, without sign and without leading zeros.
pub open spec fn decimal_spec(n: nat) -> Seq<char>
    decreases n,
{
    if n < 10 {
        seq![digit_char(n as int)]
    } else {
        decimal_spec(n / 10).push(digit_char((n % 10) as int))
    }
}

/// Whether `text` is made of decimal digits alone.
pub open spec fn all_digits(text: Seq<char>) -> bool {
    forall|i: int| 0 <= i < text.len() ==> digit_value(#[trigger] text[i]) is Some
}

/// The number that a string of decimal digits stands for.
pub open spec fn digits_value(text: Seq<char>) -> nat
    decreases text.len(),
{
    if text.len() == 0 {
        0
    } else {
        (digits_value(text.drop_last()) * 10 + digit_value(text.last()).unwrap_or(0)) as nat
    }
}

/// `text` without the plus sign that may stand in front of it.
pub open spec fn unsigned_part(text: Seq<char>) -> Seq<char> {
    if text.len() > 0 && text[0] == '+' {
        text.skip(1)
    } else {
        text
    }
}

/// The number that `text` stands for: an optional plus sign, then one or more
/// decimal digits and nothing else. Leading zeros are accepted.
pub open spec fn parse_spec(text: Seq<char>) -> Option<nat> {
    let digits = unsigned_part(text);
    if digits.len() > 0 && all_digits(digits) {
        Some(digits_value(digits))
    } else {
        None
    }
}

fn digit(d: u64) -> (c: char)
    requires
        d < 10,
    ensures
        c == digit_char(d as int),
{
    match d {
        0 => '0',
        1 => '1',
        2 => '2',
        3 => '3',
        4 => '4',
        5 => '5',
        6 => '6',
        7 => '7',
        8 => '8',
        _ => '9',
    }
}

fn value_of(c: char) -> (d: Option<u64>)
    ensures
        match d {
            Some(v) => digit_value(c) == Some(v as int),
            None => digit_value(c) is None,
        },
{
    match c {
        '0' => Some(0),
        '1' => Some(1),
        '2' => Some(2),
        '3' => Some(3),
        '4' => Some(4),
        '5' => Some(5),
        '6' => Some(6),
        '7' => Some(7),
        '8' => Some(8),
        '9' => Some(9),
        _ => None,
    }
}

/// Writes `n` in decimal.
pub fn decimal(n: u64) -> (text: String)
    ensures
        text@ == decimal_spec(n as nat),
    decreases n,
{
    if n < 10 {
        let mut text = String::new();
        text.push(digit(n));
        text
    } else {
        let mut text = decimal(n / 10);
        text.push(digit(n % 10));
        text
    }
}

/// A longer string of digits stands for no smaller a number than the digits
/// it starts with.
proof fn lemma_value_grows(text: Seq<char>, k: int)
    requires
        0 <= k <= text.len(),
        all_digits(text),
    ensures
        digits_value(text.take(k)) <= digits_value(text),
    decreases text.len() - k,
{
    if k == text.len() {
        assert(text.take(k) =~= text);
    } else {
        lemma_value_grows(text, k + 1);
        assert(text.take(k + 1).drop_last() =~= text.take(k));
    }
}

/// Reads a decimal number: an optional plus sign, then one or more digits.
/// `None` when `text` is not of that form, or stands for more than a `u64`
/// holds.
pub fn parse_decimal(text: &str) -> (value: Option<u64>)
    ensures
        value == match parse_spec(text@) {
            Some(v) => if v <= u64::MAX {
                Some(v as u64)
            } else {
                None
            },
            None => None,
        },
{
    let ghost digits = unsigned_part(text@);
    let ghost sign: int = text@.len() - digits.len();
    let mut acc: u64 = 0;
    let mut first = true;
    let mut any = false;
    for c in it: text.chars()
        invariant
            it.seq() == text@,
            digits == unsigned_part(text@),
            sign == text@.len() - digits.len(),
            first == (it.index() == 0),
            any == (it.index() > sign),
            it.index() >= sign ==> all_digits(digits.take(it.index() - sign)),
            it.index() >= sign ==> acc == digits_value(digits.take(it.index() - sign)),
            it.index() < sign ==> acc == 0,
    {
        let ghost i = it.index();
        if first && c == '+' {
            first = false;
        } else {
            first = false;
            let ghost k = i - sign;
            assert(digits.take(k + 1).drop_last() =~= digits.take(k));
            assert(digits.take(k + 1).last() == c);
            match value_of(c) {
                None => {
                    return None;
                },
                Some(d) => {
                    assert forall|j: int| 0 <= j < k + 1 implies digit_value(
                        #[trigger] digits.take(k + 1)[j],
                    ) is Some by {
                        assert(j < k ==> digits.take(k + 1)[j] == digits.take(k)[j]);
                    }
                    let next = match acc.checked_mul(10) {
                        Some(tens) => tens.checked_add(d),
                        None => None,
                    };
                    match next {
                        Some(n) => {
                            acc = n;
                            any = true;
                        },
                        None => {
                            proof {
                                if all_digits(digits) {
                                    lemma_value_grows(digits, k + 1);
                                }
                            }
                            return None;
                        },
                    }
                },
            }
        }
    }
    assert(digits.take(digits.len() as int) =~= digits);
    if any {
        Some(acc)
    } else {
        None
    }
}

/// The decimal form of a number is made of digits, at least one.
proof fn lemma_decimal_digits(n: nat)
    ensures
        decimal_spec(n).len() >= 1,
        all_digits(decimal_spec(n)),
        digits_value(decimal_spec(n)) == n,
    decreases n,
{
    let text = decimal_spec(n);
    if n < 10 {
        assert(digits_value(text.drop_last()) == 0);
    } else {
        lemma_decimal_digits(n / 10);
        assert(text.drop_last() =~= decimal_spec(n / 10));
    }
}

/// Reading undoes writing: the decimal form of `n` is read back as `n`.
pub proof fn lemma_parse_of_decimal(n: nat)
    ensures
        parse_spec(decimal_spec(n)) == Some(n),
{
    lemma_decimal_digits(n);
}

} // verus!
