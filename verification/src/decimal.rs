//! Unsigned decimal numbers in text: what counts as one, what it is worth,
//! and how a number is written with a fixed count of digits.

use vstd::prelude::*;
use vstd::string::*;

verus! {

/// Whether `c` is one of the ten decimal digits.
pub open spec fn is_digit(c: char) -> bool {
    '0' <= c && c <= '9'
}

/// The worth of a decimal digit.
pub open spec fn digit_value(c: char) -> nat
    recommends
        is_digit(c),
{
    (c as nat - '0' as nat) as nat
}

/// The character of a digit.
pub open spec fn digit_char(d: nat) -> char
    recommends
        d <= 9,
{
    if d == 0 {
        '0'
    } else if d == 1 {
        '1'
    } else if d == 2 {
        '2'
    } else if d == 3 {
        '3'
    } else if d == 4 {
        '4'
    } else if d == 5 {
        '5'
    } else if d == 6 {
        '6'
    } else if d == 7 {
        '7'
    } else if d == 8 {
        '8'
    } else {
        '9'
    }
}

/// Whether every character of `s` is a decimal digit.
pub open spec fn all_digits(s: Seq<char>) -> bool {
    forall|i: int| 0 <= i < s.len() ==> is_digit(#[trigger] s[i])
}

/// The worth of a string of digits, most significant digit first.
pub open spec fn decimal_value(digits: Seq<char>) -> nat
    decreases digits.len(),
{
    if digits.len() == 0 {
        0
    } else {
        decimal_value(digits.drop_last()) * 10 + digit_value(digits.last())
    }
}

/// Reads `s` as an unsigned decimal number: an optional `+`, then one digit
/// or more and nothing else.
pub open spec fn parse_number(s: Seq<char>) -> Option<nat> {
    let digits = if s.len() > 0 && s[0] == '+' {
        s.drop_first()
    } else {
        s
    };
    if digits.len() > 0 && all_digits(digits) {
        Some(decimal_value(digits))
    } else {
        None
    }
}

/// `n` written with two digits.
pub open spec fn two_digits(n: nat) -> Seq<char>
    recommends
        n <= 99,
{
    seq![digit_char(n / 10), digit_char(n % 10)]
}

/// `n` written with three digits.
pub open spec fn three_digits(n: nat) -> Seq<char>
    recommends
        n <= 999,
{
    seq![digit_char(n / 100), digit_char((n / 10) % 10), digit_char(n % 10)]
}

/// The largest number that `width` digits can spell, for the widths that
/// card codes use.
pub open spec fn max_of_width(width: nat) -> nat {
    if width == 0 {
        0
    } else if width == 1 {
        9
    } else if width == 2 {
        99
    } else {
        999
    }
}

/// A digit's character is a digit and is worth the digit.
pub proof fn lemma_digit_char(d: nat)
    requires
        d <= 9,
    ensures
        is_digit(digit_char(d)),
        digit_char(d) != '+',
        digit_value(digit_char(d)) == d,
{
}

/// A digit is the character of its worth.
pub proof fn lemma_digit_value(c: char)
    requires
        is_digit(c),
    ensures
        digit_value(c) <= 9,
        digit_char(digit_value(c)) == c,
{
}

/// The worth of two and of three digits.
pub proof fn lemma_decimal_value_short(a: char, b: char, c: char)
    ensures
        decimal_value(seq![a, b]) == digit_value(a) * 10 + digit_value(b),
        decimal_value(seq![a, b, c]) == digit_value(a) * 100 + digit_value(b) * 10 + digit_value(
            c,
        ),
{
    reveal_with_fuel(decimal_value, 4);
    assert(seq![a].drop_last() =~= Seq::<char>::empty());
    assert(seq![a, b].drop_last() =~= seq![a]);
    assert(seq![a, b, c].drop_last() =~= seq![a, b]);
}

/// Two digits spell the number they were written from.
pub proof fn lemma_parse_two_digits(n: nat)
    requires
        n <= 99,
    ensures
        parse_number(two_digits(n)) == Some(n),
{
    let a = digit_char(n / 10);
    let b = digit_char(n % 10);
    lemma_digit_char(n / 10);
    lemma_digit_char(n % 10);
    lemma_decimal_value_short(a, b, b);
    assert(two_digits(n)[0] == a);
    assert(all_digits(two_digits(n)));
}

/// Three digits spell the number they were written from.
pub proof fn lemma_parse_three_digits(n: nat)
    requires
        n <= 999,
    ensures
        parse_number(three_digits(n)) == Some(n),
{
    let a = digit_char(n / 100);
    let b = digit_char((n / 10) % 10);
    let c = digit_char(n % 10);
    lemma_digit_char(n / 100);
    lemma_digit_char((n / 10) % 10);
    lemma_digit_char(n % 10);
    lemma_decimal_value_short(a, b, c);
    assert(three_digits(n)[0] == a);
    assert(all_digits(three_digits(n)));
}

/// Two digits are written again from the number they spell.
pub proof fn lemma_two_digits_of_parse(a: char, b: char)
    requires
        is_digit(a),
        is_digit(b),
    ensures
        parse_number(seq![a, b]) == Some(digit_value(a) * 10 + digit_value(b)),
        two_digits(digit_value(a) * 10 + digit_value(b)) == seq![a, b],
{
    lemma_digit_value(a);
    lemma_digit_value(b);
    lemma_decimal_value_short(a, b, b);
    let n = digit_value(a) * 10 + digit_value(b);
    assert(n / 10 == digit_value(a) && n % 10 == digit_value(b));
    assert(seq![a, b][0] == a);
    assert(all_digits(seq![a, b]));
    assert(two_digits(n) =~= seq![a, b]);
}

/// Three digits are written again from the number they spell.
pub proof fn lemma_three_digits_of_parse(a: char, b: char, c: char)
    requires
        is_digit(a),
        is_digit(b),
        is_digit(c),
    ensures
        parse_number(seq![a, b, c]) == Some(
            digit_value(a) * 100 + digit_value(b) * 10 + digit_value(c),
        ),
        three_digits(digit_value(a) * 100 + digit_value(b) * 10 + digit_value(c)) == seq![a, b, c],
{
    lemma_digit_value(a);
    lemma_digit_value(b);
    lemma_digit_value(c);
    lemma_decimal_value_short(a, b, c);
    let n = digit_value(a) * 100 + digit_value(b) * 10 + digit_value(c);
    assert(n / 100 == digit_value(a) && (n / 10) % 10 == digit_value(b) && n % 10 == digit_value(
        c,
    ));
    assert(seq![a, b, c][0] == a);
    assert(all_digits(seq![a, b, c]));
    assert(three_digits(n) =~= seq![a, b, c]);
}

/// A prefix of a number is worth no more than the number.
pub proof fn lemma_decimal_value_prefix(digits: Seq<char>, count: int)
    requires
        0 <= count <= digits.len(),
    ensures
        decimal_value(digits.take(count)) <= decimal_value(digits),
    decreases digits.len(),
{
    if count < digits.len() {
        lemma_decimal_value_prefix(digits.drop_last(), count);
        assert(digits.drop_last().take(count) =~= digits.take(count));
    } else {
        assert(digits.take(count) =~= digits);
    }
}

/// Up to three digits are worth no more than as many nines.
pub proof fn lemma_decimal_value_bound(digits: Seq<char>)
    requires
        digits.len() <= 3,
        all_digits(digits),
    ensures
        decimal_value(digits) <= max_of_width(digits.len()),
    decreases digits.len(),
{
    if digits.len() > 0 {
        assert(is_digit(digits.last()));
        assert forall|i: int| 0 <= i < digits.drop_last().len() implies is_digit(
            #[trigger] digits.drop_last()[i],
        ) by {
            assert(digits.drop_last()[i] == digits[i]);
        }
        lemma_decimal_value_bound(digits.drop_last());
    }
}

/// A text of up to three characters spells a number of at most as many
/// nines.
pub proof fn lemma_parse_number_bound(s: Seq<char>)
    requires
        s.len() <= 3,
        parse_number(s) is Some,
    ensures
        parse_number(s)->Some_0 <= max_of_width(s.len()),
{
    if s.len() > 0 && s[0] == '+' {
        lemma_decimal_value_bound(s.drop_first());
    } else {
        lemma_decimal_value_bound(s);
    }
}

/// What `s` spells as a number of 32 bits: the number that it spells, unless
/// that is too large.
pub open spec fn parse_number_u32(s: Seq<char>) -> Option<u32> {
    match parse_number(s) {
        Some(value) => if value <= u32::MAX {
            Some(value as u32)
        } else {
            None
        },
        None => None,
    }
}

/// The one-character text of a digit.
pub(crate) fn digit_str(d: u32) -> (text: &'static str)
    requires
        d <= 9,
    ensures
        text@ == seq![digit_char(d as nat)],
{
    proof {
        reveal_strlit("0");
        reveal_strlit("1");
        reveal_strlit("2");
        reveal_strlit("3");
        reveal_strlit("4");
        reveal_strlit("5");
        reveal_strlit("6");
        reveal_strlit("7");
        reveal_strlit("8");
        reveal_strlit("9");
    }
    let text = match d {
        0 => "0",
        1 => "1",
        2 => "2",
        3 => "3",
        4 => "4",
        5 => "5",
        6 => "6",
        7 => "7",
        8 => "8",
        _ => "9",
    };
    assert(text@ =~= seq![digit_char(d as nat)]);
    text
}

/// Reads `text` as an unsigned decimal number of 32 bits: an optional `+`,
/// then one digit or more and nothing else, worth no more than `u32::MAX`.
pub fn parse_u32(text: &str) -> (number: Option<u32>)
    ensures
        number == parse_number_u32(text@),
{
    let len = text.unicode_len();
    let mut i: usize = 0;
    if len > 0 && text.get_char(0) == '+' {
        i = 1;
    }
    let start: usize = i;
    let ghost digits = text@.subrange(start as int, len as int);
    proof {
        if start == 1 {
            assert(text@.drop_first() =~= digits);
        } else {
            assert(text@ =~= digits);
        }
    }
    if start == len {
        return None;
    }
    let mut value: u32 = 0;
    while i < len
        invariant
            start <= i <= len,
            len == text@.len(),
            digits == text@.subrange(start as int, len as int),
            digits.len() > 0,
            parse_number(text@) == (if all_digits(digits) {
                Some(decimal_value(digits))
            } else {
                None
            }),
            all_digits(text@.subrange(start as int, i as int)),
            value == decimal_value(text@.subrange(start as int, i as int)),
        decreases len - i,
    {
        let c = text.get_char(i);
        let ghost before = text@.subrange(start as int, i as int);
        let ghost after = text@.subrange(start as int, i + 1);
        proof {
            assert(after.drop_last() =~= before);
            assert(after.last() == c);
            assert(digits[i - start] == c);
        }
        if !(c >= '0' && c <= '9') {
            assert(!all_digits(digits));
            return None;
        }
        let d: u32 = c as u32 - '0' as u32;
        if value > (u32::MAX - d) / 10 {
            proof {
                assert(decimal_value(after) > u32::MAX);
                assert(digits.take(i + 1 - start) =~= after);
                lemma_decimal_value_prefix(digits, i + 1 - start);
            }
            return None;
        }
        value = value * 10 + d;
        i += 1;
        proof {
            assert forall|j: int| 0 <= j < after.len() implies is_digit(#[trigger] after[j]) by {
                if j < before.len() {
                    assert(after[j] == before[j]);
                }
            }
        }
    }
    assert(text@.subrange(start as int, i as int) =~= digits);
    Some(value)
}

} // verus!
