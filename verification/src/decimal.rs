//! Decimal text of a score, as the score label shows it.

use vstd::prelude::*;
use vstd::string::StringExecFns;

verus! {

/// The character of a decimal digit.
pub open spec fn digit_char(d: nat) -> char {
    if d == 0 {
        '0'
    } else if d == 1 {
        '1'
    } else if d == 2 {
        '2'
    } else if d == 3 {
        '3'
    } else if d == 4 {
        '4'
    } else if d == 5 {
        '5'
    } else if d == 6 {
        '6'
    } else if d == 7 {
        '7'
    } else if d == 8 {
        '8'
    } else {
        '9'
    }
}

/// The digits of a natural number, most significant first, without leading zeros.
pub open spec fn digits(n: nat) -> Seq<char>
    decreases n,
{
    if n < 10 {
        seq![digit_char(n)]
    } else {
        digits(n / 10).push(digit_char(n % 10))
    }
}

/// The decimal text of an integer: a minus sign before the digits of its
/// magnitude when it is negative.
pub open spec fn decimal(n: int) -> Seq<char> {
    if n < 0 {
        seq!['-'] + digits((-n) as nat)
    } else {
        digits(n as nat)
    }
}

/// The value of a decimal digit character (0 for any other character).
pub open spec fn char_value(c: char) -> int {
    if c == '1' {
        1
    } else if c == '2' {
        2
    } else if c == '3' {
        3
    } else if c == '4' {
        4
    } else if c == '5' {
        5
    } else if c == '6' {
        6
    } else if c == '7' {
        7
    } else if c == '8' {
        8
    } else if c == '9' {
        9
    } else {
        0
    }
}

/// The value that a reader gives a string of digits.
pub open spec fn digits_value(s: Seq<char>) -> int
    decreases s.len(),
{
    if s.len() == 0 {
        0
    } else {
        digits_value(s.drop_last()) * 10 + char_value(s.last())
    }
}

/// The value that a reader gives a decimal text with an optional minus sign.
pub open spec fn decimal_value(s: Seq<char>) -> int {
    if s.len() > 0 && s[0] == '-' {
        -digits_value(s.drop_first())
    } else {
        digits_value(s)
    }
}

/// Whether a character is one of the ten decimal digits.
pub open spec fn is_digit(c: char) -> bool {
    '0' <= c <= '9'
}

/// Reading the digits of `n` back gives `n`; they are all decimal digits,
/// at least one, and the first is no zero unless `n` is zero.
pub proof fn lemma_digits_read_back(n: nat)
    ensures
        digits_value(digits(n)) == n,
        digits(n).len() >= 1,
        forall|i: int| 0 <= i < digits(n).len() ==> is_digit(#[trigger] digits(n)[i]),
        n > 0 ==> digits(n)[0] != '0',
    decreases n,
{
    if n >= 10 {
        lemma_digits_read_back(n / 10);
        let c = digit_char(n % 10);
        assert(digits(n).drop_last() =~= digits(n / 10));
        assert(char_value(c) == n % 10);
        assert(digits(n).last() == c);
        assert(n == (n / 10) * 10 + n % 10);
        assert(digits(n).len() > 0);
        assert(digits_value(digits(n)) == digits_value(digits(n).drop_last()) * 10 + char_value(digits(n).last()));
        assert(digits_value(digits(n)) == digits_value(digits(n / 10)) * 10 + char_value(c));
        assert forall|i: int| 0 <= i < digits(n).len() implies is_digit(#[trigger] digits(n)[i]) by {
            if i < digits(n).len() - 1 {
                assert(digits(n)[i] == digits(n / 10)[i]);
            }
        }
        assert(digits(n)[0] == digits(n / 10)[0]);
    } else {
        assert(digits(n).drop_last() =~= Seq::<char>::empty());
        assert(digits(n).last() == digit_char(n));
        assert(char_value(digit_char(n)) == n);
        assert(digits_value(digits(n)) == digits_value(digits(n).drop_last()) * 10 + char_value(digits(n).last()));
    }
}

/// The decimal text of a score reads back as that score: what the score
/// label shows is the score itself.
pub proof fn lemma_decimal_read_back(n: int)
    ensures
        decimal_value(decimal(n)) == n,
{
    if n < 0 {
        lemma_digits_read_back((-n) as nat);
        assert((seq!['-'] + digits((-n) as nat)).drop_first() =~= digits((-n) as nat));
    } else {
        lemma_digits_read_back(n as nat);
        assert(is_digit(digits(n as nat)[0]));
    }
}

/// The one-character text of a decimal digit.
fn digit_str(d: u32) -> (s: &'static str)
    requires
        d < 10,
    ensures
        s@ == seq![digit_char(d as nat)],
{
    proof {
        reveal_strlit("0");
        reveal_strlit("1");
        reveal_strlit("2");
        reveal_strlit("3");
        reveal_strlit("4");
        reveal_strlit("5");
        reveal_strlit("6");
        reveal_strlit("7");
        reveal_strlit("8");
        reveal_strlit("9");
    }
    if d == 0 {
        "0"
    } else if d == 1 {
        "1"
    } else if d == 2 {
        "2"
    } else if d == 3 {
        "3"
    } else if d == 4 {
        "4"
    } else if d == 5 {
        "5"
    } else if d == 6 {
        "6"
    } else if d == 7 {
        "7"
    } else if d == 8 {
        "8"
    } else {
        "9"
    }
}

/// Appends the digits of `n` to `text`.
fn push_digits(text: &mut String, n: u32)
    ensures
        final(text)@ == old(text)@ + digits(n as nat),
    decreases n,
{
    if n >= 10 {
        push_digits(text, n / 10);
    }
    let d = digit_str(n % 10);
    text.append(d);
    proof {
        if n >= 10 {
            assert(old(text)@ + digits((n / 10) as nat) + seq![digit_char((n % 10) as nat)]
                =~= old(text)@ + digits(n as nat));
        } else {
            assert(old(text)@ + seq![digit_char((n % 10) as nat)] =~= old(text)@ + digits(n as nat));
        }
    }
}

/// The decimal text of a score, with a minus sign for a negative one.
pub fn score_text(score: i32) -> (text: String)
    ensures
        text@ == decimal(score as int),
{
    let mut text = String::new();
    let magnitude: u32;
    if score < 0 {
        text.append("-");
        let wide: i64 = score as i64;
        magnitude = (0i64 - wide) as u32;
    } else {
        magnitude = score as u32;
    }
    proof {
        reveal_strlit("-");
    }
    push_digits(&mut text, magnitude);
    proof {
        if score < 0 {
            assert(text@ =~= seq!['-'] + digits((-score) as nat));
        }
    }
    text
}

} // verus!
