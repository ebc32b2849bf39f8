//! Decimal numbers in flag values.
//!
//! A number is read from one or more decimal digits, optionally after a
//! single `+`, and written as its digits without a sign or leading zeros.

use vstd::prelude::*;
use vstd::string::*;
use vstd::utf8::*;

verus! {

/// Whether the character is a decimal digit.
pub open spec fn is_digit(c: char) -> bool {
    '0' <= c && c <= '9'
}

/// The value of a decimal digit.
pub open spec fn digit_value(c: char) -> nat {
    (c as nat - '0' as nat) as nat
}

/// Whether every character is a decimal digit.
pub open spec fn all_digits(s: Seq<char>) -> bool {
    forall|i: int| 0 <= i < s.len() ==> is_digit(#[trigger] s[i])
}

/// The number that a sequence of decimal digits denotes.
pub open spec fn digits_value(s: Seq<char>) -> nat
    decreases s.len(),
{
    if s.len() == 0 {
        0
    } else {
        10 * digits_value(s.drop_last()) + digit_value(s.last())
    }
}

/// The text without its leading `+`, if it has one.
pub open spec fn unsigned_part(s: Seq<char>) -> Seq<char> {
    if s.len() > 0 && s[0] == '+' {
        s.skip(1)
    } else {
        s
    }
}

/// The number that a text denotes, if it is a number.
pub open spec fn spec_decimal(s: Seq<char>) -> Option<nat> {
    let digits = unsigned_part(s);
    if digits.len() > 0 && all_digits(digits) {
        Some(digits_value(digits))
    } else {
        None
    }
}

/// The number that a text denotes, if it is a number that fits the
/// machine's word.
pub open spec fn spec_parse_decimal(s: Seq<char>) -> Option<usize> {
    match spec_decimal(s) {
        Some(n) => if n <= usize::MAX {
            Some(n as usize)
        } else {
            None
        },
        None => None,
    }
}

/// The decimal digits are the characters numbered 48 to 57.
proof fn lemma_digit_numbers(c: char)
    ensures
        is_digit(c) == (48 <= c as nat <= 57),
        is_digit(c) ==> digit_value(c) == c as nat - 48,
        c != '+' || c as nat == 43,
        c as nat == 43 ==> c == '+',
{
}

/// Reads a decimal number.
///
/// Gives the number exactly when the text is one or more decimal digits,
/// optionally after a single `+`, and the number fits the machine's word.
pub fn parse_decimal(text: &str) -> (number: Option<usize>)
    ensures
        number == spec_parse_decimal(text@),
{
    let ghost digits = unsigned_part(text@);
    if !text.is_ascii() {
        proof {
            let i = choose|i: int|
                0 <= i < text@.len() && !('\0' <= #[trigger] text@[i] <= '\u{7f}');
            if digits.len() == text@.len() {
                assert(!is_digit(digits[i]));
            } else {
                assert(!is_digit(digits[i - 1]));
            }
        }
        return None;
    }
    let bytes = text.as_bytes();
    proof {
        is_ascii_spec_bytes(text);
        is_ascii_chars_nat_bound(text@);
        assert forall|k: int| 0 <= k < text@.len() implies bytes@[k] as nat == (
        #[trigger] text@[k]) as nat by {
            assert((text@[k] as nat) < 128);
            assert(bytes@[k] == text@[k] as u8);
        }
    }
    let n = bytes.len();
    let start: usize = if n > 0 && bytes[0] == 43 {
        1
    } else {
        0
    };
    proof {
        if n > 0 {
            lemma_digit_numbers(text@[0]);
        }
        assert(digits =~= text@.skip(start as int));
    }
    if start == n {
        return None;
    }
    let mut value: usize = 0;
    let mut too_large = false;
    let mut i: usize = start;
    assert(digits.take(0) =~= Seq::<char>::empty());
    while i < n
        invariant
            start <= i <= n,
            n == text@.len(),
            n == bytes@.len(),
            digits == unsigned_part(text@),
            digits == text@.skip(start as int),
            forall|k: int| 0 <= k < n ==> bytes@[k] as nat == (#[trigger] text@[k]) as nat,
            all_digits(digits.take(i - start)),
            !too_large ==> value == digits_value(digits.take(i - start)),
            too_large ==> digits_value(digits.take(i - start)) > usize::MAX,
        decreases n - i,
    {
        let byte = bytes[i];
        let ghost c = text@[i as int];
        assert(c == digits[i - start]);
        assert(byte as nat == c as nat);
        proof {
            lemma_digit_numbers(c);
        }
        if byte < 48 || byte > 57 {
            assert(!is_digit(digits[i - start]));
            return None;
        }
        let digit: usize = (byte - 48) as usize;
        proof {
            assert(is_digit(c));
            assert(digit == digit_value(c));
            assert(digits.take(i - start + 1).drop_last() =~= digits.take(i - start));
            assert(digits.take(i - start + 1).last() == c);
        }
        if !too_large {
            if value > (usize::MAX - digit) / 10 {
                too_large = true;
            } else {
                value = value * 10 + digit;
            }
        }
        i = i + 1;
    }
    assert(digits.take(n - start) =~= digits);
    if too_large {
        None
    } else {
        Some(value)
    }
}

/// The character of a decimal digit.
pub open spec fn digit_char(d: nat) -> char {
    if d == 0 {
        '0'
    } else if d == 1 {
        '1'
    } else if d == 2 {
        '2'
    } else if d == 3 {
        '3'
    } else if d == 4 {
        '4'
    } else if d == 5 {
        '5'
    } else if d == 6 {
        '6'
    } else if d == 7 {
        '7'
    } else if d == 8 {
        '8'
    } else {
        '9'
    }
}

/// The decimal digits of a number, without leading zeros.
pub open spec fn spec_digits(n: nat) -> Seq<char>
    decreases n,
{
    if n < 10 {
        seq![digit_char(n)]
    } else {
        spec_digits(n / 10).push(digit_char(n % 10))
    }
}

/// The text of one decimal digit.
fn digit_text(d: usize) -> (text: &'static str)
    requires
        d < 10,
    ensures
        text@ == seq![digit_char(d as nat)],
{
    proof {
        reveal_strlit("0");
        reveal_strlit("1");
        reveal_strlit("2");
        reveal_strlit("3");
        reveal_strlit("4");
        reveal_strlit("5");
        reveal_strlit("6");
        reveal_strlit("7");
        reveal_strlit("8");
        reveal_strlit("9");
    }
    let text = if d == 0 {
        "0"
    } else if d == 1 {
        "1"
    } else if d == 2 {
        "2"
    } else if d == 3 {
        "3"
    } else if d == 4 {
        "4"
    } else if d == 5 {
        "5"
    } else if d == 6 {
        "6"
    } else if d == 7 {
        "7"
    } else if d == 8 {
        "8"
    } else {
        "9"
    };
    assert(text@ =~= seq![digit_char(d as nat)]);
    text
}

/// Appends the decimal digits of a number to a text.
fn push_decimal(n: usize, out: &mut String)
    ensures
        final(out)@ == old(out)@ + spec_digits(n as nat),
    decreases n,
{
    if n >= 10 {
        push_decimal(n / 10, out);
    }
    out.append(digit_text(n % 10));
    assert(out@ =~= old(out)@ + spec_digits(n as nat));
}

/// Writes a number as its decimal digits.
pub fn format_decimal(n: usize) -> (text: String)
    ensures
        text@ == spec_digits(n as nat),
{
    let mut text = String::new();
    push_decimal(n, &mut text);
    assert(text@ =~= spec_digits(n as nat));
    text
}

/// The digits that a number is written with are read back as that number.
pub proof fn lemma_decimal_round_trip(n: nat)
    ensures
        spec_digits(n).len() > 0,
        spec_digits(n)[0] != '+',
        all_digits(spec_digits(n)),
        digits_value(spec_digits(n)) == n,
        spec_decimal(spec_digits(n)) == Some(n),
    decreases n,
{
    if n < 10 {
        assert(spec_digits(n).drop_last() =~= Seq::<char>::empty());
        reveal_with_fuel(digits_value, 2);
    } else {
        lemma_decimal_round_trip(n / 10);
        let shorter = spec_digits(n / 10);
        assert(spec_digits(n).drop_last() =~= shorter);
        assert(spec_digits(n)[0] == shorter[0]);
        assert forall|i: int| 0 <= i < spec_digits(n).len() implies is_digit(
            #[trigger] spec_digits(n)[i],
        ) by {
            if i < shorter.len() {
                assert(spec_digits(n)[i] == shorter[i]);
            }
        }
    }
}

} // verus!
