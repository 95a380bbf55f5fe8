//! Unsigned decimal numbers as text.
//!
//! Query parameters and cursor tokens carry numbers as ASCII digits. The
//! grammar is strict: one or more of the digits `0` to `9`, nothing else (no
//! sign, no blank, no separator). Leading zeros are read as written, so `007`
//! is seven.

use vstd::prelude::*;
use vstd::string::*;

verus! {

/// One of the ten ASCII digits.
pub open spec fn is_digit(c: char) -> bool {
    '0' <= c && c <= '9'
}

/// The number a digit stands for; zero for any other character.
pub open spec fn digit_value(c: char) -> nat {
    if is_digit(c) {
        (c as int - 48) as nat
    } else {
        0
    }
}

/// The character that writes the digit `d`.
pub open spec fn digit_char(d: nat) -> char
    recommends
        d < 10,
{
    ((48 + d) as u8) as char
}

/// Text that is made of digits only and has at least one.
pub open spec fn is_decimal(s: Seq<char>) -> bool {
    s.len() > 0 && forall|i: int| 0 <= i < s.len() ==> is_digit(#[trigger] s[i])
}

/// The number that the digits of `s` write in base ten.
pub open spec fn decimal_value(s: Seq<char>) -> nat
    decreases s.len(),
{
    if s.len() == 0 {
        0
    } else {
        10 * decimal_value(s.drop_last()) + digit_value(s.last())
    }
}

/// The shortest decimal text of `n`.
pub open spec fn decimal_digits(n: nat) -> Seq<char>
    decreases n,
{
    if n < 10 {
        seq![digit_char(n)]
    } else {
        decimal_digits(n / 10).push(digit_char(n % 10))
    }
}

/// How a text reads as a number under an upper limit.
#[derive(Debug, Clone, Copy, PartialEq, Eq)]
pub enum DecimalReading {
    /// The text is empty or holds something that is no digit.
    Malformed,
    /// The text is a number, and the number is above the limit.
    TooLarge,
    /// The text is a number within the limit.
    Value(u64),
}

/// What reading `s` as a number of at most `max` gives.
pub open spec fn decimal_reading(s: Seq<char>, max: nat) -> DecimalReading {
    if !is_decimal(s) {
        DecimalReading::Malformed
    } else if decimal_value(s) > max {
        DecimalReading::TooLarge
    } else {
        DecimalReading::Value(decimal_value(s) as u64)
    }
}

/// The number that `s` writes, if it is a number of at most `max`.
pub open spec fn decimal_within(s: Seq<char>, max: nat) -> Option<u64> {
    match decimal_reading(s, max) {
        DecimalReading::Value(n) => Some(n),
        _ => None,
    }
}

/// Reading one more digit multiplies by ten and adds the digit.
pub proof fn lemma_value_step(s: Seq<char>, i: int)
    requires
        0 <= i < s.len(),
    ensures
        decimal_value(s.take(i + 1)) == 10 * decimal_value(s.take(i)) + digit_value(s[i]),
{
    assert(s.take(i + 1).drop_last() =~= s.take(i));
    assert(s.take(i + 1).last() == s[i]);
}

/// Writing a number and reading the text again gives the number back.
pub proof fn lemma_digits_round_trip(n: nat)
    ensures
        is_decimal(decimal_digits(n)),
        decimal_value(decimal_digits(n)) == n,
    decreases n,
{
    let text = decimal_digits(n);
    if n < 10 {
        assert(text.drop_last() =~= Seq::<char>::empty());
        assert(text.last() == digit_char(n));
        assert(is_digit(digit_char(n)));
        assert(decimal_value(text.drop_last()) == 0);
    } else {
        lemma_digits_round_trip(n / 10);
        let head = decimal_digits(n / 10);
        assert(text.drop_last() =~= head);
        assert(text.last() == digit_char(n % 10));
        assert(is_digit(digit_char(n % 10)));
        assert forall|i: int| 0 <= i < text.len() implies is_digit(#[trigger] text[i]) by {
            if i < head.len() {
                assert(text[i] == head[i]);
            }
        }
    }
}

/// Reads `text` as a decimal number and holds it against `max`.
///
/// The text is malformed unless it is one or more ASCII digits. A well-formed
/// text of any length is a number: it is too large when the number exceeds
/// `max`, however many digits it has, and a value otherwise.
pub fn read_decimal(text: &str, max: u64) -> (reading: DecimalReading)
    ensures
        reading == decimal_reading(text@, max as nat),
{
    if !text.is_ascii() {
        proof {
            let i = choose|i: int|
                0 <= i < text@.len() && !('\0' <= #[trigger] text@[i] && text@[i] <= '\u{7f}');
            assert(!is_digit(text@[i]));
        }
        return DecimalReading::Malformed;
    }
    let len: usize = text.unicode_len();
    if len == 0 {
        return DecimalReading::Malformed;
    }
    let mut acc: u64 = 0;
    let mut over: bool = false;
    let mut i: usize = 0;
    while i < len
        invariant
            text.is_ascii(),
            len == text@.len(),
            i <= len,
            forall|j: int| 0 <= j < i ==> is_digit(#[trigger] text@[j]),
            over ==> decimal_value(text@.take(i as int)) > max,
            !over ==> acc == decimal_value(text@.take(i as int)) && acc <= max,
        decreases len - i,
    {
        let b: u8 = text.get_ascii(i);
        if b < 48 || b > 57 {
            assert(!is_digit(text@[i as int]));
            return DecimalReading::Malformed;
        }
        proof {
            assert(is_digit(text@[i as int]));
            lemma_value_step(text@, i as int);
        }
        if !over {
            let next: u128 = acc as u128 * 10 + (b - 48) as u128;
            if next > max as u128 {
                over = true;
            } else {
                acc = next as u64;
            }
        }
        i = i + 1;
    }
    assert(text@.take(len as int) =~= text@);
    if over {
        DecimalReading::TooLarge
    } else {
        DecimalReading::Value(acc)
    }
}

/// Reads `text` as a decimal number that is at most `max`.
///
/// Gives the number exactly when `text` is one or more ASCII digits and the
/// number they write does not exceed `max`; `None` for everything else.
pub fn parse_decimal(text: &str, max: u64) -> (parsed: Option<u64>)
    ensures
        parsed == decimal_within(text@, max as nat),
{
    match read_decimal(text, max) {
        DecimalReading::Value(n) => Some(n),
        _ => None,
    }
}

/// The one-character text of a digit.
fn digit_text(d: u64) -> (s: &'static str)
    requires
        d < 10,
    ensures
        s@ == seq![digit_char(d as nat)],
{
    proof {
        reveal_strlit("0");
        reveal_strlit("1");
        reveal_strlit("2");
        reveal_strlit("3");
        reveal_strlit("4");
        reveal_strlit("5");
        reveal_strlit("6");
        reveal_strlit("7");
        reveal_strlit("8");
        reveal_strlit("9");
    }
    let s: &'static str = match d {
        0 => "0",
        1 => "1",
        2 => "2",
        3 => "3",
        4 => "4",
        5 => "5",
        6 => "6",
        7 => "7",
        8 => "8",
        _ => "9",
    };
    assert(s@ =~= seq![digit_char(d as nat)]);
    s
}

/// Appends the shortest decimal text of `n` to `out`.
pub fn push_decimal(out: &mut String, n: u64)
    ensures
        final(out)@ == old(out)@ + decimal_digits(n as nat),
    decreases n,
{
    if n >= 10 {
        push_decimal(out, n / 10);
    }
    out.append(digit_text(n % 10));
    assert(out@ =~= old(out)@ + decimal_digits(n as nat));
}

/// The shortest decimal text of `n`.
pub fn decimal_string(n: u64) -> (text: String)
    ensures
        text@ == decimal_digits(n as nat),
{
    let mut text: String = String::new();
    push_decimal(&mut text, n);
    assert(text@ =~= decimal_digits(n as nat));
    text
}

} // verus!
