//! Numbers in base ten: reading them from texts and writing them, and the
//! addresses that are written as four of them with dots between.

use vstd::prelude::*;
use vstd::string::*;
use crate::text::{chars_of, dotted_keys, split_dots, texts};

verus! {

/// Whether `c` is one of the ten digits.
pub open spec fn is_digit(c: char) -> bool {
    '0' <= c <= '9'
}

/// The number that the digit `c` stands for.
pub open spec fn digit_value(c: char) -> nat {
    (c as u32 - '0' as u32) as nat
}

/// Whether `text` holds digits and nothing else.
pub open spec fn all_digits(text: Seq<char>) -> bool {
    forall|i: int| 0 <= i < text.len() ==> is_digit(#[trigger] text[i])
}

/// The number that the digits of `text` write in base ten.
pub open spec fn decimal_value(text: Seq<char>) -> nat
    decreases text.len(),
{
    if text.len() == 0 {
        0
    } else {
        decimal_value(text.drop_last()) * 10 + digit_value(text.last())
    }
}

/// The number that `text` writes, where it is one digit or more, nothing
/// else, and the number is no more than `max`.
pub open spec fn unsigned_decimal(text: Seq<char>, max: nat) -> Option<nat> {
    if text.len() > 0 && all_digits(text) && decimal_value(text) <= max {
        Some(decimal_value(text))
    } else {
        None
    }
}

/// Digits that are added behind a number do not make it smaller.
pub proof fn lemma_decimal_value_grows(text: Seq<char>, len: int)
    requires
        0 <= len <= text.len(),
    ensures
        decimal_value(text.take(len)) <= decimal_value(text),
    decreases text.len() - len,
{
    if len == text.len() {
        assert(text.take(len) =~= text);
    } else {
        lemma_decimal_value_grows(text.drop_last(), len);
        assert(text.drop_last().take(len) =~= text.take(len));
    }
}

/// Reads a number that is written in digits alone and is no more than
/// `max`.
pub fn parse_unsigned(text: &str, max: u64) -> (number: Option<u64>)
    ensures
        match unsigned_decimal(text@, max as nat) {
            Some(value) => number == Some(value as u64),
            None => number is None,
        },
{
    let chars = chars_of(text);
    if chars.len() == 0 {
        return None;
    }
    let mut value: u64 = 0;
    let mut i: usize = 0;
    assert(text@.take(0) =~= Seq::empty());
    while i < chars.len()
        invariant
            chars@ == text@,
            i <= chars.len(),
            all_digits(text@.take(i as int)),
            value == decimal_value(text@.take(i as int)),
            value <= max,
        decreases chars.len() - i,
    {
        let c = chars[i];
        let ghost seen = text@.take(i as int + 1);
        proof {
            assert(seen.drop_last() =~= text@.take(i as int));
            assert(seen.last() == c);
        }
        if c < '0' || c > '9' {
            assert(!is_digit(text@[i as int]));
            return None;
        }
        let digit: u64 = (c as u32 - '0' as u32) as u64;
        if digit > max || value > (max - digit) / 10 {
            proof {
                assert(decimal_value(seen) > max);
                lemma_decimal_value_grows(text@, i as int + 1);
            }
            return None;
        }
        value = value * 10 + digit;
        proof {
            assert forall|k: int| 0 <= k < seen.len() implies is_digit(#[trigger] seen[k]) by {
                if k < i {
                    assert(seen[k] == text@.take(i as int)[k]);
                }
            }
        }
        i += 1;
    }
    assert(text@.take(chars.len() as int) =~= text@);
    Some(value)
}

/// The number that `text` writes as Rust reads an unsigned number: digits
/// alone, or a plus sign and digits, and no more than `max`.
pub open spec fn plain_unsigned(text: Seq<char>, max: nat) -> Option<nat> {
    if text.len() > 0 && text[0] == '+' {
        unsigned_decimal(text.drop_first(), max)
    } else {
        unsigned_decimal(text, max)
    }
}

/// Reads a number as Rust reads an unsigned number: digits alone, or a
/// plus sign and digits, and no more than `max`.
pub fn parse_plain_unsigned(text: &str, max: u64) -> (number: Option<u64>)
    ensures
        match plain_unsigned(text@, max as nat) {
            Some(value) => number == Some(value as u64),
            None => number is None,
        },
{
    let length = text.unicode_len();
    if length > 0 && text.get_char(0) == '+' {
        assert(text@.subrange(1, length as int) =~= text@.drop_first());
        parse_unsigned(text.substring_char(1, length), max)
    } else {
        parse_unsigned(text, max)
    }
}

/// Whether `text` writes one number of an address: one to three digits
/// that give no more than 255, without a zero in front of another digit.
pub open spec fn is_octet_text(text: Seq<char>) -> bool {
    &&& 1 <= text.len() <= 3
    &&& all_digits(text)
    &&& text.len() > 1 ==> text[0] != '0'
    &&& decimal_value(text) <= 255
}

/// The four numbers of an address in dotted notation, such as `10.12.34.2`.
pub open spec fn dotted_quad(text: Seq<char>) -> Option<(u8, u8, u8, u8)> {
    let parts = dotted_keys(text);
    if parts.len() == 4 && is_octet_text(parts[0]) && is_octet_text(parts[1]) && is_octet_text(
        parts[2],
    ) && is_octet_text(parts[3]) {
        Some(
            (
                decimal_value(parts[0]) as u8,
                decimal_value(parts[1]) as u8,
                decimal_value(parts[2]) as u8,
                decimal_value(parts[3]) as u8,
            ),
        )
    } else {
        None
    }
}

/// Reads one number of an address.
pub fn parse_octet(text: &str) -> (octet: Option<u8>)
    ensures
        match octet {
            Some(value) => is_octet_text(text@) && value == decimal_value(text@),
            None => !is_octet_text(text@),
        },
{
    let length = text.unicode_len();
    if length == 0 || length > 3 {
        return None;
    }
    if length > 1 && text.get_char(0) == '0' {
        return None;
    }
    match parse_unsigned(text, 255) {
        Some(value) => Some(value as u8),
        None => None,
    }
}

/// Reads an address in dotted notation.
pub fn parse_dotted_quad(text: &str) -> (quad: Option<(u8, u8, u8, u8)>)
    ensures
        quad == dotted_quad(text@),
{
    let parts = split_dots(text);
    if parts.len() != 4 {
        return None;
    }
    assert(texts(parts@)[0] == parts@[0]@);
    assert(texts(parts@)[1] == parts@[1]@);
    assert(texts(parts@)[2] == parts@[2]@);
    assert(texts(parts@)[3] == parts@[3]@);
    let a = match parse_octet(parts[0].as_str()) {
        None => {
            return None;
        },
        Some(a) => a,
    };
    let b = match parse_octet(parts[1].as_str()) {
        None => {
            return None;
        },
        Some(b) => b,
    };
    let c = match parse_octet(parts[2].as_str()) {
        None => {
            return None;
        },
        Some(c) => c,
    };
    let d = match parse_octet(parts[3].as_str()) {
        None => {
            return None;
        },
        Some(d) => d,
    };
    Some((a, b, c, d))
}

/// The digit that writes `value`, a number under ten.
pub open spec fn digit_char(value: nat) -> char {
    ((value + '0' as u32) as u32) as char
}

/// `value` written in base ten, without zeros in front.
pub open spec fn decimal_digits(value: nat) -> Seq<char>
    decreases value,
{
    if value < 10 {
        seq![digit_char(value)]
    } else {
        decimal_digits(value / 10).push(digit_char(value % 10))
    }
}

/// What is written for a number reads as that number again.
pub proof fn lemma_decimal_round_trip(value: nat)
    ensures
        decimal_digits(value).len() > 0,
        all_digits(decimal_digits(value)),
        decimal_value(decimal_digits(value)) == value,
    decreases value,
{
    let digits = decimal_digits(value);
    if value < 10 {
        assert(digits.drop_last() =~= Seq::empty());
        assert(decimal_value(digits.drop_last()) == 0);
        assert(digit_value(digit_char(value)) == value);
    } else {
        let front = decimal_digits(value / 10);
        lemma_decimal_round_trip(value / 10);
        assert(digits.drop_last() =~= front);
        assert(digit_value(digit_char(value % 10)) == value % 10);
        assert forall|i: int| 0 <= i < digits.len() implies is_digit(#[trigger] digits[i]) by {
            if i < front.len() {
                assert(digits[i] == front[i]);
            }
        }
    }
}

/// The text of one digit.
fn digit_text(value: u64) -> (text: &'static str)
    requires
        value < 10,
    ensures
        text@ == seq![digit_char(value as nat)],
{
    proof {
        reveal_strlit("0");
        reveal_strlit("1");
        reveal_strlit("2");
        reveal_strlit("3");
        reveal_strlit("4");
        reveal_strlit("5");
        reveal_strlit("6");
        reveal_strlit("7");
        reveal_strlit("8");
        reveal_strlit("9");
    }
    let text = if value == 0 {
        "0"
    } else if value == 1 {
        "1"
    } else if value == 2 {
        "2"
    } else if value == 3 {
        "3"
    } else if value == 4 {
        "4"
    } else if value == 5 {
        "5"
    } else if value == 6 {
        "6"
    } else if value == 7 {
        "7"
    } else if value == 8 {
        "8"
    } else {
        "9"
    };
    assert(text@ =~= seq![digit_char(value as nat)]);
    text
}

/// Writes `value` in base ten.
pub fn decimal_text(value: u64) -> (text: String)
    ensures
        text@ == decimal_digits(value as nat),
    decreases value,
{
    if value < 10 {
        String::from_str(digit_text(value))
    } else {
        let mut text = decimal_text(value / 10);
        text.append(digit_text(value % 10));
        assert(text@ =~= decimal_digits((value / 10) as nat).push(digit_char((value % 10) as nat)));
        text
    }
}

} // verus!
