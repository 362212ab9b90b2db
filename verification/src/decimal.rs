use vstd::prelude::*;
use vstd::string::*;

verus! {

/// The character that writes the digit `digit`.
pub open spec fn digit_char(digit: int) -> char {
    if digit == 0 {
        '0'
    } else if digit == 1 {
        '1'
    } else if digit == 2 {
        '2'
    } else if digit == 3 {
        '3'
    } else if digit == 4 {
        '4'
    } else if digit == 5 {
        '5'
    } else if digit == 6 {
        '6'
    } else if digit == 7 {
        '7'
    } else if digit == 8 {
        '8'
    } else {
        '9'
    }
}

/// The digit that a character writes, if it writes one.
pub open spec fn digit_value(c: char) -> Option<int> {
    if c == '0' {
        Some(0)
    } else if c == '1' {
        Some(1)
    } else if c == '2' {
        Some(2)
    } else if c == '3' {
        Some(3)
    } else if c == '4' {
        Some(4)
    } else if c == '5' {
        Some(5)
    } else if c == '6' {
        Some(6)
    } else if c == '7' {
        Some(7)
    } else if c == '8' {
        Some(8)
    } else if c == '9' {
        Some(9)
    } else {
        None
    }
}

/// The digits of a natural number, the most significant first.
pub open spec fn decimal_digits(n: nat) -> Seq<char>
    decreases n,
{
    if n < 10 {
        seq![digit_char(n as int)]
    } else {
        decimal_digits(n / 10).push(digit_char((n % 10) as int))
    }
}

/// A whole number in decimal notation: a minus sign before the digits of a
/// negative one.
pub open spec fn decimal_text(n: int) -> Seq<char> {
    if n < 0 {
        seq!['-'] + decimal_digits((-n) as nat)
    } else {
        decimal_digits(n as nat)
    }
}

/// The natural number that a text of digits writes; a text that is empty
/// or holds anything but digits writes none.
pub open spec fn parse_digits(text: Seq<char>) -> Option<nat>
    decreases text.len(),
{
    if text.len() == 0 {
        None
    } else if text.len() == 1 {
        match digit_value(text[0]) {
            Some(digit) => Some(digit as nat),
            None => None,
        }
    } else {
        match (parse_digits(text.drop_last()), digit_value(text.last())) {
            (Some(front), Some(digit)) => Some((front * 10 + digit) as nat),
            _ => None,
        }
    }
}

/// The whole number that a text writes in decimal notation, with a minus
/// sign before the digits of a negative one.
pub open spec fn parse_decimal(text: Seq<char>) -> Option<int> {
    if text.len() > 0 && text[0] == '-' {
        match parse_digits(text.drop_first()) {
            Some(size) => Some(-(size as int)),
            None => None,
        }
    } else {
        match parse_digits(text) {
            Some(size) => Some(size as int),
            None => None,
        }
    }
}

/// The number that a text writes, where it fits into 64 bits.
pub open spec fn parse_i64(text: Seq<char>) -> Option<i64> {
    match parse_decimal(text) {
        Some(n) => if i64::MIN <= n <= i64::MAX {
            Some(n as i64)
        } else {
            None
        },
        None => None,
    }
}

/// The digits of a number are at least one, and each writes a digit.
pub proof fn lemma_digits_are_digits(n: nat)
    ensures
        decimal_digits(n).len() >= 1,
        forall|i: int|
            0 <= i < decimal_digits(n).len() ==> digit_value(#[trigger] decimal_digits(n)[i])
                is Some,
    decreases n,
{
    if n >= 10 {
        lemma_digits_are_digits(n / 10);
    }
}

/// The digits of a number write that number.
pub proof fn lemma_digits_are_read_back(n: nat)
    ensures
        parse_digits(decimal_digits(n)) == Some(n),
    decreases n,
{
    if n >= 10 {
        lemma_digits_are_read_back(n / 10);
        lemma_digits_are_digits(n / 10);
        let text = decimal_digits(n);
        assert(text.drop_last() =~= decimal_digits(n / 10));
        assert(text.last() == digit_char((n % 10) as int));
    }
}

/// A number in decimal notation is read back as that number.
pub proof fn lemma_decimal_is_read_back(n: int)
    ensures
        parse_decimal(decimal_text(n)) == Some(n),
{
    if n < 0 {
        let size = (-n) as nat;
        lemma_digits_are_read_back(size);
        assert(decimal_text(n).drop_first() =~= decimal_digits(size));
    } else {
        lemma_digits_are_read_back(n as nat);
        lemma_digits_are_digits(n as nat);
        assert(digit_value(decimal_digits(n as nat)[0]) is Some);
    }
}

/// The text of one digit.
fn digit_text(digit: u64) -> (text: &'static str)
    requires
        digit < 10,
    ensures
        text@ == seq![digit_char(digit as int)],
{
    proof {
        reveal_strlit("0");
        reveal_strlit("1");
        reveal_strlit("2");
        reveal_strlit("3");
        reveal_strlit("4");
        reveal_strlit("5");
        reveal_strlit("6");
        reveal_strlit("7");
        reveal_strlit("8");
        reveal_strlit("9");
    }
    let text = if digit == 0 {
        "0"
    } else if digit == 1 {
        "1"
    } else if digit == 2 {
        "2"
    } else if digit == 3 {
        "3"
    } else if digit == 4 {
        "4"
    } else if digit == 5 {
        "5"
    } else if digit == 6 {
        "6"
    } else if digit == 7 {
        "7"
    } else if digit == 8 {
        "8"
    } else {
        "9"
    };
    assert(text@ =~= seq![digit_char(digit as int)]);
    text
}

/// Writes the digits of `n` behind `out`.
fn push_digits(n: u64, out: &mut String)
    ensures
        final(out)@ == old(out)@ + decimal_digits(n as nat),
    decreases n,
{
    if n >= 10 {
        push_digits(n / 10, out);
    }
    out.append(digit_text(n % 10));
    assert(final(out)@ =~= old(out)@ + decimal_digits(n as nat));
}

/// A number in decimal notation.
pub fn decimal(n: i64) -> (text: String)
    ensures
        text@ == decimal_text(n as int),
{
    let mut text = String::new();
    if n < 0 {
        proof {
            reveal_strlit("-");
        }
        text.append("-");
        assert(text@ =~= seq!['-']);
        let size: u64 = (-(n as i128)) as u64;
        push_digits(size, &mut text);
    } else {
        push_digits(n as u64, &mut text);
        assert(text@ =~= decimal_digits(n as nat));
    }
    text
}

/// A text that writes a number holds digits only.
pub proof fn lemma_parsed_text_is_digits(text: Seq<char>)
    requires
        parse_digits(text) is Some,
    ensures
        forall|i: int| 0 <= i < text.len() ==> digit_value(#[trigger] text[i]) is Some,
    decreases text.len(),
{
    if text.len() > 1 {
        lemma_parsed_text_is_digits(text.drop_last());
        assert forall|i: int| 0 <= i < text.len() implies digit_value(#[trigger] text[i])
            is Some by {
            if i < text.len() - 1 {
                assert(text.drop_last()[i] == text[i]);
            }
        }
    }
}

/// The first digits of a text that writes a number write a number that is
/// no greater.
pub proof fn lemma_front_is_no_greater(text: Seq<char>, count: int)
    requires
        parse_digits(text) is Some,
        1 <= count <= text.len(),
    ensures
        parse_digits(text.take(count)) is Some,
        parse_digits(text.take(count))->0 <= parse_digits(text)->0,
    decreases text.len(),
{
    if count == text.len() {
        assert(text.take(count) =~= text);
    } else {
        lemma_front_is_no_greater(text.drop_last(), count);
        assert(text.drop_last().take(count) =~= text.take(count));
    }
}

/// The digit that a character writes, if it writes one.
fn digit_of(c: char) -> (digit: Option<u128>)
    ensures
        match digit {
            Some(value) => digit_value(c) == Some(value as int) && value < 10,
            None => digit_value(c) is None,
        },
{
    if c == '0' {
        Some(0)
    } else if c == '1' {
        Some(1)
    } else if c == '2' {
        Some(2)
    } else if c == '3' {
        Some(3)
    } else if c == '4' {
        Some(4)
    } else if c == '5' {
        Some(5)
    } else if c == '6' {
        Some(6)
    } else if c == '7' {
        Some(7)
    } else if c == '8' {
        Some(8)
    } else if c == '9' {
        Some(9)
    } else {
        None
    }
}

/// The number that `text` writes in decimal notation, where it writes one
/// that fits into 64 bits.
pub fn read_decimal(text: &str) -> (number: Option<i64>)
    ensures
        number == parse_i64(text@),
{
    let length = text.unicode_len();
    if length == 0 {
        return None;
    }
    let negative = text.get_char(0) == '-';
    let start: usize = if negative {
        1
    } else {
        0
    };
    let ghost digits = text@.skip(start as int);
    proof {
        if negative {
            assert(digits =~= text@.drop_first());
        } else {
            assert(digits =~= text@);
        }
    }
    if start == length {
        return None;
    }
    let limit: u128 = 9_223_372_036_854_775_808;
    let mut size: u128 = 0;
    let mut i: usize = start;
    while i < length
        invariant
            start <= i <= length,
            length == text@.len(),
            digits == text@.skip(start as int),
            parse_decimal(text@) == match parse_digits(digits) {
                Some(value) => Some(
                    if negative {
                        -(value as int)
                    } else {
                        value as int
                    },
                ),
                None => None::<int>,
            },
            limit == 9_223_372_036_854_775_808,
            i == start ==> size == 0,
            i > start ==> parse_digits(digits.take(i - start)) == Some(size as nat),
            size <= limit,
        decreases length - i,
    {
        let c = text.get_char(i);
        assert(digits[i - start] == c);
        let digit = match digit_of(c) {
            Some(value) => value,
            None => {
                proof {
                    if parse_digits(digits) is Some {
                        lemma_parsed_text_is_digits(digits);
                    }
                }
                return None;
            },
        };
        let ghost front = digits.take(i - start + 1);
        proof {
            assert(front.last() == c);
            if i > start {
                assert(front.drop_last() =~= digits.take(i - start));
            }
            assert(parse_digits(front) == Some((size * 10 + digit) as nat));
        }
        size = size * 10 + digit;
        if size > limit {
            proof {
                if parse_digits(digits) is Some {
                    lemma_front_is_no_greater(digits, i - start + 1);
                }
            }
            return None;
        }
        i = i + 1;
    }
    proof {
        assert(digits.take(length - start) =~= digits);
    }
    if negative {
        Some((-(size as i128)) as i64)
    } else if size == limit {
        None
    } else {
        Some(size as i64)
    }
}

} // verus!
