//! Decimal text of unsigned numbers.
use vstd::prelude::*;

verus! {

/// The character of a digit below ten.
pub open spec fn digit_char(d: nat) -> char {
    (d + 48) as char
}

/// Whether a character is one of the ten ASCII digits.
pub open spec fn is_digit(c: char) -> bool {
    48 <= c as nat <= 57
}

/// Whether a text is made of ASCII digits alone.
pub open spec fn is_digits(s: Seq<char>) -> bool {
    forall|i: int| 0 <= i < s.len() ==> is_digit(#[trigger] s[i])
}

/// The number that a text of digits stands for; the empty text stands for zero.
pub open spec fn decimal_value(s: Seq<char>) -> nat
    decreases s.len(),
{
    if s.len() == 0 {
        0
    } else {
        (decimal_value(s.drop_last()) * 10 + (s.last() as nat - 48)) as nat
    }
}

/// The shortest decimal text of a number.
pub open spec fn decimal(n: nat) -> Seq<char>
    decreases n,
{
    if n < 10 {
        seq![digit_char(n)]
    } else {
        decimal(n / 10).push(digit_char(n % 10))
    }
}

/// What the text of an unsigned number may look like: an optional plus sign, then at least one
/// digit and nothing else.
pub open spec fn unsigned_digits(s: Seq<char>) -> Option<Seq<char>> {
    let digits = if s.len() > 0 && s[0] == '+' {
        s.drop_first()
    } else {
        s
    };
    if digits.len() > 0 && is_digits(digits) {
        Some(digits)
    } else {
        None
    }
}

/// The number that a text stands for, where it is one that fits 128 bits.
pub open spec fn unsigned_number(s: Seq<char>) -> Option<u128> {
    match unsigned_digits(s) {
        Some(digits) => if decimal_value(digits) <= u128::MAX {
            Some(decimal_value(digits) as u128)
        } else {
            None
        },
        None => None,
    }
}

/// Reading back the decimal text of a number gives the number.
pub proof fn law_decimal_round_trip(n: nat)
    ensures
        is_digits(decimal(n)),
        decimal(n).len() > 0,
        decimal_value(decimal(n)) == n,
    decreases n,
{
    if n < 10 {
        assert(decimal(n).drop_last() =~= Seq::<char>::empty());
        assert(decimal_value(decimal(n).drop_last()) == 0);
        assert(decimal(n).last() == digit_char(n));
    } else {
        law_decimal_round_trip(n / 10);
        assert(decimal(n).drop_last() =~= decimal(n / 10));
    }
}

/// Two numbers with the same decimal text are the same number.
pub proof fn law_decimal_is_injective(m: nat, n: nat)
    requires
        decimal(m) == decimal(n),
    ensures
        m == n,
{
    law_decimal_round_trip(m);
    law_decimal_round_trip(n);
}

proof fn lemma_decimal_value_prefix(s: Seq<char>, i: int)
    requires
        0 <= i <= s.len(),
        is_digits(s),
    ensures
        decimal_value(s.take(i)) <= decimal_value(s),
    decreases s.len() - i,
{
    if i == s.len() {
        assert(s.take(i) =~= s);
    } else {
        lemma_decimal_value_prefix(s, i + 1);
        assert(s.take(i + 1).drop_last() =~= s.take(i));
    }
}

/// Reads a text of digits. `None` when a character is not a digit or the number does not fit.
fn parse_digits(s: &str, from: usize) -> (number: Option<u128>)
    requires
        from <= s@.len(),
        s@.len() <= usize::MAX,
    ensures
        number == (if is_digits(s@.skip(from as int)) && decimal_value(s@.skip(from as int))
            <= u128::MAX {
            Some(decimal_value(s@.skip(from as int)) as u128)
        } else {
            None::<u128>
        }),
{
    let ghost digits = s@.skip(from as int);
    let len: usize = s.unicode_len();
    let mut i: usize = from;
    let mut value: u128 = 0;
    while i < len
        invariant
            from <= i <= len,
            len == s@.len(),
            digits == s@.skip(from as int),
            forall|j: int| 0 <= j < i - from ==> is_digit(#[trigger] digits[j]),
            value == decimal_value(digits.take(i - from)),
        decreases len - i,
    {
        let c: char = s.get_char(i);
        let code: u32 = c as u32;
        proof {
            assert(digits[i - from] == c);
            assert(digits.take(i - from + 1).drop_last() =~= digits.take(i - from));
            if is_digits(digits) {
                lemma_decimal_value_prefix(digits, i - from + 1);
            }
        }
        if code < 48 || code > 57 {
            return None;
        }
        match value.checked_mul(10) {
            None => {
                return None;
            },
            Some(scaled) => match scaled.checked_add((code - 48) as u128) {
                None => {
                    return None;
                },
                Some(sum) => {
                    value = sum;
                },
            },
        }
        i = i + 1;
    }
    proof {
        assert(digits.take(len - from) =~= digits);
    }
    Some(value)
}

/// Reads an unsigned number. `None` exactly where the text is no such number or the number does
/// not fit.
pub fn parse_unsigned(s: &str) -> (number: Option<u128>)
    ensures
        number == unsigned_number(s@),
{
    let len: usize = s.unicode_len();
    if len == 0 {
        return None;
    }
    let c: char = s.get_char(0);
    if c == '+' {
        if len == 1 {
            return None;
        }
        assert(s@.skip(1) =~= s@.drop_first());
        parse_digits(s, 1)
    } else {
        assert(s@.skip(0) =~= s@);
        parse_digits(s, 0)
    }
}

/// The text of one digit.
fn digit_text(d: u8) -> (text: &'static str)
    requires
        d < 10,
    ensures
        text@ == seq![digit_char(d as nat)],
{
    proof {
        reveal_strlit("0");
        reveal_strlit("1");
        reveal_strlit("2");
        reveal_strlit("3");
        reveal_strlit("4");
        reveal_strlit("5");
        reveal_strlit("6");
        reveal_strlit("7");
        reveal_strlit("8");
        reveal_strlit("9");
    }
    match d {
        0 => "0",
        1 => "1",
        2 => "2",
        3 => "3",
        4 => "4",
        5 => "5",
        6 => "6",
        7 => "7",
        8 => "8",
        _ => "9",
    }
}

/// The shortest decimal text of a number.
pub fn decimal_text(n: u128) -> (text: String)
    ensures
        text@ == decimal(n as nat),
    decreases n,
{
    if n < 10 {
        digit_text(n as u8).to_string()
    } else {
        let mut text: String = decimal_text(n / 10);
        text.append(digit_text((n % 10) as u8));
        assert(text@ =~= decimal((n / 10) as nat).push(digit_char((n % 10) as nat)));
        text
    }
}

/// The ten ASCII digits are the characters from `0` to `9`, and they stand for their distance from
/// `0`. A further digit behind a text multiplies its number by ten and adds the digit.
pub proof fn law_digits_count_by_tens(s: Seq<char>, c: char)
    ensures
        is_digit(c) <==> '0' <= c <= '9',
        decimal_value(Seq::empty()) == 0,
        is_digit(c) ==> decimal_value(s.push(c)) == 10 * decimal_value(s) + (c as int - '0' as int),
{
    assert(s.push(c).drop_last() =~= s);
}

/// The decimal text of a number has no leading zero, except that of zero itself.
pub proof fn law_decimal_has_no_leading_zero(n: nat)
    ensures
        decimal(n)[0] == '0' <==> n == 0,
        n < 10 <==> decimal(n).len() == 1,
    decreases n,
{
    law_decimal_round_trip(n);
    if n >= 10 {
        law_decimal_has_no_leading_zero(n / 10);
        law_decimal_round_trip(n / 10);
        assert(decimal(n)[0] == decimal(n / 10)[0]);
    }
}

/// A text is read as a number exactly where it is one of at least one digit that fits 128 bits, with
/// a plus sign before it or without one, and the number is that of the digits.
pub proof fn law_unsigned_numbers_are_digits(digits: Seq<char>)
    requires
        digits.len() > 0,
    ensures
        ({
            let readable = decimal_value(digits) <= u128::MAX && forall|i: int|
                0 <= i < digits.len() ==> #[trigger] digits[i] >= '0' && digits[i] <= '9';
            &&& unsigned_number(seq!['+'] + digits) == (if readable {
                Some(decimal_value(digits) as u128)
            } else {
                None
            })
            &&& digits[0] != '+' ==> unsigned_number(digits) == unsigned_number(seq!['+'] + digits)
            &&& unsigned_number(seq!['+']) is None
            &&& unsigned_number(Seq::empty()) is None
        }),
{
    assert((seq!['+'] + digits).drop_first() =~= digits);
    assert(seq!['+'].drop_first() =~= Seq::empty());
    if is_digits(digits) {
        assert forall|i: int| 0 <= i < digits.len() implies #[trigger] digits[i] >= '0'
            && digits[i] <= '9' by {
            law_digits_count_by_tens(Seq::empty(), digits[i]);
        }
    }
}

} // verus!
