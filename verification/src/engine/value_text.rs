//! How the value of an option is written in a `setoption` command.

use vstd::prelude::*;
use vstd::string::*;
use crate::engine::options::{UciOptionField, UciOptionValue};
use crate::time_control::{all_digits, decimal_value, digit_value, is_digit};

verus! {

/// The character of a decimal digit.
pub open spec fn digit_char(d: nat) -> char {
    if d == 0 {
        '0'
    } else if d == 1 {
        '1'
    } else if d == 2 {
        '2'
    } else if d == 3 {
        '3'
    } else if d == 4 {
        '4'
    } else if d == 5 {
        '5'
    } else if d == 6 {
        '6'
    } else if d == 7 {
        '7'
    } else if d == 8 {
        '8'
    } else {
        '9'
    }
}

/// A natural number in base 10, without leading zeros.
pub open spec fn spec_digits(n: nat) -> Seq<char>
    decreases n,
{
    if n < 10 {
        seq![digit_char(n)]
    } else {
        spec_digits(n / 10).push(digit_char(n % 10))
    }
}

/// An integer in base 10, with a minus sign where it is negative.
pub open spec fn spec_decimal(n: int) -> Seq<char> {
    if n < 0 {
        seq!['-'] + spec_digits((-n) as nat)
    } else {
        spec_digits(n as nat)
    }
}

/// What is written for a natural number reads back as that number: the text
/// is made of digits, and the digits denote the number.
pub proof fn law_digits_denote(n: nat)
    ensures
        all_digits(spec_digits(n)),
        decimal_value(spec_digits(n)) == n,
        spec_digits(n).len() >= 1,
    decreases n,
{
    assert(is_digit(digit_char(n % 10)) && digit_value(digit_char(n % 10)) == n % 10);
    if n < 10 {
        let text = spec_digits(n);
        assert(text.drop_last() =~= Seq::<char>::empty());
        assert(decimal_value(text.drop_last()) == 0);
    } else {
        law_digits_denote(n / 10);
        let head = spec_digits(n / 10);
        let text = head.push(digit_char(n % 10));
        assert(text.drop_last() =~= head);
        assert(text.last() == digit_char(n % 10));
        assert forall|i: int| 0 <= i < text.len() implies is_digit(#[trigger] text[i]) by {
            if i < head.len() {
                assert(text[i] == head[i]);
            }
        }
    }
}

/// A truth value as a word.
pub open spec fn spec_bool_text(b: bool) -> Seq<char> {
    if b {
        "true"@
    } else {
        "false"@
    }
}

/// How a value is written for the option it is given to: a truth value as
/// `true` or `false`, a number in base 10, a choice as its label, a string as
/// it is.
pub open spec fn spec_value_text(field: UciOptionField, value: UciOptionValue) -> Seq<char> {
    match value {
        UciOptionValue::Check(b) => spec_bool_text(b),
        UciOptionValue::Spin(n) => spec_decimal(n as int),
        UciOptionValue::Combo(i) => match field {
            UciOptionField::Combo { value, labels } => labels[i as int]@,
            _ => Seq::<char>::empty(),
        },
        UciOptionValue::String(s) => s@,
    }
}

fn digit_str(d: u64) -> (r: &'static str)
    requires
        d < 10,
    ensures
        r@ == seq![digit_char(d as nat)],
{
    proof {
        reveal_strlit("0");
        reveal_strlit("1");
        reveal_strlit("2");
        reveal_strlit("3");
        reveal_strlit("4");
        reveal_strlit("5");
        reveal_strlit("6");
        reveal_strlit("7");
        reveal_strlit("8");
        reveal_strlit("9");
    }
    let r = if d == 0 {
        "0"
    } else if d == 1 {
        "1"
    } else if d == 2 {
        "2"
    } else if d == 3 {
        "3"
    } else if d == 4 {
        "4"
    } else if d == 5 {
        "5"
    } else if d == 6 {
        "6"
    } else if d == 7 {
        "7"
    } else if d == 8 {
        "8"
    } else {
        "9"
    };
    assert(r@ =~= seq![digit_char(d as nat)]);
    r
}

fn digits(n: u64) -> (r: String)
    ensures
        r@ == spec_digits(n as nat),
    decreases n,
{
    if n < 10 {
        String::from_str(digit_str(n))
    } else {
        let mut r = digits(n / 10);
        r.append(digit_str(n % 10));
        assert(r@ =~= spec_digits((n / 10) as nat).push(digit_char((n % 10) as nat)));
        r
    }
}

/// Writes an integer in base 10.
pub fn decimal(n: i64) -> (r: String)
    ensures
        r@ == spec_decimal(n as int),
{
    if n < 0 {
        proof {
            reveal_strlit("-");
        }
        let magnitude: u64 = if n == i64::MIN {
            0x8000_0000_0000_0000
        } else {
            (-n) as u64
        };
        let r = String::from_str("-").concat(digits(magnitude).as_str());
        assert(r@ =~= seq!['-'] + spec_digits((-n) as nat));
        r
    } else {
        digits(n as u64)
    }
}

/// Writes a truth value as `true` or `false`.
pub fn bool_text(b: bool) -> (r: String)
    ensures
        r@ == spec_bool_text(b),
{
    if b {
        String::from_str("true")
    } else {
        String::from_str("false")
    }
}

} // verus!
