//! Time controls and their textual form, `<time>+<increment>`.
//!
//! Each of the two parts is a number of seconds, optionally followed by a
//! unit: `ms`, `s`, `m` or `h`.  A number is written in decimal digits with
//! at most one point, optionally after a plus sign and optionally before an
//! exponent of ten, as in `2.5e-3`.  All arithmetic is exact: a number is
//! read to the nanosecond, the tenth digit after the point deciding the
//! rounding, and then scaled by its unit.

use vstd::prelude::*;
use vstd::string::*;
use crate::duration::{Duration, MAX_NANOS};
use crate::search::{first_index_of, lemma_first_index_of};

verus! {

/// A base time and the increment credited on every move.
#[derive(Debug, Clone, Copy, PartialEq, Eq, Structural)]
pub struct TimeControl {
    pub time: Duration,
    pub increment: Duration,
}

/// The text was not a time control.
#[derive(Debug, Clone, Copy, PartialEq, Eq, Structural)]
pub struct InvalidTimeControl;

/// One more than the largest whole number of seconds a number may have.
pub const SECONDS_LIMIT: u128 = 0x1_0000_0000_0000_0000;

/// A bound past which the size of an exponent no longer matters: it is longer
/// than any text.
const EXPONENT_LIMIT: u128 = 0x40_0000_0000_0000_0000;

pub open spec fn is_digit(c: char) -> bool {
    '0' <= c && c <= '9'
}

/// The number a decimal digit stands for.
pub open spec fn digit_value(c: char) -> nat {
    (c as u32 - '0' as u32) as nat
}

pub open spec fn all_digits(s: Seq<char>) -> bool {
    forall|i: int| 0 <= i < s.len() ==> is_digit(#[trigger] s[i])
}

/// The number that a string of decimal digits denotes; 0 for the empty string.
pub open spec fn decimal_value(s: Seq<char>) -> nat
    decreases s.len(),
{
    if s.len() == 0 {
        0
    } else {
        decimal_value(s.drop_last()) * 10 + digit_value(s.last())
    }
}

/// The first nine digits of a fraction, with zeros where it has fewer.
pub open spec fn nine_digits(frac: Seq<char>) -> Seq<char> {
    Seq::new(
        9,
        |k: int|
            if k < frac.len() {
                frac[k]
            } else {
                '0'
            },
    )
}

/// The digits after the point, in nanoseconds: the first nine of them, and one
/// more nanosecond where the tenth is 5 or above.
pub open spec fn fraction_nanos(frac: Seq<char>) -> nat {
    decimal_value(nine_digits(frac)) + if frac.len() > 9 && digit_value(frac[9]) >= 5 {
        1nat
    } else {
        0nat
    }
}

/// A run of zeros.
pub open spec fn zeros(n: nat) -> Seq<char> {
    Seq::new(n, |i: int| '0')
}

/// The digits that stand before the point once the point is put after the
/// first `at` of `digits`: zeros are added where `at` is past the digits.
pub open spec fn shifted_whole(digits: Seq<char>, at: int) -> Seq<char> {
    if at <= 0 {
        Seq::<char>::empty()
    } else if at <= digits.len() {
        digits.take(at)
    } else {
        digits + zeros((at - digits.len()) as nat)
    }
}

/// The digits that stand after the point once the point is put after the
/// first `at` of `digits`: zeros are added where `at` is before the digits.
pub open spec fn shifted_fraction(digits: Seq<char>, at: int) -> Seq<char> {
    if at <= 0 {
        zeros((-at) as nat) + digits
    } else if at <= digits.len() {
        digits.skip(at)
    } else {
        Seq::<char>::empty()
    }
}

/// Where the exponent of a number begins: at its first `e` or `E`, or at its
/// end where it has neither.
pub open spec fn exponent_mark(s: Seq<char>) -> int {
    if first_index_of(s, 'e') <= first_index_of(s, 'E') {
        first_index_of(s, 'e')
    } else {
        first_index_of(s, 'E')
    }
}

/// The exponent that a text denotes: digits, at least one, optionally after
/// a sign.
pub open spec fn spec_exponent(s: Seq<char>) -> Option<int> {
    let signed = s.len() > 0 && (s[0] == '+' || s[0] == '-');
    let digits = if signed {
        s.skip(1)
    } else {
        s
    };
    if digits.len() > 0 && all_digits(digits) {
        if signed && s[0] == '-' {
            Some(-(decimal_value(digits) as int))
        } else {
            Some(decimal_value(digits) as int)
        }
    } else {
        None
    }
}

/// What digits denote in nanoseconds with the point after the first `at` of
/// them; what then stands before the point must denote less than 2^64.
#[verifier::opaque]
pub open spec fn spec_shifted_nanos(digits: Seq<char>, at: int) -> Option<nat> {
    if decimal_value(shifted_whole(digits, at)) < SECONDS_LIMIT {
        Some(
            decimal_value(shifted_whole(digits, at)) * 1_000_000_000 + fraction_nanos(
                shifted_fraction(digits, at),
            ),
        )
    } else {
        None
    }
}

/// What a number without sign and exponent denotes in nanoseconds, once the
/// exponent given has moved its point to the right by as many places as it
/// says.  The number is digits with at most one point among them and at
/// least one digit.
#[verifier::opaque]
pub open spec fn spec_mantissa_nanos(mantissa: Seq<char>, exponent: int) -> Option<nat> {
    let point = first_index_of(mantissa, '.');
    let whole = mantissa.take(point);
    let frac = if point < mantissa.len() {
        mantissa.skip(point + 1)
    } else {
        Seq::<char>::empty()
    };
    if all_digits(whole) && all_digits(frac) && whole.len() + frac.len() > 0 {
        spec_shifted_nanos(whole + frac, whole.len() + exponent)
    } else {
        None
    }
}

/// A number of seconds, in nanoseconds.  The number is digits with at most
/// one point among them and at least one digit, optionally after a plus sign
/// and optionally before an exponent.
#[verifier::opaque]
pub open spec fn spec_parse_seconds(s: Seq<char>) -> Option<nat> {
    let unsigned = if s.len() > 0 && s[0] == '+' {
        s.skip(1)
    } else {
        s
    };
    let mark = exponent_mark(unsigned);
    let exponent = if mark < unsigned.len() {
        spec_exponent(unsigned.skip(mark + 1))
    } else {
        Some(0int)
    };
    match exponent {
        Some(e) => spec_mantissa_nanos(unsigned.take(mark), e),
        None => None,
    }
}

pub open spec fn ends_with(s: Seq<char>, suffix: Seq<char>) -> bool {
    s.len() >= suffix.len() && s.skip(s.len() - suffix.len()) == suffix
}

/// What a unit does to a number of nanoseconds.
pub open spec fn scaled(nanos: Option<nat>, times: nat, over: nat) -> Option<nat> {
    match nanos {
        Some(v) => Some(v * times / over),
        None => None,
    }
}

/// The nanoseconds that one part of a time control denotes, before the range
/// check.  The units are tried in the order `ms`, `s`, `m`, `h`; text that
/// ends in none of them is a number of seconds.
pub open spec fn spec_part_nanos(s: Seq<char>) -> Option<nat> {
    if ends_with(s, seq!['m', 's']) {
        scaled(spec_parse_seconds(s.take(s.len() - 2)), 1, 1000)
    } else if ends_with(s, seq!['s']) {
        spec_parse_seconds(s.take(s.len() - 1))
    } else if ends_with(s, seq!['m']) {
        scaled(spec_parse_seconds(s.take(s.len() - 1)), 60, 1)
    } else if ends_with(s, seq!['h']) {
        scaled(spec_parse_seconds(s.take(s.len() - 1)), 3600, 1)
    } else {
        spec_parse_seconds(s)
    }
}

/// The span that one part of a time control denotes: none where the text is
/// no number with an optional unit, or where the span reaches 2^64 seconds.
pub open spec fn spec_parse_duration(s: Seq<char>) -> Option<Duration> {
    match spec_part_nanos(s) {
        Some(v) => if v <= MAX_NANOS {
            Some(Duration::spec_from_nanos(v))
        } else {
            None
        },
        None => None,
    }
}

/// The time control that a text denotes: the part before the first `+` is the
/// time, the part after it the increment.
pub open spec fn spec_parse_time_control(s: Seq<char>) -> Option<TimeControl> {
    let plus = first_index_of(s, '+');
    if plus >= s.len() {
        None
    } else {
        match (spec_parse_duration(s.take(plus)), spec_parse_duration(s.skip(plus + 1))) {
            (Some(time), Some(increment)) => Some(TimeControl { time, increment }),
            _ => None,
        }
    }
}

fn to_chars(s: &str) -> (v: Vec<char>)
    ensures
        v@ == s@,
{
    let n = s.unicode_len();
    let mut v: Vec<char> = Vec::new();
    let mut i: usize = 0;
    while i < n
        invariant
            i <= n,
            n == s@.len(),
            v@ == s@.take(i as int),
        decreases n - i,
    {
        v.push(s.get_char(i));
        i += 1;
    }
    v
}

fn is_digit_char(c: char) -> (r: bool)
    ensures
        r == is_digit(c),
{
    c >= '0' && c <= '9'
}

fn digit_of(c: char) -> (r: u128)
    requires
        is_digit(c),
    ensures
        r == digit_value(c),
        r <= 9,
{
    (c as u32 - '0' as u32) as u128
}

/// Where `c` first occurs in `v[lo..hi]`, counted from the start of `v`.
fn find_first(v: &Vec<char>, lo: usize, hi: usize, c: char) -> (r: usize)
    requires
        lo <= hi <= v.len(),
    ensures
        lo <= r <= hi,
        r - lo == first_index_of(v@.subrange(lo as int, hi as int), c),
{
    let mut i: usize = lo;
    while i < hi && v[i] != c
        invariant
            lo <= i <= hi <= v.len(),
            forall|j: int| lo <= j < i ==> v@[j] != c,
        decreases hi - i,
    {
        i += 1;
    }
    proof {
        lemma_first_index_of(v@.subrange(lo as int, hi as int), c, i - lo);
    }
    i
}

fn check_digits(v: &Vec<char>, lo: usize, hi: usize) -> (r: bool)
    requires
        lo <= hi <= v.len(),
    ensures
        r == all_digits(v@.subrange(lo as int, hi as int)),
{
    let mut i: usize = lo;
    while i < hi
        invariant
            lo <= i <= hi <= v.len(),
            forall|j: int| lo <= j < i ==> is_digit(v@[j]),
        decreases hi - i,
    {
        if !is_digit_char(v[i]) {
            assert(!is_digit(v@.subrange(lo as int, hi as int)[i - lo]));
            return false;
        }
        i += 1;
    }
    true
}

/// The value of the digits `v[lo..hi]`, or `cap` where it is `cap` or more.
fn read_decimal(v: &Vec<char>, lo: usize, hi: usize, cap: u128) -> (r: u128)
    requires
        lo <= hi <= v.len(),
        all_digits(v@.subrange(lo as int, hi as int)),
        cap <= EXPONENT_LIMIT,
    ensures
        r == if decimal_value(v@.subrange(lo as int, hi as int)) < cap {
            decimal_value(v@.subrange(lo as int, hi as int))
        } else {
            cap as nat
        },
{
    let mut acc: u128 = 0;
    let mut i: usize = lo;
    assert(decimal_value(v@.subrange(lo as int, lo as int)) == 0);
    while i < hi
        invariant
            lo <= i <= hi <= v.len(),
            all_digits(v@.subrange(lo as int, hi as int)),
            cap <= EXPONENT_LIMIT,
            acc == if decimal_value(v@.subrange(lo as int, i as int)) < cap {
                decimal_value(v@.subrange(lo as int, i as int))
            } else {
                cap as nat
            },
        decreases hi - i,
    {
        assert(v@.subrange(lo as int, hi as int)[i - lo] == v@[i as int]);
        let d = digit_of(v[i]);
        proof {
            let next = v@.subrange(lo as int, i + 1);
            assert(next.drop_last() == v@.subrange(lo as int, i as int));
            assert(next.last() == v@[i as int]);
        }
        if acc < cap {
            let wide: u128 = acc * 10 + d;
            acc = if wide < cap {
                wide
            } else {
                cap
            };
        }
        i += 1;
    }
    acc
}

/// The nanoseconds of the fraction `v[lo..hi]`.
fn read_fraction(v: &Vec<char>, lo: usize, hi: usize) -> (r: u128)
    requires
        lo <= hi <= v.len(),
        all_digits(v@.subrange(lo as int, hi as int)),
    ensures
        r == fraction_nanos(v@.subrange(lo as int, hi as int)),
        r <= 1_000_000_000,
{
    let ghost frac = v@.subrange(lo as int, hi as int);
    let ghost nine = nine_digits(frac);
    let mut acc: u128 = 0;
    let mut k: usize = 0;
    assert(decimal_value(nine.take(0)) == 0);
    while k < 9
        invariant
            k <= 9,
            lo <= hi <= v.len(),
            frac == v@.subrange(lo as int, hi as int),
            nine == nine_digits(frac),
            all_digits(frac),
            acc == decimal_value(nine.take(k as int)),
            acc < pow10(k as nat),
        decreases 9 - k,
    {
        let d: u128 = if k < hi - lo {
            assert(frac[k as int] == v@[lo + k]);
            digit_of(v[lo + k])
        } else {
            0
        };
        proof {
            let next = nine.take(k + 1);
            assert(next.drop_last() == nine.take(k as int));
            assert(next.last() == nine[k as int]);
            assert(digit_value('0') == 0);
            lemma_pow10_grows(k as nat);
        }
        acc = acc * 10 + d;
        k += 1;
    }
    proof {
        assert(nine.take(9) == nine);
        lemma_pow10_grows(8);
    }
    if hi - lo > 9 {
        assert(frac[9] == v@[lo + 9]);
        if digit_of(v[lo + 9]) >= 5 {
            acc = acc + 1;
        }
    }
    acc
}

/// Ten to the power `n`.
spec fn pow10(n: nat) -> nat
    decreases n,
{
    if n == 0 {
        1
    } else {
        10 * pow10((n - 1) as nat)
    }
}

proof fn lemma_pow10_grows(n: nat)
    requires
        n <= 8,
    ensures
        pow10(n + 1) == 10 * pow10(n),
        pow10(n + 1) <= 1_000_000_000,
        pow10(9) == 1_000_000_000,
{
    reveal_with_fuel(pow10, 11);
    assert(pow10(9) == 1_000_000_000);
    assert(n == 0 || n == 1 || n == 2 || n == 3 || n == 4 || n == 5 || n == 6 || n == 7 || n == 8);
}

proof fn lemma_pow10_large(k: nat)
    requires
        k >= 21,
    ensures
        pow10(k) >= 1_000_000_000_000_000_000_000,
    decreases k,
{
    if k == 21 {
        reveal_with_fuel(pow10, 22);
    } else {
        lemma_pow10_large((k - 1) as nat);
    }
}

/// Zeros after digits multiply what the digits denote by ten for each zero.
proof fn lemma_decimal_value_zeros(s: Seq<char>, k: nat)
    ensures
        decimal_value(s + zeros(k)) == decimal_value(s) * pow10(k),
    decreases k,
{
    if k == 0 {
        assert(s + zeros(0) =~= s);
        assert(pow10(0) == 1);
    } else {
        let t = s + zeros(k);
        assert(t.drop_last() =~= s + zeros((k - 1) as nat));
        assert(t.last() == '0');
        assert(digit_value('0') == 0);
        assert(decimal_value(t) == decimal_value(t.drop_last()) * 10 + digit_value(t.last()));
        lemma_decimal_value_zeros(s, (k - 1) as nat);
        assert(pow10(k) == 10 * pow10((k - 1) as nat));
        assert(decimal_value(s) * pow10((k - 1) as nat) * 10 == decimal_value(s) * pow10(k))
            by (nonlinear_arith)
            requires
                pow10(k) == 10 * pow10((k - 1) as nat),
        ;
    }
}

/// A run of zeros denotes nothing.
proof fn lemma_zeros_denote_nothing(k: nat)
    ensures
        decimal_value(zeros(k)) == 0,
{
    lemma_decimal_value_zeros(Seq::<char>::empty(), k);
    assert(Seq::<char>::empty() + zeros(k) =~= zeros(k));
    assert(decimal_value(Seq::<char>::empty()) == 0);
    assert(0 * pow10(k) == 0) by (nonlinear_arith);
}

/// No digits after the point are no nanoseconds.
proof fn lemma_fraction_of_nothing()
    ensures
        fraction_nanos(Seq::<char>::empty()) == 0,
{
    assert(nine_digits(Seq::<char>::empty()) =~= zeros(9));
    lemma_zeros_denote_nothing(9);
}

/// Ten zeros or more at the head of a fraction leave nothing of it.
proof fn lemma_fraction_of_zeros(n: nat, digits: Seq<char>)
    requires
        n >= 10,
    ensures
        fraction_nanos(zeros(n) + digits) == 0,
{
    let frac = zeros(n) + digits;
    assert forall|k: int| 0 <= k < 10 implies frac[k] == '0' by {
        assert(frac[k] == zeros(n)[k]);
    }
    assert(nine_digits(frac) =~= zeros(9));
    lemma_zeros_denote_nothing(9);
    assert(frac[9] == '0');
    assert(digit_value('0') == 0);
}

/// Whether `held` stands for the exponent `e`: it is `e` itself, or the
/// limit on the side on which `e` lies beyond it.
spec fn holds_back(e: int, held: int) -> bool {
    &&& -EXPONENT_LIMIT <= held <= EXPONENT_LIMIT
    &&& -EXPONENT_LIMIT < held < EXPONENT_LIMIT ==> held == e
    &&& held == EXPONENT_LIMIT ==> e >= EXPONENT_LIMIT
    &&& held == -EXPONENT_LIMIT ==> e <= -EXPONENT_LIMIT
}

/// The exponent written in `v[lo..hi]`, held within the exponent limit.
fn parse_exponent(v: &Vec<char>, lo: usize, hi: usize) -> (r: Option<i128>)
    requires
        lo <= hi <= v.len(),
    ensures
        match spec_exponent(v@.subrange(lo as int, hi as int)) {
            Some(e) => r matches Some(held) && holds_back(e, held as int),
            None => r.is_none(),
        },
{
    let ghost s = v@.subrange(lo as int, hi as int);
    let signed = lo < hi && (v[lo] == '+' || v[lo] == '-');
    let negative = signed && v[lo] == '-';
    let start: usize = if signed {
        lo + 1
    } else {
        lo
    };
    proof {
        if signed {
            assert(s.skip(1) == v@.subrange(start as int, hi as int));
        }
    }
    if start == hi || !check_digits(v, start, hi) {
        return None;
    }
    let size = read_decimal(v, start, hi, EXPONENT_LIMIT);
    if negative {
        Some(-(size as i128))
    } else {
        Some(size as i128)
    }
}

/// The digits `v[a..b]` followed by the digits `v[c..d]`.
fn gather(v: &Vec<char>, a: usize, b: usize, c: usize, d: usize) -> (r: Vec<char>)
    requires
        a <= b <= v.len(),
        c <= d <= v.len(),
    ensures
        r@ == v@.subrange(a as int, b as int) + v@.subrange(c as int, d as int),
{
    let mut r: Vec<char> = Vec::new();
    let mut i: usize = a;
    while i < b
        invariant
            a <= i <= b <= v.len(),
            r@ == v@.subrange(a as int, i as int),
        decreases b - i,
    {
        r.push(v[i]);
        i += 1;
    }
    let mut j: usize = c;
    while j < d
        invariant
            c <= j <= d <= v.len(),
            r@ == v@.subrange(a as int, b as int) + v@.subrange(c as int, j as int),
        decreases d - j,
    {
        r.push(v[j]);
        j += 1;
    }
    r
}

/// Adds `n` zeros to the end of `v`.
fn push_zeros(v: &mut Vec<char>, n: usize)
    ensures
        final(v)@ == old(v)@ + zeros(n as nat),
{
    let mut i: usize = 0;
    while i < n
        invariant
            i <= n,
            v@ == old(v)@ + zeros(i as nat),
        decreases n - i,
    {
        v.push('0');
        i += 1;
    }
}

proof fn lemma_digits_stay_digits(a: Seq<char>, b: Seq<char>)
    requires
        all_digits(a),
        all_digits(b),
    ensures
        all_digits(a + b),
{
    assert forall|i: int| 0 <= i < (a + b).len() implies is_digit(#[trigger] (a + b)[i]) by {
        if i < a.len() {
            assert((a + b)[i] == a[i]);
        } else {
            assert((a + b)[i] == b[i - a.len()]);
        }
    }
}

/// What the digits `digits`, with the point after the first `at` of them,
/// denote in nanoseconds.
fn read_shifted(mut digits: Vec<char>, at: i128) -> (r: Option<u128>)
    requires
        all_digits(digits@),
        -EXPONENT_LIMIT - 0x1_0000_0000_0000_0000 <= at <= EXPONENT_LIMIT + 0x1_0000_0000_0000_0000,
    ensures
        match spec_shifted_nanos(digits@, at as int) {
            Some(n) => r == Some(n as u128) && n <= SECONDS_LIMIT * 1_000_000_000,
            None => r.is_none(),
        },
{
    let ghost all = digits@;
    let m = digits.len();
    proof {
        reveal(spec_shifted_nanos);
        assert(all.subrange(0, m as int) == all);
        assert(zeros(0) =~= Seq::<char>::empty());
        assert(decimal_value(Seq::<char>::empty()) == 0);
    }
    if at > m as i128 + 20 {
        // The point is far past the digits: zero stays zero, and anything
        // else is too large.
        let any = read_decimal(&digits, 0, m, 1);
        proof {
            let added = (at - m) as nat;
            lemma_decimal_value_zeros(all, added);
            lemma_pow10_large(added);
            lemma_fraction_of_nothing();
            if any != 0 {
                assert(decimal_value(all) * pow10(added) >= 1_000_000_000_000_000_000_000)
                    by (nonlinear_arith)
                    requires
                        decimal_value(all) >= 1,
                        pow10(added) >= 1_000_000_000_000_000_000_000,
                ;
            } else {
                assert(decimal_value(all) * pow10(added) == 0) by (nonlinear_arith)
                    requires
                        decimal_value(all) == 0,
                ;
            }
        }
        if any == 0 {
            Some(0)
        } else {
            None
        }
    } else if at < -10 {
        // The point is far before the digits: nothing reaches a nanosecond.
        proof {
            lemma_fraction_of_zeros((-at) as nat, all);
        }
        Some(0)
    } else if at <= 0 {
        let mut frac: Vec<char> = Vec::new();
        push_zeros(&mut frac, (-at) as usize);
        let mut i: usize = 0;
        while i < m
            invariant
                i <= m,
                m == digits.len(),
                digits@ == all,
                frac@ == zeros((-at) as nat) + all.take(i as int),
            decreases m - i,
        {
            frac.push(digits[i]);
            i += 1;
        }
        proof {
            assert(all.take(m as int) == all);
            assert(all_digits(zeros((-at) as nat)));
            lemma_digits_stay_digits(zeros((-at) as nat), all);
            assert(frac@.subrange(0, frac@.len() as int) == frac@);
        }
        Some(read_fraction(&frac, 0, frac.len()))
    } else if at <= m as i128 {
        let cut = at as usize;
        proof {
            assert(all.take(at as int) == all.subrange(0, cut as int));
            assert(all.skip(at as int) == all.subrange(cut as int, m as int));
            assert(all_digits(all.subrange(0, cut as int)));
            assert(all_digits(all.subrange(cut as int, m as int)));
        }
        let whole = read_decimal(&digits, 0, cut, SECONDS_LIMIT);
        if whole >= SECONDS_LIMIT {
            return None;
        }
        let frac = read_fraction(&digits, cut, m);
        Some(whole * 1_000_000_000 + frac)
    } else {
        push_zeros(&mut digits, (at - m as i128) as usize);
        proof {
            assert(all_digits(zeros((at - m) as nat)));
            lemma_digits_stay_digits(all, zeros((at - m) as nat));
            assert(digits@.subrange(0, digits@.len() as int) == digits@);
            lemma_fraction_of_nothing();
        }
        let whole = read_decimal(&digits, 0, digits.len(), SECONDS_LIMIT);
        if whole >= SECONDS_LIMIT {
            return None;
        }
        Some(whole * 1_000_000_000)
    }
}

/// With the point more than twenty places past the digits, or more than ten
/// places before them, it does not matter how far out it is.
proof fn lemma_far_points(digits: Seq<char>, at: int, held: int)
    requires
        (at > digits.len() + 20 && held > digits.len() + 20) || (at < -10 && held < -10),
    ensures
        spec_shifted_nanos(digits, at) == spec_shifted_nanos(digits, held),
{
    reveal(spec_shifted_nanos);
    if at < -10 {
        lemma_fraction_of_zeros((-at) as nat, digits);
        lemma_fraction_of_zeros((-held) as nat, digits);
    } else {
        let a = (at - digits.len()) as nat;
        let h = (held - digits.len()) as nat;
        lemma_decimal_value_zeros(digits, a);
        lemma_decimal_value_zeros(digits, h);
        lemma_pow10_large(a);
        lemma_pow10_large(h);
        if decimal_value(digits) >= 1 {
            assert(decimal_value(digits) * pow10(a) >= 1_000_000_000_000_000_000_000)
                by (nonlinear_arith)
                requires
                    decimal_value(digits) >= 1,
                    pow10(a) >= 1_000_000_000_000_000_000_000,
            ;
            assert(decimal_value(digits) * pow10(h) >= 1_000_000_000_000_000_000_000)
                by (nonlinear_arith)
                requires
                    decimal_value(digits) >= 1,
                    pow10(h) >= 1_000_000_000_000_000_000_000,
            ;
        } else {
            assert(decimal_value(digits) * pow10(a) == 0) by (nonlinear_arith)
                requires
                    decimal_value(digits) == 0,
            ;
            assert(decimal_value(digits) * pow10(h) == 0) by (nonlinear_arith)
                requires
                    decimal_value(digits) == 0,
            ;
        }
    }
}

/// The nanoseconds of the number without sign and exponent in `v[lo..hi]`,
/// its point moved by the exponent that `held` stands for.
fn parse_mantissa(v: &Vec<char>, lo: usize, hi: usize, held: i128, Ghost(e): Ghost<int>) -> (r:
    Option<u128>)
    requires
        lo <= hi <= v.len(),
        holds_back(e, held as int),
    ensures
        match spec_mantissa_nanos(v@.subrange(lo as int, hi as int), e) {
            Some(n) => r == Some(n as u128) && n <= SECONDS_LIMIT * 1_000_000_000,
            None => r.is_none(),
        },
{
    let ghost mantissa = v@.subrange(lo as int, hi as int);
    proof {
        reveal(spec_mantissa_nanos);
    }
    let point = find_first(v, lo, hi, '.');
    let frac_lo: usize = if point < hi {
        point + 1
    } else {
        hi
    };
    proof {
        assert(mantissa.take(point - lo) == v@.subrange(lo as int, point as int));
        if point < hi {
            assert(mantissa.skip(point - lo + 1) == v@.subrange(frac_lo as int, hi as int));
        } else {
            assert(Seq::<char>::empty() == v@.subrange(frac_lo as int, hi as int));
        }
    }
    if !check_digits(v, lo, point) || !check_digits(v, frac_lo, hi) {
        return None;
    }
    if (point - lo) + (hi - frac_lo) == 0 {
        return None;
    }
    let digits = gather(v, lo, point, frac_lo, hi);
    let at: i128 = (point - lo) as i128 + held;
    proof {
        lemma_digits_stay_digits(
            v@.subrange(lo as int, point as int),
            v@.subrange(frac_lo as int, hi as int),
        );
        if held != e {
            lemma_far_points(digits@, (point - lo) + e, at as int);
        }
    }
    read_shifted(digits, at)
}

/// The number of seconds written in `v[lo..hi]`, in nanoseconds.
fn parse_seconds(v: &Vec<char>, lo: usize, hi: usize) -> (r: Option<u128>)
    requires
        lo <= hi <= v.len(),
    ensures
        match spec_parse_seconds(v@.subrange(lo as int, hi as int)) {
            Some(n) => r == Some(n as u128) && n <= SECONDS_LIMIT * 1_000_000_000,
            None => r.is_none(),
        },
{
    let ghost s = v@.subrange(lo as int, hi as int);
    let start: usize = if lo < hi && v[lo] == '+' {
        lo + 1
    } else {
        lo
    };
    let ghost unsigned = v@.subrange(start as int, hi as int);
    proof {
        reveal(spec_parse_seconds);
        if start > lo {
            assert(s.skip(1) == unsigned);
        }
    }
    let small = find_first(v, start, hi, 'e');
    let capital = find_first(v, start, hi, 'E');
    let mark: usize = if small <= capital {
        small
    } else {
        capital
    };
    proof {
        assert(unsigned.take(mark - start) == v@.subrange(start as int, mark as int));
        if mark < hi {
            assert(unsigned.skip(mark - start + 1) == v@.subrange(mark + 1, hi as int));
        }
    }
    if mark < hi {
        match parse_exponent(v, mark + 1, hi) {
            Some(held) => {
                let ghost e = spec_exponent(v@.subrange(mark + 1, hi as int)).unwrap();
                parse_mantissa(v, start, mark, held, Ghost(e))
            },
            None => None,
        }
    } else {
        parse_mantissa(v, start, mark, 0, Ghost(0int))
    }
}

fn has_char_at(v: &Vec<char>, lo: usize, hi: usize, back: usize, c: char) -> (r: bool)
    requires
        lo <= hi <= v.len(),
        back >= 1,
    ensures
        r == (hi - lo >= back && v@[hi - back] == c),
{
    hi - lo >= back && v[hi - back] == c
}

/// The part of a time control written in `v[lo..hi]`.
fn parse_part(v: &Vec<char>, lo: usize, hi: usize) -> (r: Option<Duration>)
    requires
        lo <= hi <= v.len(),
    ensures
        r == spec_parse_duration(v@.subrange(lo as int, hi as int)),
{
    let ghost s = v@.subrange(lo as int, hi as int);
    let last_is_s = has_char_at(v, lo, hi, 1, 's');
    let nanos: Option<u128> = if last_is_s && has_char_at(v, lo, hi, 2, 'm') {
        proof {
            assert(s.skip(s.len() - 2) == seq!['m', 's']);
            assert(s.take(s.len() - 2) == v@.subrange(lo as int, hi - 2));
        }
        match parse_seconds(v, lo, hi - 2) {
            Some(n) => Some(n / 1000),
            None => None,
        }
    } else if last_is_s {
        proof {
            assert(s.skip(s.len() - 1) == seq!['s']);
            assert(s.take(s.len() - 1) == v@.subrange(lo as int, hi - 1));
            if s.len() >= 2 {
                assert(s.skip(s.len() - 2)[0] == s[s.len() - 2]);
            }
        }
        parse_seconds(v, lo, hi - 1)
    } else if has_char_at(v, lo, hi, 1, 'm') {
        proof {
            assert(s.skip(s.len() - 1) == seq!['m']);
            assert(s.take(s.len() - 1) == v@.subrange(lo as int, hi - 1));
            if s.len() >= 2 {
                assert(s.skip(s.len() - 2)[1] == s[s.len() - 1]);
            }
            assert(s.skip(s.len() - 1)[0] == s[s.len() - 1]);
        }
        match parse_seconds(v, lo, hi - 1) {
            Some(n) => Some(n * 60),
            None => None,
        }
    } else if has_char_at(v, lo, hi, 1, 'h') {
        proof {
            assert(s.skip(s.len() - 1) == seq!['h']);
            assert(s.take(s.len() - 1) == v@.subrange(lo as int, hi - 1));
            if s.len() >= 2 {
                assert(s.skip(s.len() - 2)[1] == s[s.len() - 1]);
            }
            assert(s.skip(s.len() - 1)[0] == s[s.len() - 1]);
        }
        match parse_seconds(v, lo, hi - 1) {
            Some(n) => Some(n * 3600),
            None => None,
        }
    } else {
        proof {
            if s.len() >= 2 {
                assert(s.skip(s.len() - 2)[1] == s[s.len() - 1]);
            }
            if s.len() >= 1 {
                assert(s.skip(s.len() - 1)[0] == s[s.len() - 1]);
            }
        }
        parse_seconds(v, lo, hi)
    };
    match nanos {
        Some(n) => Duration::checked_from_nanos(n),
        None => None,
    }
}

/// Reads one part of a time control: a decimal number of seconds, optionally
/// followed by `ms`, `s`, `m` or `h`.
pub fn parse_duration(s: &str) -> (r: Option<Duration>)
    ensures
        r == spec_parse_duration(s@),
{
    let v = to_chars(s);
    assert(v@.subrange(0, v@.len() as int) == v@);
    parse_part(&v, 0, v.len())
}

impl InvalidTimeControl {
    /// What to tell the user.
    pub fn message(&self) -> (r: String)
        ensures
            r@ == "invalid time control"@,
    {
        String::from_str("invalid time control")
    }
}

impl TimeControl {
    /// Reads a time control of the form `<time>+<increment>`.
    pub fn from_str(s: &str) -> (r: Result<TimeControl, InvalidTimeControl>)
        ensures
            match spec_parse_time_control(s@) {
                Some(tc) => r == Ok::<TimeControl, InvalidTimeControl>(tc),
                None => r == Err::<TimeControl, InvalidTimeControl>(InvalidTimeControl),
            },
    {
        let v = to_chars(s);
        let plus = find_first(&v, 0, v.len(), '+');
        proof {
            assert(v@.subrange(0, v@.len() as int) == v@);
            assert(v@.take(plus as int) == v@.subrange(0, plus as int));
        }
        if plus >= v.len() {
            return Err(InvalidTimeControl);
        }
        assert(v@.skip(plus + 1) == v@.subrange(plus + 1, v@.len() as int));
        let time = match parse_part(&v, 0, plus) {
            Some(d) => d,
            None => {
                return Err(InvalidTimeControl);
            },
        };
        let increment = match parse_part(&v, plus + 1, v.len()) {
            Some(d) => d,
            None => {
                return Err(InvalidTimeControl);
            },
        };
        Ok(TimeControl { time, increment })
    }
}

impl std::str::FromStr for TimeControl {
    type Err = InvalidTimeControl;

    fn from_str(s: &str) -> (r: Result<TimeControl, InvalidTimeControl>)
        ensures
            match spec_parse_time_control(s@) {
                Some(tc) => r == Ok::<TimeControl, InvalidTimeControl>(tc),
                None => r == Err::<TimeControl, InvalidTimeControl>(InvalidTimeControl),
            },
    {
        TimeControl::from_str(s)
    }
}

/// Reads a time control for a command line: the error is the message to
/// print.
pub fn clap_parse_time_control(s: &str) -> (r: Result<TimeControl, String>)
    ensures
        match spec_parse_time_control(s@) {
            Some(tc) => r == Ok::<TimeControl, String>(tc),
            None => r matches Err(text) && text@ == "invalid time control"@,
        },
{
    match TimeControl::from_str(s) {
        Ok(tc) => Ok(tc),
        Err(e) => Err(e.message()),
    }
}

} // verus!
