//! Points and spans of time in whole milliseconds, and their decimal
//! notation in seconds.

use vstd::prelude::*;
use crate::text::{
    char_is_digit, decimal, digit_char, digit_of, digit_value, digits_value, is_digit, is_digits,
    parse_digits, push_decimal, scan_until, until,
};

verus! {

/// The magnitude of a number of milliseconds.
pub open spec fn magnitude(ms: int) -> nat {
    if ms < 0 {
        (-ms) as nat
    } else {
        ms as nat
    }
}

/// The minus sign of a negative number, and nothing otherwise.
pub open spec fn sign_text(ms: int) -> Seq<char> {
    if ms < 0 {
        seq!['-']
    } else {
        Seq::empty()
    }
}

/// The three decimal places of a number of milliseconds below one second.
pub open spec fn fraction_fixed(f: nat) -> Seq<char> {
    seq![digit_char(f / 100 % 10), digit_char(f / 10 % 10), digit_char(f % 10)]
}

/// The decimal places of a number of milliseconds below one second,
/// without zeros at the end.
pub open spec fn fraction_short(f: nat) -> Seq<char> {
    if f % 100 == 0 {
        seq![digit_char(f / 100 % 10)]
    } else if f % 10 == 0 {
        seq![digit_char(f / 100 % 10), digit_char(f / 10 % 10)]
    } else {
        fraction_fixed(f)
    }
}

/// A time in seconds with exactly three decimal places.
pub open spec fn seconds_fixed(ms: int) -> Seq<char> {
    let m = magnitude(ms);
    sign_text(ms) + decimal(m / 1000) + seq!['.'] + fraction_fixed(m % 1000)
}

/// A time in seconds in its shortest notation: no decimal places for whole
/// seconds, and otherwise as many as it takes.
pub open spec fn seconds_short(ms: int) -> Seq<char> {
    let m = magnitude(ms);
    if m % 1000 == 0 {
        sign_text(ms) + decimal(m / 1000)
    } else {
        sign_text(ms) + decimal(m / 1000) + seq!['.'] + fraction_short(m % 1000)
    }
}

fn magnitude_of(ms: i128) -> (m: u128)
    ensures
        m == magnitude(ms as int),
{
    if ms < 0 {
        if ms == i128::MIN {
            0x8000_0000_0000_0000_0000_0000_0000_0000u128
        } else {
            (-ms) as u128
        }
    } else {
        ms as u128
    }
}

/// Appends a time in seconds with exactly three decimal places.
pub fn push_seconds_fixed(out: &mut String, ms: i128)
    ensures
        final(out)@ == old(out)@ + seconds_fixed(ms as int),
{
    let m = magnitude_of(ms);
    if ms < 0 {
        out.push('-');
    }
    push_decimal(out, m / 1000);
    out.push('.');
    let f: u128 = m % 1000;
    out.push(digit_of((f / 100 % 10) as u8));
    out.push(digit_of((f / 10 % 10) as u8));
    out.push(digit_of((f % 10) as u8));
    assert(out@ =~= old(out)@ + seconds_fixed(ms as int));
}

/// Appends a time in seconds in its shortest notation.
pub fn push_seconds_short(out: &mut String, ms: i128)
    ensures
        final(out)@ == old(out)@ + seconds_short(ms as int),
{
    let m = magnitude_of(ms);
    if ms < 0 {
        out.push('-');
    }
    push_decimal(out, m / 1000);
    let f: u128 = m % 1000;
    if f != 0 {
        out.push('.');
        out.push(digit_of((f / 100 % 10) as u8));
        if f % 100 != 0 {
            out.push(digit_of((f / 10 % 10) as u8));
            if f % 10 != 0 {
                out.push(digit_of((f % 10) as u8));
            }
        }
    }
    assert(out@ =~= old(out)@ + seconds_short(ms as int));
}

/// A time in seconds with exactly three decimal places.
pub fn seconds_fixed_string(ms: i128) -> (s: String)
    ensures
        s@ == seconds_fixed(ms as int),
{
    let mut s = String::new();
    push_seconds_fixed(&mut s, ms);
    assert(s@ =~= seconds_fixed(ms as int));
    s
}

/// A time in seconds in its shortest notation.
pub fn seconds_string(ms: i128) -> (s: String)
    ensures
        s@ == seconds_short(ms as int),
{
    let mut s = String::new();
    push_seconds_short(&mut s, ms);
    assert(s@ =~= seconds_short(ms as int));
    s
}

// ---------------------------------------------------------------------------
// Reading a decimal number of seconds
// ---------------------------------------------------------------------------

/// A numeral without its sign.
pub open spec fn unsigned_part(s: Seq<char>) -> Seq<char> {
    if s.len() > 0 && (s[0] == '-' || s[0] == '+') {
        s.drop_first()
    } else {
        s
    }
}

/// Whether a numeral begins with a minus sign.
pub open spec fn is_negative(s: Seq<char>) -> bool {
    s.len() > 0 && s[0] == '-'
}

/// The digits before the decimal point.
pub open spec fn whole_part(b: Seq<char>) -> Seq<char> {
    b.take(until(b, '.') as int)
}

/// The digits after the decimal point.
pub open spec fn fraction_part(b: Seq<char>) -> Seq<char> {
    if until(b, '.') < b.len() {
        b.skip(until(b, '.') as int + 1)
    } else {
        Seq::empty()
    }
}

/// Whether every character of `s` is a digit.
pub open spec fn all_digits(s: Seq<char>) -> bool {
    forall|i: int| 0 <= i < s.len() ==> is_digit(#[trigger] s[i])
}

/// The digit at place `i` after the decimal point, zero where the numeral
/// has fewer places.
pub open spec fn place(f: Seq<char>, i: int) -> nat {
    if 0 <= i < f.len() {
        digit_value(f[i])
    } else {
        0
    }
}

/// The milliseconds that the decimal places stand for, rounded half up at
/// the fourth place.
pub open spec fn fraction_millis(f: Seq<char>) -> nat {
    place(f, 0) * 100 + place(f, 1) * 10 + place(f, 2) + if place(f, 3) >= 5 {
        1nat
    } else {
        0nat
    }
}

/// Whether `b` is a plain decimal numeral: digits, then optionally a point
/// and digits, with at least one digit in all.
pub open spec fn is_numeral(b: Seq<char>) -> bool {
    all_digits(whole_part(b)) && all_digits(fraction_part(b)) && whole_part(b).len()
        + fraction_part(b).len() > 0
}

/// The number of milliseconds that a plain decimal numeral of seconds
/// stands for, rounded to the nearest.
pub open spec fn numeral_millis(b: Seq<char>) -> nat {
    digits_value(whole_part(b)) * 1000 + fraction_millis(fraction_part(b))
}

/// The time in milliseconds that a text gives in seconds: an optional sign
/// and a plain decimal numeral, rounded to the nearest millisecond.
/// Anything else, and a time beyond the range of `i64`, is no time.
pub open spec fn parse_seconds(s: Seq<char>) -> Option<i64> {
    let b = unsigned_part(s);
    if !is_numeral(b) {
        None
    } else if is_negative(s) {
        if numeral_millis(b) <= 0x8000_0000_0000_0000 {
            Some((-(numeral_millis(b) as int)) as i64)
        } else {
            None
        }
    } else {
        if numeral_millis(b) <= 0x7fff_ffff_ffff_ffff {
            Some(numeral_millis(b) as i64)
        } else {
            None
        }
    }
}

fn place_of(chars: &Vec<char>, from: usize, to: usize, i: usize) -> (d: u64)
    requires
        from <= to <= chars@.len(),
        i <= 3,
        forall|k: int| from <= k < to ==> is_digit(#[trigger] chars@[k]),
    ensures
        d == place(chars@.subrange(from as int, to as int), i as int),
        d <= 9,
{
    if i < to - from {
        (chars[from + i] as u8 - 48u8) as u64
    } else {
        0
    }
}

/// Reads `chars[from..to]` as a time in seconds.
pub fn read_seconds(chars: &Vec<char>, from: usize, to: usize) -> (r: Option<i64>)
    requires
        from <= to <= chars@.len(),
    ensures
        r == parse_seconds(chars@.subrange(from as int, to as int)),
{
    let ghost s = chars@.subrange(from as int, to as int);
    let negative = from < to && chars[from] == '-';
    let start = if from < to && (chars[from] == '-' || chars[from] == '+') {
        from + 1
    } else {
        from
    };
    let ghost b = chars@.subrange(start as int, to as int);
    assert(b =~= unsigned_part(s));
    let point = scan_until(chars, start, to, '.');
    let rest = if point < to {
        point + 1
    } else {
        to
    };
    let ghost whole = chars@.subrange(start as int, point as int);
    let ghost fraction = chars@.subrange(rest as int, to as int);
    assert(whole =~= whole_part(b));
    assert(fraction =~= fraction_part(b));
    if point == start && rest == to {
        return None;
    }
    let mut k: usize = rest;
    while k < to
        invariant
            rest <= k <= to <= chars@.len(),
            fraction == chars@.subrange(rest as int, to as int),
            fraction == fraction_part(unsigned_part(chars@.subrange(from as int, to as int))),
            forall|j: int| rest <= j < k ==> is_digit(#[trigger] chars@[j]),
        decreases to - k,
    {
        if !char_is_digit(chars[k]) {
            assert(!is_digit(fraction[k - rest]));
            return None;
        }
        k += 1;
    }
    assert(all_digits(fraction)) by {
        assert forall|i: int| 0 <= i < fraction.len() implies is_digit(#[trigger] fraction[i]) by {
            assert(fraction[i] == chars@[rest + i]);
        }
    }
    let round: u64 = if place_of(chars, rest, to, 3) >= 5 {
        1
    } else {
        0
    };
    let part: u64 = place_of(chars, rest, to, 0) * 100 + place_of(chars, rest, to, 1) * 10
        + place_of(chars, rest, to, 2) + round;
    assert(part == fraction_millis(fraction));
    let limit: u64 = if negative {
        0x8000_0000_0000_0000
    } else {
        0x7fff_ffff_ffff_ffff
    };
    let seconds: u64 = if point == start {
        assert(whole.len() == 0);
        0
    } else {
        match parse_digits(chars, start, point, (limit - part) / 1000) {
            Some(v) => v,
            None => {
                proof {
                    if is_digits(whole) {
                        assert(digits_value(whole) > (limit - part) / 1000);
                        assert(digits_value(whole) * 1000 + part > limit) by (nonlinear_arith)
                            requires
                                digits_value(whole) > (limit - part) / 1000,
                                part <= limit,
                        ;
                    } else {
                        assert(!all_digits(whole));
                    }
                }
                return None;
            },
        }
    };
    assert(all_digits(whole));
    assert(seconds == digits_value(whole));
    assert(seconds * 1000 + part <= limit) by (nonlinear_arith)
        requires
            seconds <= (limit - part) / 1000,
            part <= limit,
    ;
    let total: u64 = seconds * 1000 + part;
    assert(total == numeral_millis(b));
    if negative {
        if total == 0x8000_0000_0000_0000 {
            Some(i64::MIN)
        } else {
            Some(-(total as i64))
        }
    } else {
        Some(total as i64)
    }
}

// ---------------------------------------------------------------------------
// Round trips
// ---------------------------------------------------------------------------

/// The decimal places of a number of milliseconds stand for that number:
/// dropping the zeros at the end loses nothing.
pub proof fn lemma_fraction_short(f: nat)
    requires
        0 < f < 1000,
    ensures
        all_digits(fraction_short(f)),
        fraction_short(f).len() > 0,
        fraction_millis(fraction_short(f)) == f,
        all_digits(fraction_fixed(f)),
        fraction_millis(fraction_fixed(f)) == f,
{
    let a = f / 100 % 10;
    let b = f / 10 % 10;
    let c = f % 10;
    assert(digit_value(digit_char(a)) == a);
    assert(digit_value(digit_char(b)) == b);
    assert(digit_value(digit_char(c)) == c);
    assert(is_digit(digit_char(a)) && is_digit(digit_char(b)) && is_digit(digit_char(c)));
    assert(f == a * 100 + b * 10 + c);
    let long = fraction_fixed(f);
    assert(long[0] == digit_char(a) && long[1] == digit_char(b) && long[2] == digit_char(c));
    assert(place(long, 3) == 0);
    let short = fraction_short(f);
    if f % 100 == 0 {
        assert(short[0] == digit_char(a));
        assert(place(short, 1) == 0 && place(short, 2) == 0 && place(short, 3) == 0);
    } else if f % 10 == 0 {
        assert(short[0] == digit_char(a) && short[1] == digit_char(b));
        assert(place(short, 2) == 0 && place(short, 3) == 0);
    }
}

/// A numeral made of the digits `w`, a point and the digits `f` has `w`
/// before its point and `f` after it.
pub proof fn lemma_parts(w: Seq<char>, f: Seq<char>)
    requires
        all_digits(w),
    ensures
        whole_part(w + seq!['.'] + f) == w,
        fraction_part(w + seq!['.'] + f) == f,
        whole_part(w) == w,
        fraction_part(w) == Seq::<char>::empty(),
{
    let b = w + seq!['.'] + f;
    crate::text::lemma_digits_hold_no(w, '.');
    assert(b =~= w + (seq!['.'] + f));
    crate::text::lemma_until_concat(w, seq!['.'] + f, '.');
    assert((seq!['.'] + f)[0] == '.');
    assert(until(seq!['.'] + f, '.') == 0);
    assert(b.take(w.len() as int) =~= w);
    assert(b.skip(w.len() as int + 1) =~= f);
    assert(w.take(w.len() as int) =~= w);
}

/// Writing a time in seconds and reading it back gives the same time: a
/// time that is already in whole milliseconds is not changed by rounding
/// it to milliseconds.
pub proof fn lemma_seconds_round_trip(ms: i64)
    ensures
        parse_seconds(seconds_short(ms as int)) == Some(ms),
        parse_seconds(seconds_fixed(ms as int)) == Some(ms),
{
    let m = magnitude(ms as int);
    let w = decimal(m / 1000);
    let f = m % 1000;
    crate::text::lemma_decimal_digits(m / 1000);
    assert(is_digit(w[0]));
    assert(all_digits(w));
    assert(m == (m / 1000) * 1000 + f);
    // the short notation
    let short = seconds_short(ms as int);
    let body: Seq<char> = if f == 0 {
        w
    } else {
        w + seq!['.'] + fraction_short(f)
    };
    if f != 0 {
        lemma_fraction_short(f);
        lemma_parts(w, fraction_short(f));
    } else {
        lemma_parts(w, Seq::empty());
        assert(fraction_millis(Seq::<char>::empty()) == 0);
    }
    assert(short =~= sign_text(ms as int) + body);
    assert(body[0] == w[0]);
    if ms < 0 {
        assert(short[0] == '-');
        assert(short.drop_first() =~= body);
    } else {
        assert(short =~= body);
        assert(short[0] == w[0]);
    }
    assert(unsigned_part(short) == body);
    assert(numeral_millis(body) == m);
    // the notation with three places
    let fixed = seconds_fixed(ms as int);
    let long = w + seq!['.'] + fraction_fixed(f);
    lemma_parts(w, fraction_fixed(f));
    if f != 0 {
        lemma_fraction_short(f);
    } else {
        let z = fraction_fixed(0);
        assert(z[0] == '0' && z[1] == '0' && z[2] == '0');
        assert(place(z, 3) == 0);
        assert(fraction_millis(z) == 0);
        assert(all_digits(z));
    }
    assert(fixed =~= sign_text(ms as int) + long);
    assert(long[0] == w[0]);
    if ms < 0 {
        assert(fixed[0] == '-');
        assert(fixed.drop_first() =~= long);
    } else {
        assert(fixed =~= long);
        assert(fixed[0] == w[0]);
    }
    assert(unsigned_part(fixed) == long);
    assert(numeral_millis(long) == m);
}

} // verus!
