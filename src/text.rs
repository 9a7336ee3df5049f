use vstd::prelude::*;

verus! {

/// `10^k`.
pub open spec fn pow10(k: nat) -> nat
    decreases k,
{
    if k == 0 {
        1
    } else {
        10 * pow10((k - 1) as nat)
    }
}

/// The character of a decimal digit `d < 10`.
pub open spec fn digit_char(d: nat) -> char {
    if d == 0 {
        '0'
    } else if d == 1 {
        '1'
    } else if d == 2 {
        '2'
    } else if d == 3 {
        '3'
    } else if d == 4 {
        '4'
    } else if d == 5 {
        '5'
    } else if d == 6 {
        '6'
    } else if d == 7 {
        '7'
    } else if d == 8 {
        '8'
    } else {
        '9'
    }
}

pub open spec fn is_digit(c: char) -> bool {
    '0' <= c && c <= '9'
}

pub open spec fn all_digits(s: Seq<char>) -> bool {
    forall|i: int| 0 <= i < s.len() ==> is_digit(#[trigger] s[i])
}

/// `n` in decimal, without leading zeros ("0" for zero).
pub open spec fn decimal_text(n: nat) -> Seq<char>
    decreases n,
{
    if n < 10 {
        seq![digit_char(n)]
    } else {
        decimal_text(n / 10).push(digit_char(n % 10))
    }
}

/// The last `width` decimal digits of `n`, zero-padded on the left.
pub open spec fn padded_text(n: nat, width: nat) -> Seq<char>
    decreases width,
{
    if width == 0 {
        seq![]
    } else {
        padded_text(n / 10, (width - 1) as nat).push(digit_char(n % 10))
    }
}

/// `q / 10^decimals` written with exactly `decimals` digits after the point
/// (and no point when `decimals` is zero).
pub open spec fn fixed_text(q: nat, decimals: nat) -> Seq<char> {
    if decimals == 0 {
        decimal_text(q)
    } else {
        decimal_text(q / pow10(decimals)) + seq!['.'] + padded_text(q % pow10(decimals), decimals)
    }
}

/// `num / den` rounded to the nearest integer, halves away from zero.
pub open spec fn round_half_up(num: nat, den: nat) -> nat
    recommends
        den > 0,
{
    (2 * num + den) / (2 * den)
}

pub proof fn lemma_pow10_positive(k: nat)
    ensures
        pow10(k) >= 1,
    decreases k,
{
    if k > 0 {
        lemma_pow10_positive((k - 1) as nat);
    }
}

pub proof fn lemma_pow10_monotone(a: nat, b: nat)
    requires
        a <= b,
    ensures
        pow10(a) <= pow10(b),
    decreases b,
{
    if a < b {
        lemma_pow10_monotone(a, (b - 1) as nat);
        lemma_pow10_positive((b - 1) as nat);
    }
}

pub proof fn lemma_pow10_18()
    ensures
        pow10(18) == 1_000_000_000_000_000_000,
{
    reveal_with_fuel(pow10, 19);
}

pub proof fn lemma_digit_char_is_digit(d: nat)
    requires
        d < 10,
    ensures
        is_digit(digit_char(d)),
{
}

pub proof fn lemma_padded_text_digits(n: nat, width: nat)
    ensures
        padded_text(n, width).len() == width,
        all_digits(padded_text(n, width)),
    decreases width,
{
    if width > 0 {
        lemma_padded_text_digits(n / 10, (width - 1) as nat);
        lemma_digit_char_is_digit(n % 10);
        let p = padded_text(n / 10, (width - 1) as nat);
        assert(padded_text(n, width) == p.push(digit_char(n % 10)));
    }
}

pub proof fn lemma_decimal_text_digits(n: nat)
    ensures
        decimal_text(n).len() >= 1,
        all_digits(decimal_text(n)),
    decreases n,
{
    lemma_digit_char_is_digit(n % 10);
    if n >= 10 {
        lemma_decimal_text_digits(n / 10);
    } else {
        lemma_digit_char_is_digit(n);
    }
}

/// `10^k` for `k <= 18`.
pub fn pow10_u128(k: u32) -> (r: u128)
    requires
        k <= 18,
    ensures
        r == pow10(k as nat),
        r <= 1_000_000_000_000_000_000,
    decreases k,
{
    proof {
        lemma_pow10_monotone(k as nat, 18);
        lemma_pow10_18();
    }
    if k == 0 {
        1
    } else {
        let r = pow10_u128(k - 1);
        10 * r
    }
}

fn digit_str(d: u128) -> (r: &'static str)
    requires
        d < 10,
    ensures
        r@ == seq![digit_char(d as nat)],
{
    if d == 0 {
        proof { reveal_strlit("0"); }
        "0"
    } else if d == 1 {
        proof { reveal_strlit("1"); }
        "1"
    } else if d == 2 {
        proof { reveal_strlit("2"); }
        "2"
    } else if d == 3 {
        proof { reveal_strlit("3"); }
        "3"
    } else if d == 4 {
        proof { reveal_strlit("4"); }
        "4"
    } else if d == 5 {
        proof { reveal_strlit("5"); }
        "5"
    } else if d == 6 {
        proof { reveal_strlit("6"); }
        "6"
    } else if d == 7 {
        proof { reveal_strlit("7"); }
        "7"
    } else if d == 8 {
        proof { reveal_strlit("8"); }
        "8"
    } else {
        proof { reveal_strlit("9"); }
        "9"
    }
}

/// Writes `n` in decimal.
pub fn decimal_string(n: u128) -> (r: String)
    ensures
        r@ == decimal_text(n as nat),
    decreases n,
{
    if n < 10 {
        String::from_str(digit_str(n))
    } else {
        let mut s = decimal_string(n / 10);
        s.append(digit_str(n % 10));
        s
    }
}

/// Writes the last `width` digits of `n`, zero-padded.
pub fn padded_string(n: u128, width: u32) -> (r: String)
    ensures
        r@ == padded_text(n as nat, width as nat),
    decreases width,
{
    if width == 0 {
        String::new()
    } else {
        let mut s = padded_string(n / 10, width - 1);
        s.append(digit_str(n % 10));
        s
    }
}

/// Writes `q / 10^decimals` with exactly `decimals` digits after the point.
pub fn fixed_string(q: u128, decimals: u32) -> (r: String)
    requires
        decimals <= 18,
    ensures
        r@ == fixed_text(q as nat, decimals as nat),
{
    if decimals == 0 {
        decimal_string(q)
    } else {
        let unit = pow10_u128(decimals);
        proof {
            lemma_pow10_positive(decimals as nat);
        }
        let mut s = decimal_string(q / unit);
        proof { reveal_strlit("."); }
        s.append(".");
        let frac = padded_string(q % unit, decimals);
        s.append(frac.as_str());
        s
    }
}

/// A signed integer in decimal, with a leading '-' when negative.
pub open spec fn integer_text(t: int) -> Seq<char> {
    if t < 0 {
        seq!['-'] + decimal_text((-t) as nat)
    } else {
        decimal_text(t as nat)
    }
}

/// Writes `t` in decimal.
pub fn integer_string(t: i64) -> (r: String)
    ensures
        r@ == integer_text(t as int),
{
    if t < 0 {
        let magnitude = (-(t as i128)) as u128;
        let mut s = String::from_str("-");
        proof { reveal_strlit("-"); }
        let digits = decimal_string(magnitude);
        s.append(digits.as_str());
        s
    } else {
        decimal_string(t as u128)
    }
}

} // verus!
