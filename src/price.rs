use vstd::prelude::*;
use crate::text::{is_digit, pow10, lemma_pow10_18, lemma_pow10_monotone};

verus! {

/// Most digits a price may carry, integer and fractional together.
pub const MAX_PRICE_DIGITS: u32 = 18;

/// An exact decimal price: `digits / 10^scale`.
#[derive(Clone, Copy, Debug, PartialEq, Eq, Structural)]
pub struct DecimalPrice {
    pub digits: u64,
    pub scale: u32,
}

impl DecimalPrice {
    pub open spec fn wf(self) -> bool {
        &&& self.scale <= MAX_PRICE_DIGITS
        &&& (self.digits as nat) < pow10(MAX_PRICE_DIGITS as nat)
    }
}

/// What has been read of a price text so far.
pub struct PriceScan {
    pub value: nat,
    pub int_digits: nat,
    pub frac_digits: nat,
    pub dot: bool,
}

pub open spec fn digit_value(c: char) -> nat {
    ((c as u32) - ('0' as u32)) as nat
}

/// Reads a price text left to right: digits, then optionally one '.' and more digits.
pub open spec fn scan_price(s: Seq<char>) -> Option<PriceScan>
    decreases s.len(),
{
    if s.len() == 0 {
        Some(PriceScan { value: 0, int_digits: 0, frac_digits: 0, dot: false })
    } else {
        let c = s.last();
        match scan_price(s.drop_last()) {
            None => None,
            Some(st) => if is_digit(c) {
                Some(
                    PriceScan {
                        value: st.value * 10 + digit_value(c),
                        int_digits: if st.dot { st.int_digits } else { st.int_digits + 1 },
                        frac_digits: if st.dot { st.frac_digits + 1 } else { st.frac_digits },
                        dot: st.dot,
                    },
                )
            } else if c == '.' && !st.dot && st.int_digits > 0 {
                Some(PriceScan { dot: true, ..st })
            } else {
                None
            },
        }
    }
}

/// The price a text denotes: at least one integer digit, a '.' only when
/// fractional digits follow, and at most `MAX_PRICE_DIGITS` digits in all.
pub open spec fn price_of_text(s: Seq<char>) -> Option<DecimalPrice> {
    match scan_price(s) {
        Some(st) => if st.int_digits > 0 && (st.dot ==> st.frac_digits > 0) && st.int_digits
            + st.frac_digits <= MAX_PRICE_DIGITS {
            Some(DecimalPrice { digits: st.value as u64, scale: st.frac_digits as u32 })
        } else {
            None
        },
        None => None,
    }
}

proof fn lemma_scan_bounds(s: Seq<char>)
    requires
        scan_price(s) is Some,
    ensures
        scan_price(s)->0.value < pow10(scan_price(s)->0.int_digits + scan_price(s)->0.frac_digits),
    decreases s.len(),
{
    if s.len() > 0 {
        lemma_scan_bounds(s.drop_last());
        let st = scan_price(s.drop_last())->0;
        let n = st.int_digits + st.frac_digits;
        if is_digit(s.last()) {
            assert(pow10(n + 1) == 10 * pow10(n));
            assert(st.value * 10 + digit_value(s.last()) < 10 * pow10(n)) by (nonlinear_arith)
                requires
                    st.value < pow10(n),
                    digit_value(s.last()) < 10,
            ;
        }
    }
}

/// Reads a price such as "2.00"; `None` where the text is no such price.
pub fn parse_price(s: &str) -> (r: Option<DecimalPrice>)
    ensures
        r == price_of_text(s@),
        r matches Some(p) ==> p.wf(),
{
    let len = s.unicode_len();
    let mut i: usize = 0;
    let mut value: u64 = 0;
    let mut int_digits: u32 = 0;
    let mut frac_digits: u32 = 0;
    let mut dot = false;
    proof {
        lemma_pow10_18();
    }
    while i < len
        invariant
            len == s@.len(),
            i <= len,
            int_digits + frac_digits <= MAX_PRICE_DIGITS,
            pow10(18) == 1_000_000_000_000_000_000,
            scan_price(s@.take(i as int)) == Some(
                PriceScan {
                    value: value as nat,
                    int_digits: int_digits as nat,
                    frac_digits: frac_digits as nat,
                    dot,
                },
            ),
        decreases len - i,
    {
        let c = s.get_char(i);
        proof {
            assert(s@.take(i + 1).drop_last() == s@.take(i as int));
            assert(s@.take(i + 1).last() == c);
            lemma_scan_bounds(s@.take(i as int));
        }
        if '0' <= c && c <= '9' {
            if int_digits + frac_digits >= MAX_PRICE_DIGITS {
                proof {
                    lemma_scan_prefix_rejects(s@, i as int + 1);
                }
                return None;
            }
            proof {
                lemma_pow10_monotone((int_digits + frac_digits) as nat, 17);
                assert(pow10(18) == 10 * pow10(17));
            }
            value = value * 10 + ((c as u32) - ('0' as u32)) as u64;
            if dot {
                frac_digits = frac_digits + 1;
            } else {
                int_digits = int_digits + 1;
            }
        } else if c == '.' && !dot && int_digits > 0 {
            dot = true;
        } else {
            proof {
                lemma_scan_prefix_none(s@, i as int + 1);
            }
            return None;
        }
        i = i + 1;
    }
    proof {
        assert(s@.take(len as int) == s@);
        lemma_scan_bounds(s@);
        lemma_pow10_monotone((int_digits + frac_digits) as nat, 18);
    }
    if int_digits > 0 && (!dot || frac_digits > 0) {
        Some(DecimalPrice { digits: value, scale: frac_digits })
    } else {
        None
    }
}

/// Once a prefix is refused, so is every longer text.
proof fn lemma_scan_prefix_none(s: Seq<char>, k: int)
    requires
        0 <= k <= s.len(),
        scan_price(s.take(k)) is None,
    ensures
        scan_price(s) is None,
        price_of_text(s) is None,
    decreases s.len() - k,
{
    if k < s.len() {
        assert(s.take(k + 1).drop_last() == s.take(k));
        lemma_scan_prefix_none(s, k + 1);
    } else {
        assert(s.take(k) == s);
    }
}

/// Digit counts never go down as the text goes on.
proof fn lemma_scan_digits_grow(s: Seq<char>, k: int)
    requires
        0 <= k <= s.len(),
        scan_price(s) is Some,
    ensures
        scan_price(s.take(k)) is Some,
        scan_price(s.take(k))->0.int_digits + scan_price(s.take(k))->0.frac_digits
            <= scan_price(s)->0.int_digits + scan_price(s)->0.frac_digits,
    decreases s.len() - k,
{
    if k < s.len() {
        assert(s.take(k + 1).drop_last() == s.take(k));
        lemma_scan_digits_grow(s, k + 1);
    } else {
        assert(s.take(k) == s);
    }
}

/// A prefix with more digits than allowed leaves the whole text without a price.
proof fn lemma_scan_prefix_rejects(s: Seq<char>, k: int)
    requires
        0 <= k <= s.len(),
        scan_price(s.take(k)) matches Some(st) && st.int_digits + st.frac_digits
            > MAX_PRICE_DIGITS || scan_price(s.take(k)) is None,
    ensures
        price_of_text(s) is None,
{
    if scan_price(s) is Some {
        lemma_scan_digits_grow(s, k);
    }
}

} // verus!
