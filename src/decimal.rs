//! Decimal numbers as a float parser writes them (`12.5`, `-.5`, `1e-1`,
//! `9E+1`), read exactly as `±m · 10^e`.
use vstd::prelude::*;
use crate::text::{pow10, all_digits, digits_from, digits_value, parse_i32, parse_i32_spec, split_by, split_on, views_of};

verus! {

/// The largest mantissa read exactly: 10^18, that is 18 significant digits,
/// twice what a 32-bit float holds. A longer mantissa is refused.
pub const MAX_MANTISSA: u64 = 1_000_000_000_000_000_000;

/// The largest exponent magnitude read; a larger one is refused.
pub const MAX_EXPONENT: i32 = 9999;

/// The most digits read after the point; more are refused.
pub const MAX_FRACTION_DIGITS: usize = 1_000_000;

/// A sign, then the digits of the mantissa, with at most one point and at
/// least one digit, then optionally `e` or `E` and a signed exponent.
/// `Some((negative, m, e))` means `±m · 10^e`; the mantissa digits make at
/// most `MAX_MANTISSA`, the exponent at most `MAX_EXPONENT` in size.
pub open spec fn decimal_of(s: Seq<char>) -> Option<(bool, nat, int)> {
    let neg = s.len() > 0 && s[0] == '-';
    let body = if s.len() > 0 && (s[0] == '-' || s[0] == '+') {
        s.drop_first()
    } else {
        s
    };
    let q = if split_on(body, 'e').len() > 1 {
        split_on(body, 'e')
    } else {
        split_on(body, 'E')
    };
    let exp: Option<int> = if q.len() == 1 {
        Some(0)
    } else if q.len() == 2 {
        match parse_i32_spec(q[1]) {
            Some(x) => if -MAX_EXPONENT <= x <= MAX_EXPONENT {
                Some(x as int)
            } else {
                None
            },
            None => None,
        }
    } else {
        None
    };
    let p = split_on(q[0], '.');
    let a = p[0];
    let b = if p.len() == 2 {
        p[1]
    } else {
        Seq::<char>::empty()
    };
    if exp is Some && (p.len() == 1 || p.len() == 2) && a.len() + b.len() > 0 && all_digits(a + b)
        && digits_value(a + b) <= MAX_MANTISSA && b.len() <= MAX_FRACTION_DIGITS {
        Some((neg, digits_value(a + b), exp->0 - b.len()))
    } else {
        None
    }
}

/// Reads a decimal as `(negative, m, e)`, meaning `±m · 10^e`.
pub fn parse_decimal(s: &str) -> (r: Option<(bool, u64, i64)>)
    ensures
        match (r, decimal_of(s@)) {
            (Some(x), Some(y)) => x.0 == y.0 && x.1 as nat == y.1 && x.2 as int == y.2,
            (None, None) => true,
            _ => false,
        },
{
    let n = s.unicode_len();
    let signed = n > 0 && (s.get_char(0) == '-' || s.get_char(0) == '+');
    let neg = n > 0 && s.get_char(0) == '-';
    let body = if signed { s.substring_char(1, n) } else { s.substring_char(0, n) };
    assert(body@ =~= if signed { s@.drop_first() } else { s@ });
    let lower = split_by(body, 'e');
    let q = if lower.len() > 1 { lower } else { split_by(body, 'E') };
    proof {
        crate::text::lemma_split_on_nonempty(body@, 'e');
        crate::text::lemma_split_on_nonempty(body@, 'E');
        assert(views_of(q@).len() == q@.len());
        assert(views_of(q@)[0] == q@[0]@);
    }
    let exp: i64 = if q.len() == 1 {
        0
    } else if q.len() == 2 {
        assert(views_of(q@)[1] == q@[1]@);
        match parse_i32(q[1]) {
            Some(x) => if -9999 <= x && x <= 9999 {
                x as i64
            } else {
                return None;
            },
            None => return None,
        }
    } else {
        return None;
    };
    let p = split_by(q[0], '.');
    proof {
        crate::text::lemma_split_on_nonempty(q@[0]@, '.');
        assert(views_of(p@).len() == p@.len());
        assert(views_of(p@)[0] == p@[0]@);
    }
    if p.len() != 1 && p.len() != 2 {
        return None;
    }
    let a = p[0];
    let b: &str = if p.len() == 2 {
        assert(views_of(p@)[1] == p@[1]@);
        p[1]
    } else {
        ""
    };
    proof {
        reveal_strlit("");
        if p.len() == 1 {
            assert(b@ =~= Seq::<char>::empty());
        }
    }
    let la = a.unicode_len();
    let lb = b.unicode_len();
    if (la == 0 && lb == 0) || lb > MAX_FRACTION_DIGITS {
        return None;
    }
    let ab = String::from_str(a).concat(b);
    let ab_str = ab.as_str();
    assert(ab_str@ =~= a@ + b@);
    assert(ab_str@.subrange(0, ab_str@.len() as int) =~= ab_str@);
    match digits_from(ab_str, 0, MAX_MANTISSA) {
        Some(m) => Some((neg, m, exp - lb as i64)),
        None => None,
    }
}

pub proof fn lemma_pow10_mono(i: nat, j: nat)
    requires
        i <= j,
    ensures
        1 <= pow10(i) <= pow10(j),
    decreases j,
{
    if j > 0 {
        if i < j {
            lemma_pow10_mono(i, (j - 1) as nat);
        } else {
            lemma_pow10_mono((i - 1) as nat, (j - 1) as nat);
        }
    }
}

proof fn lemma_pow10_values()
    ensures
        pow10(2) == 100,
        pow10(5) == 100_000,
        pow10(18) == 1_000_000_000_000_000_000,
        pow10(30) == 1_000_000_000_000_000_000_000_000_000_000,
{
    reveal_with_fuel(pow10, 31);
}

/// `10^k` for `k` up to 30.
pub fn pow10_u128(k: u64) -> (r: u128)
    requires
        k <= 30,
    ensures
        r == pow10(k as nat),
        r >= 1,
{
    proof {
        lemma_pow10_values();
        lemma_pow10_mono(0, k as nat);
    }
    let mut r: u128 = 1;
    let mut i: u64 = 0;
    while i < k
        invariant
            i <= k <= 30,
            r == pow10(i as nat),
            pow10(30) == 1_000_000_000_000_000_000_000_000_000_000,
        decreases k - i,
    {
        proof {
            lemma_pow10_mono((i + 1) as nat, 30);
            assert(pow10((i + 1) as nat) == 10 * pow10(i as nat));
        }
        r = r * 10;
        i = i + 1;
    }
    r
}

/// `⌊v · x / 100⌋` for `x = ±m · 10^e`; a negative `x` gives 0.
pub open spec fn percent_scaled(v: int, x: (bool, nat, int)) -> int {
    let (neg, m, e) = x;
    if neg {
        0
    } else if e >= 2 {
        v * m * pow10((e - 2) as nat)
    } else {
        (v * m) / (pow10((2 - e) as nat) as int)
    }
}

pub open spec fn sat_u32(n: int) -> int {
    if n > u32::MAX {
        u32::MAX as int
    } else {
        n
    }
}

/// The side `v` scaled by the percentage `±m · 10^e`, at most `u32::MAX`.
pub fn percent_side(v: u32, neg: bool, m: u64, e: i64) -> (r: u32)
    requires
        m <= MAX_MANTISSA,
        -2_000_000 <= e <= 2_000_000,
    ensures
        r == sat_u32(percent_scaled(v as int, (neg, m as nat, e as int))),
{
    if neg {
        return 0;
    }
    assert((v as int) * (m as int) <= 0xFFFF_FFFF * 1_000_000_000_000_000_000) by (nonlinear_arith)
        requires v <= 0xFFFF_FFFF, m <= 1_000_000_000_000_000_000;
    let p: u128 = v as u128 * m as u128;
    if e >= 2 {
        let k: u64 = (e - 2) as u64;
        let mut acc: u128 = p;
        let mut i: u64 = 0;
        assert(pow10(0nat) == 1);
        assert(p * pow10(0nat) == p) by (nonlinear_arith)
            requires pow10(0nat) == 1;
        while i < k && acc <= 0xFFFF_FFFF
            invariant
                i <= k,
                acc == p * pow10(i as nat),
                p <= 0xFFFF_FFFF * 1_000_000_000_000_000_000,
                acc <= 0xFFFF_FFFF * 1_000_000_000_000_000_000,
            decreases k - i,
        {
            proof {
                assert(pow10((i + 1) as nat) == 10 * pow10(i as nat));
                assert(p * pow10((i + 1) as nat) == (p * pow10(i as nat)) * 10) by (nonlinear_arith)
                    requires pow10((i + 1) as nat) == 10 * pow10(i as nat);
            }
            acc = acc * 10;
            i = i + 1;
        }
        if acc > 0xFFFF_FFFF {
            proof {
                lemma_pow10_mono(i as nat, k as nat);
                assert(p * pow10(k as nat) >= p * pow10(i as nat)) by (nonlinear_arith)
                    requires pow10(i as nat) <= pow10(k as nat), p >= 0;
            }
            0xFFFF_FFFF
        } else {
            acc as u32
        }
    } else {
        let k: u64 = (2 - e) as u64;
        if k > 30 {
            proof {
                lemma_pow10_values();
                lemma_pow10_mono(30, k as nat);
                let d = pow10(k as nat) as int;
                assert((p as int) / d == 0) by (nonlinear_arith)
                    requires 0 <= p < d;
            }
            return 0;
        }
        let q = p / pow10_u128(k);
        if q > 0xFFFF_FFFF {
            0xFFFF_FFFF
        } else {
            q as u32
        }
    }
}

/// `round(255 · m · 10^e)`, halves upward.
pub open spec fn brightness_magnitude(m: nat, e: int) -> int {
    if e >= 0 {
        (255 * m * pow10(e as nat)) as int
    } else {
        ((510 * m + pow10((-e) as nat)) / (2 * pow10((-e) as nat))) as int
    }
}

/// `round(255 · m · 10^e)`, at most 65535.
pub fn brightness_steps_of(m: u64, e: i64) -> (r: u32)
    requires
        m <= MAX_MANTISSA,
        -2_000_000 <= e <= 2_000_000,
    ensures
        r as int == if brightness_magnitude(m as nat, e as int) > 65535 {
            65535
        } else {
            brightness_magnitude(m as nat, e as int)
        },
{
    proof {
        lemma_pow10_values();
    }
    if e >= 0 {
        if m == 0 {
            assert(255 * (m as int) * pow10(e as nat) == 0) by (nonlinear_arith)
                requires m == 0;
            return 0;
        }
        if e >= 5 {
            proof {
                lemma_pow10_mono(5, e as nat);
                assert(255 * (m as int) * pow10(e as nat) > 65535) by (nonlinear_arith)
                    requires m >= 1, pow10(e as nat) >= 100_000;
            }
            return 65535;
        }
        let d = pow10_u128(e as u64);
        proof {
            lemma_pow10_mono(e as nat, 5);
            assert(255 * (m as int) * (d as int) <= 255 * 1_000_000_000_000_000_000 * 100_000) by (nonlinear_arith)
                requires m <= 1_000_000_000_000_000_000, d <= 100_000;
        }
        let x: u128 = 255 * (m as u128) * d;
        if x > 65535 { 65535 } else { x as u32 }
    } else {
        let s: u64 = (0 - e) as u64;
        if s > 30 {
            proof {
                lemma_pow10_mono(30, s as nat);
                let d = pow10(s as nat) as int;
                assert((510 * (m as int) + d) / (2 * d) == 0) by (nonlinear_arith)
                    requires 510 * m < d, d > 0;
            }
            return 0;
        }
        let d = pow10_u128(s);
        proof {
            lemma_pow10_mono(s as nat, 30);
            lemma_pow10_mono(0, s as nat);
        }
        let x: u128 = (510 * (m as u128) + d) / (2 * d);
        if x > 65535 { 65535 } else { x as u32 }
    }
}

/// The whole number of degrees that `±m · 10^e` is, if it is whole.
pub open spec fn whole_of(x: (bool, nat, int)) -> Option<int> {
    let (neg, m, e) = x;
    let w: Option<int> = if e >= 0 {
        Some((m * pow10(e as nat)) as int)
    } else if m % pow10((-e) as nat) == 0 {
        Some((m / pow10((-e) as nat)) as int)
    } else {
        None
    };
    match w {
        Some(d) => Some(if neg { -d } else { d }),
        None => None,
    }
}

/// The whole number of degrees, where it is whole and at most 1000 in size;
/// `None` otherwise (no such angle is a quarter turn).
pub fn small_whole(neg: bool, m: u64, e: i64) -> (r: Option<i64>)
    requires
        m <= MAX_MANTISSA,
        -2_000_000 <= e <= 2_000_000,
    ensures
        match r {
            Some(d) => whole_of((neg, m as nat, e as int)) == Some(d as int),
            None => whole_of((neg, m as nat, e as int)) is None || (whole_of(
                (neg, m as nat, e as int),
            )->0 >= 1000 || whole_of((neg, m as nat, e as int))->0 <= -1000),
        },
{
    proof {
        lemma_pow10_values();
    }
    if m == 0 {
        proof {
            if e >= 0 {
                assert((m as nat) * pow10(e as nat) == 0) by (nonlinear_arith)
                    requires m == 0;
            }
            if e < 0 {
                lemma_pow10_mono(0, (-e) as nat);
                assert((0nat) % pow10((-e) as nat) == 0);
                assert((0nat) / pow10((-e) as nat) == 0);
            }
        }
        return Some(0);
    }
    let mag: u64 = if e >= 0 {
        if e >= 3 || m > 1000 {
            proof {
                lemma_pow10_mono(0, e as nat);
                if e >= 3 {
                    lemma_pow10_mono(3, e as nat);
                    reveal_with_fuel(pow10, 4);
                    assert((m as int) * pow10(e as nat) >= 1000) by (nonlinear_arith)
                        requires m >= 1, pow10(e as nat) >= 1000;
                } else {
                    assert((m as int) * pow10(e as nat) >= 1000) by (nonlinear_arith)
                        requires m > 1000, pow10(e as nat) >= 1;
                }
            }
            return None;
        }
        proof {
            reveal_with_fuel(pow10, 4);
            lemma_pow10_mono(e as nat, 3);
        }
        let d = pow10_u128(e as u64) as u64;
        assert((m as int) * (d as int) <= 1000 * 1000) by (nonlinear_arith)
            requires m <= 1000, d <= 1000;
        m * d
    } else {
        let s: u64 = (0 - e) as u64;
        if s > 18 {
            proof {
                lemma_pow10_mono(19, s as nat);
                assert(pow10(19) == 10 * pow10(18));
                assert((m as nat) % pow10(s as nat) == m as nat) by (nonlinear_arith)
                    requires m < pow10(s as nat), m >= 0;
            }
            return None;
        }
        let d = pow10_u128(s);
        proof {
            lemma_pow10_mono(s as nat, 18);
            lemma_pow10_mono(0, s as nat);
        }
        let d64 = d as u64;
        if m % d64 != 0 {
            return None;
        }
        let q = m / d64;
        if q > 1000 {
            return None;
        }
        q
    };
    if neg { Some(0 - mag as i64) } else { Some(mag as i64) }
}

} // verus!
