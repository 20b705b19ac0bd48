//! Fixed-point decimal text: integers scaled by a power of ten, written out
//! with a fixed number of fractional digits, and rounding division.
use vstd::prelude::*;
use vstd::arithmetic::div_mod::{lemma_fundamental_div_mod, lemma_fundamental_div_mod_converse};
use vstd::string::*;

verus! {

/// The character of a decimal digit `d < 10`.
pub open spec fn digit_char(d: int) -> char {
    if d == 0 {
        '0'
    } else if d == 1 {
        '1'
    } else if d == 2 {
        '2'
    } else if d == 3 {
        '3'
    } else if d == 4 {
        '4'
    } else if d == 5 {
        '5'
    } else if d == 6 {
        '6'
    } else if d == 7 {
        '7'
    } else if d == 8 {
        '8'
    } else {
        '9'
    }
}

/// Decimal digits of `n`, without leading zeros (a single `0` for zero).
pub open spec fn decimal_digits(n: nat) -> Seq<char>
    decreases n,
{
    if n < 10 {
        seq![digit_char(n as int)]
    } else {
        decimal_digits(n / 10).push(digit_char((n % 10) as int))
    }
}

/// The lowest `width` decimal digits of `n`, with leading zeros.
pub open spec fn padded_digits(n: nat, width: nat) -> Seq<char>
    decreases width,
{
    if width == 0 {
        Seq::empty()
    } else {
        padded_digits(n / 10, (width - 1) as nat).push(digit_char((n % 10) as int))
    }
}

pub open spec fn pow10(p: nat) -> nat
    decreases p,
{
    if p == 0 {
        1
    } else {
        10 * pow10((p - 1) as nat)
    }
}

pub open spec fn abs(v: int) -> nat {
    if v < 0 {
        (-v) as nat
    } else {
        v as nat
    }
}

/// `v / 10^places` written with exactly `places` fractional digits:
/// an optional minus sign, the integer part, and for `places > 0` a point
/// followed by the fraction.
pub open spec fn fixed_text(v: int, places: nat) -> Seq<char> {
    let a = abs(v);
    let sign = if v < 0 {
        seq!['-']
    } else {
        Seq::empty()
    };
    let int_part = decimal_digits(a / pow10(places));
    if places == 0 {
        sign + int_part
    } else {
        sign + int_part + seq!['.'] + padded_digits(a % pow10(places), places)
    }
}

/// `n / d` rounded to the nearest integer, halves away from zero.
pub open spec fn rounded_quotient(n: int, d: int) -> int
    recommends
        d > 0,
{
    if n >= 0 {
        (2 * n + d) / (2 * d)
    } else {
        -((-2 * n + d) / (2 * d))
    }
}

fn digit_str(d: u64) -> (r: &'static str)
    requires
        d < 10,
    ensures
        r@ == seq![digit_char(d as int)],
{
    proof {
        reveal_strlit("0");
        reveal_strlit("1");
        reveal_strlit("2");
        reveal_strlit("3");
        reveal_strlit("4");
        reveal_strlit("5");
        reveal_strlit("6");
        reveal_strlit("7");
        reveal_strlit("8");
        reveal_strlit("9");
    }
    let r = if d == 0 {
        "0"
    } else if d == 1 {
        "1"
    } else if d == 2 {
        "2"
    } else if d == 3 {
        "3"
    } else if d == 4 {
        "4"
    } else if d == 5 {
        "5"
    } else if d == 6 {
        "6"
    } else if d == 7 {
        "7"
    } else if d == 8 {
        "8"
    } else {
        "9"
    };
    assert(r@ =~= seq![digit_char(d as int)]);
    r
}

/// Appends the decimal digits of `n` to `out`.
pub fn push_decimal(out: &mut String, n: u64)
    ensures
        final(out)@ == old(out)@ + decimal_digits(n as nat),
    decreases n,
{
    if n >= 10 {
        push_decimal(out, n / 10);
    }
    out.append(digit_str(n % 10));
    proof {
        if n >= 10 {
            assert(decimal_digits(n as nat) == decimal_digits((n / 10) as nat).push(
                digit_char((n % 10) as int),
            ));
        }
    }
    assert(final(out)@ =~= old(out)@ + decimal_digits(n as nat));
}

/// Appends the lowest `width` digits of `n` to `out`, with leading zeros.
pub fn push_padded(out: &mut String, n: u64, width: u32)
    ensures
        final(out)@ == old(out)@ + padded_digits(n as nat, width as nat),
    decreases width,
{
    if width > 0 {
        push_padded(out, n / 10, width - 1);
        out.append(digit_str(n % 10));
    }
    assert(final(out)@ =~= old(out)@ + padded_digits(n as nat, width as nat));
}

proof fn lemma_pow10_bound(p: nat)
    requires
        p <= 18,
    ensures
        1 <= pow10(p) <= pow10(18),
    decreases 18 - p,
{
    lemma_pow10_positive(p);
    if p < 18 {
        lemma_pow10_bound(p + 1);
        assert(pow10(p + 1) == 10 * pow10(p));
    }
}

pub proof fn lemma_pow10_positive(p: nat)
    ensures
        pow10(p) >= 1,
    decreases p,
{
    if p > 0 {
        lemma_pow10_positive((p - 1) as nat);
    }
}

proof fn lemma_pow10_18()
    ensures
        pow10(18) == 1_000_000_000_000_000_000,
{
    reveal_with_fuel(pow10, 19);
}

fn pow10_exec(p: u32) -> (r: u64)
    requires
        p <= 18,
    ensures
        r as nat == pow10(p as nat),
    decreases p,
{
    proof {
        lemma_pow10_bound(p as nat);
        lemma_pow10_18();
    }
    if p == 0 {
        1
    } else {
        let q = pow10_exec(p - 1);
        proof {
            lemma_pow10_bound((p - 1) as nat);
        }
        10 * q
    }
}

/// Writes `v / 10^places` with exactly `places` fractional digits.
pub fn format_fixed(v: i64, places: u32) -> (r: String)
    requires
        places <= 18,
    ensures
        r@ == fixed_text(v as int, places as nat),
{
    let a: u64 = if v < 0 {
        (0i128 - v as i128) as u64
    } else {
        v as u64
    };
    assert(a as nat == abs(v as int));
    let scale = pow10_exec(places);
    proof {
        lemma_pow10_bound(places as nat);
    }
    let mut out = String::new();
    if v < 0 {
        proof {
            reveal_strlit("-");
        }
        out.append("-");
    }
    push_decimal(&mut out, a / scale);
    if places > 0 {
        proof {
            reveal_strlit(".");
        }
        out.append(".");
        push_padded(&mut out, a % scale, places);
    }
    assert(out@ =~= fixed_text(v as int, places as nat));
    out
}

/// `n / d` rounded to the nearest integer, halves away from zero.
pub fn round_div(n: i64, d: i64) -> (r: i64)
    requires
        0 < d <= 1_000_000,
        -1_000_000_000_000 <= n <= 1_000_000_000_000,
    ensures
        r == rounded_quotient(n as int, d as int),
{
    if n >= 0 {
        (2 * n + d) / (2 * d)
    } else {
        let q = (d - 2 * n) / (2 * d);
        0 - q
    }
}

/// A rounded quotient is within half a divisor of the exact one.
pub proof fn lemma_rounded_quotient_near(n: int, d: int)
    requires
        d > 0,
    ensures
        -d <= 2 * (d * rounded_quotient(n, d) - n) <= d,
{
    if n >= 0 {
        let x = 2 * n + d;
        let q = x / (2 * d);
        lemma_fundamental_div_mod(x, 2 * d);
        assert(0 <= x % (2 * d) < 2 * d);
        assert((2 * d) * q == 2 * (d * q)) by (nonlinear_arith);
    } else {
        let x = -2 * n + d;
        let q = x / (2 * d);
        lemma_fundamental_div_mod(x, 2 * d);
        assert(0 <= x % (2 * d) < 2 * d);
        assert((2 * d) * q == 2 * (d * q)) by (nonlinear_arith);
        assert(d * (-q) == -(d * q)) by (nonlinear_arith);
    }
}

/// Where `h` is strictly within half a divisor of `n / d`, `n / d` rounds to `h`.
pub proof fn lemma_rounded_quotient_exact(n: int, d: int, h: int)
    requires
        d > 0,
        -d < 2 * (n - d * h) < d,
    ensures
        rounded_quotient(n, d) == h,
{
    if n >= 0 {
        let x = 2 * n + d;
        let r = 2 * (n - d * h) + d;
        assert(x == h * (2 * d) + r) by (nonlinear_arith)
            requires
                x == 2 * n + d,
                r == 2 * (n - d * h) + d,
        ;
        lemma_fundamental_div_mod_converse(x, 2 * d, h, r);
    } else {
        let x = -2 * n + d;
        let r = 2 * (-n - d * (-h)) + d;
        assert(d * (-h) == -(d * h)) by (nonlinear_arith);
        assert(x == (-h) * (2 * d) + r) by (nonlinear_arith)
            requires
                x == -2 * n + d,
                r == 2 * (-n - d * (-h)) + d,
        ;
        lemma_fundamental_div_mod_converse(x, 2 * d, -h, r);
    }
}

} // verus!
