//! Fixed-point arithmetic on values counted in hundredths.

use vstd::prelude::*;
use vstd::arithmetic::div_mod::lemma_fundamental_div_mod_converse;

verus! {

/// `n / d` rounded to the nearest integer, halves rounded up.
/// (`/` on `int` is Euclidean, so for `d > 0` this is `floor(n / d + 1/2)`.)
pub open spec fn round_div(n: int, d: int) -> int {
    (2 * n + d) / (2 * d)
}

/// The defining property of `round_div`: the result is within half of `n / d`.
pub proof fn lemma_round_div_nearest(n: int, d: int)
    requires
        d > 0,
    ensures
        2 * d * round_div(n, d) - d <= 2 * n,
        2 * n < 2 * d * round_div(n, d) + d,
{
    let m = 2 * n + d;
    let dd = 2 * d;
    let q = m / dd;
    assert(m == dd * q + m % dd && 0 <= m % dd < dd) by (nonlinear_arith)
        requires dd > 0, q == m / dd;
}

/// Rounding a quotient by a positive whole divisor never grows its magnitude
/// by more than one.
pub proof fn lemma_round_div_bounds(n: int, d: int)
    requires
        d >= 1,
    ensures
        n >= 0 ==> 0 <= round_div(n, d) <= n + 1,
        n < 0 ==> n - 1 <= round_div(n, d) <= 0,
{
    lemma_round_div_nearest(n, d);
    let r = round_div(n, d);
    assert(n >= 0 ==> 0 <= r <= n + 1) by (nonlinear_arith)
        requires
            d >= 1,
            2 * d * r - d <= 2 * n,
            2 * n < 2 * d * r + d,
    ;
    assert(n < 0 ==> n - 1 <= r <= 0) by (nonlinear_arith)
        requires
            d >= 1,
            2 * d * r - d <= 2 * n,
            2 * n < 2 * d * r + d,
    ;
}

/// Computes `round_div(n, d)` on machine integers.
pub fn round_div_i128(n: i128, d: i128) -> (r: i128)
    requires
        0 < d <= u64::MAX,
        -0x1_0000_0000_0000_0000_0000_0000_0000 <= n <= 0x1_0000_0000_0000_0000_0000_0000_0000,
    ensures
        r == round_div(n as int, d as int),
{
    let m: i128 = 2 * n + d;
    let dd: i128 = 2 * d;
    if m >= 0 {
        m / dd
    } else {
        let k: i128 = (-m + dd - 1) / dd;
        let q: i128 = -k;
        proof {
            let (mi, di) = (m as int, dd as int);
            let p = -mi + di - 1;
            let rem = mi - q * di;
            assert(0 <= rem < di) by (nonlinear_arith)
                requires
                    di > 0,
                    p >= 0,
                    p == -mi + di - 1,
                    k == p / di,
                    q == -k,
                    rem == mi - q * di,
            ;
            lemma_fundamental_div_mod_converse(mi, di, q as int, rem);
        }
        q
    }
}

/// The decimal digit character for `d`, where `0 <= d < 10`.
pub open spec fn digit_char(d: int) -> char {
    if d == 0 {
        '0'
    } else if d == 1 {
        '1'
    } else if d == 2 {
        '2'
    } else if d == 3 {
        '3'
    } else if d == 4 {
        '4'
    } else if d == 5 {
        '5'
    } else if d == 6 {
        '6'
    } else if d == 7 {
        '7'
    } else if d == 8 {
        '8'
    } else {
        '9'
    }
}

/// The decimal numeral of `n`, without leading zeros.
pub open spec fn nat_text(n: nat) -> Seq<char>
    decreases n,
{
    if n < 10 {
        seq![digit_char(n as int)]
    } else {
        nat_text(n / 10).push(digit_char((n % 10) as int))
    }
}

/// A value counted in hundredths, written with exactly two decimals:
/// `-1505` is written `-15.05`, `90` is written `0.90`.
pub open spec fn hundredths_text(v: int) -> Seq<char> {
    let a: nat = if v < 0 { (-v) as nat } else { v as nat };
    let sign: Seq<char> = if v < 0 { seq!['-'] } else { Seq::empty() };
    sign + nat_text(a / 100) + seq!['.', digit_char(((a % 100) / 10) as int), digit_char((a % 10) as int)]
}

fn digit_text(d: u128) -> (r: &'static str)
    requires
        d < 10,
    ensures
        r@ == seq![digit_char(d as int)],
{
    proof {
        reveal_strlit("0");
        reveal_strlit("1");
        reveal_strlit("2");
        reveal_strlit("3");
        reveal_strlit("4");
        reveal_strlit("5");
        reveal_strlit("6");
        reveal_strlit("7");
        reveal_strlit("8");
        reveal_strlit("9");
    }
    match d {
        0 => "0",
        1 => "1",
        2 => "2",
        3 => "3",
        4 => "4",
        5 => "5",
        6 => "6",
        7 => "7",
        8 => "8",
        _ => "9",
    }
}

/// Appends the decimal numeral of `n` to `s`.
pub fn push_nat(s: &mut String, n: u128)
    ensures
        final(s)@ == old(s)@ + nat_text(n as nat),
    decreases n,
{
    if n >= 10 {
        push_nat(s, n / 10);
    }
    s.append(digit_text(n % 10));
    assert(final(s)@ =~= old(s)@ + nat_text(n as nat));
}

/// Appends `v`, a value in hundredths, written with two decimals.
pub fn push_hundredths(s: &mut String, v: i128)
    requires
        v > i128::MIN,
    ensures
        final(s)@ == old(s)@ + hundredths_text(v as int),
{
    let a: u128 = if v < 0 { (-v) as u128 } else { v as u128 };
    if v < 0 {
        proof {
            reveal_strlit("-");
        }
        s.append("-");
    }
    push_nat(s, a / 100);
    proof {
        reveal_strlit(".");
    }
    s.append(".");
    s.append(digit_text((a % 100) / 10));
    s.append(digit_text(a % 10));
    assert(final(s)@ =~= old(s)@ + hundredths_text(v as int));
}

} // verus!
