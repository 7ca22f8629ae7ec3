//! Checked decimal arithmetic on unsigned coefficients with base-10 exponents.

use crate::error::PerpetualsError;
use vstd::prelude::*;

verus! {

/// `10^n`.
pub open spec fn pow10(n: nat) -> nat
    decreases n,
{
    if n == 0 {
        1
    } else {
        10 * pow10((n - 1) as nat)
    }
}

pub proof fn lemma_pow10_positive(n: nat)
    ensures
        pow10(n) >= 1,
    decreases n,
{
    if n > 0 {
        lemma_pow10_positive((n - 1) as nat);
    }
}

pub proof fn lemma_pow10_adds(a: nat, b: nat)
    ensures
        pow10(a + b) == pow10(a) * pow10(b),
    decreases a,
{
    if a == 0 {
        assert(pow10(0) == 1);
        assert(1 * pow10(b) == pow10(b));
    } else {
        lemma_pow10_adds((a - 1) as nat, b);
        assert(pow10(a + b) == 10 * pow10((a - 1 + b) as nat));
        assert(10 * (pow10((a - 1) as nat) * pow10(b)) == (10 * pow10((a - 1) as nat)) * pow10(b))
            by (nonlinear_arith);
    }
}

pub proof fn lemma_pow10_monotonic(a: nat, b: nat)
    requires
        a <= b,
    ensures
        pow10(a) <= pow10(b),
    decreases b,
{
    if a < b {
        lemma_pow10_monotonic(a, (b - 1) as nat);
        lemma_pow10_positive((b - 1) as nat);
    }
}

/// The powers of ten at the edges of the machine integer ranges.
pub proof fn lemma_pow10_bounds()
    ensures
        pow10(9) == 1_000_000_000,
        pow10(19) == 10_000_000_000_000_000_000,
        pow10(19) <= u64::MAX < pow10(20),
        pow10(38) == 100_000_000_000_000_000_000_000_000_000_000_000_000,
        pow10(38) <= u128::MAX < pow10(39),
{
    reveal_with_fuel(pow10, 40);
}

/// `10^n` as a 128-bit integer, for the exponents that fit.
pub fn pow10_u128(n: u32) -> (r: u128)
    requires
        n <= 38,
    ensures
        r == pow10(n as nat),
{
    let mut r: u128 = 1;
    let mut i: u32 = 0;
    while i < n
        invariant
            i <= n <= 38,
            r == pow10(i as nat),
        decreases n - i,
    {
        proof {
            lemma_pow10_monotonic((i + 1) as nat, 38);
            lemma_pow10_bounds();
        }
        r = r * 10;
        i = i + 1;
    }
    r
}

/// `10^exp`, or `MathOverflow` when it does not fit in 64 bits.
pub fn checked_pow10(exp: u32) -> (r: Result<u64, PerpetualsError>)
    ensures
        exp <= 19 ==> r == Ok::<u64, PerpetualsError>(pow10(exp as nat) as u64),
        exp <= 19 ==> pow10(exp as nat) <= u64::MAX,
        exp > 19 ==> r == Err::<u64, PerpetualsError>(PerpetualsError::MathOverflow),
{
    if exp > 19 {
        return Err(PerpetualsError::MathOverflow);
    }
    proof {
        lemma_pow10_monotonic(exp as nat, 19);
        lemma_pow10_bounds();
    }
    let wide: u128 = pow10_u128(exp);
    Ok(wide as u64)
}

/// Narrows a 128-bit value, failing when it does not fit in 64 bits.
pub fn checked_as_u64(x: u128) -> (r: Result<u64, PerpetualsError>)
    ensures
        x <= u64::MAX ==> r == Ok::<u64, PerpetualsError>(x as u64),
        x > u64::MAX ==> r == Err::<u64, PerpetualsError>(PerpetualsError::MathOverflow),
{
    if x > u64::MAX as u128 {
        Err(PerpetualsError::MathOverflow)
    } else {
        Ok(x as u64)
    }
}

/// The product `c1·10^e1 × c2·10^e2`, expressed at exponent `target` and
/// truncated to an integer coefficient.
pub open spec fn decimal_mul(c1: nat, e1: int, c2: nat, e2: int, target: int) -> nat {
    let p = e1 + e2 - target;
    if p >= 0 {
        c1 * c2 * pow10(p as nat)
    } else {
        (c1 * c2) / pow10((-p) as nat)
    }
}

/// The quotient `c1·10^e1 / c2·10^e2`, expressed at exponent `target` and
/// truncated to an integer coefficient. Meaningful for `c2 > 0`.
pub open spec fn decimal_div(c1: nat, e1: int, c2: nat, e2: int, target: int) -> nat {
    let p = e1 - e2 - target;
    if p >= 0 {
        (c1 * pow10(p as nat)) / c2
    } else {
        c1 / (c2 * pow10((-p) as nat))
    }
}

proof fn lemma_product_fits(a: u64, b: u64)
    ensures
        a * b <= u128::MAX,
        (a >= 1 && b >= 1) ==> a * b >= 1,
{
    assert(a * b <= 0xFFFF_FFFF_FFFF_FFFF * 0xFFFF_FFFF_FFFF_FFFF) by (nonlinear_arith)
        requires
            a <= 0xFFFF_FFFF_FFFF_FFFF,
            b <= 0xFFFF_FFFF_FFFF_FFFF,
    ;
    assert((a >= 1 && b >= 1) ==> a * b >= 1) by (nonlinear_arith);
}

/// Multiplies two decimal numbers and re-expresses the product at `target`.
///
/// Succeeds exactly when the truncated product fits in 64 bits.
pub fn checked_decimal_mul(c1: u64, e1: i32, c2: u64, e2: i32, target: i32) -> (r: Result<
    u64,
    PerpetualsError,
>)
    ensures
        decimal_mul(c1 as nat, e1 as int, c2 as nat, e2 as int, target as int) <= u64::MAX ==> r
            == Ok::<u64, PerpetualsError>(
            decimal_mul(c1 as nat, e1 as int, c2 as nat, e2 as int, target as int) as u64,
        ),
        decimal_mul(c1 as nat, e1 as int, c2 as nat, e2 as int, target as int) > u64::MAX ==> r
            == Err::<u64, PerpetualsError>(PerpetualsError::MathOverflow),
{
    let p: i64 = e1 as i64 + e2 as i64 - target as i64;
    if c1 == 0 || c2 == 0 {
        proof {
            assert(c1 * c2 == 0) by (nonlinear_arith)
                requires
                    c1 == 0 || c2 == 0,
            ;
            if p >= 0 {
                assert(0 * pow10(p as nat) == 0);
            } else {
                lemma_pow10_positive((-p) as nat);
                assert(0int / (pow10((-p) as nat) as int) == 0) by (nonlinear_arith)
                    requires
                        pow10((-p) as nat) >= 1,
                ;
            }
        }
        return Ok(0);
    }
    proof {
        lemma_product_fits(c1, c2);
        lemma_pow10_bounds();
    }
    let product: u128 = (c1 as u128) * (c2 as u128);
    if p >= 0 {
        if p > 19 {
            proof {
                lemma_pow10_monotonic(20, p as nat);
                assert(product * pow10(p as nat) >= pow10(p as nat)) by (nonlinear_arith)
                    requires
                        product >= 1,
                ;
            }
            return Err(PerpetualsError::MathOverflow);
        }
        let scale: u128 = pow10_u128(p as u32);
        match product.checked_mul(scale) {
            None => Err(PerpetualsError::MathOverflow),
            Some(v) => checked_as_u64(v),
        }
    } else {
        let m: i64 = -p;
        if m > 38 {
            proof {
                lemma_pow10_monotonic(39, m as nat);
                assert((product as int) / (pow10(m as nat) as int) == 0) by (nonlinear_arith)
                    requires
                        0 <= product < pow10(m as nat),
                ;
            }
            return Ok(0);
        }
        let scale: u128 = pow10_u128(m as u32);
        proof {
            lemma_pow10_positive(m as nat);
            assert((product as int) / (scale as int) <= product) by (nonlinear_arith)
                requires
                    product >= 0,
                    scale >= 1,
            ;
        }
        checked_as_u64(product / scale)
    }
}

/// Divides two decimal numbers and re-expresses the quotient at `target`.
///
/// Fails on a zero divisor; otherwise succeeds exactly when the truncated
/// quotient fits in 64 bits.
pub fn checked_decimal_div(c1: u64, e1: i32, c2: u64, e2: i32, target: i32) -> (r: Result<
    u64,
    PerpetualsError,
>)
    ensures
        c2 == 0 ==> r == Err::<u64, PerpetualsError>(PerpetualsError::MathOverflow),
        c2 > 0 && decimal_div(c1 as nat, e1 as int, c2 as nat, e2 as int, target as int)
            <= u64::MAX ==> r == Ok::<u64, PerpetualsError>(
            decimal_div(c1 as nat, e1 as int, c2 as nat, e2 as int, target as int) as u64,
        ),
        c2 > 0 && decimal_div(c1 as nat, e1 as int, c2 as nat, e2 as int, target as int)
            > u64::MAX ==> r == Err::<u64, PerpetualsError>(PerpetualsError::MathOverflow),
{
    if c2 == 0 {
        return Err(PerpetualsError::MathOverflow);
    }
    let p: i64 = e1 as i64 - e2 as i64 - target as i64;
    proof {
        lemma_pow10_bounds();
    }
    if p >= 0 {
        if c1 == 0 {
            proof {
                assert(0 * pow10(p as nat) == 0);
                assert(0int / (c2 as int) == 0) by (nonlinear_arith)
                    requires
                        c2 >= 1,
                ;
            }
            return Ok(0);
        }
        if p > 38 {
            proof {
                lemma_pow10_monotonic(39, p as nat);
                assert(c1 * pow10(p as nat) >= pow10(p as nat)) by (nonlinear_arith)
                    requires
                        c1 >= 1,
                ;
                lemma_quotient_overflows(c1 as int * pow10(p as nat), c2 as int);
            }
            return Err(PerpetualsError::MathOverflow);
        }
        let scale: u128 = pow10_u128(p as u32);
        match (c1 as u128).checked_mul(scale) {
            None => {
                proof {
                    lemma_quotient_overflows(c1 as int * pow10(p as nat), c2 as int);
                }
                Err(PerpetualsError::MathOverflow)
            },
            Some(scaled) => checked_as_u64(scaled / (c2 as u128)),
        }
    } else {
        let m: i64 = -p;
        if m > 38 {
            proof {
                lemma_pow10_monotonic(39, m as nat);
                lemma_quotient_vanishes(c1 as int, c2 as int, pow10(m as nat) as int);
            }
            return Ok(0);
        }
        let scale: u128 = pow10_u128(m as u32);
        proof {
            lemma_pow10_positive(m as nat);
        }
        match (c2 as u128).checked_mul(scale) {
            None => {
                proof {
                    assert((c1 as int) / (c2 as int * scale as int) == 0) by (nonlinear_arith)
                        requires
                            0 <= c1 < c2 * scale,
                    ;
                }
                Ok(0)
            },
            Some(divisor) => {
                proof {
                    assert(divisor >= 1) by (nonlinear_arith)
                        requires
                            divisor == c2 * scale,
                            c2 >= 1,
                            scale >= 1,
                    ;
                    assert((c1 as int) / (divisor as int) <= c1) by (nonlinear_arith)
                        requires
                            c1 >= 0,
                            divisor >= 1,
                    ;
                }
                Ok(((c1 as u128) / divisor) as u64)
            },
        }
    }
}

/// A dividend of at least `2^128` divided by a 64-bit divisor exceeds 64 bits.
proof fn lemma_quotient_overflows(n: int, d: int)
    requires
        n > u128::MAX,
        0 < d <= u64::MAX,
    ensures
        n / d > u64::MAX,
{
    assert(n / d > 0xFFFF_FFFF_FFFF_FFFF) by (nonlinear_arith)
        requires
            n >= 0x1_0000_0000_0000_0000_0000_0000_0000_0000,
            0 < d <= 0xFFFF_FFFF_FFFF_FFFF,
    ;
}

/// A 64-bit dividend divided by more than `10^39` is zero.
proof fn lemma_quotient_vanishes(n: int, d: int, s: int)
    requires
        0 <= n <= u64::MAX,
        d >= 1,
        s > u64::MAX,
    ensures
        n / (d * s) == 0,
{
    assert(n / (d * s) == 0) by (nonlinear_arith)
        requires
            0 <= n <= 0xFFFF_FFFF_FFFF_FFFF,
            d >= 1,
            s > 0xFFFF_FFFF_FFFF_FFFF,
    ;
}

} // verus!
