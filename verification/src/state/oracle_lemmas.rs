//! Algebraic facts about fixed-point prices and the band resolver.

use crate::error::PerpetualsError;
use crate::math::{
    lemma_pow10_adds, lemma_pow10_bounds, lemma_pow10_monotonic, lemma_pow10_positive, pow10,
};
use crate::state::oracle::{
    digits_dropped, lemma_digits_dropped, lemma_truncation_bounds, price_band, OracleParams,
    OraclePrice, OracleType, PriceFeed, ORACLE_MAX_PRICE,
};
use crate::math::{decimal_div, decimal_mul};
use crate::state::perpetuals::USD_DECIMALS;
use vstd::arithmetic::div_mod::{lemma_div_is_ordered, lemma_div_multiples_vanish};
use vstd::prelude::*;

verus! {

impl OraclePrice {
    /// Whether the two denote the same number: their mantissas agree once
    /// both are written at the finer of the two exponents.
    pub open spec fn same_value(self, other: OraclePrice) -> bool {
        self.mantissa_at(self.finer_exponent(other)) == other.mantissa_at(
            self.finer_exponent(other),
        )
    }
}

/// Rescaling to a finer exponent keeps the value, and rescaling back
/// recovers the mantissa it started from.
pub proof fn lemma_scale_round_trip(p: OraclePrice, target: i32)
    requires
        target <= p.exponent,
    ensures
        p.scaled(target) matches Ok(q) ==> {
            &&& q.price == p.price * pow10((p.exponent - target) as nat)
            &&& p.same_value(q)
            &&& q.scaled(p.exponent) == Ok::<OraclePrice, PerpetualsError>(p)
        },
{
    let d = (p.exponent - target) as nat;
    lemma_pow10_positive(d);
    if p.scaled(target) is Ok {
        let q = p.scaled(target)->Ok_0;
        assert(pow10(0) == 1);
        if d == 0 {
            assert(p.price as nat / 1 == p.price);
            assert(p.price * 1 == p.price);
        } else {
            assert(q.price == p.price * pow10(d));
            lemma_div_multiples_vanish(p.price as int, pow10(d) as int);
            assert(p.price * pow10(d) == pow10(d) * p.price) by (nonlinear_arith);
            assert(q.price as nat / pow10(d) == p.price);
            assert(q.price as nat / 1 == q.price);
        }
    }
}

/// Rescaling to a coarser exponent keeps the value whenever no non-zero
/// digit is discarded.
pub proof fn lemma_scale_without_truncation(p: OraclePrice, target: i32)
    requires
        target >= p.exponent,
        p.price as nat % pow10((target - p.exponent) as nat) == 0,
    ensures
        p.scaled(target) matches Ok(q) && p.same_value(q),
{
    let d = (target - p.exponent) as nat;
    lemma_pow10_positive(d);
    assert(pow10(0) == 1);
    assert(p.price as nat / 1 == p.price);
    vstd::arithmetic::div_mod::lemma_fundamental_div_mod(p.price as int, pow10(d) as int);
    assert((p.price as nat / pow10(d)) <= p.price) by (nonlinear_arith)
        requires
            pow10(d) >= 1,
            p.price >= 0,
    ;
    let q = p.scaled(target)->Ok_0;
    if d > 0 {
        assert(q.price * pow10(d) == pow10(d) * (p.price as nat / pow10(d))) by (nonlinear_arith)
            requires
                q.price == p.price as nat / pow10(d),
        ;
    }
}

/// A normalized price is its own normal form.
pub proof fn lemma_normalized_is_fixed(p: OraclePrice)
    requires
        p.price <= ORACLE_MAX_PRICE,
    ensures
        p.normalized() == Ok::<OraclePrice, PerpetualsError>(p),
{
    assert(pow10(0) == 1);
    assert(p.price as nat / 1 == p.price);
}

/// Dividing a product by one of its factors recovers the other factor
/// exactly, as long as the product's mantissa needs no normalizing.
pub proof fn lemma_div_undoes_mul_exactly(a: OraclePrice, b: OraclePrice)
    requires
        0 < b.price <= ORACLE_MAX_PRICE,
        a.price * b.price <= ORACLE_MAX_PRICE,
    ensures
        a.product(b) matches Ok(ab) ==> (ab.quotient(b) matches Ok(q) ==> {
            &&& q.price == a.price * pow10(9)
            &&& q.exponent == a.exponent - 9
            &&& q.same_value(a)
        }),
{
    lemma_pow10_bounds();
    if a.product(b) is Ok {
        let ab = a.product(b)->Ok_0;
        lemma_normalized_is_fixed(ab);
        lemma_normalized_is_fixed(b);
        if ab.quotient(b) is Ok {
            let q = ab.quotient(b)->Ok_0;
            assert(ab.price * 1_000_000_000 == (a.price * 1_000_000_000) * b.price)
                by (nonlinear_arith)
                requires
                    ab.price == a.price * b.price,
            ;
            lemma_div_multiples_vanish(a.price * 1_000_000_000, b.price as int);
            assert((a.price * 1_000_000_000) * b.price == b.price * (a.price * 1_000_000_000))
                by (nonlinear_arith);
            assert(q.price == a.price * 1_000_000_000);
            assert(pow10(0) == 1);
            assert(q.price as nat / 1 == q.price);
        }
    }
}

/// Normalizing drops the fewest digits that bring the mantissa into range,
/// and what it leaves is the mantissa truncated to that many digits.
pub proof fn lemma_normalized_bounds(p: OraclePrice)
    ensures
        p.normalized() matches Ok(n) ==> {
            let k = digits_dropped(p.price as nat);
            &&& n.price <= ORACLE_MAX_PRICE
            &&& n.exponent == p.exponent + k
            &&& n.price * pow10(k) <= p.price < (n.price + 1) * pow10(k)
            &&& k > 0 ==> p.price as nat / pow10((k - 1) as nat) > ORACLE_MAX_PRICE
        },
{
    let k = digits_dropped(p.price as nat);
    lemma_digits_dropped(p.price as nat);
    lemma_pow10_positive(k);
    lemma_truncation_bounds(p.price as nat, pow10(k));
}

/// Dividing a product by one of its factors never overshoots the other
/// factor, and falls short of it by less than one unit of the quotient plus
/// one unit of the normalized product.
pub proof fn lemma_div_recovers_factor(a: OraclePrice, b: OraclePrice)
    requires
        0 < b.price <= ORACLE_MAX_PRICE,
    ensures
        a.product(b) matches Ok(ab) ==> (ab.quotient(b) matches Ok(q) ==> {
            let k = digits_dropped((a.price * b.price) as nat);
            &&& q.exponent == a.exponent + k - 9
            &&& q.price * pow10(k) <= a.price * pow10(9)
            &&& a.price * b.price * pow10(9) < (q.price + 1) * b.price * pow10(k) + pow10(9 + k)
        }),
{
    lemma_pow10_bounds();
    lemma_normalized_is_fixed(b);
    if a.product(b) is Ok {
        let ab = a.product(b)->Ok_0;
        if ab.quotient(b) is Ok {
            let q = ab.quotient(b)->Ok_0;
            let k = digits_dropped(ab.price as nat);
            let base = ab.normalized()->Ok_0;
            lemma_normalized_bounds(ab);
            lemma_pow10_positive(k);
            lemma_pow10_adds(9, k);
            let am = a.price as int;
            let bm = b.price as int;
            let big = ab.price as int;
            let kept = base.price as int;
            let quot = q.price as int;
            let unit = pow10(k) as int;
            let scale = pow10(9) as int;
            lemma_truncation_bounds((base.price * 1_000_000_000) as nat, b.price as nat);
            assert(quot * bm <= kept * scale < (quot + 1) * bm);
            assert(kept * unit <= big < (kept + 1) * unit);
            assert(big == am * bm);
            assert(quot * unit <= am * scale) by (nonlinear_arith)
                requires
                    quot * bm <= kept * scale,
                    kept * unit <= am * bm,
                    bm > 0,
                    unit > 0,
                    scale > 0,
                    quot >= 0,
                    kept >= 0,
                    am >= 0,
            {
                assert(quot * bm * unit <= kept * scale * unit);
                assert(kept * unit * scale <= am * bm * scale);
                assert(quot * unit * bm <= am * scale * bm);
            }
            assert(am * bm * scale < (quot + 1) * bm * unit + scale * unit) by (nonlinear_arith)
                requires
                    kept * scale < (quot + 1) * bm,
                    am * bm < (kept + 1) * unit,
                    bm > 0,
                    unit > 0,
                    scale > 0,
                    quot >= 0,
                    kept >= 0,
                    am >= 0,
            {
                assert(am * bm * scale < (kept + 1) * unit * scale);
                assert(kept * scale * unit < (quot + 1) * bm * unit);
                assert((kept + 1) * unit * scale == kept * scale * unit + scale * unit);
            }
        }
    }
}

/// A spot reading older than the custody allows never yields a band.
pub proof fn lemma_stale_feed_is_rejected(
    feed: PriceFeed,
    params: OracleParams,
    current_time: i64,
    is_stable: bool,
)
    requires
        params.max_price_age_sec < current_time - feed.price.publish_time <= i64::MAX,
    ensures
        price_band(Some(feed), params, current_time, is_stable) == Err::<
            (OraclePrice, OraclePrice, bool),
            PerpetualsError,
        >(PerpetualsError::InvalidOraclePrice),
{
}

/// Valuing tokens in USD and converting the value back at the same price
/// never yields more tokens than there were.
pub proof fn lemma_usd_round_trip_never_gains(price: OraclePrice, token_amount: u64, decimals: u8)
    ensures
        price.asset_amount_usd(token_amount, decimals) matches Ok(usd) ==> (price.token_amount(
            usd,
            decimals,
        ) matches Ok(back) && back <= token_amount),
{
    if price.asset_amount_usd(token_amount, decimals) is Ok && token_amount != 0 && price.price
        != 0 {
        let usd = price.asset_amount_usd(token_amount, decimals)->Ok_0;
        let t = token_amount as int;
        let m = price.price as int;
        let shift = -(decimals as int) + price.exponent + USD_DECIMALS;
        assert(usd == decimal_mul(
            t as nat,
            -(decimals as int),
            m as nat,
            price.exponent as int,
            -(USD_DECIMALS as int),
        ));
        let back = decimal_div(
            usd as nat,
            -(USD_DECIMALS as int),
            m as nat,
            price.exponent as int,
            -(decimals as int),
        );
        if shift >= 0 {
            let scale = pow10(shift as nat) as int;
            lemma_pow10_positive(shift as nat);
            assert(usd == t * m * scale);
            assert(m * scale > 0) by (nonlinear_arith)
                requires
                    m > 0,
                    scale > 0,
            ;
            assert(t * m * scale == (m * scale) * t) by (nonlinear_arith);
            lemma_div_multiples_vanish(t, m * scale);
            if shift == 0 {
                assert(pow10(0) == 1);
                assert(m * 1 == m);
                assert(usd * 1 == usd);
            }
            assert(back == t);
        } else {
            let scale = pow10((-shift) as nat) as int;
            lemma_pow10_positive((-shift) as nat);
            assert(usd == (t * m) / scale);
            assert(t * m >= 0) by (nonlinear_arith)
                requires
                    t >= 0,
                    m >= 0,
            ;
            lemma_truncation_bounds((t * m) as nat, scale as nat);
            assert(usd * scale <= t * m);
            lemma_div_is_ordered(usd * scale, t * m, m);
            lemma_div_multiples_vanish(t, m);
            assert(t * m == m * t) by (nonlinear_arith);
            assert(back == (usd * scale) / m);
            assert(back <= t);
        }
    }
}

/// A spot price that is not positive never yields a band, stale or not.
pub proof fn lemma_non_positive_price_is_rejected(
    feed: PriceFeed,
    params: OracleParams,
    current_time: i64,
    is_stable: bool,
)
    requires
        feed.price.price <= 0,
    ensures
        price_band(Some(feed), params, current_time, is_stable) is Err,
        i64::MIN <= current_time - feed.price.publish_time <= i64::MAX ==> price_band(
            Some(feed),
            params,
            current_time,
            is_stable,
        ) == Err::<(OraclePrice, OraclePrice, bool), PerpetualsError>(
            PerpetualsError::InvalidOraclePrice,
        ),
{
}

/// A band is close-only only for a non-stable asset on a feed without
/// fallback, and is then the confidence interval around the spot price.
pub proof fn lemma_close_only_band(
    feed: PriceFeed,
    params: OracleParams,
    current_time: i64,
    is_stable: bool,
)
    ensures
        price_band(Some(feed), params, current_time, is_stable) matches Ok((low, high, true)) ==> {
            &&& !is_stable
            &&& params.oracle_type != OracleType::Custom
            &&& low.price == feed.price.price - feed.price.conf
            &&& high.price == feed.price.price + feed.price.conf
            &&& low.exponent == feed.price.expo
        },
{
}

/// The two ends of a band share an exponent and are in order.
pub proof fn lemma_band_is_ordered(
    feed: Option<PriceFeed>,
    params: OracleParams,
    current_time: i64,
    is_stable: bool,
)
    ensures
        price_band(feed, params, current_time, is_stable) matches Ok((low, high, close_only)) ==> {
            &&& low.exponent == high.exponent
            &&& low.price <= high.price
            &&& close_only ==> !is_stable
        },
{
    if let Some(f) = feed {
        if -19 <= f.price.expo <= 0 {
            lemma_pow10_monotonic((-f.price.expo) as nat, 19);
            lemma_pow10_bounds();
        }
    }
}

} // verus!
