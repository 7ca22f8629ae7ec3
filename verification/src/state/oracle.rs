//! Fixed-point prices and the policy that turns feed readings into a price band.

use crate::error::PerpetualsError;
use crate::math::{
    checked_as_u64, checked_decimal_div, checked_decimal_mul, checked_pow10, decimal_div,
    decimal_mul, lemma_pow10_bounds, lemma_pow10_monotonic, lemma_pow10_positive, pow10,
    pow10_u128,
};
use crate::state::perpetuals::{BPS_POWER, USD_DECIMALS};
use std::cmp::Ordering;
use vstd::arithmetic::div_mod::{lemma_div_denominator, lemma_fundamental_div_mod, lemma_mod_bound};
use vstd::prelude::*;

verus! {

/// Exponent that a quotient gains so that its precision does not depend on the
/// scale of the operands.
pub const ORACLE_EXPONENT_SCALE: i32 = -9;

/// `10^9`, the factor that matches `ORACLE_EXPONENT_SCALE`.
pub const ORACLE_PRICE_SCALE: u64 = 1_000_000_000;

/// Largest mantissa of a normalized price, `2^28 - 1`.
pub const ORACLE_MAX_PRICE: u64 = 268_435_455;

#[derive(Copy, Clone, PartialEq, Eq, Structural, Debug)]
pub enum OracleType {
    /// No feed has been configured.
    Unset,
    Custom,
    Pyth,
}

impl Default for OracleType {
    fn default() -> (r: Self)
        ensures
            r == OracleType::Unset,
    {
        OracleType::Unset
    }
}

/// A non-negative decimal number, `price × 10^exponent`.
#[derive(Copy, Clone, PartialEq, Eq, Structural, Debug)]
pub struct OraclePrice {
    pub price: u64,
    pub exponent: i32,
}

impl Default for OraclePrice {
    fn default() -> (r: Self)
        ensures
            r == (OraclePrice { price: 0, exponent: 0 }),
    {
        OraclePrice { price: 0, exponent: 0 }
    }
}

/// Where a custody's prices come from, and the tolerances applied to them.
#[derive(Copy, Clone, PartialEq, Eq, Debug)]
pub struct OracleParams {
    /// Address of the primary feed account.
    pub oracle_account: [u8; 32],
    /// Address of the fallback feed record.
    pub custom_oracle_account: [u8; 32],
    pub oracle_type: OracleType,
    /// Spot-to-reference deviation, in basis points, from which the band widens.
    pub max_difference_threshold: u64,
    /// Confidence-to-price ratio, in basis points, from which the band is
    /// close-only.
    pub max_price_error: u64,
    pub max_price_age_sec: u32,
}

impl Default for OracleParams {
    fn default() -> (r: Self)
        ensures
            r.oracle_type == OracleType::Unset,
            r.max_difference_threshold == 0,
            r.max_price_error == 0,
            r.max_price_age_sec == 0,
    {
        OracleParams {
            oracle_account: [0u8; 32],
            custom_oracle_account: [0u8; 32],
            oracle_type: OracleType::Unset,
            max_difference_threshold: 0,
            max_price_error: 0,
            max_price_age_sec: 0,
        }
    }
}

/// The persisted record of a fallback feed.
#[derive(Copy, Clone, PartialEq, Eq, Debug)]
pub struct CustomOracle {
    pub price: u64,
    pub expo: i32,
    pub conf: u64,
    pub ema: u64,
    pub publish_time: i64,
}

impl Default for CustomOracle {
    fn default() -> (r: Self)
        ensures
            r == (CustomOracle { price: 0, expo: 0, conf: 0, ema: 0, publish_time: 0 }),
    {
        CustomOracle { price: 0, expo: 0, conf: 0, ema: 0, publish_time: 0 }
    }
}

/// One reading of a primary feed.
#[derive(Copy, Clone, PartialEq, Eq, Debug)]
pub struct FeedPrice {
    pub price: i64,
    pub conf: u64,
    pub expo: i32,
    pub publish_time: i64,
}

/// The content of a primary feed account: the spot reading and its
/// exponential moving average.
#[derive(Copy, Clone, PartialEq, Eq, Debug)]
pub struct PriceFeed {
    pub price: FeedPrice,
    pub ema_price: FeedPrice,
}

/// Relative distance of `price2` from `price1`, in basis points of `price1`,
/// truncated. Meaningful for `price1 > 0`.
pub open spec fn price_diff_bps(price1: u64, price2: u64) -> nat {
    if price1 >= price2 {
        ((price1 - price2) * BPS_POWER / (price1 as int)) as nat
    } else {
        ((price2 - price1) * BPS_POWER / (price1 as int)) as nat
    }
}

/// Width of the confidence interval in basis points of the price, truncated.
pub open spec fn confidence_bps(conf: u64, price: u64) -> nat {
    (conf * BPS_POWER / (price as int)) as nat
}

/// What `get_price_diff` returns.
pub open spec fn price_diff(price1: u64, price2: u64) -> Result<u64, PerpetualsError> {
    if price1 > 0 && price_diff_bps(price1, price2) <= u64::MAX {
        Ok(price_diff_bps(price1, price2) as u64)
    } else {
        Err(PerpetualsError::MathOverflow)
    }
}

/// What `get_pyth_price` returns: the reading as `(price, confidence,
/// exponent, stale)`.
pub open spec fn pyth_price(
    feed: Option<PriceFeed>,
    max_price_age_sec: u32,
    current_time: i64,
    use_ema: bool,
) -> Result<(u64, u64, i32, bool), PerpetualsError> {
    match feed {
        None => Err(PerpetualsError::InvalidOracleAccount),
        Some(f) => {
            let reading = if use_ema {
                f.ema_price
            } else {
                f.price
            };
            let age = current_time - reading.publish_time;
            if age < i64::MIN || age > i64::MAX {
                Err(PerpetualsError::MathOverflow)
            } else if reading.price <= 0 {
                Err(PerpetualsError::InvalidOraclePrice)
            } else {
                Ok((reading.price as u64, reading.conf, reading.expo, age > max_price_age_sec))
            }
        },
    }
}

/// What `get_custom_price` returns.
pub open spec fn custom_price(
    account: Option<CustomOracle>,
    max_price_error: u64,
    max_price_age_sec: u32,
    current_time: i64,
    use_ema: bool,
) -> Result<OraclePrice, PerpetualsError> {
    match account {
        None => Err(PerpetualsError::InvalidOracleAccount),
        Some(record) => {
            let age = current_time - record.publish_time;
            let price = if use_ema {
                record.ema
            } else {
                record.price
            };
            if age < i64::MIN || age > i64::MAX {
                Err(PerpetualsError::MathOverflow)
            } else if age > max_price_age_sec {
                Err(PerpetualsError::StaleOraclePrice)
            } else if price == 0 || confidence_bps(record.conf, price) > max_price_error {
                Err(PerpetualsError::InvalidOraclePrice)
            } else {
                Ok(OraclePrice { price, exponent: record.expo })
            }
        },
    }
}

/// The band of a stable asset whose spot reading is fresh: the spot price
/// alone while it stays within the threshold of one dollar, else the span
/// between the spot price and one dollar.
pub open spec fn stable_band(price: u64, expo: i32, max_difference_threshold: u64) -> Result<
    (OraclePrice, OraclePrice, bool),
    PerpetualsError,
> {
    let one_usd = pow10((-expo) as nat);
    let spot = OraclePrice { price, exponent: expo };
    if expo > 0 || expo < -19 {
        Err(PerpetualsError::MathOverflow)
    } else {
        let peg = OraclePrice { price: one_usd as u64, exponent: expo };
        match price_diff(price, one_usd as u64) {
            Err(e) => Err(e),
            Ok(diff) => if diff < max_difference_threshold {
                Ok((spot, spot, false))
            } else if price < one_usd {
                Ok((spot, peg, false))
            } else {
                Ok((peg, spot, false))
            },
        }
    }
}

/// The band of a non-stable asset whose spot reading is fresh: the spot price
/// alone while it stays within the threshold of the moving average, else the
/// confidence interval around it, close-only when the interval is too wide.
pub open spec fn floating_band(
    price: u64,
    conf: u64,
    expo: i32,
    ema_price: u64,
    params: OracleParams,
) -> Result<(OraclePrice, OraclePrice, bool), PerpetualsError> {
    let spot = OraclePrice { price, exponent: expo };
    let wide = confidence_bps(conf, price) >= params.max_price_error;
    match price_diff(price, ema_price) {
        Err(e) => Err(e),
        Ok(diff) => if diff < params.max_difference_threshold {
            Ok((spot, spot, false))
        } else if wide && params.oracle_type == OracleType::Custom {
            Err(PerpetualsError::InvalidOraclePrice)
        } else if price < conf || price + conf > u64::MAX {
            Err(PerpetualsError::MathOverflow)
        } else {
            Ok(
                (
                    OraclePrice { price: (price - conf) as u64, exponent: expo },
                    OraclePrice { price: (price + conf) as u64, exponent: expo },
                    wide,
                ),
            )
        },
    }
}

/// What `new_from_oracle` returns: `(min_price, max_price, close_only)`.
pub open spec fn price_band(
    feed: Option<PriceFeed>,
    params: OracleParams,
    current_time: i64,
    is_stable: bool,
) -> Result<(OraclePrice, OraclePrice, bool), PerpetualsError> {
    match pyth_price(feed, params.max_price_age_sec, current_time, false) {
        Err(e) => Err(e),
        Ok((price, conf, expo, stale)) => if stale {
            Err(PerpetualsError::InvalidOraclePrice)
        } else if is_stable {
            stable_band(price, expo, params.max_difference_threshold)
        } else {
            match pyth_price(feed, params.max_price_age_sec, current_time, true) {
                Err(e) => Err(e),
                Ok((ema_price, _, _, _)) => floating_band(price, conf, expo, ema_price, params),
            }
        },
    }
}

/// Number of decimal digits that `normalize` drops from a mantissa.
pub open spec fn digits_dropped(mantissa: nat) -> nat
    decreases mantissa,
{
    if mantissa <= ORACLE_MAX_PRICE {
        0
    } else {
        1 + digits_dropped(mantissa / 10)
    }
}

/// Dropping `digits_dropped(m)` digits brings `m` into the normalized range,
/// and dropping one digit fewer does not.
pub proof fn lemma_digits_dropped(mantissa: nat)
    ensures
        mantissa / pow10(digits_dropped(mantissa)) <= ORACLE_MAX_PRICE,
        digits_dropped(mantissa) > 0 ==> mantissa / pow10((digits_dropped(mantissa) - 1) as nat)
            > ORACLE_MAX_PRICE,
    decreases mantissa,
{
    if mantissa <= ORACLE_MAX_PRICE {
        assert(pow10(0) == 1);
    } else {
        let k = digits_dropped(mantissa / 10);
        lemma_digits_dropped(mantissa / 10);
        lemma_drop_one_more(mantissa, k);
        assert(digits_dropped(mantissa) == k + 1);
        if k > 0 {
            lemma_drop_one_more(mantissa, (k - 1) as nat);
            assert(((k - 1) as nat) + 1 == k);
            assert(mantissa / pow10(k) == (mantissa / 10) / pow10((k - 1) as nat));
        } else {
            assert(pow10(0) == 1);
            assert(mantissa / 1 == mantissa);
        }
    }
}

/// Dropping one digit and then `k` more is dropping `k + 1` digits.
pub proof fn lemma_drop_one_more(mantissa: nat, k: nat)
    ensures
        (mantissa / 10) / pow10(k) == mantissa / pow10(k + 1),
        (mantissa / pow10(k)) / 10 == mantissa / pow10(k + 1),
{
    lemma_pow10_positive(k);
    lemma_div_denominator(mantissa as int, 10, pow10(k) as int);
    lemma_div_denominator(mantissa as int, pow10(k) as int, 10);
    assert(pow10(k + 1) == 10 * pow10(k));
    assert(10 * pow10(k) == pow10(k) * 10);
}

/// A truncated quotient brackets the dividend.
pub proof fn lemma_truncation_bounds(x: nat, d: nat)
    requires
        d > 0,
    ensures
        (x / d) * d <= x < (x / d + 1) * d,
{
    lemma_fundamental_div_mod(x as int, d as int);
    lemma_mod_bound(x as int, d as int);
    assert((x / d) * d == d * (x / d)) by (nonlinear_arith);
    assert((x / d + 1) * d == d * (x / d) + d) by (nonlinear_arith);
}

impl OraclePrice {
    /// The mantissa of this number at exponent `target`, truncated when
    /// `target` is coarser than the number's own exponent.
    pub open spec fn mantissa_at(self, target: i32) -> nat {
        if target >= self.exponent {
            self.price as nat / pow10((target - self.exponent) as nat)
        } else {
            self.price as nat * pow10((self.exponent - target) as nat)
        }
    }

    /// What `scale_to_exponent` returns.
    pub open spec fn scaled(self, target: i32) -> Result<OraclePrice, PerpetualsError> {
        if self.mantissa_at(target) <= u64::MAX {
            Ok(OraclePrice { price: self.mantissa_at(target) as u64, exponent: target })
        } else {
            Err(PerpetualsError::MathOverflow)
        }
    }

    /// What `normalize` returns.
    pub open spec fn normalized(self) -> Result<OraclePrice, PerpetualsError> {
        let k = digits_dropped(self.price as nat);
        if self.exponent + k <= i32::MAX {
            Ok(
                OraclePrice {
                    price: (self.price as nat / pow10(k)) as u64,
                    exponent: (self.exponent + k) as i32,
                },
            )
        } else {
            Err(PerpetualsError::MathOverflow)
        }
    }

    /// What `checked_mul` returns.
    pub open spec fn product(self, other: OraclePrice) -> Result<OraclePrice, PerpetualsError> {
        if self.price * other.price <= u64::MAX && i32::MIN <= self.exponent + other.exponent
            <= i32::MAX {
            Ok(
                OraclePrice {
                    price: (self.price * other.price) as u64,
                    exponent: (self.exponent + other.exponent) as i32,
                },
            )
        } else {
            Err(PerpetualsError::MathOverflow)
        }
    }

    /// What `checked_div` returns.
    pub open spec fn quotient(self, other: OraclePrice) -> Result<OraclePrice, PerpetualsError> {
        match (self.normalized(), other.normalized()) {
            (Ok(base), Ok(divisor)) => {
                let exponent = base.exponent + ORACLE_EXPONENT_SCALE - divisor.exponent;
                if divisor.price != 0 && i32::MIN <= exponent <= i32::MAX {
                    Ok(
                        OraclePrice {
                            price: ((base.price * ORACLE_PRICE_SCALE) / (divisor.price as int)) as u64,
                            exponent: exponent as i32,
                        },
                    )
                } else {
                    Err(PerpetualsError::MathOverflow)
                }
            },
            _ => Err(PerpetualsError::MathOverflow),
        }
    }

    /// The finer of the two exponents, at which both numbers can be written
    /// without truncation.
    pub open spec fn finer_exponent(self, other: OraclePrice) -> i32 {
        if self.exponent <= other.exponent {
            self.exponent
        } else {
            other.exponent
        }
    }

    /// Whether both mantissas fit in 64 bits at the finer exponent.
    pub open spec fn comparable(self, other: OraclePrice) -> bool {
        &&& self.mantissa_at(self.finer_exponent(other)) <= u64::MAX
        &&& other.mantissa_at(self.finer_exponent(other)) <= u64::MAX
    }

    /// Whether the two are comparable and this one is the smaller number.
    pub open spec fn is_less(self, other: OraclePrice) -> bool {
        &&& self.comparable(other)
        &&& self.mantissa_at(self.finer_exponent(other)) < other.mantissa_at(
            self.finer_exponent(other),
        )
    }

    /// What `get_asset_amount_usd` returns.
    pub open spec fn asset_amount_usd(self, token_amount: u64, token_decimals: u8) -> Result<
        u64,
        PerpetualsError,
    > {
        let usd = decimal_mul(
            token_amount as nat,
            -(token_decimals as int),
            self.price as nat,
            self.exponent as int,
            -(USD_DECIMALS as int),
        );
        if token_amount == 0 || self.price == 0 {
            Ok(0)
        } else if usd <= u64::MAX {
            Ok(usd as u64)
        } else {
            Err(PerpetualsError::MathOverflow)
        }
    }

    /// What `get_token_amount` returns.
    pub open spec fn token_amount(self, asset_amount_usd: u64, token_decimals: u8) -> Result<
        u64,
        PerpetualsError,
    > {
        let amount = decimal_div(
            asset_amount_usd as nat,
            -(USD_DECIMALS as int),
            self.price as nat,
            self.exponent as int,
            -(token_decimals as int),
        );
        if asset_amount_usd == 0 || self.price == 0 {
            Ok(0)
        } else if amount <= u64::MAX {
            Ok(amount as u64)
        } else {
            Err(PerpetualsError::MathOverflow)
        }
    }

    /// What `get_min_price` returns.
    pub open spec fn min_price(self, other: OraclePrice, is_stable: bool) -> Result<
        OraclePrice,
        PerpetualsError,
    > {
        let least = if self.is_less(other) {
            self
        } else {
            other
        };
        if !is_stable {
            Ok(least)
        } else if least.exponent > 0 {
            if least.price == 0 {
                Ok(least)
            } else {
                Ok(OraclePrice { price: 1_000_000, exponent: -6i32 })
            }
        } else if least.exponent < -19 {
            Err(PerpetualsError::MathOverflow)
        } else if least.price > pow10((-least.exponent) as nat) {
            Ok(
                OraclePrice {
                    price: pow10((-least.exponent) as nat) as u64,
                    exponent: least.exponent,
                },
            )
        } else {
            Ok(least)
        }
    }

    pub fn new(price: u64, exponent: i32) -> (r: Self)
        ensures
            r == (OraclePrice { price, exponent }),
    {
        OraclePrice { price, exponent }
    }

    /// A token amount with its number of decimals, read as a fixed-point number.
    pub fn new_from_token(amount_and_decimals: (u64, u8)) -> (r: Self)
        ensures
            r == (OraclePrice {
                price: amount_and_decimals.0,
                exponent: (-(amount_and_decimals.1 as int)) as i32,
            }),
    {
        OraclePrice { price: amount_and_decimals.0, exponent: -(amount_and_decimals.1 as i32) }
    }

    /// Re-expresses the number at `target_exponent`. Moving to a coarser
    /// exponent truncates; moving to a finer one is exact and fails when the
    /// mantissa would leave 64 bits.
    pub fn scale_to_exponent(&self, target_exponent: i32) -> (r: Result<
        OraclePrice,
        PerpetualsError,
    >)
        ensures
            r == self.scaled(target_exponent),
    {
        let delta: i64 = target_exponent as i64 - self.exponent as i64;
        proof {
            lemma_pow10_bounds();
        }
        if delta >= 0 {
            if delta > 19 {
                proof {
                    lemma_pow10_monotonic(20, delta as nat);
                    assert((self.price as int) / (pow10(delta as nat) as int) == 0)
                        by (nonlinear_arith)
                        requires
                            0 <= self.price < pow10(delta as nat),
                    ;
                }
                return Ok(OraclePrice { price: 0, exponent: target_exponent });
            }
            let divisor: u128 = pow10_u128(delta as u32);
            proof {
                lemma_pow10_positive(delta as nat);
                assert((self.price as int) / (divisor as int) <= self.price) by (nonlinear_arith)
                    requires
                        self.price >= 0,
                        divisor >= 1,
                ;
            }
            Ok(
                OraclePrice {
                    price: ((self.price as u128) / divisor) as u64,
                    exponent: target_exponent,
                },
            )
        } else {
            let up: i64 = -delta;
            if self.price == 0 {
                proof {
                    assert(0 * pow10(up as nat) == 0);
                }
                return Ok(OraclePrice { price: 0, exponent: target_exponent });
            }
            if up > 19 {
                proof {
                    lemma_pow10_monotonic(20, up as nat);
                    assert(self.price * pow10(up as nat) >= pow10(up as nat)) by (nonlinear_arith)
                        requires
                            self.price >= 1,
                    ;
                }
                return Err(PerpetualsError::MathOverflow);
            }
            let factor: u128 = pow10_u128(up as u32);
            proof {
                lemma_pow10_monotonic(up as nat, 19);
                assert(self.price * factor <= 0xFFFF_FFFF_FFFF_FFFF * 10_000_000_000_000_000_000)
                    by (nonlinear_arith)
                    requires
                        self.price <= 0xFFFF_FFFF_FFFF_FFFF,
                        factor <= 10_000_000_000_000_000_000,
                ;
            }
            match checked_as_u64((self.price as u128) * factor) {
                Ok(price) => Ok(OraclePrice { price, exponent: target_exponent }),
                Err(e) => Err(e),
            }
        }
    }

    /// Drops low-order decimal digits until the mantissa is at most
    /// `ORACLE_MAX_PRICE`, raising the exponent by one for each digit.
    pub fn normalize(&self) -> (r: Result<OraclePrice, PerpetualsError>)
        ensures
            r == self.normalized(),
            r matches Ok(n) ==> {
                &&& n.price <= ORACLE_MAX_PRICE
                &&& n.exponent >= self.exponent
                &&& n.price * pow10((n.exponent - self.exponent) as nat) <= self.price
                &&& self.price < (n.price + 1) * pow10((n.exponent - self.exponent) as nat)
            },
    {
        let mut p: u64 = self.price;
        let mut e: i32 = self.exponent;
        proof {
            assert(pow10(0) == 1);
            assert(self.price as nat / 1 == self.price);
        }
        while p > ORACLE_MAX_PRICE
            invariant
                e >= self.exponent,
                p == self.price as nat / pow10((e - self.exponent) as nat),
                digits_dropped(self.price as nat) == (e - self.exponent) + digits_dropped(p as nat),
            decreases p,
        {
            if e == i32::MAX {
                return Err(PerpetualsError::MathOverflow);
            }
            proof {
                lemma_drop_one_more(self.price as nat, (e - self.exponent) as nat);
            }
            p = p / 10;
            e = e + 1;
        }
        proof {
            let k = (e - self.exponent) as nat;
            lemma_pow10_positive(k);
            lemma_truncation_bounds(self.price as nat, pow10(k));
        }
        Ok(OraclePrice { price: p, exponent: e })
    }

    /// Multiplies mantissas and adds exponents, both checked.
    pub fn checked_mul(&self, other: &OraclePrice) -> (r: Result<OraclePrice, PerpetualsError>)
        ensures
            r == self.product(*other),
    {
        let price = match self.price.checked_mul(other.price) {
            Some(v) => v,
            None => { return Err(PerpetualsError::MathOverflow); },
        };
        let exponent = match self.exponent.checked_add(other.exponent) {
            Some(v) => v,
            None => { return Err(PerpetualsError::MathOverflow); },
        };
        Ok(OraclePrice { price, exponent })
    }

    /// Divides after normalizing both operands. The quotient carries nine
    /// extra decimal digits whatever the operands' scale.
    pub fn checked_div(&self, other: &OraclePrice) -> (r: Result<OraclePrice, PerpetualsError>)
        ensures
            r == self.quotient(*other),
    {
        let base = match self.normalize() {
            Ok(v) => v,
            Err(e) => { return Err(e); },
        };
        let divisor = match other.normalize() {
            Ok(v) => v,
            Err(e) => { return Err(e); },
        };
        if divisor.price == 0 {
            return Err(PerpetualsError::MathOverflow);
        }
        let exponent: i64 = base.exponent as i64 + ORACLE_EXPONENT_SCALE as i64
            - divisor.exponent as i64;
        if exponent < i32::MIN as i64 || exponent > i32::MAX as i64 {
            return Err(PerpetualsError::MathOverflow);
        }
        let scaled: u64 = base.price * ORACLE_PRICE_SCALE;
        Ok(OraclePrice { price: scaled / divisor.price, exponent: exponent as i32 })
    }

    /// Values a token amount in USD at this price, truncating.
    pub fn get_asset_amount_usd(&self, token_amount: u64, token_decimals: u8) -> (r: Result<
        u64,
        PerpetualsError,
    >)
        ensures
            r == self.asset_amount_usd(token_amount, token_decimals),
    {
        if token_amount == 0 || self.price == 0 {
            return Ok(0);
        }
        checked_decimal_mul(
            token_amount,
            -(token_decimals as i32),
            self.price,
            self.exponent,
            -(USD_DECIMALS as i32),
        )
    }

    /// Converts a USD amount into token units at this price, truncating.
    pub fn get_token_amount(&self, asset_amount_usd: u64, token_decimals: u8) -> (r: Result<
        u64,
        PerpetualsError,
    >)
        ensures
            r == self.token_amount(asset_amount_usd, token_decimals),
    {
        if asset_amount_usd == 0 || self.price == 0 {
            return Ok(0);
        }
        checked_decimal_div(
            asset_amount_usd,
            -(USD_DECIMALS as i32),
            self.price,
            self.exponent,
            -(token_decimals as i32),
        )
    }

    /// The smaller of two prices; for a stable asset, capped at one dollar.
    /// Where the two are not comparable, `other` is taken.
    pub fn get_min_price(&self, other: &OraclePrice, is_stable: bool) -> (r: Result<
        OraclePrice,
        PerpetualsError,
    >)
        ensures
            r == self.min_price(*other, is_stable),
    {
        let less = *self < *other;
        let least = if less {
            *self
        } else {
            *other
        };
        if !is_stable {
            return Ok(least);
        }
        if least.exponent > 0 {
            if least.price == 0 {
                return Ok(least);
            }
            return Ok(OraclePrice { price: 1_000_000, exponent: -6 });
        }
        if least.exponent < -19 {
            return Err(PerpetualsError::MathOverflow);
        }
        let one_usd = match checked_pow10((-least.exponent) as u32) {
            Ok(v) => v,
            Err(e) => { return Err(e); },
        };
        if least.price > one_usd {
            Ok(OraclePrice { price: one_usd, exponent: least.exponent })
        } else {
            Ok(least)
        }
    }
}

impl OraclePrice {
    /// Resolves a custody's feed into a conservative price band.
    ///
    /// Fails on an unreadable feed, a non-positive price or a stale reading.
    /// A stable asset is banded against one dollar, any other against its
    /// moving average; the close-only flag is raised when the confidence
    /// interval is wider than the custody tolerates. The fallback record is
    /// accepted but never consulted: where the primary feed cannot be used the
    /// call fails.
    pub fn new_from_oracle(
        oracle_account: &Option<PriceFeed>,
        oracle_params: &OracleParams,
        current_time: i64,
        custom_oracle_account: &Option<CustomOracle>,
        is_stable: bool,
    ) -> (r: Result<(OraclePrice, OraclePrice, bool), PerpetualsError>)
        ensures
            r == price_band(*oracle_account, *oracle_params, current_time, is_stable),
            (oracle_account matches Some(feed) && oracle_params.max_price_age_sec < current_time
                - feed.price.publish_time <= i64::MAX) ==> r == Err::<
                (OraclePrice, OraclePrice, bool),
                PerpetualsError,
            >(PerpetualsError::InvalidOraclePrice),
            r matches Ok((low, high, close_only)) ==> low.exponent == high.exponent && low.price
                <= high.price,
    {
        let (curr_price, curr_conf, curr_expo, is_price_stale) = match Self::get_pyth_price(
            oracle_account,
            oracle_params.max_price_error,
            oracle_params.max_price_age_sec,
            current_time,
            false,
        ) {
            Ok(v) => v,
            Err(e) => { return Err(e); },
        };
        if is_price_stale {
            return Err(PerpetualsError::InvalidOraclePrice);
        }
        let spot = OraclePrice { price: curr_price, exponent: curr_expo };
        if is_stable {
            if curr_expo > 0 || curr_expo < -19 {
                return Err(PerpetualsError::MathOverflow);
            }
            let one_usd = match checked_pow10((-curr_expo) as u32) {
                Ok(v) => v,
                Err(e) => { return Err(e); },
            };
            let perc_diff = match Self::get_price_diff(curr_price, one_usd) {
                Ok(v) => v,
                Err(e) => { return Err(e); },
            };
            let peg = OraclePrice { price: one_usd, exponent: curr_expo };
            if perc_diff < oracle_params.max_difference_threshold {
                Ok((spot, spot, false))
            } else if curr_price < one_usd {
                Ok((spot, peg, false))
            } else {
                Ok((peg, spot, false))
            }
        } else {
            let (ema_price, _, _, _) = match Self::get_pyth_price(
                oracle_account,
                oracle_params.max_price_error,
                oracle_params.max_price_age_sec,
                current_time,
                true,
            ) {
                Ok(v) => v,
                Err(e) => { return Err(e); },
            };
            let perc_diff = match Self::get_price_diff(curr_price, ema_price) {
                Ok(v) => v,
                Err(e) => { return Err(e); },
            };
            if perc_diff < oracle_params.max_difference_threshold {
                return Ok((spot, spot, false));
            }
            let conf_bps: u128 = (curr_conf as u128) * BPS_POWER / (curr_price as u128);
            let close_only = conf_bps >= oracle_params.max_price_error as u128;
            if close_only && oracle_params.oracle_type == OracleType::Custom {
                return Err(PerpetualsError::InvalidOraclePrice);
            }
            let low = match curr_price.checked_sub(curr_conf) {
                Some(v) => v,
                None => { return Err(PerpetualsError::MathOverflow); },
            };
            let high = match curr_price.checked_add(curr_conf) {
                Some(v) => v,
                None => { return Err(PerpetualsError::MathOverflow); },
            };
            Ok(
                (
                    OraclePrice { price: low, exponent: curr_expo },
                    OraclePrice { price: high, exponent: curr_expo },
                    close_only,
                ),
            )
        }
    }

    /// Relative distance between two prices in basis points of the first.
    /// Fails when the first is zero or the distance leaves 64 bits.
    pub fn get_price_diff(price1: u64, price2: u64) -> (r: Result<u64, PerpetualsError>)
        ensures
            r == price_diff(price1, price2),
    {
        if price1 == 0 {
            return Err(PerpetualsError::MathOverflow);
        }
        let distance: u64 = if price1 >= price2 {
            price1 - price2
        } else {
            price2 - price1
        };
        checked_as_u64((distance as u128) * BPS_POWER / (price1 as u128))
    }

    /// Reads the spot or the moving-average price of a primary feed, with a
    /// flag that tells whether the reading is older than allowed.
    pub fn get_pyth_price(
        pyth_price_info: &Option<PriceFeed>,
        _max_price_error: u64,
        max_price_age_sec: u32,
        current_time: i64,
        use_ema: bool,
    ) -> (r: Result<(u64, u64, i32, bool), PerpetualsError>)
        ensures
            r == pyth_price(*pyth_price_info, max_price_age_sec, current_time, use_ema),
    {
        let price_feed = match pyth_price_info {
            Some(f) => f,
            None => { return Err(PerpetualsError::InvalidOracleAccount); },
        };
        let pyth_price = if use_ema {
            price_feed.ema_price
        } else {
            price_feed.price
        };
        let last_update_age_sec = match current_time.checked_sub(pyth_price.publish_time) {
            Some(v) => v,
            None => { return Err(PerpetualsError::MathOverflow); },
        };
        let is_price_stale = last_update_age_sec > max_price_age_sec as i64;
        if pyth_price.price <= 0 {
            return Err(PerpetualsError::InvalidOraclePrice);
        }
        Ok((pyth_price.price as u64, pyth_price.conf, pyth_price.expo, is_price_stale))
    }

    /// Reads the price of a fallback feed record, rejecting a stale record
    /// and one whose confidence interval is too wide.
    pub fn get_custom_price(
        custom_price_info: &Option<CustomOracle>,
        max_price_error: u64,
        max_price_age_sec: u32,
        current_time: i64,
        use_ema: bool,
    ) -> (r: Result<OraclePrice, PerpetualsError>)
        ensures
            r == custom_price(
                *custom_price_info,
                max_price_error,
                max_price_age_sec,
                current_time,
                use_ema,
            ),
    {
        let oracle_acc = match custom_price_info {
            Some(a) => a,
            None => { return Err(PerpetualsError::InvalidOracleAccount); },
        };
        let last_update_age_sec = match current_time.checked_sub(oracle_acc.publish_time) {
            Some(v) => v,
            None => { return Err(PerpetualsError::MathOverflow); },
        };
        if last_update_age_sec > max_price_age_sec as i64 {
            return Err(PerpetualsError::StaleOraclePrice);
        }
        let price = if use_ema {
            oracle_acc.ema
        } else {
            oracle_acc.price
        };
        if price == 0 {
            return Err(PerpetualsError::InvalidOraclePrice);
        }
        let conf_bps: u128 = (oracle_acc.conf as u128) * BPS_POWER / (price as u128);
        if conf_bps > max_price_error as u128 {
            return Err(PerpetualsError::InvalidOraclePrice);
        }
        Ok(OraclePrice { price, exponent: oracle_acc.expo })
    }
}

/// At its own exponent a number's mantissa is its stored mantissa.
pub proof fn lemma_mantissa_at_own_exponent(p: OraclePrice)
    ensures
        p.mantissa_at(p.exponent) == p.price,
{
    assert(pow10(0) == 1);
    assert(p.price as nat / 1 == p.price);
}

impl PartialOrd for OraclePrice {
    /// Compares the two numbers at the finer of their exponents. `None` when
    /// a mantissa does not fit in 64 bits at that exponent.
    fn partial_cmp(&self, other: &OraclePrice) -> (r: Option<Ordering>) {
        proof {
            lemma_mantissa_at_own_exponent(*self);
            lemma_mantissa_at_own_exponent(*other);
        }
        let lhs: u64;
        let rhs: u64;
        if self.exponent == other.exponent {
            lhs = self.price;
            rhs = other.price;
        } else if self.exponent < other.exponent {
            match other.scale_to_exponent(self.exponent) {
                Ok(scaled) => {
                    lhs = self.price;
                    rhs = scaled.price;
                },
                Err(_) => { return None; },
            }
        } else {
            match self.scale_to_exponent(other.exponent) {
                Ok(scaled) => {
                    lhs = scaled.price;
                    rhs = other.price;
                },
                Err(_) => { return None; },
            }
        }
        if lhs < rhs {
            Some(Ordering::Less)
        } else if lhs == rhs {
            Some(Ordering::Equal)
        } else {
            Some(Ordering::Greater)
        }
    }
}

impl vstd::std_specs::cmp::PartialOrdSpecImpl for OraclePrice {
    open spec fn obeys_partial_cmp_spec() -> bool {
        true
    }

    open spec fn partial_cmp_spec(&self, other: &OraclePrice) -> Option<Ordering> {
        if !self.comparable(*other) {
            None
        } else if self.mantissa_at(self.finer_exponent(*other)) < other.mantissa_at(
            self.finer_exponent(*other),
        ) {
            Some(Ordering::Less)
        } else if self.mantissa_at(self.finer_exponent(*other)) == other.mantissa_at(
            self.finer_exponent(*other),
        ) {
            Some(Ordering::Equal)
        } else {
            Some(Ordering::Greater)
        }
    }
}

} // verus!
