use vstd::prelude::*;
use vstd::arithmetic::div_mod::lemma_hoist_over_denominator;
use crate::types::ArbitrageCore;

verus! {

/// A fraction `num / den`; `den` is positive wherever the engine builds one.
#[derive(Clone, Copy, Debug, PartialEq, Eq, Structural)]
pub struct Ratio {
    pub num: u128,
    pub den: u128,
}

/// Numerator of the constant-product impact of trading `amount` against
/// `liquidity`: total (1/1) without liquidity, else `amount / (liquidity + amount)`.
pub open spec fn impact_num(amount: int, liquidity: int) -> int {
    if liquidity <= 0 {
        1
    } else {
        amount
    }
}

/// Denominator of the impact; see `impact_num`.
pub open spec fn impact_den(amount: int, liquidity: int) -> int {
    if liquidity <= 0 {
        1
    } else {
        liquidity + amount
    }
}

/// Price impact of a trade of `amount` against a pool holding `liquidity`.
pub fn price_impact(amount: u64, liquidity: u128) -> (r: Ratio)
    requires
        liquidity + amount <= u128::MAX,
    ensures
        r.num == impact_num(amount as int, liquidity as int),
        r.den == impact_den(amount as int, liquidity as int),
        r.den > 0,
        r.num <= r.den,
        liquidity == 0 ==> r.num == 1 && r.den == 1,
{
    if liquidity == 0 {
        return Ratio { num: 1, den: 1 };
    }
    Ratio { num: amount as u128, den: liquidity + amount as u128 }
}

/// For a positive amount against positive liquidity the impact lies strictly
/// between 0 and 1.
pub proof fn lemma_impact_strictly_between(amount: int, liquidity: int)
    requires
        0 < amount,
        0 < liquidity,
    ensures
        0 < impact_num(amount, liquidity) < impact_den(amount, liquidity),
{
}

/// Against positive liquidity the impact grows strictly with the amount.
pub proof fn lemma_impact_increasing_in_amount(amount: int, larger: int, liquidity: int)
    requires
        0 <= amount,
        amount < larger,
        0 < liquidity,
    ensures
        impact_num(amount, liquidity) * impact_den(larger, liquidity) < impact_num(
            larger,
            liquidity,
        ) * impact_den(amount, liquidity),
{
    assert(amount * (liquidity + larger) < larger * (liquidity + amount)) by (nonlinear_arith)
        requires
            0 <= amount,
            amount < larger,
            0 < liquidity,
    ;
}

/// For a positive amount the impact falls strictly as the liquidity grows.
pub proof fn lemma_impact_decreasing_in_liquidity(amount: int, liquidity: int, deeper: int)
    requires
        0 < amount,
        0 < liquidity,
        liquidity < deeper,
    ensures
        impact_num(amount, deeper) * impact_den(amount, liquidity) < impact_num(
            amount,
            liquidity,
        ) * impact_den(amount, deeper),
{
    assert(amount * (liquidity + amount) < amount * (deeper + amount)) by (nonlinear_arith)
        requires
            0 < amount,
            liquidity < deeper,
    ;
}

/// The size multiplier in basis points: ten times the price difference,
/// clamped to [0.5, 2.0].
pub open spec fn size_multiplier_bps(price_diff_bps: int) -> int {
    if price_diff_bps * 10 < 5000 {
        5000
    } else if price_diff_bps * 10 > 20_000 {
        20_000
    } else {
        price_diff_bps * 10
    }
}

/// 1% of the smaller pool, scaled by the multiplier, rounded down to whole units.
pub open spec fn optimal_amount(source_liquidity: int, target_liquidity: int, price_diff_bps: int) -> int {
    let smaller = if source_liquidity <= target_liquidity {
        source_liquidity
    } else {
        target_liquidity
    };
    smaller * size_multiplier_bps(price_diff_bps) / 1_000_000
}

impl ArbitrageCore {
    /// Price impact of `amount` against `liquidity`; 1/1 when there is none.
    pub fn calculate_price_impact(&self, amount: u64, liquidity: u128) -> (r: Ratio)
        requires
            liquidity + amount <= u128::MAX,
        ensures
            r.num == impact_num(amount as int, liquidity as int),
            r.den == impact_den(amount as int, liquidity as int),
            r.den > 0,
            liquidity == 0 ==> r.num == 1 && r.den == 1,
    {
        price_impact(amount, liquidity)
    }

    /// Trade size for two pools and a price difference given in basis points.
    /// The result lies between 0.5% and 2% of the smaller pool (rounded down).
    pub fn calculate_optimal_amount(
        &self,
        source_liquidity: u128,
        target_liquidity: u128,
        price_diff_bps: u64,
    ) -> (r: u128)
        ensures
            r == optimal_amount(source_liquidity as int, target_liquidity as int, price_diff_bps as int),
            ({
                let smaller = if source_liquidity <= target_liquidity {
                    source_liquidity as int
                } else {
                    target_liquidity as int
                };
                smaller * 5000 / 1_000_000 <= r <= smaller * 20_000 / 1_000_000
            }),
    {
        let smaller: u128 = if source_liquidity <= target_liquidity {
            source_liquidity
        } else {
            target_liquidity
        };
        let capped: u64 = if price_diff_bps > 2000 { 2000 } else { price_diff_bps };
        let multiplier: u128 = if capped * 10 < 5000 { 5000 } else { (capped * 10) as u128 };
        assert(multiplier == size_multiplier_bps(price_diff_bps as int));
        // Split off whole millions so that no product exceeds 128 bits.
        let q = smaller / 1_000_000;
        let rem = smaller % 1_000_000;
        assert(q * multiplier <= q * 20_000) by (nonlinear_arith)
            requires multiplier <= 20_000;
        assert(rem * multiplier <= 1_000_000 * 20_000) by (nonlinear_arith)
            requires multiplier <= 20_000, rem < 1_000_000;
        let low = rem * multiplier / 1_000_000;
        assert(low <= 20_000);
        let r = q * multiplier + low;
        proof {
            let m = multiplier as int;
            let si = smaller as int;
            let qi = q as int;
            let ri = rem as int;
            assert(si == qi * 1_000_000 + ri);
            assert(si * m == (ri * m) + (qi * m) * 1_000_000) by (nonlinear_arith)
                requires si == qi * 1_000_000 + ri;
            lemma_hoist_over_denominator(ri * m, qi * m, 1_000_000);
            assert(r == si * m / 1_000_000);
            assert(si * 5000 <= si * m) by (nonlinear_arith)
                requires 5000 <= m, 0 <= si;
            assert(si * 5000 / 1_000_000 <= si * m / 1_000_000) by (nonlinear_arith)
                requires si * 5000 <= si * m;
            assert(si * m <= si * 20_000) by (nonlinear_arith)
                requires m <= 20_000, 0 <= si;
            assert(si * m / 1_000_000 <= si * 20_000 / 1_000_000) by (nonlinear_arith)
                requires si * m <= si * 20_000;
        }
        r
    }
}

} // verus!
