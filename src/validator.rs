use vstd::prelude::*;
use crate::address::{is_valid_address, valid_address};
use crate::pricing::{impact_den, impact_num, price_impact};
use crate::types::{ArbitrageCore, ArbitrageOpportunity, CoreConfig, BASIS_POINTS};

verus! {

/// Whether the impact of `amount` against `liquidity` is at most `max_bps`.
pub open spec fn impact_within(amount: int, liquidity: int, max_bps: int) -> bool {
    impact_num(amount, liquidity) * BASIS_POINTS <= max_bps * impact_den(amount, liquidity)
}

/// The business rules an opportunity must all pass to be executed.
pub open spec fn opportunity_accepted(config: CoreConfig, opp: ArbitrageOpportunity) -> bool {
    &&& opp.net_profit > 0
    &&& opp.confidence >= config.min_confidence_bps
    &&& valid_address(opp.source_pool.address@)
    &&& valid_address(opp.target_pool.address@)
    &&& impact_within(
        opp.required_amount as int,
        opp.source_pool.liquidity as int,
        config.max_slippage_bps as int,
    )
}

impl ArbitrageCore {
    /// Accepts an opportunity only if it is profitable, confident enough, both
    /// pool addresses are valid, and its price impact on the source pool is
    /// within the slippage limit. Checks stop at the first failure.
    pub fn validate_opportunity(&self, opportunity: &ArbitrageOpportunity) -> (r: bool)
        ensures
            r == opportunity_accepted(self.config, *opportunity),
    {
        if opportunity.net_profit <= 0 {
            return false;
        }
        if opportunity.confidence < self.config.min_confidence_bps {
            return false;
        }
        if !is_valid_address(&opportunity.source_pool.address) || !is_valid_address(
            &opportunity.target_pool.address,
        ) {
            return false;
        }
        let amount = opportunity.required_amount;
        let liquidity = opportunity.source_pool.liquidity;
        let max = self.config.max_slippage_bps as u128;
        if liquidity == 0 {
            return BASIS_POINTS as u128 <= max;
        }
        if max == 0 {
            return amount == 0;
        }
        if liquidity >= 0x1_0000_0000_0000_0000_0000 {
            // The pool dwarfs any amount: the impact is far below one basis point.
            assert(amount * 10_000 < liquidity) by (nonlinear_arith)
                requires amount <= u64::MAX, liquidity >= 0x1_0000_0000_0000_0000_0000;
            assert(liquidity + amount <= max * (liquidity + amount)) by (nonlinear_arith)
                requires max >= 1;
            return true;
        }
        let impact = price_impact(amount, liquidity);
        assert(max * impact.den <= (u32::MAX as u128) * 0x2_0000_0000_0000_0000_0000) by (
        nonlinear_arith)
            requires max <= u32::MAX, impact.den <= 0x2_0000_0000_0000_0000_0000;
        assert(impact.num * 10_000 <= (u64::MAX as u128) * 10_000) by (nonlinear_arith)
            requires impact.num <= u64::MAX;
        impact.num * (BASIS_POINTS as u128) <= max * impact.den
    }
}

} // verus!
