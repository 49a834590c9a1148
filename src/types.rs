use vstd::prelude::*;

verus! {

/// One basis point is 1/10_000.
pub const BASIS_POINTS: u64 = 10_000;

/// A liquidity venue snapshot, produced by a price feed and read only here.
#[derive(Clone, Debug)]
pub struct PoolInfo {
    pub address: String,
    pub network: String,
    pub token0: String,
    pub token1: String,
    /// Current price, fixed point with 18 decimals.
    pub price: u128,
    /// Liquidity in venue-native units.
    pub liquidity: u128,
    pub fee_tier: u32,
}

/// A candidate trade between two pools.
///
/// `net_profit == profit_potential - execution_cost` is the caller's
/// responsibility; the engine only reads `net_profit`.
#[derive(Clone, Debug)]
pub struct ArbitrageOpportunity {
    pub source_pool: PoolInfo,
    pub target_pool: PoolInfo,
    pub profit_potential: i128,
    /// Amount to trade, in venue-native units.
    pub required_amount: u64,
    pub execution_cost: i128,
    pub net_profit: i128,
    /// Confidence in basis points: 10_000 stands for certainty.
    pub confidence: u32,
    pub timestamp: u64,
}

/// Tunable thresholds of the engine.
#[derive(Clone, Copy, Debug, PartialEq, Eq, Structural)]
pub struct CoreConfig {
    /// Largest accepted price impact, in basis points.
    pub max_slippage_bps: u32,
    /// Smallest accepted confidence, in basis points.
    pub min_confidence_bps: u32,
    /// Safety multiplier on gas estimates, in percent (120 adds 20%).
    pub gas_multiplier_pct: u64,
    /// Seconds between two finality polls.
    pub poll_interval_secs: u64,
    /// Seconds after which waiting for finality gives up.
    pub confirmation_timeout_secs: u64,
}

impl CoreConfig {
    /// The multiplier and the poll interval are positive.
    pub open spec fn wf(&self) -> bool {
        self.gas_multiplier_pct > 0 && self.poll_interval_secs > 0
    }

    /// 2% slippage, 0.7 confidence, +20% gas, polls every 10 s for 600 s.
    pub fn default_config() -> (r: CoreConfig)
        ensures
            r.wf(),
            r.max_slippage_bps == 200,
            r.min_confidence_bps == 7000,
            r.gas_multiplier_pct == 120,
            r.poll_interval_secs == 10,
            r.confirmation_timeout_secs == 600,
    {
        CoreConfig {
            max_slippage_bps: 200,
            min_confidence_bps: 7000,
            gas_multiplier_pct: 120,
            poll_interval_secs: 10,
            confirmation_timeout_secs: 600,
        }
    }
}

/// The engine: the two networks' endpoints and the thresholds it decides by.
pub struct ArbitrageCore {
    pub polygon_rpc: String,
    pub base_rpc: String,
    pub config: CoreConfig,
}

impl ArbitrageCore {
    pub open spec fn wf(&self) -> bool {
        self.config.wf()
    }

    /// An engine with the default thresholds.
    pub fn new(polygon_rpc: String, base_rpc: String) -> (r: ArbitrageCore)
        ensures
            r.wf(),
            r.polygon_rpc@ == polygon_rpc@,
            r.base_rpc@ == base_rpc@,
            r.config.max_slippage_bps == 200,
            r.config.min_confidence_bps == 7000,
            r.config.gas_multiplier_pct == 120,
            r.config.poll_interval_secs == 10,
            r.config.confirmation_timeout_secs == 600,
    {
        ArbitrageCore { polygon_rpc, base_rpc, config: CoreConfig::default_config() }
    }

    /// An engine with the given thresholds.
    pub fn with_config(polygon_rpc: String, base_rpc: String, config: CoreConfig) -> (r:
        ArbitrageCore)
        requires
            config.wf(),
        ensures
            r.wf(),
            r.polygon_rpc@ == polygon_rpc@,
            r.base_rpc@ == base_rpc@,
            r.config == config,
    {
        ArbitrageCore { polygon_rpc, base_rpc, config }
    }
}

} // verus!
