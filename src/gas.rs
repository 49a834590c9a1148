use vstd::prelude::*;
use vstd::string::StrSliceExecFns;
use crate::types::ArbitrageCore;
use crate::transaction::{SecureTransaction, Uint256};

verus! {

/// Gas for execution on the home network.
pub const BASE_GAS: u64 = 150_000;

/// Extra gas for a path that crosses to another network.
pub const CROSS_CHAIN_GAS: u64 = 300_000;

/// The home network, on which no bridge is needed.
pub open spec fn home_network() -> Seq<char> {
    seq!['p', 'o', 'l', 'y', 'g', 'o', 'n']
}

/// Gas before the safety multiplier.
pub open spec fn raw_gas(network: Seq<char>) -> int {
    if network == home_network() {
        BASE_GAS as int
    } else {
        BASE_GAS + CROSS_CHAIN_GAS
    }
}

/// Gas after the multiplier, given in percent, rounded down.
pub open spec fn gas_estimate(network: Seq<char>, multiplier_pct: int) -> int {
    raw_gas(network) * multiplier_pct / 100
}

/// Whether `network` names the home network.
pub fn is_home_network(network: &str) -> (r: bool)
    ensures
        r == (network@ == home_network()),
{
    let expected: [char; 7] = ['p', 'o', 'l', 'y', 'g', 'o', 'n'];
    assert(expected@ =~= home_network());
    if network.unicode_len() != 7 {
        return false;
    }
    let mut i: usize = 0;
    while i < 7
        invariant
            i <= 7,
            network@.len() == 7,
            expected@ == home_network(),
            forall|j: int| 0 <= j < i ==> network@[j] == expected@[j],
        decreases 7 - i,
    {
        if network.get_char(i) != expected[i] {
            return false;
        }
        i = i + 1;
    }
    assert(network@ =~= home_network());
    true
}

impl ArbitrageCore {
    /// Gas estimate for a transaction on `network`, with the safety multiplier
    /// applied by integer percentage. Never zero.
    pub fn estimate_gas_cost(&self, network: &str, transaction: &SecureTransaction) -> (r: Uint256)
        requires
            self.wf(),
        ensures
            r.value() == gas_estimate(network@, self.config.gas_multiplier_pct as int),
            r.value() > 0,
    {
        let estimated: u64 = if is_home_network(network) {
            BASE_GAS
        } else {
            BASE_GAS + CROSS_CHAIN_GAS
        };
        let pct = self.config.gas_multiplier_pct as u128;
        assert((estimated as u128) * pct <= 450_000 * (u64::MAX as u128)) by (nonlinear_arith)
            requires estimated <= 450_000, pct <= u64::MAX;
        let safe = (estimated as u128) * pct / 100;
        assert(safe >= 1) by (nonlinear_arith)
            requires safe == (estimated as u128) * pct / 100, estimated >= 150_000, pct >= 1;
        Uint256::from_u128(safe)
    }
}

} // verus!
