//! Decision-and-orchestration engine for cross-venue arbitrage: opportunity
//! validation, price-impact and sizing models, gas estimation, transaction
//! construction, and the cross-chain execution state machine.
//!
//! Amounts are integers in venue-native units; probabilities and thresholds
//! are integers in basis points (1/10_000), so that every rule is exact.
use vstd::prelude::*;

pub mod types;
pub mod address;
pub mod pricing;
pub mod gas;
pub mod transaction;
pub mod validator;
pub mod orchestrator;
