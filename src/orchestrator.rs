use vstd::prelude::*;
use crate::types::{ArbitrageCore, ArbitrageOpportunity, CoreConfig};
use crate::validator::opportunity_accepted;

verus! {

/// Where one execution flow stands. The flow only moves forward:
/// validating, selling on the source venue, bridging, waiting for the
/// bridge's finality, buying on the target venue, and then one of the
/// terminal stages.
#[derive(Clone, Copy, Debug, PartialEq, Eq, Structural)]
pub enum Stage {
    Validating,
    SourceTrading,
    Bridging,
    ConfirmingBridge,
    TargetTrading,
    Completed,
    Rejected,
    Failed,
}

/// Position of a stage in the pipeline; the terminal stages come last.
pub open spec fn stage_rank(s: Stage) -> int {
    match s {
        Stage::Validating => 0,
        Stage::SourceTrading => 1,
        Stage::Bridging => 2,
        Stage::ConfirmingBridge => 3,
        Stage::TargetTrading => 4,
        _ => 5,
    }
}

pub open spec fn is_terminal(s: Stage) -> bool {
    s == Stage::Completed || s == Stage::Rejected || s == Stage::Failed
}

/// Why a flow ended without a settlement.
#[derive(Clone, Copy, Debug, PartialEq, Eq, Structural)]
pub enum ExecutionError {
    /// The opportunity failed the business rules; not a fault.
    ValidationRejected,
    /// The trade venue or the bridge reported an error at the given stage.
    CollaboratorFailure(Stage),
    /// The bridge was not final by the deadline; funds may be in transit.
    ConfirmationTimeout,
    /// The caller gave up waiting for the bridge's finality.
    CancellationRequested,
}

#[derive(Clone, Copy, Debug, PartialEq, Eq, Structural)]
pub enum TradeSide {
    Sell,
    Buy,
}

/// What the driver of a flow is to do next.
#[derive(Clone, Debug)]
pub enum Action {
    /// Execute a trade on the trade venue.
    Trade { network: String, pool: String, amount: u64, side: TradeSide },
    /// Move `amount` from one network to another through the bridge service.
    Bridge { source_network: String, target_network: String, amount: u64 },
    /// Ask the chain observer whether `reference` is final.
    PollFinality { reference: String },
    /// Suspend for `secs` seconds; this wait may be cancelled.
    Wait { secs: u64 },
    /// The flow is complete; `settlement` is the target trade's reference.
    Finish { settlement: String },
    /// The flow has ended with `error`.
    Abort { error: ExecutionError },
    /// The event does not apply at this stage; carry on as before.
    Ignore,
}

/// What the driver reports back after performing an action.
#[derive(Clone, Debug)]
pub enum Event {
    /// The trade venue accepted a trade and gave its reference.
    TradeSubmitted { reference: String },
    /// The bridge service accepted a transfer and gave its reference.
    BridgeSubmitted { reference: String },
    /// The trade venue or the bridge service reported an error.
    CallFailed,
    /// A finality poll returned; `elapsed_secs` counts from the start of waiting.
    Polled { finalized: bool, elapsed_secs: u64 },
    /// A wait ended; `elapsed_secs` counts from the start of waiting.
    Waited { elapsed_secs: u64 },
    /// The caller cancelled.
    Cancelled,
}

/// The state of one flow: its stage and, once bridged, the bridge's reference.
#[derive(Clone, Debug)]
pub struct Execution {
    pub stage: Stage,
    pub bridge_reference: String,
}

/// Whether the event reports a time at or past the confirmation deadline.
pub open spec fn deadline_passed(config: CoreConfig, event: Event) -> bool {
    match event {
        Event::Polled { elapsed_secs, .. } => elapsed_secs >= config.confirmation_timeout_secs,
        Event::Waited { elapsed_secs } => elapsed_secs >= config.confirmation_timeout_secs,
        _ => false,
    }
}

/// The stage that follows `stage` on `event`.
pub open spec fn next_stage(config: CoreConfig, stage: Stage, event: Event) -> Stage {
    match stage {
        Stage::SourceTrading => match event {
            Event::TradeSubmitted { .. } => Stage::Bridging,
            Event::CallFailed => Stage::Failed,
            _ => stage,
        },
        Stage::Bridging => match event {
            Event::BridgeSubmitted { .. } => Stage::ConfirmingBridge,
            Event::CallFailed => Stage::Failed,
            _ => stage,
        },
        Stage::ConfirmingBridge => match event {
            Event::Polled { finalized, .. } => if finalized {
                Stage::TargetTrading
            } else if deadline_passed(config, event) {
                Stage::Failed
            } else {
                stage
            },
            Event::Waited { .. } => if deadline_passed(config, event) {
                Stage::Failed
            } else {
                stage
            },
            Event::Cancelled => Stage::Failed,
            _ => stage,
        },
        Stage::TargetTrading => match event {
            Event::TradeSubmitted { .. } => Stage::Completed,
            Event::CallFailed => Stage::Failed,
            _ => stage,
        },
        _ => stage,
    }
}

/// The action that goes with moving from `stage` on `event`.
pub open spec fn next_action(
    config: CoreConfig,
    opp: ArbitrageOpportunity,
    stage: Stage,
    bridge_reference: Seq<char>,
    event: Event,
    a: Action,
) -> bool {
    let next = next_stage(config, stage, event);
    if next == stage {
        if stage == Stage::ConfirmingBridge && event is Polled {
            a == Action::Wait { secs: config.poll_interval_secs }
        } else if stage == Stage::ConfirmingBridge && event is Waited {
            a matches Action::PollFinality { reference } && reference@ == bridge_reference
        } else {
            a is Ignore
        }
    } else if next == Stage::Failed {
        a is Abort && a->error == (if event is CallFailed {
            ExecutionError::CollaboratorFailure(stage)
        } else if event is Cancelled {
            ExecutionError::CancellationRequested
        } else {
            ExecutionError::ConfirmationTimeout
        })
    } else if next == Stage::Bridging {
        &&& a matches Action::Bridge { source_network, target_network, amount }
        &&& source_network@ == opp.source_pool.network@
        &&& target_network@ == opp.target_pool.network@
        &&& amount == opp.required_amount
    } else if next == Stage::ConfirmingBridge {
        a matches Action::PollFinality { reference } && event matches Event::BridgeSubmitted {
            reference: r,
        } && reference@ == r@
    } else if next == Stage::TargetTrading {
        &&& a matches Action::Trade { network, pool, amount, side }
        &&& network@ == opp.target_pool.network@
        &&& pool@ == opp.target_pool.address@
        &&& amount == opp.required_amount
        &&& side == TradeSide::Buy
    } else {
        a matches Action::Finish { settlement } && event matches Event::TradeSubmitted {
            reference,
        } && settlement@ == reference@
    }
}

impl ArbitrageCore {
    /// Starts a flow: validates the opportunity and, if it is accepted, asks
    /// for the sale of the required amount on the source pool.
    pub fn begin_execution(&self, opportunity: &ArbitrageOpportunity) -> (r: (Execution, Action))
        ensures
            r.0.bridge_reference@.len() == 0,
            !opportunity_accepted(self.config, *opportunity) ==> {
                &&& r.0.stage == Stage::Rejected
                &&& r.1 == Action::Abort { error: ExecutionError::ValidationRejected }
            },
            opportunity_accepted(self.config, *opportunity) ==> {
                &&& r.0.stage == Stage::SourceTrading
                &&& r.1 matches Action::Trade { network, pool, amount, side }
                &&& network@ == opportunity.source_pool.network@
                &&& pool@ == opportunity.source_pool.address@
                &&& amount == opportunity.required_amount
                &&& side == TradeSide::Sell
            },
    {
        if !self.validate_opportunity(opportunity) {
            return (
                Execution { stage: Stage::Rejected, bridge_reference: String::new() },
                Action::Abort { error: ExecutionError::ValidationRejected },
            );
        }
        (
            Execution { stage: Stage::SourceTrading, bridge_reference: String::new() },
            Action::Trade {
                network: opportunity.source_pool.network.clone(),
                pool: opportunity.source_pool.address.clone(),
                amount: opportunity.required_amount,
                side: TradeSide::Sell,
            },
        )
    }

    /// Moves a flow on by one event and says what to do next. A stage is
    /// never re-entered once left, a terminal stage is never left, and the
    /// wait for finality times out only once the deadline has passed.
    pub fn advance(
        &self,
        execution: &mut Execution,
        opportunity: &ArbitrageOpportunity,
        event: Event,
    ) -> (a: Action)
        ensures
            final(execution).stage == next_stage(self.config, old(execution).stage, event),
            next_action(
                self.config,
                *opportunity,
                old(execution).stage,
                old(execution).bridge_reference@,
                event,
                a,
            ),
            old(execution).stage == Stage::Bridging && event is BridgeSubmitted
                ==> final(execution).bridge_reference@ == event->BridgeSubmitted_reference@,
            !(old(execution).stage == Stage::Bridging && event is BridgeSubmitted)
                ==> final(execution).bridge_reference@ == old(execution).bridge_reference@,
            stage_rank(old(execution).stage) <= stage_rank(final(execution).stage),
            is_terminal(old(execution).stage) ==> final(execution).stage == old(execution).stage,
            (a matches Action::Abort { error } && error == ExecutionError::ConfirmationTimeout)
                ==> deadline_passed(self.config, event),
    {
        let stage = execution.stage;
        let timeout = self.config.confirmation_timeout_secs;
        match event {
            Event::TradeSubmitted { reference } => {
                if stage == Stage::SourceTrading {
                    execution.stage = Stage::Bridging;
                    Action::Bridge {
                        source_network: opportunity.source_pool.network.clone(),
                        target_network: opportunity.target_pool.network.clone(),
                        amount: opportunity.required_amount,
                    }
                } else if stage == Stage::TargetTrading {
                    execution.stage = Stage::Completed;
                    Action::Finish { settlement: reference }
                } else {
                    Action::Ignore
                }
            },
            Event::BridgeSubmitted { reference } => {
                if stage == Stage::Bridging {
                    execution.stage = Stage::ConfirmingBridge;
                    execution.bridge_reference = reference.clone();
                    Action::PollFinality { reference }
                } else {
                    Action::Ignore
                }
            },
            Event::CallFailed => {
                if stage == Stage::SourceTrading || stage == Stage::Bridging || stage
                    == Stage::TargetTrading {
                    execution.stage = Stage::Failed;
                    Action::Abort { error: ExecutionError::CollaboratorFailure(stage) }
                } else {
                    Action::Ignore
                }
            },
            Event::Polled { finalized, elapsed_secs } => {
                if stage != Stage::ConfirmingBridge {
                    Action::Ignore
                } else if finalized {
                    execution.stage = Stage::TargetTrading;
                    Action::Trade {
                        network: opportunity.target_pool.network.clone(),
                        pool: opportunity.target_pool.address.clone(),
                        amount: opportunity.required_amount,
                        side: TradeSide::Buy,
                    }
                } else if elapsed_secs >= timeout {
                    execution.stage = Stage::Failed;
                    Action::Abort { error: ExecutionError::ConfirmationTimeout }
                } else {
                    Action::Wait { secs: self.config.poll_interval_secs }
                }
            },
            Event::Waited { elapsed_secs } => {
                if stage != Stage::ConfirmingBridge {
                    Action::Ignore
                } else if elapsed_secs >= timeout {
                    execution.stage = Stage::Failed;
                    Action::Abort { error: ExecutionError::ConfirmationTimeout }
                } else {
                    Action::PollFinality { reference: execution.bridge_reference.clone() }
                }
            },
            Event::Cancelled => {
                if stage == Stage::ConfirmingBridge {
                    execution.stage = Stage::Failed;
                    Action::Abort { error: ExecutionError::CancellationRequested }
                } else {
                    Action::Ignore
                }
            },
        }
    }
}

} // verus!
