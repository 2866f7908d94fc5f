//! Errors of the library's operations.

use vstd::prelude::*;
use crate::chain::Pubkey;

verus! {

/// Which program-derived address could not be found.
#[derive(Clone, Copy, Debug, PartialEq, Eq, Structural)]
pub enum PdaKind {
    NetworkConfig,
    NodeInfo,
    Agent,
    Goal,
    Task,
    NodeTreasury,
    GoalVault,
    Contribution,
    ComputeNodeInfo,
    ManagerAgent,
}

/// An error of the DAC client logic.
#[derive(Clone, Debug)]
pub enum DacError {
    /// No bump seed gives an address off the curve for these seeds.
    PdaDerivationFailed(PdaKind),
    /// The network configuration account does not exist.
    NetworkNotInitialized,
    /// No task account at this slot.
    TaskNotFound(u64),
    /// No goal account refers to the task at this slot.
    GoalForTaskNotFound(u64),
    /// No goal account at this slot.
    GoalNotFound(u64),
    /// No agent account at this address.
    AgentNotFound(Pubkey),
    /// The task has no compute node assigned.
    TaskHasNoNode,
}

} // verus!
