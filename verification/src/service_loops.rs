//! The monitoring loops of the validator and public nodes: what each does
//! with the accounts that its streams deliver. The caller runs the loop,
//! performs each action and hands back the next event.

use vstd::prelude::*;
use crate::chain::{Agent, NodeInfo, Pubkey};

verus! {

/// An event of a validator's loop over compute nodes awaiting validation.
#[derive(Clone, Debug)]
pub enum ComputeValidationEvent {
    /// The stream delivered a compute node awaiting validation.
    NodeAwaiting(NodeInfo),
    /// The last validation transaction confirmed.
    Validated,
    /// The last validation failed.
    ValidationFailed,
    /// The stream ended.
    StreamClosed,
    /// The operator interrupted the node.
    Interrupted,
}

/// Why the validator's loop ends with an error.
#[derive(Clone, Copy, Debug, PartialEq, Eq, Structural)]
pub enum ComputeValidationFailure {
    /// A validation failed ("Validation failed").
    ValidationFailed,
    /// The stream of nodes ended ("Subscription ended unexpectedly"); the
    /// subscription is stopped first.
    StreamEnded,
}

/// What the validator's loop does next.
#[derive(Clone, Copy, Debug)]
pub enum ComputeValidationAction {
    /// Validate the compute node with this key.
    ValidateNode(Pubkey),
    /// Wait for the next event.
    Continue,
    /// End the loop with this error.
    Fail(ComputeValidationFailure),
    /// End the loop.
    Stop,
}

/// The validator's response to an event: each compute node that the stream
/// delivers is validated; a failed validation and the end of the stream
/// each end the loop with their own error, an interruption ends it cleanly.
pub fn compute_validation_step(e: &ComputeValidationEvent) -> (a: ComputeValidationAction)
    ensures
        match e {
            ComputeValidationEvent::NodeAwaiting(n) => a matches ComputeValidationAction::ValidateNode(k) && k == n.node_pubkey,
            ComputeValidationEvent::Validated => a is Continue,
            ComputeValidationEvent::ValidationFailed =>
                a matches ComputeValidationAction::Fail(f) && f == ComputeValidationFailure::ValidationFailed,
            ComputeValidationEvent::StreamClosed =>
                a matches ComputeValidationAction::Fail(f) && f == ComputeValidationFailure::StreamEnded,
            ComputeValidationEvent::Interrupted => a is Stop,
        },
{
    match e {
        ComputeValidationEvent::NodeAwaiting(n) => ComputeValidationAction::ValidateNode(n.node_pubkey),
        ComputeValidationEvent::Validated => ComputeValidationAction::Continue,
        ComputeValidationEvent::ValidationFailed => ComputeValidationAction::Fail(ComputeValidationFailure::ValidationFailed),
        ComputeValidationEvent::StreamClosed => ComputeValidationAction::Fail(ComputeValidationFailure::StreamEnded),
        ComputeValidationEvent::Interrupted => ComputeValidationAction::Stop,
    }
}

/// The keys of the compute nodes that a validator validates at start-up:
/// those of the nodes listed as awaiting validation, in order.
pub fn nodes_to_validate(nodes: &Vec<NodeInfo>) -> (keys: Vec<Pubkey>)
    ensures
        keys@.len() == nodes@.len(),
        forall|i: int| 0 <= i < nodes@.len() ==> #[trigger] keys@[i] == nodes@[i].node_pubkey,
{
    let mut keys: Vec<Pubkey> = Vec::new();
    let mut i: usize = 0;
    while i < nodes.len()
        invariant
            i <= nodes@.len(),
            keys@.len() == i,
            forall|j: int| 0 <= j < i ==> #[trigger] keys@[j] == nodes@[j].node_pubkey,
        decreases nodes@.len() - i,
    {
        keys.push(nodes[i].node_pubkey);
        i = i + 1;
    }
    keys
}

/// An event of a public node's loop over agents pending validation.
#[derive(Clone, Debug)]
pub enum AgentValidationEvent {
    /// The stream delivered an agent pending validation.
    AgentPending(Agent),
    /// The stream ended.
    StreamEnded,
    /// Shutdown was requested.
    Shutdown,
}

/// What the agent validation loop does next.
#[derive(Clone, Copy, Debug, PartialEq, Eq, Structural)]
pub enum AgentValidationAction {
    /// Validate the agent in this slot; a failure is reported and the loop goes on.
    ValidateAgent(u64),
    /// End the loop with an error: the stream ended unexpectedly.
    Fail,
    /// End the loop.
    Stop,
}

/// The agent validation loop's response to an event.
pub fn agent_validation_step(e: &AgentValidationEvent) -> (a: AgentValidationAction)
    ensures
        match e {
            AgentValidationEvent::AgentPending(ag) => a == AgentValidationAction::ValidateAgent(ag.agent_slot_id),
            AgentValidationEvent::StreamEnded => a == AgentValidationAction::Fail,
            AgentValidationEvent::Shutdown => a == AgentValidationAction::Stop,
        },
{
    match e {
        AgentValidationEvent::AgentPending(ag) => AgentValidationAction::ValidateAgent(ag.agent_slot_id),
        AgentValidationEvent::StreamEnded => AgentValidationAction::Fail,
        AgentValidationEvent::Shutdown => AgentValidationAction::Stop,
    }
}

/// The slots of the agents that a public node validates at start-up: those
/// of the agents listed as pending, in order.
pub fn agents_to_validate(agents: &Vec<Agent>) -> (slots: Vec<u64>)
    ensures
        slots@.len() == agents@.len(),
        forall|i: int| 0 <= i < agents@.len() ==> #[trigger] slots@[i] == agents@[i].agent_slot_id,
{
    let mut slots: Vec<u64> = Vec::new();
    let mut i: usize = 0;
    while i < agents.len()
        invariant
            i <= agents@.len(),
            slots@.len() == i,
            forall|j: int| 0 <= j < i ==> #[trigger] slots@[j] == agents@[j].agent_slot_id,
        decreases agents@.len() - i,
    {
        slots.push(agents[i].agent_slot_id);
        i = i + 1;
    }
    slots
}

/// The least balance, in lamports, with which a node starts: 0.001 SOL.
pub const MIN_NODE_BALANCE: u64 = 1_000_000;

/// The start-up check of every node: its balance covers the minimum.
pub fn check_node_balance(balance: u64) -> (r: Result<(), u64>)
    ensures
        r is Ok <==> balance >= MIN_NODE_BALANCE,
        r matches Err(b) ==> b == balance,
{
    if balance < MIN_NODE_BALANCE {
        Err(balance)
    } else {
        Ok(())
    }
}

} // verus!
