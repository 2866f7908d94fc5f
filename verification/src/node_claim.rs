//! Start-up of compute and validator nodes: claim the node account, or wait
//! for it to be registered and claim it then; and the registry's rule for
//! registering a compute node. Each is a state machine whose actions the
//! caller performs, handing the outcome back as an event. An account stream
//! started by `WatchForClaim` lasts while the machine is `Monitoring`.

use vstd::prelude::*;
use crate::chain::{NodeInfo, NodeStatus};

verus! {

/// Where the claim of a node stands.
#[derive(Clone, Debug, PartialEq, Eq, Structural)]
pub enum NodeClaimState {
    /// Waiting for the lookup of the node account.
    Looking,
    /// Waiting for the claim transaction to confirm.
    Claiming,
    /// Waiting for the node account to appear, pending a claim.
    Monitoring,
    /// The claim is over; `true` when the node is claimed or active.
    Finished(bool),
}

/// An outcome of an action, handed back to the machine.
#[derive(Clone, Debug)]
pub enum NodeClaimEvent {
    /// The node account, or `None` where it does not exist.
    NodeLookup(Option<NodeInfo>),
    /// The claim transaction confirmed.
    ClaimConfirmed,
    /// The account stream delivered this node account.
    NodeUpdate(NodeInfo),
    /// The account stream ended.
    StreamClosed,
    /// The operator interrupted the node.
    Interrupted,
}

/// The node account that an event carries, if any.
pub open spec fn claim_event_node(e: NodeClaimEvent) -> Option<NodeInfo> {
    match e {
        NodeClaimEvent::NodeLookup(n) => n,
        NodeClaimEvent::NodeUpdate(n) => Some(n),
        _ => None,
    }
}

/// What a compute node does next.
#[derive(Clone, Debug, PartialEq, Eq)]
pub enum ComputeClaimAction {
    LookupNode,
    /// Send the claim of the compute node with this configuration CID.
    ClaimComputeNode(String),
    /// Stream this node's account while it is pending a claim.
    WatchForClaim,
    Wait,
    Stop,
}

/// The configuration CID that a compute node claims with: the one that the
/// account holds, or the empty string.
pub open spec fn cid_or_empty(cid: Option<String>) -> Seq<char> {
    match cid {
        Some(c) => c@,
        None => Seq::<char>::empty(),
    }
}

/// A compute node's action, with the claim's CID by its characters.
pub ghost enum ComputeStep {
    LookupNode,
    ClaimComputeNode(Seq<char>),
    WatchForClaim,
    Wait,
    Stop,
}

/// An action by its view.
pub open spec fn compute_step_of(a: ComputeClaimAction) -> ComputeStep {
    match a {
        ComputeClaimAction::LookupNode => ComputeStep::LookupNode,
        ComputeClaimAction::ClaimComputeNode(c) => ComputeStep::ClaimComputeNode(c@),
        ComputeClaimAction::WatchForClaim => ComputeStep::WatchForClaim,
        ComputeClaimAction::Wait => ComputeStep::Wait,
        ComputeClaimAction::Stop => ComputeStep::Stop,
    }
}

/// The transition of a compute node's claim on one event.
pub open spec fn compute_claim_step(s: NodeClaimState, e: NodeClaimEvent) -> (NodeClaimState, ComputeStep) {
    match (s, e) {
        (NodeClaimState::Looking, NodeClaimEvent::NodeLookup(Some(ni))) =>
            if ni.status == NodeStatus::PendingClaim {
                (NodeClaimState::Claiming, ComputeStep::ClaimComputeNode(Seq::<char>::empty()))
            } else if ni.status == NodeStatus::Active {
                (NodeClaimState::Finished(true), ComputeStep::Stop)
            } else {
                (NodeClaimState::Monitoring, ComputeStep::WatchForClaim)
            },
        (NodeClaimState::Looking, NodeClaimEvent::NodeLookup(None)) =>
            (NodeClaimState::Monitoring, ComputeStep::WatchForClaim),
        (NodeClaimState::Claiming, NodeClaimEvent::ClaimConfirmed) =>
            (NodeClaimState::Finished(true), ComputeStep::Stop),
        (NodeClaimState::Monitoring, NodeClaimEvent::NodeUpdate(ni)) =>
            if ni.status == NodeStatus::PendingClaim {
                (NodeClaimState::Claiming, ComputeStep::ClaimComputeNode(cid_or_empty(ni.node_info_cid)))
            } else {
                (NodeClaimState::Monitoring, ComputeStep::Wait)
            },
        (NodeClaimState::Monitoring, NodeClaimEvent::StreamClosed) =>
            (NodeClaimState::Finished(false), ComputeStep::Stop),
        (NodeClaimState::Monitoring, NodeClaimEvent::Interrupted) =>
            (NodeClaimState::Finished(false), ComputeStep::Stop),
        (s, _) => (s, ComputeStep::Wait),
    }
}

/// The first state and action of a compute node's claim.
pub fn compute_claim_start() -> (r: (NodeClaimState, ComputeClaimAction))
    ensures
        r == (NodeClaimState::Looking, ComputeClaimAction::LookupNode),
{
    (NodeClaimState::Looking, ComputeClaimAction::LookupNode)
}

/// One transition of a compute node's claim.
pub fn compute_claim_step_exec(s: NodeClaimState, e: NodeClaimEvent) -> (r: (NodeClaimState, ComputeClaimAction))
    ensures
        (r.0, compute_step_of(r.1)) == compute_claim_step(s, e),
        s == NodeClaimState::Looking && (e matches NodeClaimEvent::NodeLookup(Some(ni)) && ni.status == NodeStatus::PendingClaim)
            ==> r.0 == NodeClaimState::Claiming && (r.1 matches ComputeClaimAction::ClaimComputeNode(c) && c@.len() == 0),
        s == NodeClaimState::Monitoring && (e matches NodeClaimEvent::NodeUpdate(ni) && ni.status == NodeStatus::PendingClaim)
            ==> r.0 == NodeClaimState::Claiming && (r.1 matches ComputeClaimAction::ClaimComputeNode(c)
                && (claim_event_node(e)->0.node_info_cid matches Some(held) ==> c == held)
                && (claim_event_node(e)->0.node_info_cid is None ==> c@.len() == 0)),
{
    match (s, e) {
        (NodeClaimState::Looking, NodeClaimEvent::NodeLookup(Some(ni))) => {
            if ni.status == NodeStatus::PendingClaim {
                (NodeClaimState::Claiming, ComputeClaimAction::ClaimComputeNode(String::new()))
            } else if ni.status == NodeStatus::Active {
                (NodeClaimState::Finished(true), ComputeClaimAction::Stop)
            } else {
                (NodeClaimState::Monitoring, ComputeClaimAction::WatchForClaim)
            }
        },
        (NodeClaimState::Looking, NodeClaimEvent::NodeLookup(None)) =>
            (NodeClaimState::Monitoring, ComputeClaimAction::WatchForClaim),
        (NodeClaimState::Claiming, NodeClaimEvent::ClaimConfirmed) =>
            (NodeClaimState::Finished(true), ComputeClaimAction::Stop),
        (NodeClaimState::Monitoring, NodeClaimEvent::NodeUpdate(ni)) => {
            if ni.status == NodeStatus::PendingClaim {
                let cid = match ni.node_info_cid {
                    Some(c) => c,
                    None => String::new(),
                };
                (NodeClaimState::Claiming, ComputeClaimAction::ClaimComputeNode(cid))
            } else {
                (NodeClaimState::Monitoring, ComputeClaimAction::Wait)
            }
        },
        (NodeClaimState::Monitoring, NodeClaimEvent::StreamClosed) =>
            (NodeClaimState::Finished(false), ComputeClaimAction::Stop),
        (NodeClaimState::Monitoring, NodeClaimEvent::Interrupted) =>
            (NodeClaimState::Finished(false), ComputeClaimAction::Stop),
        (s, _) => (s, ComputeClaimAction::Wait),
    }
}

/// What a validator node does next.
#[derive(Clone, Copy, Debug, PartialEq, Eq, Structural)]
pub enum ValidatorClaimAction {
    LookupNode,
    /// Send the claim of the validator node with its TEE attestation.
    ClaimValidatorNode,
    /// Stream this node's account, as a validator pending a claim.
    WatchForClaim,
    Wait,
    Stop,
}

/// The transition of a validator node's claim on one event. While it
/// monitors, any account that the stream delivers is claimed.
pub open spec fn validator_claim_step(s: NodeClaimState, e: NodeClaimEvent) -> (NodeClaimState, ValidatorClaimAction) {
    match (s, e) {
        (NodeClaimState::Looking, NodeClaimEvent::NodeLookup(Some(ni))) =>
            if ni.status == NodeStatus::PendingClaim {
                (NodeClaimState::Claiming, ValidatorClaimAction::ClaimValidatorNode)
            } else if ni.status == NodeStatus::Active {
                (NodeClaimState::Finished(true), ValidatorClaimAction::Stop)
            } else {
                (NodeClaimState::Monitoring, ValidatorClaimAction::WatchForClaim)
            },
        (NodeClaimState::Looking, NodeClaimEvent::NodeLookup(None)) =>
            (NodeClaimState::Monitoring, ValidatorClaimAction::WatchForClaim),
        (NodeClaimState::Claiming, NodeClaimEvent::ClaimConfirmed) =>
            (NodeClaimState::Finished(true), ValidatorClaimAction::Stop),
        (NodeClaimState::Monitoring, NodeClaimEvent::NodeUpdate(_)) =>
            (NodeClaimState::Claiming, ValidatorClaimAction::ClaimValidatorNode),
        (NodeClaimState::Monitoring, NodeClaimEvent::StreamClosed) =>
            (NodeClaimState::Finished(false), ValidatorClaimAction::Stop),
        (NodeClaimState::Monitoring, NodeClaimEvent::Interrupted) =>
            (NodeClaimState::Finished(false), ValidatorClaimAction::Stop),
        (s, _) => (s, ValidatorClaimAction::Wait),
    }
}

/// The first state and action of a validator node's claim.
pub fn validator_claim_start() -> (r: (NodeClaimState, ValidatorClaimAction))
    ensures
        r == (NodeClaimState::Looking, ValidatorClaimAction::LookupNode),
{
    (NodeClaimState::Looking, ValidatorClaimAction::LookupNode)
}

/// One transition of a validator node's claim.
pub fn validator_claim_step_exec(s: NodeClaimState, e: NodeClaimEvent) -> (r: (NodeClaimState, ValidatorClaimAction))
    ensures
        r == validator_claim_step(s, e),
        s == NodeClaimState::Looking && (e matches NodeClaimEvent::NodeLookup(Some(ni)) && ni.status == NodeStatus::PendingClaim)
            ==> r == (NodeClaimState::Claiming, ValidatorClaimAction::ClaimValidatorNode),
        s == NodeClaimState::Monitoring && e is NodeUpdate
            ==> r == (NodeClaimState::Claiming, ValidatorClaimAction::ClaimValidatorNode),
{
    match (s, e) {
        (NodeClaimState::Looking, NodeClaimEvent::NodeLookup(Some(ni))) => {
            if ni.status == NodeStatus::PendingClaim {
                (NodeClaimState::Claiming, ValidatorClaimAction::ClaimValidatorNode)
            } else if ni.status == NodeStatus::Active {
                (NodeClaimState::Finished(true), ValidatorClaimAction::Stop)
            } else {
                (NodeClaimState::Monitoring, ValidatorClaimAction::WatchForClaim)
            }
        },
        (NodeClaimState::Looking, NodeClaimEvent::NodeLookup(None)) =>
            (NodeClaimState::Monitoring, ValidatorClaimAction::WatchForClaim),
        (NodeClaimState::Claiming, NodeClaimEvent::ClaimConfirmed) =>
            (NodeClaimState::Finished(true), ValidatorClaimAction::Stop),
        (NodeClaimState::Monitoring, NodeClaimEvent::NodeUpdate(_)) =>
            (NodeClaimState::Claiming, ValidatorClaimAction::ClaimValidatorNode),
        (NodeClaimState::Monitoring, NodeClaimEvent::StreamClosed) =>
            (NodeClaimState::Finished(false), ValidatorClaimAction::Stop),
        (NodeClaimState::Monitoring, NodeClaimEvent::Interrupted) =>
            (NodeClaimState::Finished(false), ValidatorClaimAction::Stop),
        (s, _) => (s, ValidatorClaimAction::Wait),
    }
}

/// Whether the compute-node registry registers a node, given the lookup
/// of its account: when it does not exist or is still pending a claim.
pub open spec fn registry_registers(lookup: Option<NodeInfo>) -> bool {
    match lookup {
        None => true,
        Some(ni) => ni.status == NodeStatus::PendingClaim,
    }
}

/// The registry's decision for a node: `true` to register it as a compute node.
pub fn registry_should_register(lookup: &Option<NodeInfo>) -> (r: bool)
    ensures
        r == registry_registers(*lookup),
{
    match lookup {
        None => true,
        Some(ni) => ni.status == NodeStatus::PendingClaim,
    }
}

/// Law: once a claim is over, no event changes its outcome or asks for
/// anything more, for compute and validator nodes alike.
pub proof fn lemma_claim_over_is_final(b: bool, e: NodeClaimEvent)
    ensures
        compute_claim_step(NodeClaimState::Finished(b), e) == (NodeClaimState::Finished(b), ComputeStep::Wait),
        validator_claim_step(NodeClaimState::Finished(b), e) == (NodeClaimState::Finished(b), ValidatorClaimAction::Wait),
{
}

/// Law: a compute node sends a claim only for an account that it has just
/// seen pending a claim.
pub proof fn lemma_compute_claims_only_pending(s: NodeClaimState, e: NodeClaimEvent)
    requires
        compute_claim_step(s, e).1 is ClaimComputeNode,
    ensures
        claim_event_node(e) matches Some(ni) && ni.status == NodeStatus::PendingClaim,
{
}

/// Law: a node that finds its account pending a claim claims it at once,
/// compute and validator nodes alike. A compute node claims with the CID
/// that the account holds, or with the empty CID where it holds none (at
/// start-up always with the empty CID); it never just waits on such an
/// account.
pub proof fn lemma_pending_account_is_claimed(ni: NodeInfo)
    requires
        ni.status == NodeStatus::PendingClaim,
    ensures
        compute_claim_step(NodeClaimState::Looking, NodeClaimEvent::NodeLookup(Some(ni)))
            == (NodeClaimState::Claiming, ComputeStep::ClaimComputeNode(seq![])),
        validator_claim_step(NodeClaimState::Looking, NodeClaimEvent::NodeLookup(Some(ni)))
            == (NodeClaimState::Claiming, ValidatorClaimAction::ClaimValidatorNode),
        ni.node_info_cid matches Some(c) ==> compute_claim_step(NodeClaimState::Monitoring, NodeClaimEvent::NodeUpdate(ni))
            == (NodeClaimState::Claiming, ComputeStep::ClaimComputeNode(c@)),
        ni.node_info_cid is None ==> compute_claim_step(NodeClaimState::Monitoring, NodeClaimEvent::NodeUpdate(ni))
            == (NodeClaimState::Claiming, ComputeStep::ClaimComputeNode(seq![])),
        validator_claim_step(NodeClaimState::Monitoring, NodeClaimEvent::NodeUpdate(ni))
            == (NodeClaimState::Claiming, ValidatorClaimAction::ClaimValidatorNode),
{
    assert(Seq::<char>::empty() =~= seq![]);
}

/// Law: a node's claim succeeds only on a confirmed claim or on a lookup
/// that finds the node already active, for compute and validator nodes alike.
pub proof fn lemma_claim_success_sources(s: NodeClaimState, e: NodeClaimEvent)
    requires
        s != NodeClaimState::Finished(true),
        compute_claim_step(s, e).0 == NodeClaimState::Finished(true)
            || validator_claim_step(s, e).0 == NodeClaimState::Finished(true),
    ensures
        e is ClaimConfirmed || (e matches NodeClaimEvent::NodeLookup(Some(ni)) && ni.status == NodeStatus::Active),
{
}

} // verus!
