//! Start-up of a public node: claim the node account, publishing the node's
//! configuration, and wait until the network activates it. The decisions are
//! a state machine; the caller performs each action (lookups, uploads,
//! transactions, account streams) and hands the outcome back as an event.
//!
//! An account stream started by a `Watch…` action lasts while the machine
//! stays in the state that asked for it (`Monitoring` or `Activating`).

use vstd::prelude::*;
use crate::chain::{NodeInfo, NodeStatus, Pubkey, base58, pubkey_to_base58};
use vstd::string::StringExecFns;

verus! {

/// Where the start-up of a public node stands.
#[derive(Clone, Debug)]
pub enum PublicClaimState {
    /// Waiting for the lookup of the node account.
    Looking,
    /// Waiting for the node's configuration to be published.
    Uploading,
    /// Waiting for the claim transaction to confirm.
    Claiming,
    /// The node is not registered yet: waiting for its account to appear,
    /// pending a claim.
    Monitoring,
    /// Waiting for the lookup of the node account after the claim.
    Checking,
    /// The node awaits validation: waiting for its status to change.
    Activating,
    /// Start-up ended; `true` when the node is active.
    Finished(bool),
    /// The node account vanished after it was claimed.
    Failed,
}

/// An outcome of an action, handed back to the machine.
#[derive(Clone, Debug)]
pub enum PublicClaimEvent {
    /// The node account, or `None` where it does not exist.
    NodeLookup(Option<NodeInfo>),
    /// The node's configuration was published under this CID.
    ConfigUploaded(String),
    /// The claim transaction confirmed.
    ClaimConfirmed,
    /// The account stream delivered this node account.
    NodeUpdate(NodeInfo),
    /// The account stream ended.
    StreamClosed,
    /// The operator interrupted the node.
    Interrupted,
}

/// What the caller does next.
#[derive(Clone, Debug, PartialEq, Eq)]
pub enum PublicClaimAction {
    /// Look up the node account.
    LookupNode,
    /// Collect the node's configuration and publish it.
    CollectAndUploadConfig,
    /// Send the claim of the public node with its configuration's CID.
    ClaimPublicNode(String),
    /// Stream this node's account, as a public node pending a claim.
    WatchForClaim,
    /// Stream this node's account, as a public node, in any status.
    WatchStatus,
    /// Wait for the next event.
    Wait,
    /// Stop: start-up is over.
    Stop,
}

/// The machine's first state and action.
pub open spec fn public_claim_start() -> (PublicClaimState, PublicClaimAction) {
    (PublicClaimState::Looking, PublicClaimAction::LookupNode)
}

/// The transition on one event.
pub open spec fn public_claim_step(s: PublicClaimState, e: PublicClaimEvent) -> (PublicClaimState, PublicClaimAction) {
    match (s, e) {
        (PublicClaimState::Looking, PublicClaimEvent::NodeLookup(None)) =>
            (PublicClaimState::Monitoring, PublicClaimAction::WatchForClaim),
        (PublicClaimState::Looking, PublicClaimEvent::NodeLookup(Some(ni))) =>
            if ni.status == NodeStatus::PendingClaim {
                (PublicClaimState::Uploading, PublicClaimAction::CollectAndUploadConfig)
            } else {
                (PublicClaimState::Checking, PublicClaimAction::LookupNode)
            },
        (PublicClaimState::Uploading, PublicClaimEvent::ConfigUploaded(cid)) =>
            (PublicClaimState::Claiming, PublicClaimAction::ClaimPublicNode(cid)),
        (PublicClaimState::Claiming, PublicClaimEvent::ClaimConfirmed) =>
            (PublicClaimState::Checking, PublicClaimAction::LookupNode),
        (PublicClaimState::Monitoring, PublicClaimEvent::NodeUpdate(ni)) =>
            if ni.status == NodeStatus::PendingClaim {
                match ni.node_info_cid {
                    Some(cid) => (PublicClaimState::Claiming, PublicClaimAction::ClaimPublicNode(cid)),
                    None => (PublicClaimState::Uploading, PublicClaimAction::CollectAndUploadConfig),
                }
            } else {
                (PublicClaimState::Monitoring, PublicClaimAction::Wait)
            },
        (PublicClaimState::Monitoring, PublicClaimEvent::StreamClosed) =>
            (PublicClaimState::Finished(false), PublicClaimAction::Stop),
        (PublicClaimState::Monitoring, PublicClaimEvent::Interrupted) =>
            (PublicClaimState::Finished(false), PublicClaimAction::Stop),
        (PublicClaimState::Checking, PublicClaimEvent::NodeLookup(None)) =>
            (PublicClaimState::Failed, PublicClaimAction::Stop),
        (PublicClaimState::Checking, PublicClaimEvent::NodeLookup(Some(ni))) =>
            if ni.status == NodeStatus::Active {
                (PublicClaimState::Finished(true), PublicClaimAction::Stop)
            } else if ni.status == NodeStatus::AwaitingValidation {
                (PublicClaimState::Activating, PublicClaimAction::WatchStatus)
            } else {
                (PublicClaimState::Finished(false), PublicClaimAction::Stop)
            },
        (PublicClaimState::Activating, PublicClaimEvent::NodeUpdate(ni)) =>
            if ni.status == NodeStatus::Active {
                (PublicClaimState::Finished(true), PublicClaimAction::Stop)
            } else if ni.status == NodeStatus::Rejected || ni.status == NodeStatus::Disabled {
                (PublicClaimState::Finished(false), PublicClaimAction::Stop)
            } else {
                (PublicClaimState::Activating, PublicClaimAction::Wait)
            },
        (PublicClaimState::Activating, PublicClaimEvent::StreamClosed) =>
            (PublicClaimState::Finished(false), PublicClaimAction::Stop),
        (PublicClaimState::Activating, PublicClaimEvent::Interrupted) =>
            (PublicClaimState::Finished(false), PublicClaimAction::Stop),
        (s, _) => (s, PublicClaimAction::Wait),
    }
}

/// The node account of a stream update.
pub open spec fn claimed_update(e: PublicClaimEvent) -> NodeInfo
    recommends
        e is NodeUpdate,
{
    match e {
        PublicClaimEvent::NodeUpdate(ni) => ni,
        _ => arbitrary(),
    }
}

/// The machine's first state and action: look the node account up.
pub fn public_claim_start_exec() -> (r: (PublicClaimState, PublicClaimAction))
    ensures
        r == public_claim_start(),
{
    (PublicClaimState::Looking, PublicClaimAction::LookupNode)
}

/// One transition of the start-up of a public node.
pub fn public_claim_step_exec(s: PublicClaimState, e: PublicClaimEvent) -> (r: (PublicClaimState, PublicClaimAction))
    ensures
        r == public_claim_step(s, e),
        s is Monitoring && (e matches PublicClaimEvent::NodeUpdate(ni) && ni.status == NodeStatus::PendingClaim) ==> {
            let ni = claimed_update(e);
            match ni.node_info_cid {
                Some(c) => r == (PublicClaimState::Claiming, PublicClaimAction::ClaimPublicNode(c)),
                None => r == (PublicClaimState::Uploading, PublicClaimAction::CollectAndUploadConfig),
            }
        },
{
    match (s, e) {
        (PublicClaimState::Looking, PublicClaimEvent::NodeLookup(None)) =>
            (PublicClaimState::Monitoring, PublicClaimAction::WatchForClaim),
        (PublicClaimState::Looking, PublicClaimEvent::NodeLookup(Some(ni))) =>
            if ni.status == NodeStatus::PendingClaim {
                (PublicClaimState::Uploading, PublicClaimAction::CollectAndUploadConfig)
            } else {
                (PublicClaimState::Checking, PublicClaimAction::LookupNode)
            },
        (PublicClaimState::Uploading, PublicClaimEvent::ConfigUploaded(cid)) =>
            (PublicClaimState::Claiming, PublicClaimAction::ClaimPublicNode(cid)),
        (PublicClaimState::Claiming, PublicClaimEvent::ClaimConfirmed) =>
            (PublicClaimState::Checking, PublicClaimAction::LookupNode),
        (PublicClaimState::Monitoring, PublicClaimEvent::NodeUpdate(ni)) =>
            if ni.status == NodeStatus::PendingClaim {
                match ni.node_info_cid {
                    Some(cid) => (PublicClaimState::Claiming, PublicClaimAction::ClaimPublicNode(cid)),
                    None => (PublicClaimState::Uploading, PublicClaimAction::CollectAndUploadConfig),
                }
            } else {
                (PublicClaimState::Monitoring, PublicClaimAction::Wait)
            },
        (PublicClaimState::Monitoring, PublicClaimEvent::StreamClosed) =>
            (PublicClaimState::Finished(false), PublicClaimAction::Stop),
        (PublicClaimState::Monitoring, PublicClaimEvent::Interrupted) =>
            (PublicClaimState::Finished(false), PublicClaimAction::Stop),
        (PublicClaimState::Checking, PublicClaimEvent::NodeLookup(None)) =>
            (PublicClaimState::Failed, PublicClaimAction::Stop),
        (PublicClaimState::Checking, PublicClaimEvent::NodeLookup(Some(ni))) =>
            if ni.status == NodeStatus::Active {
                (PublicClaimState::Finished(true), PublicClaimAction::Stop)
            } else if ni.status == NodeStatus::AwaitingValidation {
                (PublicClaimState::Activating, PublicClaimAction::WatchStatus)
            } else {
                (PublicClaimState::Finished(false), PublicClaimAction::Stop)
            },
        (PublicClaimState::Activating, PublicClaimEvent::NodeUpdate(ni)) =>
            if ni.status == NodeStatus::Active {
                (PublicClaimState::Finished(true), PublicClaimAction::Stop)
            } else if ni.status == NodeStatus::Rejected || ni.status == NodeStatus::Disabled {
                (PublicClaimState::Finished(false), PublicClaimAction::Stop)
            } else {
                (PublicClaimState::Activating, PublicClaimAction::Wait)
            },
        (PublicClaimState::Activating, PublicClaimEvent::StreamClosed) =>
            (PublicClaimState::Finished(false), PublicClaimAction::Stop),
        (PublicClaimState::Activating, PublicClaimEvent::Interrupted) =>
            (PublicClaimState::Finished(false), PublicClaimAction::Stop),
        (s, _) => (s, PublicClaimAction::Wait),
    }
}


/// Whether start-up is over.
pub open spec fn public_claim_over(s: PublicClaimState) -> bool {
    s is Finished || s is Failed
}

/// The node account that an event carries, if any.
pub open spec fn event_node(e: PublicClaimEvent) -> Option<NodeInfo> {
    match e {
        PublicClaimEvent::NodeLookup(n) => n,
        PublicClaimEvent::NodeUpdate(n) => Some(n),
        _ => None,
    }
}

/// Law: once start-up is over, no event changes the outcome or asks for
/// anything more.
pub proof fn lemma_public_claim_over_is_final(s: PublicClaimState, e: PublicClaimEvent)
    requires
        public_claim_over(s),
    ensures
        public_claim_step(s, e) == (s, PublicClaimAction::Wait),
{
}

/// Law: start-up reports an active node only on an event that shows the
/// node account active.
pub proof fn lemma_public_claim_success_needs_active(s: PublicClaimState, e: PublicClaimEvent)
    requires
        !public_claim_over(s),
        public_claim_step(s, e).0 == PublicClaimState::Finished(true),
    ensures
        event_node(e) matches Some(ni) && ni.status == NodeStatus::Active,
{
}

/// Law: the node is claimed only with the CID that was just published, or
/// with the CID that the pending account already holds.
pub proof fn lemma_public_claim_cid_source(s: PublicClaimState, e: PublicClaimEvent, cid: String)
    requires
        public_claim_step(s, e).1 == PublicClaimAction::ClaimPublicNode(cid),
    ensures
        (s == PublicClaimState::Uploading && e == PublicClaimEvent::ConfigUploaded(cid))
        || (s == PublicClaimState::Monitoring && (event_node(e) matches Some(ni)
            && ni.status == NodeStatus::PendingClaim && ni.node_info_cid == Some(cid))),
{
}

/// Law: a node that finds its account pending a claim always goes on to
/// claim it. On a lookup at start-up it publishes its configuration first;
/// on a stream update while it monitors, it claims at once with the CID that
/// the account already holds, or publishes its configuration first where the
/// account holds none. It never just waits on such an account.
pub proof fn lemma_public_pending_account_leads_to_claim(ni: NodeInfo)
    requires
        ni.status == NodeStatus::PendingClaim,
    ensures
        public_claim_step(PublicClaimState::Looking, PublicClaimEvent::NodeLookup(Some(ni)))
            == (PublicClaimState::Uploading, PublicClaimAction::CollectAndUploadConfig),
        ni.node_info_cid matches Some(c) ==> public_claim_step(PublicClaimState::Monitoring, PublicClaimEvent::NodeUpdate(ni))
            == (PublicClaimState::Claiming, PublicClaimAction::ClaimPublicNode(c)),
        ni.node_info_cid is None ==> public_claim_step(PublicClaimState::Monitoring, PublicClaimEvent::NodeUpdate(ni))
            == (PublicClaimState::Uploading, PublicClaimAction::CollectAndUploadConfig),
        public_claim_step(PublicClaimState::Monitoring, PublicClaimEvent::NodeUpdate(ni)).1 != PublicClaimAction::Wait,
{
}

/// Law: publishing the configuration leads to the claim with exactly the
/// published CID.
pub proof fn lemma_public_upload_leads_to_claim(cid: String)
    ensures
        public_claim_step(PublicClaimState::Uploading, PublicClaimEvent::ConfigUploaded(cid))
            == (PublicClaimState::Claiming, PublicClaimAction::ClaimPublicNode(cid)),
{
}

/// Law: a node that the network rejected or disabled while it awaited
/// validation never starts its services.
pub proof fn lemma_public_claim_rejected_stops(ni: NodeInfo)
    requires
        ni.status == NodeStatus::Rejected || ni.status == NodeStatus::Disabled,
    ensures
        public_claim_step(PublicClaimState::Activating, PublicClaimEvent::NodeUpdate(ni))
            == (PublicClaimState::Finished(false), PublicClaimAction::Stop),
{
}


/// How a public node presents itself in the configuration that it publishes.
#[derive(Clone, Debug)]
pub struct NodeIdentity {
    pub node_id: String,
    pub name: String,
    pub description: String,
    pub location: Option<String>,
}

/// The identity of a public node: its key in base58, a fixed name and
/// description, and no location.
pub fn node_identity(node_pubkey: &Pubkey) -> (id: NodeIdentity)
    ensures
        id.node_id@ == base58(node_pubkey@),
        id.name@ == "DAC Compute Node"@,
        id.description@ == "High-performance compute node for LLM inference"@,
        id.location is None,
{
    NodeIdentity {
        node_id: pubkey_to_base58(node_pubkey),
        name: <String as StringExecFns>::from_str("DAC Compute Node"),
        description: <String as StringExecFns>::from_str("High-performance compute node for LLM inference"),
        location: None,
    }
}

} // verus!
