use agent_network::chain::{NodeInfo, NodeStatus};
use agent_network::node_claim::{
    compute_claim_start, compute_claim_step_exec, registry_should_register, validator_claim_start,
    validator_claim_step_exec, ComputeClaimAction, NodeClaimEvent, NodeClaimState, ValidatorClaimAction,
};
use agent_network::public_node_claim::{
    public_claim_start_exec, public_claim_step_exec, PublicClaimAction, PublicClaimEvent, PublicClaimState,
};

fn node(status: NodeStatus, cid: Option<&str>) -> NodeInfo {
    NodeInfo { node_pubkey: [1; 32], status, node_info_cid: cid.map(|s| s.to_string()) }
}

fn run_public(events: Vec<PublicClaimEvent>) -> (PublicClaimState, Vec<PublicClaimAction>) {
    let (mut s, a) = public_claim_start_exec();
    let mut actions = vec![a];
    for e in events {
        let (ns, a) = public_claim_step_exec(s, e);
        s = ns;
        actions.push(a);
    }
    (s, actions)
}

#[test]
fn public_node_claims_and_waits_for_activation() {
    let (s, acts) = run_public(vec![
        PublicClaimEvent::NodeLookup(Some(node(NodeStatus::PendingClaim, None))),
        PublicClaimEvent::ConfigUploaded("Qm1".into()),
        PublicClaimEvent::ClaimConfirmed,
        PublicClaimEvent::NodeLookup(Some(node(NodeStatus::AwaitingValidation, None))),
        PublicClaimEvent::NodeUpdate(node(NodeStatus::AwaitingValidation, None)),
        PublicClaimEvent::NodeUpdate(node(NodeStatus::Active, None)),
    ]);
    assert!(matches!(s, PublicClaimState::Finished(true)));
    assert_eq!(acts, vec![
        PublicClaimAction::LookupNode,
        PublicClaimAction::CollectAndUploadConfig,
        PublicClaimAction::ClaimPublicNode("Qm1".into()),
        PublicClaimAction::LookupNode,
        PublicClaimAction::WatchStatus,
        PublicClaimAction::Wait,
        PublicClaimAction::Stop,
    ]);
}

#[test]
fn public_node_monitors_until_registered() {
    let (s, acts) = run_public(vec![
        PublicClaimEvent::NodeLookup(None),
        PublicClaimEvent::NodeUpdate(node(NodeStatus::PendingClaim, Some("QmOld"))),
        PublicClaimEvent::ClaimConfirmed,
        PublicClaimEvent::NodeLookup(Some(node(NodeStatus::Active, None))),
    ]);
    assert!(matches!(s, PublicClaimState::Finished(true)));
    assert_eq!(acts[1], PublicClaimAction::WatchForClaim);
    assert_eq!(acts[2], PublicClaimAction::ClaimPublicNode("QmOld".into()));
}

#[test]
fn public_node_rejected_or_interrupted() {
    let (s, _) = run_public(vec![
        PublicClaimEvent::NodeLookup(Some(node(NodeStatus::AwaitingValidation, None))),
        PublicClaimEvent::NodeLookup(Some(node(NodeStatus::AwaitingValidation, None))),
        PublicClaimEvent::NodeUpdate(node(NodeStatus::Rejected, None)),
    ]);
    assert!(matches!(s, PublicClaimState::Finished(false)));
    let (s, _) = run_public(vec![PublicClaimEvent::NodeLookup(None), PublicClaimEvent::Interrupted]);
    assert!(matches!(s, PublicClaimState::Finished(false)));
    let (s, _) = run_public(vec![
        PublicClaimEvent::NodeLookup(Some(node(NodeStatus::Disabled, None))),
        PublicClaimEvent::NodeLookup(None),
    ]);
    assert!(matches!(s, PublicClaimState::Failed));
    let (s, acts) = run_public(vec![
        PublicClaimEvent::NodeLookup(Some(node(NodeStatus::Disabled, None))),
        PublicClaimEvent::NodeLookup(Some(node(NodeStatus::Disabled, None))),
        PublicClaimEvent::StreamClosed,
    ]);
    assert!(matches!(s, PublicClaimState::Finished(false)));
    assert_eq!(acts[3], PublicClaimAction::Wait);
}

#[test]
fn compute_node_claims_with_empty_or_known_cid() {
    let (s, a) = compute_claim_start();
    assert_eq!(a, ComputeClaimAction::LookupNode);
    let (s, a) = compute_claim_step_exec(s, NodeClaimEvent::NodeLookup(Some(node(NodeStatus::PendingClaim, Some("x")))));
    assert_eq!(a, ComputeClaimAction::ClaimComputeNode(String::new()));
    let (s, a) = compute_claim_step_exec(s, NodeClaimEvent::ClaimConfirmed);
    assert_eq!((s, a), (NodeClaimState::Finished(true), ComputeClaimAction::Stop));
    let (s, a) = compute_claim_step_exec(NodeClaimState::Looking, NodeClaimEvent::NodeLookup(None));
    assert_eq!(a, ComputeClaimAction::WatchForClaim);
    let (s2, a) = compute_claim_step_exec(s.clone(), NodeClaimEvent::NodeUpdate(node(NodeStatus::Active, None)));
    assert_eq!((s2, a), (NodeClaimState::Monitoring, ComputeClaimAction::Wait));
    let (_, a) = compute_claim_step_exec(s.clone(), NodeClaimEvent::NodeUpdate(node(NodeStatus::PendingClaim, Some("cid"))));
    assert_eq!(a, ComputeClaimAction::ClaimComputeNode("cid".into()));
    let (s3, _) = compute_claim_step_exec(s, NodeClaimEvent::StreamClosed);
    assert_eq!(s3, NodeClaimState::Finished(false));
    let (s4, _) = compute_claim_step_exec(NodeClaimState::Looking, NodeClaimEvent::NodeLookup(Some(node(NodeStatus::Active, None))));
    assert_eq!(s4, NodeClaimState::Finished(true));
}

#[test]
fn validator_claims_on_any_update() {
    let (s, a) = validator_claim_start();
    assert_eq!(a, ValidatorClaimAction::LookupNode);
    let (s, a) = validator_claim_step_exec(s, NodeClaimEvent::NodeLookup(Some(node(NodeStatus::Rejected, None))));
    assert_eq!((s.clone(), a), (NodeClaimState::Monitoring, ValidatorClaimAction::WatchForClaim));
    let (s, a) = validator_claim_step_exec(s, NodeClaimEvent::NodeUpdate(node(NodeStatus::Active, None)));
    assert_eq!((s.clone(), a), (NodeClaimState::Claiming, ValidatorClaimAction::ClaimValidatorNode));
    let (s, _) = validator_claim_step_exec(s, NodeClaimEvent::ClaimConfirmed);
    assert_eq!(s, NodeClaimState::Finished(true));
    let (s, a) = validator_claim_step_exec(s, NodeClaimEvent::Interrupted);
    assert_eq!((s, a), (NodeClaimState::Finished(true), ValidatorClaimAction::Wait));
}

#[test]
fn registry_registers_new_or_pending_nodes() {
    assert!(registry_should_register(&None));
    assert!(registry_should_register(&Some(node(NodeStatus::PendingClaim, None))));
    assert!(!registry_should_register(&Some(node(NodeStatus::Active, None))));
    assert!(!registry_should_register(&Some(node(NodeStatus::AwaitingValidation, None))));
}
