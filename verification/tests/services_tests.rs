use agent_network::chain::{Agent, NodeInfo, NodeStatus};
use agent_network::dac_manager::{DacManagerProgram, DacManagerService, ManagerAgent};
use agent_network::error::DacError;
use agent_network::ipfs::{check_response, IpfsClient, IpfsOp};
use agent_network::model_validation::{ModelConfig, ModelError, ModelValidator, Quantization};
use agent_network::service_loops::{
    agent_validation_step, agents_to_validate, check_node_balance, compute_validation_step, nodes_to_validate,
    AgentValidationAction, AgentValidationEvent, ComputeValidationAction, ComputeValidationEvent, ComputeValidationFailure,
    MIN_NODE_BALANCE,
};
use agent_network::solana_adapter::{collect_accounts, decode_listed_accounts, first_account, lookup_account, UiAccountData};
use solana_sdk::pubkey::Pubkey as SolPubkey;

#[test]
fn ipfs_endpoints() {
    let c = IpfsClient::new("http://127.0.0.1:5001//");
    assert_eq!(c.base_url, "http://127.0.0.1:5001");
    assert_eq!(c.add_url(), "http://127.0.0.1:5001/api/v0/add?pin=true");
    assert_eq!(c.cat_url("Qm1"), "http://127.0.0.1:5001/api/v0/cat?arg=Qm1");
    assert_eq!(c.pin_url("Qm1"), "http://127.0.0.1:5001/api/v0/pin/add?arg=Qm1&recursive=true");
    assert_eq!(c.unpin_url("Qm1"), "http://127.0.0.1:5001/api/v0/pin/rm?arg=Qm1");
    assert_eq!(IpfsClient::new("").base_url, "");
    assert_eq!(IpfsClient::new("/").base_url, "");
}

#[test]
fn ipfs_failures() {
    assert!(check_response(IpfsOp::Add, true, String::new()).is_ok());
    let e = check_response(IpfsOp::Cat, false, "boom".into()).unwrap_err();
    assert_eq!((e.op, e.message.as_str()), (IpfsOp::Cat, "boom"));
    assert!(check_response(IpfsOp::Unpin, false, "not pinned".into()).is_ok());
    assert!(check_response(IpfsOp::Pin, false, String::new()).is_err());
}

#[test]
fn lookups_keep_existing_accounts() {
    let addrs = vec![[1u8; 32], [2u8; 32], [3u8; 32]];
    let kept = collect_accounts(&addrs, vec![Some(Ok(10)), None, Some(Ok(30))]).unwrap();
    assert_eq!(kept, vec![([1u8; 32], 10), ([3u8; 32], 30)]);
    let err = collect_accounts(&addrs, vec![None, Some(Err(())), Some(Ok(30))]).unwrap_err();
    assert_eq!(err.address, [2u8; 32]);
    assert_eq!(first_account(kept), Some(10));
    assert_eq!(first_account::<u8>(vec![]), None);
}

#[test]
fn listed_accounts_decode_base64() {
    let items = vec![
        ([1u8; 32], UiAccountData::Base64("AQID".into())),
        ([2u8; 32], UiAccountData::Base64("not base64!".into())),
        ([3u8; 32], UiAccountData::Other),
        ([4u8; 32], UiAccountData::Base64("".into())),
    ];
    let r = decode_listed_accounts(&items);
    assert_eq!(r, vec![([1u8; 32], vec![1, 2, 3]), ([4u8; 32], vec![])]);
}

fn manager() -> DacManagerService {
    DacManagerService::new(
        DacManagerProgram { program_id: [5u8; 32], agent_discriminator: [6; 8], compute_node_info_discriminator: [7; 8] },
        [8u8; 32],
    )
}

fn mpda(seeds: &[&[u8]]) -> [u8; 32] {
    SolPubkey::find_program_address(seeds, &SolPubkey::new_from_array([5u8; 32])).0.to_bytes()
}

#[test]
fn manager_addresses_and_filters() {
    let m = manager();
    let node = [2u8; 32];
    assert_eq!(m.derive_compute_node_info_pda(&node).unwrap(), mpda(&[b"compute_node", &node]));
    assert_eq!(m.derive_agent_pda(&node, 9).unwrap(), mpda(&[b"agent", &node, &9u64.to_le_bytes()]));
    let fs: Vec<(usize, Vec<u8>)> = m.agent_filters(&node).iter().map(|f| (f.offset, f.value.clone())).collect();
    assert_eq!(fs, vec![(0, vec![6; 8]), (48, node.to_vec())]);
    let fs: Vec<(usize, Vec<u8>)> = m.compute_node_info_filters(&node).iter().map(|f| (f.offset, f.value.clone())).collect();
    assert_eq!(fs, vec![(0, vec![7; 8]), (40, node.to_vec())]);
}

#[test]
fn manager_plans() {
    let m = manager();
    let p = m.claim_node_plan(&[2u8; 32], "cid".into()).unwrap();
    assert_eq!(p.compute_node_info, mpda(&[b"compute_node", &[2u8; 32]]));
    assert_eq!(p.payer, [8u8; 32]);
    let a = m.activate_agent_plan(&ManagerAgent { agent_id: 3, owner: [4u8; 32] }).unwrap();
    assert_eq!(a.agent, mpda(&[b"agent", &[4u8; 32], &3u64.to_le_bytes()]));
    assert_eq!((a.compute_node, a.agent_id), ([8u8; 32], 3));
    let _ = DacError::TaskHasNoNode;
}

fn model(name: &str, q: &str) -> ModelConfig {
    ModelConfig { model_name: name.into(), quantization: q.into(), max_concurrent_requests: 2 }
}

#[test]
fn models_resolve_against_allowed_names() {
    let allowed = vec!["llama".to_string(), "mistral".to_string(), "llama".to_string()];
    assert_eq!(ModelValidator::resolve_model(&allowed, &model("llama", "int8")).unwrap(), (0, Quantization::Int8));
    assert_eq!(ModelValidator::resolve_model(&allowed, &model("mistral", "fp16")).unwrap(), (1, Quantization::Fp16));
    assert!(matches!(ModelValidator::resolve_model(&allowed, &model("gpt", "int4")), Err(ModelError::NotAllowed(n)) if n == "gpt"));
    assert!(matches!(ModelValidator::resolve_model(&allowed, &model("llama", "int2")), Err(ModelError::InvalidQuantization(q)) if q == "int2"));
    assert!(matches!(ModelValidator::resolve_model(&vec![], &model("llama", "bad")), Err(ModelError::NotAllowed(_))));
    assert_eq!(ModelValidator::parse_quantization(&"int4".to_string()), Some(Quantization::Int4));
    assert_eq!(ModelValidator::parse_quantization(&"FP16".to_string()), None);
}

fn node(key: u8) -> NodeInfo {
    NodeInfo { node_pubkey: [key; 32], status: NodeStatus::AwaitingValidation, node_info_cid: None }
}

#[test]
fn validator_loop() {
    assert!(matches!(compute_validation_step(&ComputeValidationEvent::NodeAwaiting(node(4))), ComputeValidationAction::ValidateNode(k) if k == [4; 32]));
    assert!(matches!(compute_validation_step(&ComputeValidationEvent::Validated), ComputeValidationAction::Continue));
    assert!(matches!(
        compute_validation_step(&ComputeValidationEvent::ValidationFailed),
        ComputeValidationAction::Fail(ComputeValidationFailure::ValidationFailed)
    ));
    assert!(matches!(
        compute_validation_step(&ComputeValidationEvent::StreamClosed),
        ComputeValidationAction::Fail(ComputeValidationFailure::StreamEnded)
    ));
    assert!(matches!(compute_validation_step(&ComputeValidationEvent::Interrupted), ComputeValidationAction::Stop));
    assert_eq!(nodes_to_validate(&vec![node(1), node(2)]), vec![[1u8; 32], [2u8; 32]]);
}

#[test]
fn agent_loop() {
    let agent = Agent { agent_slot_id: 6, agent_config_cid: "c".into(), agent_memory_cid: None };
    assert_eq!(agent_validation_step(&AgentValidationEvent::AgentPending(agent.clone())), AgentValidationAction::ValidateAgent(6));
    assert_eq!(agent_validation_step(&AgentValidationEvent::StreamEnded), AgentValidationAction::Fail);
    assert_eq!(agent_validation_step(&AgentValidationEvent::Shutdown), AgentValidationAction::Stop);
    assert_eq!(agents_to_validate(&vec![agent]), vec![6]);
}

#[test]
fn balance_check() {
    assert!(check_node_balance(MIN_NODE_BALANCE).is_ok());
    assert_eq!(check_node_balance(999_999), Err(999_999));
    assert_eq!(MIN_NODE_BALANCE, 1_000_000);
}

#[test]
fn single_lookup_is_the_first_of_a_list_lookup() {
    let a = [5u8; 32];
    for found in [None, Some(Ok(7u32)), Some(Err(()))] {
        let single = lookup_account(a, found).map_err(|e| e.address);
        let listed = collect_accounts(&vec![a], vec![found]).map(first_account).map_err(|e| e.address);
        assert_eq!(single, listed);
    }
    assert_eq!(lookup_account(a, Some(Ok(7u32))).ok(), Some(Some(7)));
    assert_eq!(lookup_account::<u32>(a, None).ok(), Some(None));
    assert_eq!(lookup_account::<u32>(a, Some(Err(()))).err().map(|e| e.address), Some(a));
}
