use agent_network::chain::{
    AgentStatus, ChainActionType, Goal, GoalStatus, NetworkConfig, NodeStatus, NodeType, Task, TaskStatus,
};
use agent_network::dac_client::{
    instructions_sysvar, select_goal_for_task, require_agent, require_task, system_program, DacClient, DacProgram,
    AGENT_STATUS_OFFSET, GOAL_TASK_OFFSET, NODE_STATUS_OFFSET, NODE_TYPE_OFFSET,
};
use agent_network::error::DacError;
use agent_network::filters::AccountFilter;
use solana_sdk::pubkey::Pubkey as SolPubkey;

const PROGRAM: [u8; 32] = [7u8; 32];
const PAYER: [u8; 32] = [8u8; 32];
const AUTHORITY: [u8; 32] = [9u8; 32];

fn client() -> DacClient {
    DacClient::new(
        DacProgram {
            program_id: PROGRAM,
            node_info_discriminator: [1; 8],
            agent_discriminator: [2; 8],
            task_discriminator: [3; 8],
            goal_discriminator: [4; 8],
        },
        PAYER,
        AUTHORITY,
    )
}

fn pda(seeds: &[&[u8]]) -> [u8; 32] {
    SolPubkey::find_program_address(seeds, &SolPubkey::new_from_array(PROGRAM)).0.to_bytes()
}

fn view(fs: &[AccountFilter]) -> Vec<(usize, Vec<u8>)> {
    fs.iter().map(|f| (f.offset, f.value.clone())).collect()
}

fn task(slot: u64, status: TaskStatus, compute_node: Option<[u8; 32]>) -> Task {
    Task {
        task_slot_id: slot,
        action_type: ChainActionType::Llm,
        status,
        compute_node,
        input_cid: None,
        output_cid: None,
        next_input_cid: None,
        pending_input_cid: None,
        pending_output_cid: None,
    }
}

fn goal(slot: u64) -> Goal {
    Goal {
        goal_slot_id: slot,
        agent: [0; 32],
        is_confidential: false,
        current_iteration: 0,
        max_iterations: 3,
        specification_cid: "spec".to_string(),
    }
}

#[test]
fn node_listing_filters_compare_type_and_status() {
    let fs = client().nodes_by_status_and_type_filters(NodeStatus::AwaitingValidation, NodeType::Compute);
    assert_eq!(view(&fs), vec![(0, vec![1; 8]), (NODE_TYPE_OFFSET, vec![2]), (NODE_STATUS_OFFSET, vec![1])]);
    assert_eq!((NODE_TYPE_OFFSET, NODE_STATUS_OFFSET), (72, 73));
}

#[test]
fn node_subscription_filters_follow_the_criteria() {
    let c = client();
    assert_eq!(view(&c.node_info_subscription_filters(None, None, None)), vec![(0, vec![1; 8])]);
    let key = [6u8; 32];
    assert_eq!(
        view(&c.node_info_subscription_filters(Some(key), Some(NodeType::Public), None)),
        vec![(0, vec![1; 8]), (40, key.to_vec()), (72, vec![0])]
    );
    assert_eq!(
        view(&c.node_info_subscription_filters(None, Some(NodeType::Compute), Some(NodeStatus::AwaitingValidation))),
        view(&c.nodes_by_status_and_type_filters(NodeStatus::AwaitingValidation, NodeType::Compute))
    );
}

#[test]
fn agent_task_goal_filters() {
    let c = client();
    assert_eq!(view(&c.agents_by_status_filters(AgentStatus::Pending)), vec![(0, vec![2; 8]), (AGENT_STATUS_OFFSET, vec![0])]);
    assert_eq!(view(&c.agent_subscription_filters(None)), vec![(0, vec![2; 8])]);
    assert_eq!(view(&c.task_subscription_filters(Some(TaskStatus::AwaitingValidation))), vec![(0, vec![3; 8]), (49, vec![2])]);
    assert_eq!(view(&c.goal_subscription_filters(Some(GoalStatus::Completed))), vec![(0, vec![4; 8]), (112, vec![1])]);
    let nc = c.derive_network_config_pda().unwrap();
    let fs = c.goal_by_task_filters(&nc, 11).unwrap();
    let t = pda(&[b"task", &nc, &11u64.to_le_bytes()]);
    assert_eq!(view(&fs), vec![(0, vec![4; 8]), (GOAL_TASK_OFFSET, t.to_vec())]);
}

#[test]
fn goal_selection_takes_the_first_or_fails() {
    assert!(matches!(select_goal_for_task(4, vec![]), Err(DacError::GoalForTaskNotFound(4))));
    let g = select_goal_for_task(4, vec![([1; 32], goal(2)), ([2; 32], goal(3))]).unwrap();
    assert_eq!(g.goal_slot_id, 2);
}

#[test]
fn lookups_that_find_nothing_fail() {
    assert!(matches!(require_task(9, None), Err(DacError::TaskNotFound(9))));
    assert_eq!(require_task(9, Some(task(9, TaskStatus::Pending, None))).unwrap().task_slot_id, 9);
    assert!(matches!(require_agent([3; 32], None), Err(DacError::AgentNotFound(k)) if k == [3; 32]));
}

#[test]
fn register_node_plan_uses_derived_accounts() {
    let node = [5u8; 32];
    let p = client().register_node_plan(&node, NodeType::Compute).unwrap();
    let nc = pda(&[b"dac_network_config"]);
    let ni = pda(&[b"node_info", &node]);
    assert_eq!(p.owner, PAYER);
    assert_eq!(p.node_pubkey, node);
    assert_eq!(p.network_config, nc);
    assert_eq!(p.node_info, ni);
    assert_eq!(p.node_treasury, pda(&[b"node_treasury", &ni]));
    assert_eq!(p.system_program, [0u8; 32]);
    assert_eq!(p.node_type, NodeType::Compute);
}

#[test]
fn system_and_sysvar_ids_match_solana() {
    assert_eq!(system_program(), solana_sdk::system_program::id().to_bytes());
    assert_eq!(instructions_sysvar(), solana_sdk::sysvar::instructions::id().to_bytes());
}

#[test]
fn claim_task_plan_accounts() {
    let p = client().claim_task_plan(12, 3, 1_000).unwrap();
    let nc = pda(&[b"dac_network_config"]);
    let goal = pda(&[b"goal", &nc, &3u64.to_le_bytes()]);
    assert_eq!(p.compute_node, PAYER);
    assert_eq!(p.compute_node_info, pda(&[b"node_info", &PAYER]));
    assert_eq!(p.goal, goal);
    assert_eq!(p.vault, pda(&[b"goal_vault", &goal]));
    assert_eq!(p.task, pda(&[b"task", &nc, &12u64.to_le_bytes()]));
    assert_eq!(p.max_task_cost, 1_000);
}

#[test]
fn create_agent_and_goal_need_the_network() {
    let c = client();
    assert!(matches!(c.create_agent_plan(&[1; 32], "cid".to_string(), None), Err(DacError::NetworkNotInitialized)));
    assert!(matches!(c.create_goal_plan(&[1; 32], true, false, None), Err(DacError::NetworkNotInitialized)));
    let config = NetworkConfig { cid_config: "c".to_string(), agent_count: 4, goal_count: 6, task_count: 0 };
    let nc = pda(&[b"dac_network_config"]);
    let a = c.create_agent_plan(&[1; 32], "cid".to_string(), Some(config.clone())).unwrap();
    assert_eq!(a.agent, pda(&[b"agent", &nc, &4u64.to_le_bytes()]));
    assert_eq!(a.agent_config_cid, "cid");
    let g = c.create_goal_plan(&[1; 32], true, false, Some(config)).unwrap();
    assert_eq!(g.goal, pda(&[b"goal", &nc, &6u64.to_le_bytes()]));
    assert!(g.is_owned && !g.is_confidential);
}

#[test]
fn task_validation_accounts_need_an_assigned_task() {
    let c = client();
    let validator = [2u8; 32];
    assert!(matches!(c.task_validation_accounts(&validator, 1, 2, None), Err(DacError::TaskNotFound(2))));
    assert!(matches!(
        c.task_validation_accounts(&validator, 1, 2, Some(task(2, TaskStatus::AwaitingValidation, None))),
        Err(DacError::TaskHasNoNode)
    ));
    let node = [3u8; 32];
    let acc = c.task_validation_accounts(&validator, 1, 2, Some(task(2, TaskStatus::AwaitingValidation, Some(node)))).unwrap();
    let ni = pda(&[b"node_info", &node]);
    assert_eq!(acc.node_info, ni);
    assert_eq!(acc.node_treasury, pda(&[b"node_treasury", &ni]));
    assert_eq!(acc.validator_node_info, pda(&[b"node_info", &validator]));
    assert_eq!(acc.node_validating, validator);
}

#[test]
fn other_plans() {
    let c = client();
    let nc = pda(&[b"dac_network_config"]);
    let v = c.validate_agent_plan(&[2; 32], 7).unwrap();
    assert_eq!(v.agent, pda(&[b"agent", &nc, &7u64.to_le_bytes()]));
    let pn = c.validate_public_node_plan(&[2; 32], &[3; 32], false).unwrap();
    assert_eq!(pn.node_info, pda(&[b"node_info", &[3u8; 32]]));
    assert!(!pn.approved);
    let cp = c.claim_public_node_plan(&[3; 32], "x".to_string()).unwrap();
    assert_eq!(cp.node_info, pda(&[b"node_info", &[3u8; 32]]));
    let cc = c.claim_confidential_node_plan(&[3; 32], [1; 32], [2; 32]).unwrap();
    assert_eq!(cc.code_measurement, [1; 32]);
    let sr = c.submit_task_result_plan(4, "i".into(), "o".into(), "n".into()).unwrap();
    assert_eq!(sr.task, pda(&[b"task", &nc, &4u64.to_le_bytes()]));
    let init = c.initialize_network_plan("cfg".into(), 10, 20, vec![[5; 32]]).unwrap();
    assert_eq!(init.authority, AUTHORITY);
    assert_eq!(init.network_config, nc);
    let up = c.update_network_config_plan(None, Some([6; 32])).unwrap();
    assert_eq!(up.new_code_measurement, Some([6; 32]));
    assert!(up.cid_config.is_none());
}

fn passes(fs: &[AccountFilter], data: &[u8]) -> bool {
    fs.iter().all(|f| data.len() >= f.offset + f.value.len() && data[f.offset..f.offset + f.value.len()] == f.value[..])
}

#[test]
fn node_stream_filters_select_matching_accounts() {
    let c = client();
    let key = [6u8; 32];
    let mut data = vec![0u8; 120];
    data[..8].copy_from_slice(&[1; 8]);
    data[40..72].copy_from_slice(&key);
    data[72] = 2;
    data[73] = 1;
    let fs = c.node_info_subscription_filters(Some(key), Some(NodeType::Compute), Some(NodeStatus::AwaitingValidation));
    assert!(passes(&fs, &data));
    assert!(!passes(&c.node_info_subscription_filters(Some(key), Some(NodeType::Public), None), &data));
    assert!(!passes(&c.node_info_subscription_filters(None, None, Some(NodeStatus::Active)), &data));
    assert!(!passes(&c.node_info_subscription_filters(Some([5u8; 32]), None, None), &data));
    assert!(!passes(&fs, &data[..73]));
    data[0] = 9;
    assert!(!passes(&c.node_info_subscription_filters(None, None, None), &data));
}
