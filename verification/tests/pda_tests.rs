use agent_network::chain::Pubkey;
use agent_network::pda::{derive_agent_pda, derive_network_config_pda, derive_node_info_pda, u64_to_le_bytes};
use solana_sdk::pubkey::Pubkey as SolPubkey;

fn program() -> Pubkey {
    [7u8; 32]
}

#[test]
fn le_bytes_match_std() {
    for n in [0u64, 1, 255, 256, 0x0102030405060708, u64::MAX] {
        assert_eq!(u64_to_le_bytes(n), n.to_le_bytes().to_vec());
    }
}

#[test]
fn network_config_pda_matches_solana() {
    let expected = SolPubkey::find_program_address(&[b"dac_network_config"], &SolPubkey::new_from_array(program()));
    let (addr, bump) = derive_network_config_pda(&program()).unwrap();
    assert_eq!(addr, expected.0.to_bytes());
    assert_eq!(bump, expected.1);
}

#[test]
fn node_info_pda_matches_solana() {
    let node = [3u8; 32];
    let expected = SolPubkey::find_program_address(&[b"node_info", &node], &SolPubkey::new_from_array(program()));
    let (addr, _) = derive_node_info_pda(&program(), &node).unwrap();
    assert_eq!(addr, expected.0.to_bytes());
}

#[test]
fn agent_pda_uses_little_endian_slot() {
    let nc = [9u8; 32];
    let expected = SolPubkey::find_program_address(
        &[b"agent", &nc, &42u64.to_le_bytes()],
        &SolPubkey::new_from_array(program()),
    );
    let (addr, bump) = derive_agent_pda(&program(), &nc, 42).unwrap();
    assert_eq!((addr, bump), (expected.0.to_bytes(), expected.1));
}

use agent_network::dac_client::{DacClient, DacProgram};
use agent_network::pda::{
    derive_contribution_pda, derive_goal_pda, derive_goal_vault_pda, derive_node_treasury_pda, derive_task_pda,
};

fn find(seeds: &[&[u8]]) -> ([u8; 32], u8) {
    let (a, b) = SolPubkey::find_program_address(seeds, &SolPubkey::new_from_array(program()));
    (a.to_bytes(), b)
}

#[test]
fn goal_and_task_pdas_differ_for_same_slot() {
    let nc = [1u8; 32];
    let goal = derive_goal_pda(&program(), &nc, 5).unwrap();
    let task = derive_task_pda(&program(), &nc, 5).unwrap();
    assert_eq!(goal, find(&[b"goal", &nc, &5u64.to_le_bytes()]));
    assert_eq!(task, find(&[b"task", &nc, &5u64.to_le_bytes()]));
    assert_ne!(goal.0, task.0);
}

#[test]
fn treasury_vault_contribution_pdas_match_solana() {
    let a = [4u8; 32];
    let b = [5u8; 32];
    assert_eq!(derive_node_treasury_pda(&program(), &a).unwrap(), find(&[b"node_treasury", &a]));
    assert_eq!(derive_goal_vault_pda(&program(), &a).unwrap(), find(&[b"goal_vault", &a]));
    assert_eq!(derive_contribution_pda(&program(), &a, &b).unwrap(), find(&[b"contribution", &a, &b]));
}

#[test]
fn client_derivations_drop_the_bump() {
    let client = DacClient::new(
        DacProgram {
            program_id: program(),
            node_info_discriminator: [1; 8],
            agent_discriminator: [2; 8],
            task_discriminator: [3; 8],
            goal_discriminator: [4; 8],
        },
        [8u8; 32],
        [9u8; 32],
    );
    let nc = client.derive_network_config_pda().unwrap();
    assert_eq!(nc, find(&[b"dac_network_config"]).0);
    assert_eq!(client.derive_task_pda(&nc, 3).unwrap(), find(&[b"task", &nc, &3u64.to_le_bytes()]).0);
    assert_eq!(client.derive_node_info_pda(&[2u8; 32]).unwrap(), find(&[b"node_info", &[2u8; 32]]).0);
}
