//! Program-derived addresses of the DAC accounts: the seeds that name each
//! account, and the search for the address that the seeds derive.

use vstd::prelude::*;
use crate::chain::Pubkey;
use crate::error::{DacError, PdaKind};
use vstd::string::StringSliceAdditionalSpecFns;

verus! {

/// The address and bump seed that `Pubkey::try_find_program_address` finds for
/// these seeds under this program, or `None` where it finds none.
pub uninterp spec fn program_address(seeds: Seq<Seq<u8>>, program_id: Seq<u8>) -> Option<(Seq<u8>, u8)>;

/// The seeds of a list, by their views.
pub open spec fn seeds_view(seeds: Seq<Vec<u8>>) -> Seq<Seq<u8>> {
    seeds.map_values(|s: Vec<u8>| s@)
}

/// Calls `solana_sdk::pubkey::Pubkey::try_find_program_address`. The claim: the
/// result is the named `program_address` of the seeds and program id, and,
/// as the source shows (the bump seed is pushed as one more seed, and
/// `create_program_address` refuses more than 16 seeds or a seed longer than
/// 32 bytes, which ends the search), it is `None` when there are 16 seeds or
/// more or one of them is longer than 32 bytes.
#[verifier::external_body]
fn find_program_address(seeds: &Vec<Vec<u8>>, program_id: &Pubkey) -> (r: Option<(Pubkey, u8)>)
    ensures
        match r {
            Some((a, b)) => program_address(seeds_view(seeds@), program_id@) == Some((a@, b)),
            None => program_address(seeds_view(seeds@), program_id@) is None,
        },
        (seeds@.len() >= 16 || exists|i: int| 0 <= i < seeds@.len() && seeds@[i]@.len() > 32)
            ==> r is None,
{
    let refs: Vec<&[u8]> = seeds.iter().map(|s| s.as_slice()).collect();
    let program = solana_sdk::pubkey::Pubkey::new_from_array(*program_id);
    solana_sdk::pubkey::Pubkey::try_find_program_address(&refs, &program)
        .map(|(address, bump)| (address.to_bytes(), bump))
}

/// Little-endian bytes of `n`, `k` of them.
pub open spec fn le_bytes(n: nat, k: nat) -> Seq<u8>
    decreases k,
{
    if k == 0 {
        seq![]
    } else {
        seq![(n % 256) as u8] + le_bytes(n / 256, (k - 1) as nat)
    }
}

/// The eight little-endian bytes of a `u64`.
pub open spec fn u64_le(n: u64) -> Seq<u8> {
    le_bytes(n as nat, 8)
}

/// The little-endian bytes of a `u64`, as `u64::to_le_bytes` gives them.
pub fn u64_to_le_bytes(n: u64) -> (v: Vec<u8>)
    ensures
        v@ == u64_le(n),
{
    let mut v: Vec<u8> = Vec::new();
    let mut rest: u64 = n;
    let mut i: usize = 0;
    while i < 8
        invariant
            i <= 8,
            v@ + le_bytes(rest as nat, (8 - i) as nat) == le_bytes(n as nat, 8),
        decreases 8 - i,
    {
        let ghost before = v@;
        let b: u8 = (rest % 256) as u8;
        v.push(b);
        proof {
            assert(le_bytes(rest as nat, (8 - i) as nat) == seq![b] + le_bytes(
                (rest / 256) as nat,
                (8 - i - 1) as nat,
            ));
            assert(before + (seq![b] + le_bytes((rest / 256) as nat, (8 - i - 1) as nat)) == v@
                + le_bytes((rest / 256) as nat, (8 - i - 1) as nat));
        }
        rest = rest / 256;
        i = i + 1;
    }
    assert(v@ + le_bytes(rest as nat, 0) == v@);
    v
}

/// Whether a derivation result agrees with the search on these seeds: the
/// found address and bump, or the error for `kind` when none is found.
pub open spec fn derived(
    r: Result<(Pubkey, u8), DacError>,
    seeds: Seq<Seq<u8>>,
    program_id: Seq<u8>,
    kind: PdaKind,
) -> bool {
    match r {
        Ok((a, b)) => program_address(seeds, program_id) == Some((a@, b)),
        Err(e) => program_address(seeds, program_id) is None && e == DacError::PdaDerivationFailed(kind),
    }
}

/// The address that the seeds derive under the program, or the error that
/// names the account when none is found.
pub(crate) fn find_pda(seeds: Vec<Vec<u8>>, program_id: &Pubkey, kind: PdaKind) -> (r: Result<(Pubkey, u8), DacError>)
    ensures
        derived(r, seeds_view(seeds@), program_id@, kind),
{
    match find_program_address(&seeds, program_id) {
        Some(found) => Ok(found),
        None => Err(DacError::PdaDerivationFailed(kind)),
    }
}

fn bytes_of(s: &[u8]) -> (v: Vec<u8>)
    ensures
        v@ == s@,
{
    vstd::slice::slice_to_vec(s)
}

pub open spec fn network_config_seeds() -> Seq<Seq<u8>> {
    seq!["dac_network_config".spec_bytes()]
}

pub open spec fn node_info_seeds(node: Seq<u8>) -> Seq<Seq<u8>> {
    seq!["node_info".spec_bytes(), node]
}

pub open spec fn agent_seeds(network_config: Seq<u8>, agent_slot_id: u64) -> Seq<Seq<u8>> {
    seq!["agent".spec_bytes(), network_config, u64_le(agent_slot_id)]
}

pub open spec fn goal_seeds(network_config: Seq<u8>, goal_slot_id: u64) -> Seq<Seq<u8>> {
    seq!["goal".spec_bytes(), network_config, u64_le(goal_slot_id)]
}

pub open spec fn task_seeds(network_config: Seq<u8>, task_slot_id: u64) -> Seq<Seq<u8>> {
    seq!["task".spec_bytes(), network_config, u64_le(task_slot_id)]
}

pub open spec fn node_treasury_seeds(node_info: Seq<u8>) -> Seq<Seq<u8>> {
    seq!["node_treasury".spec_bytes(), node_info]
}

pub open spec fn goal_vault_seeds(goal: Seq<u8>) -> Seq<Seq<u8>> {
    seq!["goal_vault".spec_bytes(), goal]
}

pub open spec fn contribution_seeds(goal: Seq<u8>, contributor: Seq<u8>) -> Seq<Seq<u8>> {
    seq!["contribution".spec_bytes(), goal, contributor]
}

/// The address of the network configuration account.
pub fn derive_network_config_pda(program_id: &Pubkey) -> (r: Result<(Pubkey, u8), DacError>)
    ensures
        derived(r, network_config_seeds(), program_id@, PdaKind::NetworkConfig),
{
    let mut seeds: Vec<Vec<u8>> = Vec::new();
    seeds.push(bytes_of("dac_network_config".as_bytes()));
    assert(seeds_view(seeds@) == network_config_seeds());
    find_pda(seeds, program_id, PdaKind::NetworkConfig)
}

/// The address of a node's account.
pub fn derive_node_info_pda(program_id: &Pubkey, node_pubkey: &Pubkey) -> (r: Result<(Pubkey, u8), DacError>)
    ensures
        derived(r, node_info_seeds(node_pubkey@), program_id@, PdaKind::NodeInfo),
{
    let mut seeds: Vec<Vec<u8>> = Vec::new();
    seeds.push(bytes_of("node_info".as_bytes()));
    seeds.push(bytes_of(node_pubkey));
    assert(seeds_view(seeds@) == node_info_seeds(node_pubkey@));
    find_pda(seeds, program_id, PdaKind::NodeInfo)
}

/// The address of the agent account in a slot.
pub fn derive_agent_pda(program_id: &Pubkey, network_config: &Pubkey, agent_slot_id: u64) -> (r: Result<(Pubkey, u8), DacError>)
    ensures
        derived(r, agent_seeds(network_config@, agent_slot_id), program_id@, PdaKind::Agent),
{
    let mut seeds: Vec<Vec<u8>> = Vec::new();
    seeds.push(bytes_of("agent".as_bytes()));
    seeds.push(bytes_of(network_config));
    seeds.push(u64_to_le_bytes(agent_slot_id));
    assert(seeds_view(seeds@) == agent_seeds(network_config@, agent_slot_id));
    find_pda(seeds, program_id, PdaKind::Agent)
}

/// The address of the goal account in a slot.
pub fn derive_goal_pda(program_id: &Pubkey, network_config: &Pubkey, goal_slot_id: u64) -> (r: Result<(Pubkey, u8), DacError>)
    ensures
        derived(r, goal_seeds(network_config@, goal_slot_id), program_id@, PdaKind::Goal),
{
    let mut seeds: Vec<Vec<u8>> = Vec::new();
    seeds.push(bytes_of("goal".as_bytes()));
    seeds.push(bytes_of(network_config));
    seeds.push(u64_to_le_bytes(goal_slot_id));
    assert(seeds_view(seeds@) == goal_seeds(network_config@, goal_slot_id));
    find_pda(seeds, program_id, PdaKind::Goal)
}

/// The address of the task account in a slot.
pub fn derive_task_pda(program_id: &Pubkey, network_config: &Pubkey, task_slot_id: u64) -> (r: Result<(Pubkey, u8), DacError>)
    ensures
        derived(r, task_seeds(network_config@, task_slot_id), program_id@, PdaKind::Task),
{
    let mut seeds: Vec<Vec<u8>> = Vec::new();
    seeds.push(bytes_of("task".as_bytes()));
    seeds.push(bytes_of(network_config));
    seeds.push(u64_to_le_bytes(task_slot_id));
    assert(seeds_view(seeds@) == task_seeds(network_config@, task_slot_id));
    find_pda(seeds, program_id, PdaKind::Task)
}

/// The address of the treasury of a node account.
pub fn derive_node_treasury_pda(program_id: &Pubkey, node_info: &Pubkey) -> (r: Result<(Pubkey, u8), DacError>)
    ensures
        derived(r, node_treasury_seeds(node_info@), program_id@, PdaKind::NodeTreasury),
{
    let mut seeds: Vec<Vec<u8>> = Vec::new();
    seeds.push(bytes_of("node_treasury".as_bytes()));
    seeds.push(bytes_of(node_info));
    assert(seeds_view(seeds@) == node_treasury_seeds(node_info@));
    find_pda(seeds, program_id, PdaKind::NodeTreasury)
}

/// The address of the vault of a goal account.
pub fn derive_goal_vault_pda(program_id: &Pubkey, goal: &Pubkey) -> (r: Result<(Pubkey, u8), DacError>)
    ensures
        derived(r, goal_vault_seeds(goal@), program_id@, PdaKind::GoalVault),
{
    let mut seeds: Vec<Vec<u8>> = Vec::new();
    seeds.push(bytes_of("goal_vault".as_bytes()));
    seeds.push(bytes_of(goal));
    assert(seeds_view(seeds@) == goal_vault_seeds(goal@));
    find_pda(seeds, program_id, PdaKind::GoalVault)
}

/// The address of a contributor's contribution to a goal.
pub fn derive_contribution_pda(program_id: &Pubkey, goal: &Pubkey, contributor: &Pubkey) -> (r: Result<(Pubkey, u8), DacError>)
    ensures
        derived(r, contribution_seeds(goal@, contributor@), program_id@, PdaKind::Contribution),
{
    let mut seeds: Vec<Vec<u8>> = Vec::new();
    seeds.push(bytes_of("contribution".as_bytes()));
    seeds.push(bytes_of(goal));
    seeds.push(bytes_of(contributor));
    assert(seeds_view(seeds@) == contribution_seeds(goal@, contributor@));
    find_pda(seeds, program_id, PdaKind::Contribution)
}

} // verus!
