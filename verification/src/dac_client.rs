//! The DAC client's own logic: which addresses each account and instruction
//! uses, which filters select the accounts it lists or watches, and how it
//! picks among the accounts that come back. The transport (RPC requests and
//! subscriptions) stands outside the library and hands results in.

use vstd::prelude::*;
use crate::chain::{
    Agent, AgentStatus, Goal, GoalStatus, NetworkConfig, NodeStatus, NodeType, Pubkey, Task, TaskStatus,
    agent_status_byte, goal_status_byte, node_status_byte, node_type_byte, task_status_byte,
};
use crate::error::{DacError, PdaKind};
use crate::filters::{
    AccountFilter, all_filters_match, byte_filter, bytes_filter, filters_view, lemma_all_match_concat,
    lemma_all_match_single, lemma_byte_filter_matches,
};
use crate::pda::{
    agent_seeds, contribution_seeds, goal_seeds, goal_vault_seeds, network_config_seeds, node_info_seeds,
    node_treasury_seeds, program_address, task_seeds,
};

verus! {

/// Identity of the DAC program: its id and the 8-byte discriminators that
/// open each kind of account it owns.
#[derive(Clone, Copy, Debug)]
pub struct DacProgram {
    pub program_id: Pubkey,
    pub node_info_discriminator: [u8; 8],
    pub agent_discriminator: [u8; 8],
    pub task_discriminator: [u8; 8],
    pub goal_discriminator: [u8; 8],
}

/// A client of the DAC program, acting for `payer` in the network whose
/// authority is `authority`.
#[derive(Clone, Copy, Debug)]
pub struct DacClient {
    pub program: DacProgram,
    pub payer: Pubkey,
    pub authority: Pubkey,
}

/// The address that a derivation finds, without its bump seed.
pub open spec fn pda(seeds: Seq<Seq<u8>>, program_id: Seq<u8>) -> Option<Seq<u8>> {
    match program_address(seeds, program_id) {
        Some((a, _)) => Some(a),
        None => None,
    }
}

/// Whether an address result agrees with the derivation on these seeds.
pub open spec fn address_result(
    r: Result<Pubkey, DacError>,
    seeds: Seq<Seq<u8>>,
    program_id: Seq<u8>,
    kind: PdaKind,
) -> bool {
    match r {
        Ok(a) => pda(seeds, program_id) == Some(a@),
        Err(e) => pda(seeds, program_id) is None && e == DacError::PdaDerivationFailed(kind),
    }
}

fn address_only(r: Result<(Pubkey, u8), DacError>) -> (a: Result<Pubkey, DacError>)
    ensures
        match r {
            Ok((p, _)) => a == Ok::<Pubkey, DacError>(p),
            Err(e) => a == Err::<Pubkey, DacError>(e),
        },
{
    match r {
        Ok((p, _)) => Ok(p),
        Err(e) => Err(e),
    }
}

/// The id of the system program: 32 zero bytes.
pub open spec fn system_program_id() -> Seq<u8> {
    Seq::new(32, |i: int| 0u8)
}

/// The id of the instructions sysvar.
pub open spec fn instructions_sysvar_id() -> Seq<u8> {
    seq![6u8, 167, 213, 23, 24, 123, 209, 102, 53, 218, 212, 4, 85, 253, 194, 192,
        193, 36, 198, 143, 33, 86, 117, 165, 219, 186, 203, 95, 8, 0, 0, 0]
}

pub fn system_program() -> (p: Pubkey)
    ensures
        p@ == system_program_id(),
{
    let p: Pubkey = [0u8; 32];
    assert(p@ =~= system_program_id());
    p
}

pub fn instructions_sysvar() -> (p: Pubkey)
    ensures
        p@ == instructions_sysvar_id(),
{
    let p: Pubkey = [6u8, 167, 213, 23, 24, 123, 209, 102, 53, 218, 212, 4, 85, 253, 194, 192,
        193, 36, 198, 143, 33, 86, 117, 165, 219, 186, 203, 95, 8, 0, 0, 0];
    assert(p@ =~= instructions_sysvar_id());
    p
}

/// Byte offsets of the fields that the filters compare, in the program's
/// account layouts (an 8-byte discriminator first, then the fields in order).
pub const NODE_PUBKEY_OFFSET: usize = 40;
pub const NODE_TYPE_OFFSET: usize = 72;
pub const NODE_STATUS_OFFSET: usize = 73;
pub const AGENT_STATUS_OFFSET: usize = 48;
pub const TASK_STATUS_OFFSET: usize = 49;
pub const GOAL_TASK_OFFSET: usize = 80;
pub const GOAL_STATUS_OFFSET: usize = 112;


/// The filters that list node accounts of one type in one status.
pub open spec fn node_listing_filters(disc: Seq<u8>, node_type: NodeType, status: NodeStatus) -> Seq<(int, Seq<u8>)> {
    seq![
        (0int, disc),
        (NODE_TYPE_OFFSET as int, seq![node_type_byte(node_type)]),
        (NODE_STATUS_OFFSET as int, seq![node_status_byte(status)]),
    ]
}

/// The filters of a stream of node accounts: the discriminator, then each
/// criterion given.
pub open spec fn node_subscription_filters(
    disc: Seq<u8>,
    node_pubkey: Option<Pubkey>,
    node_type: Option<NodeType>,
    status: Option<NodeStatus>,
) -> Seq<(int, Seq<u8>)> {
    seq![(0int, disc)]
        + match node_pubkey {
            Some(k) => seq![(NODE_PUBKEY_OFFSET as int, k@)],
            None => Seq::<(int, Seq<u8>)>::empty(),
        }
        + match node_type {
            Some(t) => seq![(NODE_TYPE_OFFSET as int, seq![node_type_byte(t)])],
            None => Seq::<(int, Seq<u8>)>::empty(),
        }
        + match status {
            Some(s) => seq![(NODE_STATUS_OFFSET as int, seq![node_status_byte(s)])],
            None => Seq::<(int, Seq<u8>)>::empty(),
        }
}

impl DacClient {
    pub fn new(program: DacProgram, payer: Pubkey, authority: Pubkey) -> (c: Self)
        ensures
            c.program == program,
            c.payer == payer,
            c.authority == authority,
    {
        DacClient { program, payer, authority }
    }

    pub open spec fn program_id(&self) -> Seq<u8> {
        self.program.program_id@
    }

    pub fn derive_network_config_pda(&self) -> (r: Result<Pubkey, DacError>)
        ensures
            address_result(r, network_config_seeds(), self.program_id(), PdaKind::NetworkConfig),
    {
        address_only(crate::pda::derive_network_config_pda(&self.program.program_id))
    }

    pub fn derive_node_info_pda(&self, node_pubkey: &Pubkey) -> (r: Result<Pubkey, DacError>)
        ensures
            address_result(r, node_info_seeds(node_pubkey@), self.program_id(), PdaKind::NodeInfo),
    {
        address_only(crate::pda::derive_node_info_pda(&self.program.program_id, node_pubkey))
    }

    pub fn derive_agent_pda(&self, network_config: &Pubkey, agent_slot_id: u64) -> (r: Result<Pubkey, DacError>)
        ensures
            address_result(r, agent_seeds(network_config@, agent_slot_id), self.program_id(), PdaKind::Agent),
    {
        address_only(crate::pda::derive_agent_pda(&self.program.program_id, network_config, agent_slot_id))
    }

    pub fn derive_goal_pda(&self, network_config: &Pubkey, goal_slot_id: u64) -> (r: Result<Pubkey, DacError>)
        ensures
            address_result(r, goal_seeds(network_config@, goal_slot_id), self.program_id(), PdaKind::Goal),
    {
        address_only(crate::pda::derive_goal_pda(&self.program.program_id, network_config, goal_slot_id))
    }

    pub fn derive_task_pda(&self, network_config: &Pubkey, task_slot_id: u64) -> (r: Result<Pubkey, DacError>)
        ensures
            address_result(r, task_seeds(network_config@, task_slot_id), self.program_id(), PdaKind::Task),
    {
        address_only(crate::pda::derive_task_pda(&self.program.program_id, network_config, task_slot_id))
    }

    pub fn derive_node_treasury_pda(&self, node_info: &Pubkey) -> (r: Result<Pubkey, DacError>)
        ensures
            address_result(r, node_treasury_seeds(node_info@), self.program_id(), PdaKind::NodeTreasury),
    {
        address_only(crate::pda::derive_node_treasury_pda(&self.program.program_id, node_info))
    }

    pub fn derive_goal_vault_pda(&self, goal: &Pubkey) -> (r: Result<Pubkey, DacError>)
        ensures
            address_result(r, goal_vault_seeds(goal@), self.program_id(), PdaKind::GoalVault),
    {
        address_only(crate::pda::derive_goal_vault_pda(&self.program.program_id, goal))
    }

    pub fn derive_contribution_pda(&self, goal: &Pubkey, contributor: &Pubkey) -> (r: Result<Pubkey, DacError>)
        ensures
            address_result(r, contribution_seeds(goal@, contributor@), self.program_id(), PdaKind::Contribution),
    {
        address_only(crate::pda::derive_contribution_pda(&self.program.program_id, goal, contributor))
    }

    /// Filters that list the node accounts of one type in one status.
    pub fn nodes_by_status_and_type_filters(&self, status: NodeStatus, node_type: NodeType) -> (fs: Vec<AccountFilter>)
        ensures
            filters_view(fs@) == node_listing_filters(self.program.node_info_discriminator@, node_type, status),
    {
        let mut fs: Vec<AccountFilter> = Vec::new();
        fs.push(bytes_filter(0, &self.program.node_info_discriminator));
        fs.push(byte_filter(NODE_TYPE_OFFSET, node_type.to_byte()));
        fs.push(byte_filter(NODE_STATUS_OFFSET, status.to_byte()));
        assert(filters_view(fs@) =~= seq![
            (0int, self.program.node_info_discriminator@),
            (NODE_TYPE_OFFSET as int, seq![node_type_byte(node_type)]),
            (NODE_STATUS_OFFSET as int, seq![node_status_byte(status)]),
        ]);
        fs
    }

    /// Filters that list the agent accounts in one status.
    pub fn agents_by_status_filters(&self, status: AgentStatus) -> (fs: Vec<AccountFilter>)
        ensures
            filters_view(fs@) == seq![
                (0int, self.program.agent_discriminator@),
                (AGENT_STATUS_OFFSET as int, seq![agent_status_byte(status)]),
            ],
    {
        let mut fs: Vec<AccountFilter> = Vec::new();
        fs.push(bytes_filter(0, &self.program.agent_discriminator));
        fs.push(byte_filter(AGENT_STATUS_OFFSET, status.to_byte()));
        assert(filters_view(fs@) =~= seq![
            (0int, self.program.agent_discriminator@),
            (AGENT_STATUS_OFFSET as int, seq![agent_status_byte(status)]),
        ]);
        fs
    }

    /// Filters that list the goal accounts that refer to the task in a slot;
    /// the task's address is derived first.
    pub fn goal_by_task_filters(&self, network_config: &Pubkey, task_slot_id: u64) -> (r: Result<Vec<AccountFilter>, DacError>)
        ensures
            match r {
                Ok(fs) => exists|t: Pubkey|
                    pda(task_seeds(network_config@, task_slot_id), self.program_id()) == Some(t@)
                    && filters_view(fs@) == seq![
                        (0int, self.program.goal_discriminator@),
                        (GOAL_TASK_OFFSET as int, t@),
                    ],
                Err(e) => pda(task_seeds(network_config@, task_slot_id), self.program_id()) is None
                    && e == DacError::PdaDerivationFailed(PdaKind::Task),
            },
    {
        let task = self.derive_task_pda(network_config, task_slot_id)?;
        let mut fs: Vec<AccountFilter> = Vec::new();
        fs.push(bytes_filter(0, &self.program.goal_discriminator));
        fs.push(bytes_filter(GOAL_TASK_OFFSET, &task));
        assert(filters_view(fs@) =~= seq![
            (0int, self.program.goal_discriminator@),
            (GOAL_TASK_OFFSET as int, task@),
        ]);
        Ok(fs)
    }

    /// Filters for a stream of node accounts: the discriminator, then, for
    /// each criterion given, the node's key, its type and its status.
    pub fn node_info_subscription_filters(
        &self,
        node_pubkey: Option<Pubkey>,
        node_type: Option<NodeType>,
        status: Option<NodeStatus>,
    ) -> (fs: Vec<AccountFilter>)
        ensures
            filters_view(fs@) == node_subscription_filters(self.program.node_info_discriminator@, node_pubkey, node_type, status),
    {
        let mut fs: Vec<AccountFilter> = Vec::new();
        fs.push(bytes_filter(0, &self.program.node_info_discriminator));
        let ghost a = filters_view(fs@);
        assert(a =~= seq![(0int, self.program.node_info_discriminator@)]);
        if let Some(k) = node_pubkey {
            fs.push(bytes_filter(NODE_PUBKEY_OFFSET, &k));
        }
        let ghost b = filters_view(fs@);
        assert(b =~= a + match node_pubkey {
            Some(k) => seq![(NODE_PUBKEY_OFFSET as int, k@)],
            None => Seq::<(int, Seq<u8>)>::empty(),
        });
        if let Some(t) = node_type {
            fs.push(byte_filter(NODE_TYPE_OFFSET, t.to_byte()));
        }
        let ghost c = filters_view(fs@);
        assert(c =~= b + match node_type {
            Some(t) => seq![(NODE_TYPE_OFFSET as int, seq![node_type_byte(t)])],
            None => Seq::<(int, Seq<u8>)>::empty(),
        });
        if let Some(s) = status {
            fs.push(byte_filter(NODE_STATUS_OFFSET, s.to_byte()));
        }
        assert(filters_view(fs@) =~= c + match status {
            Some(s) => seq![(NODE_STATUS_OFFSET as int, seq![node_status_byte(s)])],
            None => Seq::<(int, Seq<u8>)>::empty(),
        });
        fs
    }

    /// Filters for a stream of agent accounts, optionally in one status.
    pub fn agent_subscription_filters(&self, status: Option<AgentStatus>) -> (fs: Vec<AccountFilter>)
        ensures
            filters_view(fs@) == seq![(0int, self.program.agent_discriminator@)] + match status {
                Some(s) => seq![(AGENT_STATUS_OFFSET as int, seq![agent_status_byte(s)])],
                None => Seq::<(int, Seq<u8>)>::empty(),
            },
    {
        let mut fs: Vec<AccountFilter> = Vec::new();
        fs.push(bytes_filter(0, &self.program.agent_discriminator));
        if let Some(s) = status {
            fs.push(byte_filter(AGENT_STATUS_OFFSET, s.to_byte()));
        }
        assert(filters_view(fs@) =~= seq![(0int, self.program.agent_discriminator@)] + match status {
            Some(s) => seq![(AGENT_STATUS_OFFSET as int, seq![agent_status_byte(s)])],
            None => Seq::<(int, Seq<u8>)>::empty(),
        });
        fs
    }

    /// Filters for a stream of task accounts, optionally in one status.
    pub fn task_subscription_filters(&self, status: Option<TaskStatus>) -> (fs: Vec<AccountFilter>)
        ensures
            filters_view(fs@) == seq![(0int, self.program.task_discriminator@)] + match status {
                Some(s) => seq![(TASK_STATUS_OFFSET as int, seq![task_status_byte(s)])],
                None => Seq::<(int, Seq<u8>)>::empty(),
            },
    {
        let mut fs: Vec<AccountFilter> = Vec::new();
        fs.push(bytes_filter(0, &self.program.task_discriminator));
        if let Some(s) = status {
            fs.push(byte_filter(TASK_STATUS_OFFSET, s.to_byte()));
        }
        assert(filters_view(fs@) =~= seq![(0int, self.program.task_discriminator@)] + match status {
            Some(s) => seq![(TASK_STATUS_OFFSET as int, seq![task_status_byte(s)])],
            None => Seq::<(int, Seq<u8>)>::empty(),
        });
        fs
    }

    /// Filters for a stream of goal accounts, optionally in one status.
    pub fn goal_subscription_filters(&self, status: Option<GoalStatus>) -> (fs: Vec<AccountFilter>)
        ensures
            filters_view(fs@) == seq![(0int, self.program.goal_discriminator@)] + match status {
                Some(s) => seq![(GOAL_STATUS_OFFSET as int, seq![goal_status_byte(s)])],
                None => Seq::<(int, Seq<u8>)>::empty(),
            },
    {
        let mut fs: Vec<AccountFilter> = Vec::new();
        fs.push(bytes_filter(0, &self.program.goal_discriminator));
        if let Some(s) = status {
            fs.push(byte_filter(GOAL_STATUS_OFFSET, s.to_byte()));
        }
        assert(filters_view(fs@) =~= seq![(0int, self.program.goal_discriminator@)] + match status {
            Some(s) => seq![(GOAL_STATUS_OFFSET as int, seq![goal_status_byte(s)])],
            None => Seq::<(int, Seq<u8>)>::empty(),
        });
        fs
    }
}

/// The goal for a task out of the goal accounts that refer to it: the first
/// one listed; an error when none does.
pub fn select_goal_for_task(task_slot_id: u64, goals: Vec<(Pubkey, Goal)>) -> (r: Result<Goal, DacError>)
    ensures
        goals@.len() == 0 ==> r == Err::<Goal, DacError>(DacError::GoalForTaskNotFound(task_slot_id)),
        goals@.len() > 0 ==> r == Ok::<Goal, DacError>(goals@[0].1),
{
    if goals.len() == 0 {
        return Err(DacError::GoalForTaskNotFound(task_slot_id));
    }
    let mut goals = goals;
    let (_, goal) = goals.remove(0);
    Ok(goal)
}

/// The task in a slot, from the lookup of its account: an error when the
/// account does not exist.
pub fn require_task(task_slot_id: u64, task: Option<Task>) -> (r: Result<Task, DacError>)
    ensures
        match task {
            Some(t) => r == Ok::<Task, DacError>(t),
            None => r == Err::<Task, DacError>(DacError::TaskNotFound(task_slot_id)),
        },
{
    match task {
        Some(t) => Ok(t),
        None => Err(DacError::TaskNotFound(task_slot_id)),
    }
}

/// The agent at an address, from the lookup of its account: an error when
/// the account does not exist.
pub fn require_agent(agent_pubkey: Pubkey, agent: Option<Agent>) -> (r: Result<Agent, DacError>)
    ensures
        match agent {
            Some(a) => r == Ok::<Agent, DacError>(a),
            None => r == Err::<Agent, DacError>(DacError::AgentNotFound(agent_pubkey)),
        },
{
    match agent {
        Some(a) => Ok(a),
        None => Err(DacError::AgentNotFound(agent_pubkey)),
    }
}


/// The accounts and arguments of a `register_node` instruction.
#[derive(Clone, Copy, Debug)]
pub struct RegisterNodePlan {
    pub owner: Pubkey,
    pub node_pubkey: Pubkey,
    pub network_config: Pubkey,
    pub node_info: Pubkey,
    pub node_treasury: Pubkey,
    pub system_program: Pubkey,
    pub node_type: NodeType,
}

/// The accounts and arguments of a `claim_confidential_node` instruction.
#[derive(Clone, Copy, Debug)]
pub struct ClaimConfidentialNodePlan {
    pub confidential_node: Pubkey,
    pub network_config: Pubkey,
    pub node_info: Pubkey,
    pub code_measurement: [u8; 32],
    pub tee_signing_pubkey: Pubkey,
}

/// The accounts and arguments of an `initialize_network` instruction.
#[derive(Clone, Debug)]
pub struct InitializeNetworkPlan {
    pub authority: Pubkey,
    pub network_config: Pubkey,
    pub system_program: Pubkey,
    pub cid_config: String,
    pub allocate_goals: u64,
    pub allocate_tasks: u64,
    pub approved_code_measurements: Vec<[u8; 32]>,
}

/// The accounts and arguments of an `update_network_config` instruction.
#[derive(Clone, Debug)]
pub struct UpdateNetworkConfigPlan {
    pub authority: Pubkey,
    pub network_config: Pubkey,
    pub cid_config: Option<String>,
    pub new_code_measurement: Option<[u8; 32]>,
}

/// The accounts and arguments of a `create_agent` instruction.
#[derive(Clone, Debug)]
pub struct CreateAgentPlan {
    pub agent_owner: Pubkey,
    pub network_config: Pubkey,
    pub agent: Pubkey,
    pub system_program: Pubkey,
    pub agent_config_cid: String,
}

/// The accounts and arguments of a `create_goal` instruction.
#[derive(Clone, Copy, Debug)]
pub struct CreateGoalPlan {
    pub owner: Pubkey,
    pub network_config: Pubkey,
    pub goal: Pubkey,
    pub system_program: Pubkey,
    pub is_owned: bool,
    pub is_confidential: bool,
}

/// The accounts and arguments of a `claim_public_node` instruction.
#[derive(Clone, Debug)]
pub struct ClaimPublicNodePlan {
    pub node: Pubkey,
    pub network_config: Pubkey,
    pub node_info: Pubkey,
    pub node_info_cid: String,
}

/// The accounts and arguments of a `claim_task` instruction.
#[derive(Clone, Copy, Debug)]
pub struct ClaimTaskPlan {
    pub compute_node: Pubkey,
    pub task: Pubkey,
    pub goal: Pubkey,
    pub vault: Pubkey,
    pub compute_node_info: Pubkey,
    pub network_config: Pubkey,
    pub max_task_cost: u64,
}

/// The accounts and arguments of a `submit_task_result` instruction.
#[derive(Clone, Debug)]
pub struct SubmitTaskResultPlan {
    pub compute_node: Pubkey,
    pub network_config: Pubkey,
    pub task: Pubkey,
    pub input_cid: String,
    pub output_cid: String,
    pub next_input_cid: String,
}

/// The accounts of a task validation instruction, public or confidential.
#[derive(Clone, Copy, Debug)]
pub struct TaskValidationAccounts {
    pub node_validating: Pubkey,
    pub goal: Pubkey,
    pub vault: Pubkey,
    pub task: Pubkey,
    pub node_info: Pubkey,
    pub node_treasury: Pubkey,
    pub validator_node_info: Pubkey,
    pub network_config: Pubkey,
    pub instruction_sysvar: Pubkey,
}

/// The accounts and arguments of a `validate_agent` instruction.
#[derive(Clone, Copy, Debug)]
pub struct ValidateAgentPlan {
    pub node: Pubkey,
    pub agent: Pubkey,
    pub node_info: Pubkey,
    pub network_config: Pubkey,
}

/// The accounts and arguments of a `validate_public_node` instruction.
#[derive(Clone, Copy, Debug)]
pub struct ValidatePublicNodePlan {
    pub node_validating: Pubkey,
    pub network_config: Pubkey,
    pub node_validating_info: Pubkey,
    pub node_info: Pubkey,
    pub approved: bool,
}

/// The error for a failed derivation.
pub open spec fn pda_err(kind: PdaKind) -> DacError {
    DacError::PdaDerivationFailed(kind)
}

/// Addresses of `register_node`: network config, node account, its treasury.
pub open spec fn register_node_addresses(pid: Seq<u8>, node: Seq<u8>) -> Result<Seq<Seq<u8>>, DacError> {
    match pda(network_config_seeds(), pid) {
        None => Err(pda_err(PdaKind::NetworkConfig)),
        Some(nc) => match pda(node_info_seeds(node), pid) {
            None => Err(pda_err(PdaKind::NodeInfo)),
            Some(ni) => match pda(node_treasury_seeds(ni), pid) {
                None => Err(pda_err(PdaKind::NodeTreasury)),
                Some(nt) => Ok(seq![nc, ni, nt]),
            },
        },
    }
}

/// Addresses of an instruction on a node account: network config, node account.
pub open spec fn node_addresses(pid: Seq<u8>, node: Seq<u8>) -> Result<Seq<Seq<u8>>, DacError> {
    match pda(network_config_seeds(), pid) {
        None => Err(pda_err(PdaKind::NetworkConfig)),
        Some(nc) => match pda(node_info_seeds(node), pid) {
            None => Err(pda_err(PdaKind::NodeInfo)),
            Some(ni) => Ok(seq![nc, ni]),
        },
    }
}

/// Address of the network configuration account alone.
pub open spec fn network_addresses(pid: Seq<u8>) -> Result<Seq<Seq<u8>>, DacError> {
    match pda(network_config_seeds(), pid) {
        None => Err(pda_err(PdaKind::NetworkConfig)),
        Some(nc) => Ok(seq![nc]),
    }
}

/// Addresses of `create_agent`: network config, then, once the network
/// configuration account is known to exist, the agent in the next free slot.
pub open spec fn create_agent_addresses(pid: Seq<u8>, config: Option<NetworkConfig>) -> Result<Seq<Seq<u8>>, DacError> {
    match pda(network_config_seeds(), pid) {
        None => Err(pda_err(PdaKind::NetworkConfig)),
        Some(nc) => match config {
            None => Err(DacError::NetworkNotInitialized),
            Some(c) => match pda(agent_seeds(nc, c.agent_count), pid) {
                None => Err(pda_err(PdaKind::Agent)),
                Some(a) => Ok(seq![nc, a]),
            },
        },
    }
}

/// Addresses of `create_goal`: network config, then the goal in the next free slot.
pub open spec fn create_goal_addresses(pid: Seq<u8>, config: Option<NetworkConfig>) -> Result<Seq<Seq<u8>>, DacError> {
    match pda(network_config_seeds(), pid) {
        None => Err(pda_err(PdaKind::NetworkConfig)),
        Some(nc) => match config {
            None => Err(DacError::NetworkNotInitialized),
            Some(c) => match pda(goal_seeds(nc, c.goal_count), pid) {
                None => Err(pda_err(PdaKind::Goal)),
                Some(g) => Ok(seq![nc, g]),
            },
        },
    }
}

/// Addresses of `claim_task`: network config, the claiming node's account,
/// the goal, its vault, the task.
pub open spec fn claim_task_addresses(pid: Seq<u8>, node: Seq<u8>, goal_slot_id: u64, task_slot_id: u64) -> Result<Seq<Seq<u8>>, DacError> {
    match pda(network_config_seeds(), pid) {
        None => Err(pda_err(PdaKind::NetworkConfig)),
        Some(nc) => match pda(node_info_seeds(node), pid) {
            None => Err(pda_err(PdaKind::NodeInfo)),
            Some(ni) => match pda(goal_seeds(nc, goal_slot_id), pid) {
                None => Err(pda_err(PdaKind::Goal)),
                Some(g) => match pda(goal_vault_seeds(g), pid) {
                    None => Err(pda_err(PdaKind::GoalVault)),
                    Some(v) => match pda(task_seeds(nc, task_slot_id), pid) {
                        None => Err(pda_err(PdaKind::Task)),
                        Some(t) => Ok(seq![nc, ni, g, v, t]),
                    },
                },
            },
        },
    }
}

/// Addresses of `submit_task_result`: network config, task.
pub open spec fn task_result_addresses(pid: Seq<u8>, task_slot_id: u64) -> Result<Seq<Seq<u8>>, DacError> {
    match pda(network_config_seeds(), pid) {
        None => Err(pda_err(PdaKind::NetworkConfig)),
        Some(nc) => match pda(task_seeds(nc, task_slot_id), pid) {
            None => Err(pda_err(PdaKind::Task)),
            Some(t) => Ok(seq![nc, t]),
        },
    }
}

/// Addresses of a task validation: network config, the validator's account,
/// the goal, its vault, the task; then, once the task account is known and
/// has a compute node, that node's account and its treasury.
pub open spec fn task_validation_addresses(
    pid: Seq<u8>,
    validator: Seq<u8>,
    goal_slot_id: u64,
    task_slot_id: u64,
    task: Option<Task>,
) -> Result<Seq<Seq<u8>>, DacError> {
    match pda(network_config_seeds(), pid) {
        None => Err(pda_err(PdaKind::NetworkConfig)),
        Some(nc) => match pda(node_info_seeds(validator), pid) {
            None => Err(pda_err(PdaKind::NodeInfo)),
            Some(vi) => match pda(goal_seeds(nc, goal_slot_id), pid) {
                None => Err(pda_err(PdaKind::Goal)),
                Some(g) => match pda(goal_vault_seeds(g), pid) {
                    None => Err(pda_err(PdaKind::GoalVault)),
                    Some(v) => match pda(task_seeds(nc, task_slot_id), pid) {
                        None => Err(pda_err(PdaKind::Task)),
                        Some(t) => match task {
                            None => Err(DacError::TaskNotFound(task_slot_id)),
                            Some(acc) => match acc.compute_node {
                                None => Err(DacError::TaskHasNoNode),
                                Some(node) => match pda(node_info_seeds(node@), pid) {
                                    None => Err(pda_err(PdaKind::NodeInfo)),
                                    Some(ni) => match pda(node_treasury_seeds(ni), pid) {
                                        None => Err(pda_err(PdaKind::NodeTreasury)),
                                        Some(nt) => Ok(seq![nc, vi, g, v, t, ni, nt]),
                                    },
                                },
                            },
                        },
                    },
                },
            },
        },
    }
}

/// Addresses of `validate_agent`: network config, agent, the validator's account.
pub open spec fn validate_agent_addresses(pid: Seq<u8>, validator: Seq<u8>, agent_slot_id: u64) -> Result<Seq<Seq<u8>>, DacError> {
    match pda(network_config_seeds(), pid) {
        None => Err(pda_err(PdaKind::NetworkConfig)),
        Some(nc) => match pda(agent_seeds(nc, agent_slot_id), pid) {
            None => Err(pda_err(PdaKind::Agent)),
            Some(a) => match pda(node_info_seeds(validator), pid) {
                None => Err(pda_err(PdaKind::NodeInfo)),
                Some(ni) => Ok(seq![nc, a, ni]),
            },
        },
    }
}

/// Addresses of `validate_public_node`: network config, the validator's
/// account, the public node's account.
pub open spec fn validate_public_node_addresses(pid: Seq<u8>, validator: Seq<u8>, node: Seq<u8>) -> Result<Seq<Seq<u8>>, DacError> {
    match pda(network_config_seeds(), pid) {
        None => Err(pda_err(PdaKind::NetworkConfig)),
        Some(nc) => match pda(node_info_seeds(validator), pid) {
            None => Err(pda_err(PdaKind::NodeInfo)),
            Some(vi) => match pda(node_info_seeds(node), pid) {
                None => Err(pda_err(PdaKind::NodeInfo)),
                Some(ni) => Ok(seq![nc, vi, ni]),
            },
        },
    }
}

/// Whether a plan's result agrees with the addresses that its derivations
/// give: on success the plan's addresses are those, on failure the error is
/// the one of the first step that failed.
pub open spec fn plan_agrees<P>(r: Result<P, DacError>, expected: Result<Seq<Seq<u8>>, DacError>, addresses: spec_fn(P) -> Seq<Seq<u8>>) -> bool {
    match r {
        Ok(p) => expected == Ok::<Seq<Seq<u8>>, DacError>(addresses(p)),
        Err(e) => expected == Err::<Seq<Seq<u8>>, DacError>(e),
    }
}

impl DacClient {
    /// The `register_node` instruction of a node of this type, paid by the payer.
    pub fn register_node_plan(&self, node_pubkey: &Pubkey, node_type: NodeType) -> (r: Result<RegisterNodePlan, DacError>)
        ensures
            plan_agrees(r, register_node_addresses(self.program_id(), node_pubkey@),
                |p: RegisterNodePlan| seq![p.network_config@, p.node_info@, p.node_treasury@]),
            r matches Ok(p) ==> p.owner == self.payer && p.node_pubkey == *node_pubkey
                && p.system_program@ == system_program_id() && p.node_type == node_type,
    {
        let network_config = self.derive_network_config_pda()?;
        let node_info = self.derive_node_info_pda(node_pubkey)?;
        let node_treasury = self.derive_node_treasury_pda(&node_info)?;
        Ok(RegisterNodePlan {
            owner: self.payer,
            node_pubkey: *node_pubkey,
            network_config,
            node_info,
            node_treasury,
            system_program: system_program(),
            node_type,
        })
    }

    /// The `claim_confidential_node` instruction with the TEE attestation data.
    pub fn claim_confidential_node_plan(
        &self,
        confidential_node_pubkey: &Pubkey,
        code_measurement: [u8; 32],
        tee_signing_pubkey: Pubkey,
    ) -> (r: Result<ClaimConfidentialNodePlan, DacError>)
        ensures
            plan_agrees(r, node_addresses(self.program_id(), confidential_node_pubkey@),
                |p: ClaimConfidentialNodePlan| seq![p.network_config@, p.node_info@]),
            r matches Ok(p) ==> p.confidential_node == *confidential_node_pubkey
                && p.code_measurement == code_measurement && p.tee_signing_pubkey == tee_signing_pubkey,
    {
        let network_config = self.derive_network_config_pda()?;
        let node_info = self.derive_node_info_pda(confidential_node_pubkey)?;
        Ok(ClaimConfidentialNodePlan {
            confidential_node: *confidential_node_pubkey,
            network_config,
            node_info,
            code_measurement,
            tee_signing_pubkey,
        })
    }

    /// The `initialize_network` instruction, signed by the authority.
    pub fn initialize_network_plan(
        &self,
        cid_config: String,
        allocate_goals: u64,
        allocate_tasks: u64,
        approved_code_measurements: Vec<[u8; 32]>,
    ) -> (r: Result<InitializeNetworkPlan, DacError>)
        ensures
            plan_agrees(r, network_addresses(self.program_id()),
                |p: InitializeNetworkPlan| seq![p.network_config@]),
            r matches Ok(p) ==> p.authority == self.authority && p.system_program@ == system_program_id()
                && p.cid_config == cid_config && p.allocate_goals == allocate_goals
                && p.allocate_tasks == allocate_tasks
                && p.approved_code_measurements == approved_code_measurements,
    {
        let network_config = self.derive_network_config_pda()?;
        Ok(InitializeNetworkPlan {
            authority: self.authority,
            network_config,
            system_program: system_program(),
            cid_config,
            allocate_goals,
            allocate_tasks,
            approved_code_measurements,
        })
    }

    /// The `update_network_config` instruction; each argument given is set.
    pub fn update_network_config_plan(
        &self,
        cid_config: Option<String>,
        new_code_measurement: Option<[u8; 32]>,
    ) -> (r: Result<UpdateNetworkConfigPlan, DacError>)
        ensures
            plan_agrees(r, network_addresses(self.program_id()),
                |p: UpdateNetworkConfigPlan| seq![p.network_config@]),
            r matches Ok(p) ==> p.authority == self.authority && p.cid_config == cid_config
                && p.new_code_measurement == new_code_measurement,
    {
        let network_config = self.derive_network_config_pda()?;
        Ok(UpdateNetworkConfigPlan { authority: self.authority, network_config, cid_config, new_code_measurement })
    }

    /// The `create_agent` instruction: the agent takes the next free slot,
    /// which the network configuration account counts.
    pub fn create_agent_plan(
        &self,
        agent_owner: &Pubkey,
        agent_config_cid: String,
        network_config_account: Option<NetworkConfig>,
    ) -> (r: Result<CreateAgentPlan, DacError>)
        ensures
            plan_agrees(r, create_agent_addresses(self.program_id(), network_config_account),
                |p: CreateAgentPlan| seq![p.network_config@, p.agent@]),
            r matches Ok(p) ==> p.agent_owner == *agent_owner && p.system_program@ == system_program_id()
                && p.agent_config_cid == agent_config_cid,
    {
        let network_config = self.derive_network_config_pda()?;
        let account = match network_config_account {
            Some(a) => a,
            None => return Err(DacError::NetworkNotInitialized),
        };
        let agent = self.derive_agent_pda(&network_config, account.agent_count)?;
        Ok(CreateAgentPlan {
            agent_owner: *agent_owner,
            network_config,
            agent,
            system_program: system_program(),
            agent_config_cid,
        })
    }

    /// The `create_goal` instruction: the goal takes the next free slot.
    pub fn create_goal_plan(
        &self,
        owner: &Pubkey,
        is_owned: bool,
        is_confidential: bool,
        network_config_account: Option<NetworkConfig>,
    ) -> (r: Result<CreateGoalPlan, DacError>)
        ensures
            plan_agrees(r, create_goal_addresses(self.program_id(), network_config_account),
                |p: CreateGoalPlan| seq![p.network_config@, p.goal@]),
            r matches Ok(p) ==> p.owner == *owner && p.system_program@ == system_program_id()
                && p.is_owned == is_owned && p.is_confidential == is_confidential,
    {
        let network_config = self.derive_network_config_pda()?;
        let account = match network_config_account {
            Some(a) => a,
            None => return Err(DacError::NetworkNotInitialized),
        };
        let goal = self.derive_goal_pda(&network_config, account.goal_count)?;
        Ok(CreateGoalPlan {
            owner: *owner,
            network_config,
            goal,
            system_program: system_program(),
            is_owned,
            is_confidential,
        })
    }

    /// The `claim_public_node` instruction with the CID of the node's configuration.
    pub fn claim_public_node_plan(&self, public_node_pubkey: &Pubkey, node_info_cid: String) -> (r: Result<ClaimPublicNodePlan, DacError>)
        ensures
            plan_agrees(r, node_addresses(self.program_id(), public_node_pubkey@),
                |p: ClaimPublicNodePlan| seq![p.network_config@, p.node_info@]),
            r matches Ok(p) ==> p.node == *public_node_pubkey && p.node_info_cid == node_info_cid,
    {
        let network_config = self.derive_network_config_pda()?;
        let node_info = self.derive_node_info_pda(public_node_pubkey)?;
        Ok(ClaimPublicNodePlan { node: *public_node_pubkey, network_config, node_info, node_info_cid })
    }

    /// The `claim_task` instruction by the payer, for the task in a slot of
    /// the goal in `goal_slot_id` (the goal that refers to the task).
    pub fn claim_task_plan(&self, task_slot_id: u64, goal_slot_id: u64, max_task_cost: u64) -> (r: Result<ClaimTaskPlan, DacError>)
        ensures
            plan_agrees(r, claim_task_addresses(self.program_id(), self.payer@, goal_slot_id, task_slot_id),
                |p: ClaimTaskPlan| seq![p.network_config@, p.compute_node_info@, p.goal@, p.vault@, p.task@]),
            r matches Ok(p) ==> p.compute_node == self.payer && p.max_task_cost == max_task_cost,
            r matches Ok(p) ==> {
                &&& pda(network_config_seeds(), self.program_id()) == Some(p.network_config@)
                &&& pda(node_info_seeds(self.payer@), self.program_id()) == Some(p.compute_node_info@)
                &&& pda(goal_seeds(p.network_config@, goal_slot_id), self.program_id()) == Some(p.goal@)
                &&& pda(goal_vault_seeds(p.goal@), self.program_id()) == Some(p.vault@)
                &&& pda(task_seeds(p.network_config@, task_slot_id), self.program_id()) == Some(p.task@)
            },
    {
        let node_pubkey = self.payer;
        let network_config = self.derive_network_config_pda()?;
        let node_info = self.derive_node_info_pda(&node_pubkey)?;
        let goal = self.derive_goal_pda(&network_config, goal_slot_id)?;
        let vault = self.derive_goal_vault_pda(&goal)?;
        let task = self.derive_task_pda(&network_config, task_slot_id)?;
        Ok(ClaimTaskPlan {
            compute_node: node_pubkey,
            task,
            goal,
            vault,
            compute_node_info: node_info,
            network_config,
            max_task_cost,
        })
    }

    /// The `submit_task_result` instruction by the payer.
    pub fn submit_task_result_plan(
        &self,
        task_slot_id: u64,
        input_cid: String,
        output_cid: String,
        next_input_cid: String,
    ) -> (r: Result<SubmitTaskResultPlan, DacError>)
        ensures
            plan_agrees(r, task_result_addresses(self.program_id(), task_slot_id),
                |p: SubmitTaskResultPlan| seq![p.network_config@, p.task@]),
            r matches Ok(p) ==> p.compute_node == self.payer && p.input_cid == input_cid
                && p.output_cid == output_cid && p.next_input_cid == next_input_cid,
    {
        let network_config = self.derive_network_config_pda()?;
        let task = self.derive_task_pda(&network_config, task_slot_id)?;
        Ok(SubmitTaskResultPlan {
            compute_node: self.payer,
            network_config,
            task,
            input_cid,
            output_cid,
            next_input_cid,
        })
    }

    /// The accounts of a task validation by `validator_pubkey`; `task_account`
    /// is the lookup of the task's account, whose compute node is paid.
    pub fn task_validation_accounts(
        &self,
        validator_pubkey: &Pubkey,
        goal_slot_id: u64,
        task_slot_id: u64,
        task_account: Option<Task>,
    ) -> (r: Result<TaskValidationAccounts, DacError>)
        ensures
            plan_agrees(r, task_validation_addresses(self.program_id(), validator_pubkey@, goal_slot_id, task_slot_id, task_account),
                |p: TaskValidationAccounts| seq![p.network_config@, p.validator_node_info@, p.goal@, p.vault@,
                    p.task@, p.node_info@, p.node_treasury@]),
            r matches Ok(p) ==> p.node_validating == *validator_pubkey
                && p.instruction_sysvar@ == instructions_sysvar_id(),
            r matches Ok(p) ==> {
                &&& pda(network_config_seeds(), self.program_id()) == Some(p.network_config@)
                &&& pda(node_info_seeds(validator_pubkey@), self.program_id()) == Some(p.validator_node_info@)
                &&& pda(goal_seeds(p.network_config@, goal_slot_id), self.program_id()) == Some(p.goal@)
                &&& pda(goal_vault_seeds(p.goal@), self.program_id()) == Some(p.vault@)
                &&& pda(task_seeds(p.network_config@, task_slot_id), self.program_id()) == Some(p.task@)
                &&& (task_account matches Some(t) && t.compute_node matches Some(n)
                    && pda(node_info_seeds(n@), self.program_id()) == Some(p.node_info@))
                &&& pda(node_treasury_seeds(p.node_info@), self.program_id()) == Some(p.node_treasury@)
            },
    {
        let network_config = self.derive_network_config_pda()?;
        let validator_node_info = self.derive_node_info_pda(validator_pubkey)?;
        let goal = self.derive_goal_pda(&network_config, goal_slot_id)?;
        let vault = self.derive_goal_vault_pda(&goal)?;
        let task = self.derive_task_pda(&network_config, task_slot_id)?;
        let account = match task_account {
            Some(a) => a,
            None => return Err(DacError::TaskNotFound(task_slot_id)),
        };
        let node_pubkey = match account.compute_node {
            Some(n) => n,
            None => return Err(DacError::TaskHasNoNode),
        };
        let node_info = self.derive_node_info_pda(&node_pubkey)?;
        let node_treasury = self.derive_node_treasury_pda(&node_info)?;
        Ok(TaskValidationAccounts {
            node_validating: *validator_pubkey,
            goal,
            vault,
            task,
            node_info,
            node_treasury,
            validator_node_info,
            network_config,
            instruction_sysvar: instructions_sysvar(),
        })
    }

    /// The `validate_agent` instruction by `validator_pubkey`.
    pub fn validate_agent_plan(&self, validator_pubkey: &Pubkey, agent_slot_id: u64) -> (r: Result<ValidateAgentPlan, DacError>)
        ensures
            plan_agrees(r, validate_agent_addresses(self.program_id(), validator_pubkey@, agent_slot_id),
                |p: ValidateAgentPlan| seq![p.network_config@, p.agent@, p.node_info@]),
            r matches Ok(p) ==> p.node == *validator_pubkey,
    {
        let network_config = self.derive_network_config_pda()?;
        let agent = self.derive_agent_pda(&network_config, agent_slot_id)?;
        let node_info = self.derive_node_info_pda(validator_pubkey)?;
        Ok(ValidateAgentPlan { node: *validator_pubkey, agent, node_info, network_config })
    }

    /// The `validate_public_node` instruction by `validator_pubkey`.
    pub fn validate_public_node_plan(
        &self,
        validator_pubkey: &Pubkey,
        public_node_pubkey: &Pubkey,
        approved: bool,
    ) -> (r: Result<ValidatePublicNodePlan, DacError>)
        ensures
            plan_agrees(r, validate_public_node_addresses(self.program_id(), validator_pubkey@, public_node_pubkey@),
                |p: ValidatePublicNodePlan| seq![p.network_config@, p.node_validating_info@, p.node_info@]),
            r matches Ok(p) ==> p.node_validating == *validator_pubkey && p.approved == approved,
    {
        let network_config = self.derive_network_config_pda()?;
        let validator_node_info = self.derive_node_info_pda(validator_pubkey)?;
        let public_node_info = self.derive_node_info_pda(public_node_pubkey)?;
        Ok(ValidatePublicNodePlan {
            node_validating: *validator_pubkey,
            network_config,
            node_validating_info: validator_node_info,
            node_info: public_node_info,
            approved,
        })
    }
}


/// Law: a node account passes the filters of a node stream exactly when its
/// data opens with the node discriminator and, for each criterion given,
/// holds the node's key (bytes 40 to 72), its type (byte 72) and its status
/// (byte 73).
pub proof fn lemma_node_subscription_selects(
    disc: Seq<u8>,
    node_pubkey: Option<Pubkey>,
    node_type: Option<NodeType>,
    status: Option<NodeStatus>,
    data: Seq<u8>,
)
    ensures
        all_filters_match(node_subscription_filters(disc, node_pubkey, node_type, status), data) <==> {
            &&& disc.len() <= data.len() && data.subrange(0, disc.len() as int) == disc
            &&& node_pubkey matches Some(k) ==> 72 <= data.len() && data.subrange(40, 72) == k@
            &&& node_type matches Some(t) ==> 72 < data.len() && data[72] == node_type_byte(t)
            &&& status matches Some(s) ==> 73 < data.len() && data[73] == node_status_byte(s)
        },
{
    let a = seq![(0int, disc)];
    let b = match node_pubkey {
        Some(k) => seq![(NODE_PUBKEY_OFFSET as int, k@)],
        None => Seq::<(int, Seq<u8>)>::empty(),
    };
    let c = match node_type {
        Some(t) => seq![(NODE_TYPE_OFFSET as int, seq![node_type_byte(t)])],
        None => Seq::<(int, Seq<u8>)>::empty(),
    };
    let d = match status {
        Some(s) => seq![(NODE_STATUS_OFFSET as int, seq![node_status_byte(s)])],
        None => Seq::<(int, Seq<u8>)>::empty(),
    };
    lemma_all_match_concat(a + b + c, d, data);
    lemma_all_match_concat(a + b, c, data);
    lemma_all_match_concat(a, b, data);
    lemma_all_match_single((0int, disc), data);
    match node_pubkey {
        Some(k) => {
            lemma_all_match_single((NODE_PUBKEY_OFFSET as int, k@), data);
        },
        None => {},
    }
    match node_type {
        Some(t) => {
            lemma_all_match_single((NODE_TYPE_OFFSET as int, seq![node_type_byte(t)]), data);
            lemma_byte_filter_matches(72, node_type_byte(t), data);
        },
        None => {},
    }
    match status {
        Some(s) => {
            lemma_all_match_single((NODE_STATUS_OFFSET as int, seq![node_status_byte(s)]), data);
            lemma_byte_filter_matches(73, node_status_byte(s), data);
        },
        None => {},
    }
}

/// Law: a task validation names the goal of the goal's own slot and that
/// goal's vault, and the task of the task's slot, all under the network's
/// configuration account; the node paid is the task's compute node, with its
/// treasury.
pub proof fn lemma_task_validation_names_goal_and_task(
    pid: Seq<u8>,
    validator: Seq<u8>,
    goal_slot_id: u64,
    task_slot_id: u64,
    task: Option<Task>,
    a: Seq<Seq<u8>>,
)
    requires
        task_validation_addresses(pid, validator, goal_slot_id, task_slot_id, task) == Ok::<Seq<Seq<u8>>, DacError>(a),
    ensures
        a.len() == 7,
        pda(network_config_seeds(), pid) == Some(a[0]),
        pda(node_info_seeds(validator), pid) == Some(a[1]),
        pda(goal_seeds(a[0], goal_slot_id), pid) == Some(a[2]),
        pda(goal_vault_seeds(a[2]), pid) == Some(a[3]),
        pda(task_seeds(a[0], task_slot_id), pid) == Some(a[4]),
        task matches Some(t) && t.compute_node matches Some(n) && pda(node_info_seeds(n@), pid) == Some(a[5]),
        pda(node_treasury_seeds(a[5]), pid) == Some(a[6]),
{
}

/// Law: a task claim names the claimer's node account, the goal of the
/// goal's own slot and that goal's vault, and the task of the task's slot.
pub proof fn lemma_claim_task_names_goal_and_task(
    pid: Seq<u8>,
    node: Seq<u8>,
    goal_slot_id: u64,
    task_slot_id: u64,
    a: Seq<Seq<u8>>,
)
    requires
        claim_task_addresses(pid, node, goal_slot_id, task_slot_id) == Ok::<Seq<Seq<u8>>, DacError>(a),
    ensures
        a.len() == 5,
        pda(network_config_seeds(), pid) == Some(a[0]),
        pda(node_info_seeds(node), pid) == Some(a[1]),
        pda(goal_seeds(a[0], goal_slot_id), pid) == Some(a[2]),
        pda(goal_vault_seeds(a[2]), pid) == Some(a[3]),
        pda(task_seeds(a[0], task_slot_id), pid) == Some(a[4]),
{
}

/// Law: listing the nodes of one type in one status uses the same filters
/// as a node stream with exactly those two criteria.
pub proof fn lemma_node_listing_is_subscription(disc: Seq<u8>, node_type: NodeType, status: NodeStatus)
    ensures
        node_listing_filters(disc, node_type, status)
            == node_subscription_filters(disc, None, Some(node_type), Some(status)),
{
    assert(node_listing_filters(disc, node_type, status)
        =~= node_subscription_filters(disc, None, Some(node_type), Some(status)));
}

} // verus!
