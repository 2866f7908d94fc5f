//! The library's model of the accounts that the DAC program keeps on chain.
//! Each status and type enum carries the byte with which the program stores
//! it in an account (its declaration order), which the account filters
//! compare against.

use vstd::prelude::*;

verus! {

/// A 32-byte account address or public key.
pub type Pubkey = [u8; 32];

/// Lifecycle of a node account.
#[derive(Clone, Copy, Debug, PartialEq, Eq, Structural)]
pub enum NodeStatus {
    PendingClaim,
    AwaitingValidation,
    Active,
    Rejected,
    Disabled,
}

/// Kind of node that a node account describes.
#[derive(Clone, Copy, Debug, PartialEq, Eq, Structural)]
pub enum NodeType {
    Public,
    Confidential,
    Compute,
    Validator,
}

/// Lifecycle of an agent account.
#[derive(Clone, Copy, Debug, PartialEq, Eq, Structural)]
pub enum AgentStatus {
    Pending,
    Active,
}

/// Lifecycle of a task account.
#[derive(Clone, Copy, Debug, PartialEq, Eq, Structural)]
pub enum TaskStatus {
    Pending,
    Processing,
    AwaitingValidation,
    Completed,
}

/// Lifecycle of a goal account.
#[derive(Clone, Copy, Debug, PartialEq, Eq, Structural)]
pub enum GoalStatus {
    Active,
    Completed,
}

pub open spec fn node_status_byte(s: NodeStatus) -> u8 {
    match s {
        NodeStatus::PendingClaim => 0,
        NodeStatus::AwaitingValidation => 1,
        NodeStatus::Active => 2,
        NodeStatus::Rejected => 3,
        NodeStatus::Disabled => 4,
    }
}

pub open spec fn node_type_byte(t: NodeType) -> u8 {
    match t {
        NodeType::Public => 0,
        NodeType::Confidential => 1,
        NodeType::Compute => 2,
        NodeType::Validator => 3,
    }
}

pub open spec fn agent_status_byte(s: AgentStatus) -> u8 {
    match s {
        AgentStatus::Pending => 0,
        AgentStatus::Active => 1,
    }
}

pub open spec fn task_status_byte(s: TaskStatus) -> u8 {
    match s {
        TaskStatus::Pending => 0,
        TaskStatus::Processing => 1,
        TaskStatus::AwaitingValidation => 2,
        TaskStatus::Completed => 3,
    }
}

pub open spec fn goal_status_byte(s: GoalStatus) -> u8 {
    match s {
        GoalStatus::Active => 0,
        GoalStatus::Completed => 1,
    }
}

impl NodeStatus {
    /// The byte under which this status is stored.
    pub fn to_byte(&self) -> (b: u8)
        ensures
            b == node_status_byte(*self),
    {
        match self {
            NodeStatus::PendingClaim => 0,
            NodeStatus::AwaitingValidation => 1,
            NodeStatus::Active => 2,
            NodeStatus::Rejected => 3,
            NodeStatus::Disabled => 4,
        }
    }
}

impl NodeType {
    /// The byte under which this node type is stored.
    pub fn to_byte(&self) -> (b: u8)
        ensures
            b == node_type_byte(*self),
    {
        match self {
            NodeType::Public => 0,
            NodeType::Confidential => 1,
            NodeType::Compute => 2,
            NodeType::Validator => 3,
        }
    }
}

impl AgentStatus {
    /// The byte under which this status is stored.
    pub fn to_byte(&self) -> (b: u8)
        ensures
            b == agent_status_byte(*self),
    {
        match self {
            AgentStatus::Pending => 0,
            AgentStatus::Active => 1,
        }
    }
}

impl TaskStatus {
    /// The byte under which this status is stored.
    pub fn to_byte(&self) -> (b: u8)
        ensures
            b == task_status_byte(*self),
    {
        match self {
            TaskStatus::Pending => 0,
            TaskStatus::Processing => 1,
            TaskStatus::AwaitingValidation => 2,
            TaskStatus::Completed => 3,
        }
    }
}

impl GoalStatus {
    /// The byte under which this status is stored.
    pub fn to_byte(&self) -> (b: u8)
        ensures
            b == goal_status_byte(*self),
    {
        match self {
            GoalStatus::Active => 0,
            GoalStatus::Completed => 1,
        }
    }
}

/// What a task asks its executor to do, as the program stores it.
#[derive(Clone, Copy, Debug)]
pub enum ChainActionType {
    Llm,
    Tool(Pubkey),
    Agent2Agent(Pubkey),
}

/// The fields of a node account that the node software reads.
#[derive(Clone, Debug)]
pub struct NodeInfo {
    pub node_pubkey: Pubkey,
    pub status: NodeStatus,
    pub node_info_cid: Option<String>,
}

/// The fields of a task account that the node software reads.
#[derive(Clone, Debug)]
pub struct Task {
    pub task_slot_id: u64,
    pub action_type: ChainActionType,
    pub status: TaskStatus,
    pub compute_node: Option<Pubkey>,
    pub input_cid: Option<String>,
    pub output_cid: Option<String>,
    pub next_input_cid: Option<String>,
    pub pending_input_cid: Option<String>,
    pub pending_output_cid: Option<String>,
}

/// The fields of a goal account that the node software reads.
#[derive(Clone, Debug)]
pub struct Goal {
    pub goal_slot_id: u64,
    pub agent: Pubkey,
    pub is_confidential: bool,
    pub current_iteration: u64,
    pub max_iterations: u64,
    pub specification_cid: String,
}

/// The fields of an agent account that the node software reads.
#[derive(Clone, Debug)]
pub struct Agent {
    pub agent_slot_id: u64,
    pub agent_config_cid: String,
    pub agent_memory_cid: Option<String>,
}

/// The fields of the network configuration account that the node software reads.
#[derive(Clone, Debug)]
pub struct NetworkConfig {
    pub cid_config: String,
    pub agent_count: u64,
    pub goal_count: u64,
    pub task_count: u64,
}


/// The base58 text of an address, as `Pubkey`'s `Display` writes it.
pub uninterp spec fn base58(bytes: Seq<u8>) -> Seq<char>;

/// Calls `Pubkey::to_string` (`Display` of `solana_sdk::pubkey::Pubkey`): the
/// base58 text of the address's bytes, named `base58`.
#[verifier::external_body]
pub(crate) fn pubkey_to_base58(key: &Pubkey) -> (s: String)
    ensures
        s@ == base58(key@),
{
    solana_sdk::pubkey::Pubkey::new_from_array(*key).to_string()
}

} // verus!
