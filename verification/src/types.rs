//! The documents that nodes exchange through IPFS: task inputs and outputs,
//! execution snapshots, and the parts of node, agent and goal
//! configurations that hold no fractional numbers.

use vstd::prelude::*;

verus! {

/// What a task asks its executor to do; tools and agents by their address
/// in base58.
#[derive(Clone, Debug, PartialEq, Eq)]
pub enum ActionType {
    Llm,
    Tool { pubkey: String },
    Agent2Agent { pubkey: String },
}

/// The input of a task: the combined context and the action.
#[derive(Clone, Debug)]
pub struct TaskInput {
    pub context: String,
    pub action_type: ActionType,
}

/// The output of a task.
#[derive(Clone, Debug)]
pub struct TaskOutput {
    pub llm_response: String,
    pub reasoning: String,
}

/// Validation information from a TEE.
#[derive(Clone, Debug)]
pub struct ValidationInfo {
    pub validator_pubkey: String,
    pub tee_signature: String,
    pub payment_amount: u64,
    pub approved: bool,
}

/// A snapshot of one task execution, stored on IPFS.
#[derive(Clone, Debug)]
pub struct TaskExecutionSnapshot {
    pub task_slot_id: u64,
    pub execution_count: u64,
    pub goal_id: u64,
    pub agent_pubkey: String,
    pub compute_node: Option<String>,
    pub input_cid: Option<String>,
    pub output_cid: Option<String>,
    pub timestamp: i64,
    pub chain_proof: String,
    pub validation: ValidationInfo,
}

#[derive(Clone, Debug)]
pub struct GpuConfig {
    pub vram_gb: u32,
}

#[derive(Clone, Debug)]
pub struct SoftwareConfig {
    pub cuda_version: String,
}

#[derive(Clone, Debug)]
pub struct ContextConfig {
    pub max_context_length: u32,
    pub specialization: String,
}

#[derive(Clone, Debug)]
pub struct LanguageSupport {
    pub name: String,
    pub version: String,
    pub libraries: Option<Vec<String>>,
    pub crates: Option<Vec<String>>,
    pub frameworks: Option<Vec<String>>,
}

#[derive(Clone, Debug)]
pub struct SafetyConfig {
    pub allow_network_access: bool,
    pub allow_file_system_write: bool,
    pub require_code_review: bool,
    pub max_iterations: u32,
}

#[derive(Clone, Debug)]
pub struct ErrorHandling {
    pub retry_on_failure: bool,
    pub max_retries: u32,
    pub retry_delay_seconds: u32,
    pub fail_fast: bool,
}

#[derive(Clone, Debug)]
pub struct AgentBehavior {
    pub max_memory_usage_mb: u32,
    pub max_file_size_mb: u32,
    pub safety: SafetyConfig,
    pub output_format: String,
    pub structured_output: bool,
    pub error_handling: ErrorHandling,
}

/// Agent memory configuration (metadata).
#[derive(Clone, Debug)]
pub struct AgentMemoryConfig {
    pub memory_type: String,
    pub max_memory_entries: u32,
    pub memory_retention_days: u32,
    pub compression: bool,
}

#[derive(Clone, Debug)]
pub struct Specialization {
    pub primary_domain: String,
    pub secondary_domains: Vec<String>,
    pub expertise_level: String,
}

#[derive(Clone, Debug)]
pub struct OutputField {
    pub field: String,
    pub field_type: String,
    pub required: bool,
    pub description: String,
}

#[derive(Clone, Debug)]
pub struct ExpectedOutput {
    pub format: String,
    pub structure: Vec<OutputField>,
}

#[derive(Clone, Debug)]
pub struct PerformanceConstraints {
    pub response_time_ms: u32,
    pub throughput_rps: u32,
    pub concurrent_users: u32,
}

#[derive(Clone, Debug)]
pub struct Constraints {
    pub technology_stack: Vec<String>,
    pub performance: PerformanceConstraints,
    pub security: Vec<String>,
    pub code_quality: Vec<String>,
}

#[derive(Clone, Debug)]
pub struct IterationPlan {
    pub iteration: u32,
    pub goal: String,
    pub deliverables: Vec<String>,
}

#[derive(Clone, Debug)]
pub struct AutomatedCheck {
    pub check_type: String,
    pub tool: String,
    pub checks: Option<Vec<String>>,
    pub requirements: Option<Vec<String>>,
}

#[derive(Clone, Debug)]
pub struct ValidationCriteria {
    pub automated: Vec<AutomatedCheck>,
    pub manual: Vec<String>,
}

#[derive(Clone, Debug)]
pub struct CompletionDetection {
    pub method: String,
    pub indicators: Vec<String>,
}

} // verus!
