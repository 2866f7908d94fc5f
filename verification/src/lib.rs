//! Verified core of the DAC agent network node software: the on-chain data
//! model, account filters, program-derived addresses, the node state machines
//! and the task execution and validation rules.

pub mod chain;
pub mod dac_client;
pub mod dac_manager;
pub mod error;
pub mod filters;
pub mod ipfs;
pub mod model_validation;
pub mod node_claim;
pub mod pda;
pub mod public_node_claim;
pub mod service_loops;
pub mod solana_adapter;
pub mod system_info;
pub mod task_execution;
pub mod task_validation;
pub mod tee;
pub mod text;
pub mod types;
