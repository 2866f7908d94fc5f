//! The client of the DAC manager program: addresses of its compute-node and
//! agent accounts, the filters that select them, and the accounts of its
//! claim and activation instructions.

use vstd::prelude::*;
use crate::chain::Pubkey;
use crate::dac_client::{address_result, pda};
use crate::error::{DacError, PdaKind};
use crate::filters::{AccountFilter, bytes_filter, filters_view};
use crate::pda::{u64_le, u64_to_le_bytes};
use vstd::string::StringSliceAdditionalSpecFns;

verus! {

/// Identity of the DAC manager program.
#[derive(Clone, Copy, Debug)]
pub struct DacManagerProgram {
    pub program_id: Pubkey,
    pub agent_discriminator: [u8; 8],
    pub compute_node_info_discriminator: [u8; 8],
}

/// The fields of a manager agent account that the service reads.
#[derive(Clone, Copy, Debug)]
pub struct ManagerAgent {
    pub agent_id: u64,
    pub owner: Pubkey,
}

/// A client of the DAC manager program, acting for `payer`.
#[derive(Clone, Copy, Debug)]
pub struct DacManagerService {
    pub program: DacManagerProgram,
    pub payer: Pubkey,
}

pub open spec fn compute_node_seeds(node: Seq<u8>) -> Seq<Seq<u8>> {
    seq!["compute_node".spec_bytes(), node]
}

pub open spec fn manager_agent_seeds(owner: Seq<u8>, agent_id: u64) -> Seq<Seq<u8>> {
    seq!["agent".spec_bytes(), owner, u64_le(agent_id)]
}

/// Byte offset of the compute node's key in a compute-node account.
pub const COMPUTE_NODE_KEY_OFFSET: usize = 40;
/// Byte offset of the compute node's key in an agent account.
pub const AGENT_COMPUTE_NODE_OFFSET: usize = 48;

/// The accounts and arguments of a `claim_compute_node` instruction.
#[derive(Clone, Debug)]
pub struct ClaimComputeNodePlan {
    pub payer: Pubkey,
    pub compute_node: Pubkey,
    pub compute_node_info: Pubkey,
    pub node_info_cid: String,
}

/// The accounts and arguments of an `activate_agent` instruction.
#[derive(Clone, Copy, Debug)]
pub struct ActivateAgentPlan {
    pub payer: Pubkey,
    pub compute_node: Pubkey,
    pub agent: Pubkey,
    pub agent_id: u64,
}

impl DacManagerService {
    pub fn new(program: DacManagerProgram, payer: Pubkey) -> (s: Self)
        ensures
            s.program == program,
            s.payer == payer,
    {
        DacManagerService { program, payer }
    }

    /// The address of a compute node's account.
    pub fn derive_compute_node_info_pda(&self, node_pubkey: &Pubkey) -> (r: Result<Pubkey, DacError>)
        ensures
            address_result(r, compute_node_seeds(node_pubkey@), self.program.program_id@, PdaKind::ComputeNodeInfo),
    {
        let mut seeds: Vec<Vec<u8>> = Vec::new();
        seeds.push(vstd::slice::slice_to_vec("compute_node".as_bytes()));
        seeds.push(vstd::slice::slice_to_vec(node_pubkey));
        assert(crate::pda::seeds_view(seeds@) =~= compute_node_seeds(node_pubkey@));
        match crate::pda::find_pda(seeds, &self.program.program_id, PdaKind::ComputeNodeInfo) {
            Ok((a, _)) => Ok(a),
            Err(e) => Err(e),
        }
    }

    /// The address of an owner's agent with an id.
    pub fn derive_agent_pda(&self, owner: &Pubkey, agent_id: u64) -> (r: Result<Pubkey, DacError>)
        ensures
            address_result(r, manager_agent_seeds(owner@, agent_id), self.program.program_id@, PdaKind::ManagerAgent),
    {
        let mut seeds: Vec<Vec<u8>> = Vec::new();
        seeds.push(vstd::slice::slice_to_vec("agent".as_bytes()));
        seeds.push(vstd::slice::slice_to_vec(owner));
        seeds.push(u64_to_le_bytes(agent_id));
        assert(crate::pda::seeds_view(seeds@) =~= manager_agent_seeds(owner@, agent_id));
        match crate::pda::find_pda(seeds, &self.program.program_id, PdaKind::ManagerAgent) {
            Ok((a, _)) => Ok(a),
            Err(e) => Err(e),
        }
    }

    /// Filters that list or stream the agent accounts of a compute node.
    pub fn agent_filters(&self, compute_node_pubkey: &Pubkey) -> (fs: Vec<AccountFilter>)
        ensures
            filters_view(fs@) == seq![
                (0int, self.program.agent_discriminator@),
                (AGENT_COMPUTE_NODE_OFFSET as int, compute_node_pubkey@),
            ],
    {
        let mut fs: Vec<AccountFilter> = Vec::new();
        fs.push(bytes_filter(0, &self.program.agent_discriminator));
        fs.push(bytes_filter(AGENT_COMPUTE_NODE_OFFSET, compute_node_pubkey));
        assert(filters_view(fs@) =~= seq![
            (0int, self.program.agent_discriminator@),
            (AGENT_COMPUTE_NODE_OFFSET as int, compute_node_pubkey@),
        ]);
        fs
    }

    /// Filters that stream the account of a compute node.
    pub fn compute_node_info_filters(&self, node_pubkey: &Pubkey) -> (fs: Vec<AccountFilter>)
        ensures
            filters_view(fs@) == seq![
                (0int, self.program.compute_node_info_discriminator@),
                (COMPUTE_NODE_KEY_OFFSET as int, node_pubkey@),
            ],
    {
        let mut fs: Vec<AccountFilter> = Vec::new();
        fs.push(bytes_filter(0, &self.program.compute_node_info_discriminator));
        fs.push(bytes_filter(COMPUTE_NODE_KEY_OFFSET, node_pubkey));
        assert(filters_view(fs@) =~= seq![
            (0int, self.program.compute_node_info_discriminator@),
            (COMPUTE_NODE_KEY_OFFSET as int, node_pubkey@),
        ]);
        fs
    }

    /// The `claim_compute_node` instruction, paid by the payer.
    pub fn claim_node_plan(&self, compute_node_address: &Pubkey, node_info_cid: String) -> (r: Result<ClaimComputeNodePlan, DacError>)
        ensures
            match r {
                Ok(p) => pda(compute_node_seeds(compute_node_address@), self.program.program_id@)
                    == Some(p.compute_node_info@) && p.payer == self.payer
                    && p.compute_node == *compute_node_address && p.node_info_cid == node_info_cid,
                Err(e) => pda(compute_node_seeds(compute_node_address@), self.program.program_id@) is None
                    && e == DacError::PdaDerivationFailed(PdaKind::ComputeNodeInfo),
            },
    {
        let compute_node_info = self.derive_compute_node_info_pda(compute_node_address)?;
        Ok(ClaimComputeNodePlan {
            payer: self.payer,
            compute_node: *compute_node_address,
            compute_node_info,
            node_info_cid,
        })
    }

    /// The `activate_agent` instruction, by the payer as the agent's compute node.
    pub fn activate_agent_plan(&self, agent: &ManagerAgent) -> (r: Result<ActivateAgentPlan, DacError>)
        ensures
            match r {
                Ok(p) => pda(manager_agent_seeds(agent.owner@, agent.agent_id), self.program.program_id@)
                    == Some(p.agent@) && p.payer == self.payer && p.compute_node == self.payer
                    && p.agent_id == agent.agent_id,
                Err(e) => pda(manager_agent_seeds(agent.owner@, agent.agent_id), self.program.program_id@) is None
                    && e == DacError::PdaDerivationFailed(PdaKind::ManagerAgent),
            },
    {
        let agent_pda = self.derive_agent_pda(&agent.owner, agent.agent_id)?;
        Ok(ActivateAgentPlan { payer: self.payer, compute_node: self.payer, agent: agent_pda, agent_id: agent.agent_id })
    }
}

} // verus!
