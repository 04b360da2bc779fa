use vstd::prelude::*;

use soroban_sdk::Address;

verus! {

/// Aggregate counters of the DAO.
#[derive(Clone, Copy, Debug, PartialEq, Eq, Structural)]
pub struct DAOStats {
    /// Roles ever created.
    pub total_roles: u64,
    /// Role grants made by executed proposals.
    pub total_members: u64,
    /// Proposals ever submitted.
    pub total_proposals: u64,
    /// Proposals still open for voting.
    pub active_proposals: u64,
}

/// Storage key of a proposal, by its id.
#[derive(Clone, Copy, Debug, PartialEq, Eq, Structural)]
pub enum ProposalBook {
    Proposal(u64),
}

/// Storage key of a role, by its id.
#[derive(Clone, Copy, Debug, PartialEq, Eq, Structural)]
pub enum RoleBook {
    Role(u64),
}

impl ProposalBook {
    /// The proposal id the key names.
    pub open spec fn key_id(self) -> u64 {
        match self {
            ProposalBook::Proposal(id) => id,
        }
    }

    /// The proposal id the key names.
    pub fn id(&self) -> (id: u64)
        ensures
            id == self.key_id(),
    {
        match self {
            ProposalBook::Proposal(id) => *id,
        }
    }
}

impl RoleBook {
    /// The role id the key names.
    pub open spec fn key_id(self) -> u64 {
        match self {
            RoleBook::Role(id) => id,
        }
    }

    /// The role id the key names.
    pub fn id(&self) -> (id: u64)
        ensures
            id == self.key_id(),
    {
        match self {
            RoleBook::Role(id) => *id,
        }
    }
}

/// What a proposal asks the DAO to do.
#[derive(Clone, Copy, Debug, PartialEq, Eq, Structural)]
pub enum ProposalType {
    /// Give an existing role to the proposal's target.
    AssignRole,
    /// Take a role away from its holder.
    RevokeRole,
    /// Bring a new role into force.
    CreateRole,
}

/// Where a proposal stands in its lifecycle.
#[derive(Clone, Copy, Debug, PartialEq, Eq, Structural)]
pub enum ProposalStatus {
    /// Voting is open.
    Active,
    /// Quorum reached with a majority in favour.
    Passed,
    /// Quorum reached without a majority in favour.
    Rejected,
    /// Passed and carried out.
    Executed,
}

/// A governance proposal.
#[derive(Clone)]
pub struct Proposal {
    pub proposal_id: u64,
    pub proposal_type: ProposalType,
    /// The role acted upon.
    pub role_id: u64,
    /// The address that receives (or loses) the role.
    pub target: Address,
    pub votes_for: u64,
    pub votes_against: u64,
    pub status: ProposalStatus,
    pub created_at: u64,
}

/// A role in the registry.
#[derive(Clone)]
pub struct Role {
    pub role_id: u64,
    pub name: soroban_sdk::String,
    pub description: soroban_sdk::String,
    pub is_active: bool,
    pub created_at: u64,
    /// The current holder of the role.
    pub holder: Address,
    /// Whether the role is presently assigned.
    pub is_assigned: bool,
}

impl Proposal {
    /// An exact copy of the proposal.
    pub fn duplicate(&self) -> (r: Proposal)
        ensures
            r == *self,
    {
        Proposal {
            proposal_id: self.proposal_id,
            proposal_type: self.proposal_type,
            role_id: self.role_id,
            target: self.target.clone(),
            votes_for: self.votes_for,
            votes_against: self.votes_against,
            status: self.status,
            created_at: self.created_at,
        }
    }
}

impl Role {
    /// An exact copy of the role.
    pub fn duplicate(&self) -> (r: Role)
        ensures
            r == *self,
    {
        Role {
            role_id: self.role_id,
            name: self.name.clone(),
            description: self.description.clone(),
            is_active: self.is_active,
            created_at: self.created_at,
            holder: self.holder.clone(),
            is_assigned: self.is_assigned,
        }
    }
}

/// Why a contract call was refused.
#[derive(Clone, Copy, Debug, PartialEq, Eq, Structural)]
pub enum DaoError {
    /// No proposal is stored under the id.
    ProposalNotFound,
    /// No role is stored under the id.
    RoleNotFound,
    /// A vote was cast on a proposal that is not open for voting.
    ProposalNotActive,
    /// Execution was asked of a proposal that has not passed.
    ProposalNotPassed,
}

impl DaoError {
    /// The text the contract fails with.
    pub open spec fn spec_message(self) -> Seq<char> {
        match self {
            DaoError::ProposalNotFound => "Proposal not found"@,
            DaoError::RoleNotFound => "Role not found"@,
            DaoError::ProposalNotActive => "Proposal is not active for voting"@,
            DaoError::ProposalNotPassed => "Proposal has not passed; cannot execute"@,
        }
    }

    /// The text the contract fails with.
    pub fn message(&self) -> (m: &'static str)
        ensures
            m@ == self.spec_message(),
    {
        match self {
            DaoError::ProposalNotFound => "Proposal not found",
            DaoError::RoleNotFound => "Role not found",
            DaoError::ProposalNotActive => "Proposal is not active for voting",
            DaoError::ProposalNotPassed => "Proposal has not passed; cannot execute",
        }
    }
}

} // verus!
