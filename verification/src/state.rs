//! The abstract contract storage: what is stored under each key, and what
//! each contract call does to it.
use vstd::prelude::*;

use soroban_sdk::Address;

use crate::rules::{
    counter_value, create_effect, create_fits, execute_outcome, found_proposal, found_role,
    stats_in_force, vote_outcome, CreateEffect, ExecuteEffect, VoteEffect, QUORUM,
};
use crate::types::{DAOStats, DaoError, Proposal, ProposalStatus, ProposalType, Role};

verus! {

/// The contract's storage: the two counters, the statistics, and the
/// proposals and roles stored under their keys (by id). A counter or the
/// statistics are `None` until first written.
#[verifier::ext_equal]
pub struct DaoState {
    pub count_proposal: Option<u64>,
    pub count_role: Option<u64>,
    pub stats: Option<DAOStats>,
    pub proposals: Map<u64, Proposal>,
    pub roles: Map<u64, Role>,
}

/// A proposal's tally agrees with its status: below the quorum while open,
/// exactly at the quorum once resolved, with a strict majority in favour
/// exactly when it passed (and later was executed).
pub open spec fn tally_consistent(p: Proposal) -> bool {
    let t = p.votes_for + p.votes_against;
    match p.status {
        ProposalStatus::Active => t < QUORUM,
        ProposalStatus::Passed => t == QUORUM && p.votes_for > p.votes_against,
        ProposalStatus::Rejected => t == QUORUM && p.votes_for <= p.votes_against,
        ProposalStatus::Executed => t == QUORUM && p.votes_for > p.votes_against,
    }
}

/// The proposal and the role stored under id `k` belong together: both carry
/// the id, the proposal creates that role for the role's holder, both bear
/// the same time, the role is active and assigned exactly when the proposal
/// was executed, and the tally agrees with the status.
pub open spec fn entry_consistent(k: u64, p: Proposal, r: Role) -> bool {
    &&& p.proposal_id == k
    &&& p.role_id == k
    &&& p.proposal_type == ProposalType::CreateRole
    &&& r.role_id == k
    &&& r.holder == p.target
    &&& r.created_at == p.created_at
    &&& r.is_active == (p.status == ProposalStatus::Executed)
    &&& r.is_assigned == (p.status == ProposalStatus::Executed)
    &&& tally_consistent(p)
}

/// How many of the proposals under ids `1..=n` have the given status.
pub open spec fn count_with_status(proposals: Map<u64, Proposal>, status: ProposalStatus, n: nat) -> nat
    decreases n,
{
    if n == 0 {
        0
    } else {
        count_with_status(proposals, status, (n - 1) as nat) + if proposals[n as u64].status
            == status {
            1nat
        } else {
            0nat
        }
    }
}

impl DaoState {
    /// The storage of a freshly deployed contract: nothing stored.
    pub open spec fn initial() -> DaoState {
        DaoState {
            count_proposal: None,
            count_role: None,
            stats: None,
            proposals: Map::empty(),
            roles: Map::empty(),
        }
    }

    /// How many proposals were ever created.
    pub open spec fn proposal_count(self) -> u64 {
        counter_value(self.count_proposal)
    }

    /// The statistics a reader sees.
    pub open spec fn view_dao_stats(self) -> DAOStats {
        stats_in_force(self.stats)
    }

    /// What reading proposal `id` gives.
    pub open spec fn view_proposal(self, id: u64) -> Result<Proposal, DaoError> {
        found_proposal(self.proposals.get(id))
    }

    /// What reading role `id` gives.
    pub open spec fn view_role(self, id: u64) -> Result<Role, DaoError> {
        found_role(self.roles.get(id))
    }

    /// Whether a creation keeps every counter within `u64`.
    pub open spec fn can_create(self) -> bool {
        create_fits(self.count_proposal, self.count_role, self.stats)
    }

    /// The storage after a creation writes its entries.
    pub open spec fn apply_create(self, e: CreateEffect) -> DaoState {
        DaoState {
            count_proposal: Some(e.count_proposal),
            count_role: Some(e.count_role),
            stats: Some(e.stats),
            proposals: self.proposals.insert(e.proposal_key.key_id(), e.proposal),
            roles: self.roles.insert(e.role_key.key_id(), e.role),
        }
    }

    /// A creation at ledger time `time`: the storage after it, and the new
    /// proposal's id.
    pub open spec fn create(
        self,
        time: u64,
        name: soroban_sdk::String,
        description: soroban_sdk::String,
        target: Address,
    ) -> (DaoState, u64) {
        let e = create_effect(
            self.count_proposal,
            self.count_role,
            self.stats,
            time,
            name,
            description,
            target,
        );
        (self.apply_create(e), e.count_proposal)
    }

    /// The storage after a vote writes its entries.
    pub open spec fn apply_vote(self, e: VoteEffect) -> DaoState {
        DaoState {
            count_proposal: self.count_proposal,
            count_role: self.count_role,
            stats: match e.stats {
                Some(s) => Some(s),
                None => self.stats,
            },
            proposals: self.proposals.insert(e.proposal_key.key_id(), e.proposal),
            roles: self.roles,
        }
    }

    /// A vote on proposal `id`: the storage after it, or why it is refused.
    pub open spec fn vote(self, id: u64, vote_in_favour: bool) -> Result<DaoState, DaoError> {
        match vote_outcome(self.proposals.get(id), id, vote_in_favour, self.stats) {
            Ok(e) => Ok(self.apply_vote(e)),
            Err(err) => Err(err),
        }
    }

    /// The role stored under the role id of a looked-up proposal.
    pub open spec fn role_of(self, stored: Option<Proposal>) -> Option<Role> {
        match stored {
            Some(p) => self.roles.get(p.role_id),
            None => None,
        }
    }

    /// The storage after an execution writes its entries.
    pub open spec fn apply_execute(self, e: ExecuteEffect) -> DaoState {
        DaoState {
            count_proposal: self.count_proposal,
            count_role: self.count_role,
            stats: Some(e.stats),
            proposals: self.proposals.insert(e.proposal_key.key_id(), e.proposal),
            roles: self.roles.insert(e.role_key.key_id(), e.role),
        }
    }

    /// Executing proposal `id`: the storage after it, or why it is refused.
    pub open spec fn execute(self, id: u64) -> Result<DaoState, DaoError> {
        let stored = self.proposals.get(id);
        match execute_outcome(stored, id, self.role_of(stored), self.stats) {
            Ok(e) => Ok(self.apply_execute(e)),
            Err(err) => Err(err),
        }
    }

    /// The statistics agree with the stored proposals: as many proposals and
    /// roles as were created, as many open proposals as are `Active`, and as
    /// many members as proposals were `Executed`.
    pub open spec fn stats_consistent(self) -> bool {
        let n = self.proposal_count() as nat;
        let s = self.view_dao_stats();
        &&& s.total_proposals == n
        &&& s.total_roles == n
        &&& s.active_proposals == count_with_status(self.proposals, ProposalStatus::Active, n)
        &&& s.total_members == count_with_status(self.proposals, ProposalStatus::Executed, n)
    }

    /// What holds of every storage the contract can reach from `initial`.
    pub open spec fn inv(self) -> bool {
        let n = self.proposal_count();
        &&& self.count_role == self.count_proposal
        &&& (self.count_proposal is None <==> n == 0)
        &&& (self.stats is None <==> n == 0)
        &&& forall|k: u64| #[trigger] self.proposals.contains_key(k) <==> 1 <= k <= n
        &&& forall|k: u64| #[trigger] self.roles.contains_key(k) <==> 1 <= k <= n
        &&& forall|k: u64|
            1 <= k <= n ==> #[trigger] entry_consistent(k, self.proposals[k], self.roles[k])
        &&& self.stats_consistent()
    }
}

} // verus!
