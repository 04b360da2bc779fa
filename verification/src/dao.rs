//! The contract: its storage held as one value, and its calls.
use vstd::prelude::*;

use soroban_sdk::{Address, Env};

use crate::laws::{
    law_create_keeps_invariant, law_execute_keeps_invariant, law_initial_state_consistent,
    law_vote_keeps_invariant,
};
use crate::outside::ledger_timestamp;
use crate::rules::{
    plan_create_role_proposal, plan_execute_proposal, plan_vote_on_proposal,
    proposal_or_not_found, role_or_not_found, stats_or_default, CreateEffect, ExecuteEffect,
    VoteEffect,
};
use crate::state::DaoState;
use crate::types::{DAOStats, DaoError, Proposal, Role};

verus! {

/// The value stored under the keys `1..=s.len()`, key `k` holding `s[k - 1]`.
pub open spec fn keyed_by_position<T>(s: Seq<T>) -> Map<u64, T> {
    Map::new(|k: u64| 1 <= k <= s.len(), |k: u64| s[k - 1])
}

/// Replacing the value at position `i` replaces the value under key `i + 1`.
proof fn lemma_keyed_update<T>(s: Seq<T>, i: int, v: T)
    requires
        0 <= i < s.len(),
        s.len() <= u64::MAX,
    ensures
        keyed_by_position(s.update(i, v)) =~= keyed_by_position(s).insert((i + 1) as u64, v),
{
    let m1 = keyed_by_position(s.update(i, v));
    let m2 = keyed_by_position(s).insert((i + 1) as u64, v);
    assert forall|k: u64| #[trigger] m1.contains_key(k) <==> m2.contains_key(k) by {}
    assert forall|k: u64| m1.contains_key(k) implies #[trigger] m1[k] == m2[k] by {
        if k != (i + 1) as u64 {
            assert(s.update(i, v)[k - 1] == s[k - 1]);
        }
    }
}

/// A counter that has been written `len` times by creations: absent when zero.
pub open spec fn written_counter(len: nat) -> Option<u64> {
    if len == 0 {
        None
    } else {
        Some(len as u64)
    }
}

/// The Role Manager DAO contract with its storage. Proposals and roles are
/// created with consecutive ids from 1, so the proposal with id `k` is kept
/// at position `k - 1`, and likewise for roles.
pub struct RoleManagerDAO {
    env: Env,
    stats: Option<DAOStats>,
    proposals: Vec<Proposal>,
    roles: Vec<Role>,
}

impl View for RoleManagerDAO {
    type V = DaoState;

    closed spec fn view(&self) -> DaoState {
        DaoState {
            count_proposal: written_counter(self.proposals@.len()),
            count_role: written_counter(self.roles@.len()),
            stats: self.stats,
            proposals: keyed_by_position(self.proposals@),
            roles: keyed_by_position(self.roles@),
        }
    }
}

impl RoleManagerDAO {
    /// The storage is laid out as described and satisfies the invariant.
    pub closed spec fn wf(&self) -> bool {
        &&& self.proposals@.len() == self.roles@.len()
        &&& self.proposals@.len() <= u64::MAX
        &&& self@.inv()
    }

    /// The environment the contract runs in, whose ledger gives the time of
    /// each creation.
    pub closed spec fn environment(&self) -> Env {
        self.env
    }

    /// A freshly deployed contract running in `env`: nothing stored.
    pub fn new(env: Env) -> (dao: Self)
        ensures
            dao.wf(),
            dao.environment() == env,
            dao@ == DaoState::initial(),
    {
        let dao = RoleManagerDAO { env, stats: None, proposals: Vec::new(), roles: Vec::new() };
        proof {
            law_initial_state_consistent();
            assert(dao@ =~= DaoState::initial());
        }
        dao
    }

    /// The proposal stored under `id`, if any.
    fn stored_proposal(&self, id: u64) -> (r: Option<Proposal>)
        requires
            self.wf(),
        ensures
            r == self@.proposals.get(id),
    {
        let n = self.proposals.len();
        if 1 <= id && id <= n as u64 {
            Some(self.proposals[(id - 1) as usize].duplicate())
        } else {
            None
        }
    }

    /// The role stored under `id`, if any.
    fn stored_role(&self, id: u64) -> (r: Option<Role>)
        requires
            self.wf(),
        ensures
            r == self@.roles.get(id),
    {
        let n = self.roles.len();
        if 1 <= id && id <= n as u64 {
            Some(self.roles[(id - 1) as usize].duplicate())
        } else {
            None
        }
    }

    /// The DAO's statistics: zeros until something was stored.
    pub fn view_dao_stats(&self) -> (s: DAOStats)
        ensures
            s == self@.view_dao_stats(),
    {
        stats_or_default(self.stats)
    }

    /// The proposal with id `proposal_id`, or `ProposalNotFound`.
    pub fn view_proposal(&self, proposal_id: u64) -> (r: Result<Proposal, DaoError>)
        requires
            self.wf(),
        ensures
            r == self@.view_proposal(proposal_id),
            self@.proposals.contains_key(proposal_id) ==> r == Ok::<Proposal, DaoError>(
                self@.proposals[proposal_id],
            ),
            !self@.proposals.contains_key(proposal_id) ==> r == Err::<Proposal, DaoError>(
                DaoError::ProposalNotFound,
            ),
    {
        proposal_or_not_found(self.stored_proposal(proposal_id))
    }

    /// The role with id `role_id`, or `RoleNotFound`.
    pub fn view_role(&self, role_id: u64) -> (r: Result<Role, DaoError>)
        requires
            self.wf(),
        ensures
            r == self@.view_role(role_id),
            self@.roles.contains_key(role_id) ==> r == Ok::<Role, DaoError>(self@.roles[role_id]),
            !self@.roles.contains_key(role_id) ==> r == Err::<Role, DaoError>(DaoError::RoleNotFound),
    {
        role_or_not_found(self.stored_role(role_id))
    }

    /// Opens a proposal to create a role named `name` for `target`, stamped
    /// with ledger time `time`; returns the new proposal's id. The proposal
    /// counter must still be able to advance.
    pub fn create_role_proposal_at(
        &mut self,
        time: u64,
        name: soroban_sdk::String,
        description: soroban_sdk::String,
        target: Address,
    ) -> (id: u64)
        requires
            old(self).wf(),
            old(self)@.proposal_count() < u64::MAX,
        ensures
            final(self).wf(),
            (final(self)@, id) == old(self)@.create(time, name, description, target),
            final(self).environment() == old(self).environment(),
    {
        proof {
            law_create_keeps_invariant(self@, time, name, description, target);
        }
        let ghost before = self@;
        let n = self.proposals.len();
        let count: Option<u64> = if n == 0 {
            None
        } else {
            Some(n as u64)
        };
        let effect = plan_create_role_proposal(count, count, self.stats, time, name, description, target);
        let CreateEffect { count_proposal, count_role, role_key, role, proposal_key, proposal, stats } = effect;
        self.roles.push(role);
        self.proposals.push(proposal);
        self.stats = Some(stats);
        proof {
            assert(self@.proposals =~= before.proposals.insert(proposal_key.key_id(), proposal));
            assert(self@.roles =~= before.roles.insert(role_key.key_id(), role));
            assert(self@ =~= before.create(time, name, description, target).0);
        }
        count_proposal
    }

    /// Opens a proposal to create a role named `name` for `target`, stamped
    /// with the ledger's current time; returns the new proposal's id. The
    /// proposal counter must still be able to advance.
    pub fn create_role_proposal(
        &mut self,
        name: soroban_sdk::String,
        description: soroban_sdk::String,
        target: Address,
    ) -> (id: u64)
        requires
            old(self).wf(),
            old(self)@.proposal_count() < u64::MAX,
        ensures
            final(self).wf(),
            exists|time: u64|
                (final(self)@, id) == #[trigger] old(self)@.create(time, name, description, target),
            final(self).environment() == old(self).environment(),
    {
        let time = ledger_timestamp(&self.env);
        self.create_role_proposal_at(time, name, description, target)
    }

    /// Casts a vote for (`vote_in_favour`) or against proposal `proposal_id`.
    /// Refused, with nothing changed, when no such proposal exists or it is
    /// not open for voting.
    pub fn vote_on_proposal(&mut self, proposal_id: u64, vote_in_favour: bool) -> (r: Result<(), DaoError>)
        requires
            old(self).wf(),
        ensures
            final(self).wf(),
            final(self).environment() == old(self).environment(),
            match old(self)@.vote(proposal_id, vote_in_favour) {
                Ok(s) => r is Ok && final(self)@ == s,
                Err(e) => r == Err::<(), DaoError>(e) && final(self)@ == old(self)@,
            },
    {
        let ghost before = self@;
        let stored = self.stored_proposal(proposal_id);
        proof {
            if before.vote(proposal_id, vote_in_favour) is Ok {
                law_vote_keeps_invariant(before, proposal_id, vote_in_favour);
            }
        }
        match plan_vote_on_proposal(stored, proposal_id, vote_in_favour, self.stats) {
            Err(e) => Err(e),
            Ok(effect) => {
                let VoteEffect { proposal_key, proposal, stats } = effect;
                let n = self.proposals.len();
                proof {
                    assert(before.proposals.contains_key(proposal_id));
                    assert(proposal_key.key_id() == proposal_id);
                    assert(proposal_key.key_id() - 1 < n);
                }
                let idx = (proposal_key.id() - 1) as usize;
                proof {
                    lemma_keyed_update(self.proposals@, idx as int, proposal);
                }
                self.proposals.set(idx, proposal);
                match stats {
                    Some(s) => {
                        self.stats = Some(s);
                    },
                    None => {},
                }
                proof {
                    assert(self@.proposals =~= before.proposals.insert(proposal_key.key_id(), proposal));
                    assert(self@ =~= before.vote(proposal_id, vote_in_favour)->Ok_0);
                }
                Ok(())
            },
        }
    }

    /// Carries out proposal `proposal_id`. Refused, with nothing changed,
    /// when no such proposal exists or it has not passed.
    pub fn execute_proposal(&mut self, proposal_id: u64) -> (r: Result<(), DaoError>)
        requires
            old(self).wf(),
        ensures
            final(self).wf(),
            final(self).environment() == old(self).environment(),
            match old(self)@.execute(proposal_id) {
                Ok(s) => r is Ok && final(self)@ == s,
                Err(e) => r == Err::<(), DaoError>(e) && final(self)@ == old(self)@,
            },
    {
        let ghost before = self@;
        let stored = self.stored_proposal(proposal_id);
        let stored_role = match &stored {
            Some(p) => self.stored_role(p.role_id),
            None => None,
        };
        proof {
            if before.execute(proposal_id) is Ok {
                law_execute_keeps_invariant(before, proposal_id);
            }
        }
        match plan_execute_proposal(stored, proposal_id, stored_role, self.stats) {
            Err(e) => Err(e),
            Ok(effect) => {
                let ExecuteEffect { role_key, role, proposal_key, proposal, stats } = effect;
                let n = self.proposals.len();
                proof {
                    assert(before.proposals.contains_key(proposal_id));
                    assert(crate::state::entry_consistent(
                        proposal_id,
                        before.proposals[proposal_id],
                        before.roles[proposal_id],
                    ));
                    assert(proposal_key.key_id() == proposal_id);
                    assert(role_key.key_id() == proposal_id);
                    assert(role_key.key_id() - 1 < n);
                }
                let ridx = (role_key.id() - 1) as usize;
                let pidx = (proposal_key.id() - 1) as usize;
                proof {
                    lemma_keyed_update(self.roles@, ridx as int, role);
                    lemma_keyed_update(self.proposals@, pidx as int, proposal);
                }
                self.roles.set(ridx, role);
                self.proposals.set(pidx, proposal);
                self.stats = Some(stats);
                proof {
                    assert(self@.proposals =~= before.proposals.insert(proposal_key.key_id(), proposal));
                    assert(self@.roles =~= before.roles.insert(role_key.key_id(), role));
                    assert(self@ =~= before.execute(proposal_id)->Ok_0);
                }
                Ok(())
            },
        }
    }
}

} // verus!
