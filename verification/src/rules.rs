//! The decision of each contract call, as a function of the storage entries
//! the call reads, giving the entries it writes.
use vstd::prelude::*;

use soroban_sdk::Address;

use crate::types::{DAOStats, DaoError, Proposal, ProposalBook, ProposalStatus, ProposalType, Role, RoleBook};

verus! {

/// Votes that must be cast before a proposal is resolved.
pub const QUORUM: u64 = 3;

// ─── Reading stored entries ────────────────────────────────────────────────

/// The statistics the DAO starts from: every counter at zero.
pub open spec fn zero_stats() -> DAOStats {
    DAOStats { total_roles: 0, total_members: 0, total_proposals: 0, active_proposals: 0 }
}

/// The statistics in force: the stored ones, or zeros when none are stored.
pub open spec fn stats_in_force(stored: Option<DAOStats>) -> DAOStats {
    match stored {
        Some(s) => s,
        None => zero_stats(),
    }
}

/// The value of a stored counter: zero when none is stored.
pub open spec fn counter_value(stored: Option<u64>) -> u64 {
    match stored {
        Some(c) => c,
        None => 0,
    }
}

/// The statistics in force: the stored ones, or zeros when none are stored.
pub fn stats_or_default(stored: Option<DAOStats>) -> (s: DAOStats)
    ensures
        s == stats_in_force(stored),
        stored is Some ==> s == stored->Some_0,
        stored is None ==> s.total_roles == 0 && s.total_members == 0 && s.total_proposals == 0
            && s.active_proposals == 0,
{
    match stored {
        Some(s) => s,
        None => DAOStats { total_roles: 0, total_members: 0, total_proposals: 0, active_proposals: 0 },
    }
}

/// The value of a stored counter: zero when none is stored.
pub fn counter_or_zero(stored: Option<u64>) -> (c: u64)
    ensures
        c == counter_value(stored),
        stored is Some ==> c == stored->Some_0,
        stored is None ==> c == 0,
{
    match stored {
        Some(c) => c,
        None => 0,
    }
}

/// A looked-up proposal: the stored one, or `ProposalNotFound`.
pub open spec fn found_proposal(stored: Option<Proposal>) -> Result<Proposal, DaoError> {
    match stored {
        Some(p) => Ok(p),
        None => Err(DaoError::ProposalNotFound),
    }
}

/// A looked-up role: the stored one, or `RoleNotFound`.
pub open spec fn found_role(stored: Option<Role>) -> Result<Role, DaoError> {
    match stored {
        Some(r) => Ok(r),
        None => Err(DaoError::RoleNotFound),
    }
}

/// A looked-up proposal: the stored one, or `ProposalNotFound`.
pub fn proposal_or_not_found(stored: Option<Proposal>) -> (r: Result<Proposal, DaoError>)
    ensures
        r == found_proposal(stored),
        stored is Some ==> r == Ok::<Proposal, DaoError>(stored->Some_0),
        stored is None ==> r == Err::<Proposal, DaoError>(DaoError::ProposalNotFound),
{
    match stored {
        Some(p) => Ok(p),
        None => Err(DaoError::ProposalNotFound),
    }
}

/// A looked-up role: the stored one, or `RoleNotFound`.
pub fn role_or_not_found(stored: Option<Role>) -> (r: Result<Role, DaoError>)
    ensures
        r == found_role(stored),
        stored is Some ==> r == Ok::<Role, DaoError>(stored->Some_0),
        stored is None ==> r == Err::<Role, DaoError>(DaoError::RoleNotFound),
{
    match stored {
        Some(r) => Ok(r),
        None => Err(DaoError::RoleNotFound),
    }
}

// ─── Creating a role proposal ──────────────────────────────────────────────

/// The proposal a creation stores: open for voting, asking to create role
/// `role_id` for `target`, with no votes yet.
pub open spec fn fresh_proposal(proposal_id: u64, role_id: u64, target: Address, time: u64) -> Proposal {
    Proposal {
        proposal_id,
        proposal_type: ProposalType::CreateRole,
        role_id,
        target,
        votes_for: 0,
        votes_against: 0,
        status: ProposalStatus::Active,
        created_at: time,
    }
}

/// The role skeleton a creation stores: held by `target`, neither active nor
/// assigned until its proposal is executed.
pub open spec fn fresh_role(
    role_id: u64,
    name: soroban_sdk::String,
    description: soroban_sdk::String,
    target: Address,
    time: u64,
) -> Role {
    Role {
        role_id,
        name,
        description,
        is_active: false,
        created_at: time,
        holder: target,
        is_assigned: false,
    }
}

/// The statistics after a creation: one more proposal, open, and one more role.
pub open spec fn stats_after_create(s: DAOStats) -> DAOStats {
    DAOStats {
        total_roles: (s.total_roles + 1) as u64,
        total_members: s.total_members,
        total_proposals: (s.total_proposals + 1) as u64,
        active_proposals: (s.active_proposals + 1) as u64,
    }
}

/// A creation's counters stay within `u64`.
pub open spec fn create_fits(
    count_proposal: Option<u64>,
    count_role: Option<u64>,
    stats: Option<DAOStats>,
) -> bool {
    &&& counter_value(count_proposal) < u64::MAX
    &&& counter_value(count_role) < u64::MAX
    &&& stats_in_force(stats).total_roles < u64::MAX
    &&& stats_in_force(stats).total_proposals < u64::MAX
    &&& stats_in_force(stats).active_proposals < u64::MAX
}

/// The entries a creation writes.
pub struct CreateEffect {
    /// New value of the proposal counter, which is the new proposal's id.
    pub count_proposal: u64,
    /// New value of the role counter, which is the new role's id.
    pub count_role: u64,
    pub role_key: RoleBook,
    pub role: Role,
    pub proposal_key: ProposalBook,
    pub proposal: Proposal,
    pub stats: DAOStats,
}

/// The entries a creation writes, given the stored counters and statistics.
pub open spec fn create_effect(
    count_proposal: Option<u64>,
    count_role: Option<u64>,
    stats: Option<DAOStats>,
    time: u64,
    name: soroban_sdk::String,
    description: soroban_sdk::String,
    target: Address,
) -> CreateEffect {
    let pid = (counter_value(count_proposal) + 1) as u64;
    let rid = (counter_value(count_role) + 1) as u64;
    CreateEffect {
        count_proposal: pid,
        count_role: rid,
        role_key: RoleBook::Role(rid),
        role: fresh_role(rid, name, description, target, time),
        proposal_key: ProposalBook::Proposal(pid),
        proposal: fresh_proposal(pid, rid, target, time),
        stats: stats_after_create(stats_in_force(stats)),
    }
}

/// What a creation writes, field by field: each counter is one past its
/// stored value (zero when absent) and names the new entries; the role is
/// stored with the given name and description, held by `target`, stamped with
/// `time`, neither active nor assigned; the proposal asks to create that role
/// for `target`, is open, has no votes and is stamped with `time`; the
/// statistics count one more proposal, open proposal and role.
pub open spec fn create_writes(
    count_proposal: Option<u64>,
    count_role: Option<u64>,
    stats: Option<DAOStats>,
    time: u64,
    name: soroban_sdk::String,
    description: soroban_sdk::String,
    target: Address,
    e: CreateEffect,
) -> bool {
    let old_p: int = match count_proposal { Some(c) => c as int, None => 0 };
    let old_r: int = match count_role { Some(c) => c as int, None => 0 };
    &&& e.count_proposal == old_p + 1
    &&& e.count_role == old_r + 1
    &&& e.role_key == RoleBook::Role(e.count_role)
    &&& e.proposal_key == ProposalBook::Proposal(e.count_proposal)
    &&& e.role.role_id == e.count_role
    &&& e.role.name == name
    &&& e.role.description == description
    &&& !e.role.is_active
    &&& !e.role.is_assigned
    &&& e.role.created_at == time
    &&& e.role.holder == target
    &&& e.proposal.proposal_id == e.count_proposal
    &&& e.proposal.proposal_type == ProposalType::CreateRole
    &&& e.proposal.role_id == e.count_role
    &&& e.proposal.target == target
    &&& e.proposal.votes_for == 0
    &&& e.proposal.votes_against == 0
    &&& e.proposal.status == ProposalStatus::Active
    &&& e.proposal.created_at == time
    &&& match stats {
        Some(st) => {
            &&& e.stats.total_roles == st.total_roles + 1
            &&& e.stats.total_members == st.total_members
            &&& e.stats.total_proposals == st.total_proposals + 1
            &&& e.stats.active_proposals == st.active_proposals + 1
        },
        None => {
            &&& e.stats.total_roles == 1
            &&& e.stats.total_members == 0
            &&& e.stats.total_proposals == 1
            &&& e.stats.active_proposals == 1
        },
    }
}

/// Decides a creation: both counters advance by one, a role skeleton and an
/// open proposal for it are stored under the new ids, stamped with `time`, and
/// the statistics count one more proposal, open proposal and role.
pub fn plan_create_role_proposal(
    count_proposal: Option<u64>,
    count_role: Option<u64>,
    stats: Option<DAOStats>,
    time: u64,
    name: soroban_sdk::String,
    description: soroban_sdk::String,
    target: Address,
) -> (e: CreateEffect)
    requires
        create_fits(count_proposal, count_role, stats),
    ensures
        e == create_effect(count_proposal, count_role, stats, time, name, description, target),
        create_writes(count_proposal, count_role, stats, time, name, description, target, e),
{
    let pid = counter_or_zero(count_proposal) + 1;
    let rid = counter_or_zero(count_role) + 1;
    let role = Role {
        role_id: rid,
        name,
        description,
        is_active: false,
        created_at: time,
        holder: target.clone(),
        is_assigned: false,
    };
    let proposal = Proposal {
        proposal_id: pid,
        proposal_type: ProposalType::CreateRole,
        role_id: rid,
        target,
        votes_for: 0,
        votes_against: 0,
        status: ProposalStatus::Active,
        created_at: time,
    };
    let s = stats_or_default(stats);
    let new_stats = DAOStats {
        total_roles: s.total_roles + 1,
        total_members: s.total_members,
        total_proposals: s.total_proposals + 1,
        active_proposals: s.active_proposals + 1,
    };
    CreateEffect {
        count_proposal: pid,
        count_role: rid,
        role_key: RoleBook::Role(rid),
        role,
        proposal_key: ProposalBook::Proposal(pid),
        proposal,
        stats: new_stats,
    }
}

// ─── Voting ────────────────────────────────────────────────────────────────

/// The status a tally gives: open below the quorum; at or above it, passed
/// with a strict majority in favour and rejected otherwise.
pub open spec fn resolve_status(votes_for: int, votes_against: int) -> ProposalStatus {
    if votes_for + votes_against >= QUORUM {
        if votes_for > votes_against {
            ProposalStatus::Passed
        } else {
            ProposalStatus::Rejected
        }
    } else {
        ProposalStatus::Active
    }
}

/// A proposal after one more vote, for or against, and the resolution of its
/// tally.
pub open spec fn voted(p: Proposal, vote_in_favour: bool) -> Proposal {
    let f: int = if vote_in_favour { p.votes_for + 1 } else { p.votes_for as int };
    let a: int = if vote_in_favour { p.votes_against as int } else { p.votes_against + 1 };
    Proposal {
        proposal_id: p.proposal_id,
        proposal_type: p.proposal_type,
        role_id: p.role_id,
        target: p.target,
        votes_for: f as u64,
        votes_against: a as u64,
        status: resolve_status(f, a),
        created_at: p.created_at,
    }
}

/// The statistics after a proposal is resolved: one open proposal fewer,
/// never below zero.
pub open spec fn stats_after_resolution(s: DAOStats) -> DAOStats {
    DAOStats {
        total_roles: s.total_roles,
        total_members: s.total_members,
        total_proposals: s.total_proposals,
        active_proposals: if s.active_proposals > 0 { (s.active_proposals - 1) as u64 } else { 0 },
    }
}

/// A vote's tally stays within `u64`.
pub open spec fn vote_fits(stored: Option<Proposal>) -> bool {
    match stored {
        Some(p) => p.status == ProposalStatus::Active ==> p.votes_for + p.votes_against < u64::MAX,
        None => true,
    }
}

/// The entries a vote writes.
pub struct VoteEffect {
    pub proposal_key: ProposalBook,
    pub proposal: Proposal,
    /// The new statistics, when the vote resolved the proposal.
    pub stats: Option<DAOStats>,
}

/// What a vote on proposal `proposal_id` does, given the proposal stored
/// under that id and the stored statistics.
pub open spec fn vote_outcome(
    stored: Option<Proposal>,
    proposal_id: u64,
    vote_in_favour: bool,
    stats: Option<DAOStats>,
) -> Result<VoteEffect, DaoError> {
    match stored {
        None => Err(DaoError::ProposalNotFound),
        Some(p) => if p.status != ProposalStatus::Active {
            Err(DaoError::ProposalNotActive)
        } else {
            let q = voted(p, vote_in_favour);
            Ok(
                VoteEffect {
                    proposal_key: ProposalBook::Proposal(proposal_id),
                    proposal: q,
                    stats: if q.status == ProposalStatus::Active {
                        None
                    } else {
                        Some(stats_after_resolution(stats_in_force(stats)))
                    },
                },
            )
        },
    }
}

/// What a vote decides, told directly: refused with `ProposalNotFound` when
/// nothing is stored, with `ProposalNotActive` when the stored proposal is
/// not open; otherwise the proposal is written back under `proposal_id` with
/// one more vote on the chosen side and every other field as stored, except
/// the status: open while fewer than `QUORUM` votes are cast, and then passed
/// exactly when the votes in favour outnumber those against, rejected
/// otherwise. Statistics are written only when the proposal is resolved, with
/// one open proposal fewer (never below zero) and the rest as stored.
pub open spec fn vote_decides(
    stored: Option<Proposal>,
    proposal_id: u64,
    vote_in_favour: bool,
    stats: Option<DAOStats>,
    r: Result<VoteEffect, DaoError>,
) -> bool {
    match stored {
        None => r == Err::<VoteEffect, DaoError>(DaoError::ProposalNotFound),
        Some(p) => if p.status != ProposalStatus::Active {
            r == Err::<VoteEffect, DaoError>(DaoError::ProposalNotActive)
        } else {
            match r {
                Err(_) => false,
                Ok(e) => {
                    let q = e.proposal;
                    let total = q.votes_for + q.votes_against;
                    &&& e.proposal_key == ProposalBook::Proposal(proposal_id)
                    &&& q.votes_for == p.votes_for + if vote_in_favour { 1int } else { 0int }
                    &&& q.votes_against == p.votes_against + if vote_in_favour { 0int } else { 1int }
                    &&& q.proposal_id == p.proposal_id
                    &&& q.proposal_type == p.proposal_type
                    &&& q.role_id == p.role_id
                    &&& q.target == p.target
                    &&& q.created_at == p.created_at
                    &&& total < QUORUM ==> q.status == ProposalStatus::Active && e.stats is None
                    &&& total >= QUORUM ==> {
                        &&& (q.status == ProposalStatus::Passed) == (q.votes_for > q.votes_against)
                        &&& (q.status == ProposalStatus::Rejected) == (q.votes_for <= q.votes_against)
                        &&& e.stats is Some
                        &&& {
                            let ns = e.stats->Some_0;
                            match stats {
                                Some(st) => {
                                    &&& ns.total_roles == st.total_roles
                                    &&& ns.total_members == st.total_members
                                    &&& ns.total_proposals == st.total_proposals
                                    &&& ns.active_proposals == if st.active_proposals > 0 {
                                        st.active_proposals - 1
                                    } else {
                                        0
                                    }
                                },
                                None => ns.total_roles == 0 && ns.total_members == 0
                                    && ns.total_proposals == 0 && ns.active_proposals == 0,
                            }
                        }
                    }
                },
            }
        },
    }
}

/// Decides a vote: refused when no proposal is stored or it is not open;
/// otherwise the vote is counted, the tally resolved at the quorum, and the
/// open-proposal count lowered when the vote resolved it.
pub fn plan_vote_on_proposal(
    stored: Option<Proposal>,
    proposal_id: u64,
    vote_in_favour: bool,
    stats: Option<DAOStats>,
) -> (r: Result<VoteEffect, DaoError>)
    requires
        vote_fits(stored),
    ensures
        r == vote_outcome(stored, proposal_id, vote_in_favour, stats),
        vote_decides(stored, proposal_id, vote_in_favour, stats, r),
{
    let mut p = match proposal_or_not_found(stored) {
        Ok(p) => p,
        Err(e) => return Err(e),
    };
    if p.status != ProposalStatus::Active {
        return Err(DaoError::ProposalNotActive);
    }
    if vote_in_favour {
        p.votes_for = p.votes_for + 1;
    } else {
        p.votes_against = p.votes_against + 1;
    }
    let total_votes = p.votes_for + p.votes_against;
    let mut new_stats: Option<DAOStats> = None;
    if total_votes >= QUORUM {
        if p.votes_for > p.votes_against {
            p.status = ProposalStatus::Passed;
        } else {
            p.status = ProposalStatus::Rejected;
        }
        let mut s = stats_or_default(stats);
        if s.active_proposals > 0 {
            s.active_proposals = s.active_proposals - 1;
        }
        new_stats = Some(s);
    }
    Ok(VoteEffect { proposal_key: ProposalBook::Proposal(proposal_id), proposal: p, stats: new_stats })
}

// ─── Executing ─────────────────────────────────────────────────────────────

/// A role after its proposal is carried out: a creation activates and
/// assigns it, an assignment hands it to the proposal's target, a revocation
/// unassigns it.
pub open spec fn executed_role(role: Role, p: Proposal) -> Role {
    match p.proposal_type {
        ProposalType::CreateRole => Role { is_active: true, is_assigned: true, ..role },
        ProposalType::AssignRole => Role { holder: p.target, is_assigned: true, ..role },
        ProposalType::RevokeRole => Role { is_assigned: false, ..role },
    }
}

/// A proposal marked as carried out.
pub open spec fn executed_proposal(p: Proposal) -> Proposal {
    Proposal { status: ProposalStatus::Executed, ..p }
}

/// The statistics after an execution: one more member.
pub open spec fn stats_after_execute(s: DAOStats) -> DAOStats {
    DAOStats { total_members: (s.total_members + 1) as u64, ..s }
}

/// An execution's member count stays within `u64`.
pub open spec fn execute_fits(
    stored: Option<Proposal>,
    stored_role: Option<Role>,
    stats: Option<DAOStats>,
) -> bool {
    match stored {
        Some(p) => p.status == ProposalStatus::Passed && stored_role is Some
            ==> stats_in_force(stats).total_members < u64::MAX,
        None => true,
    }
}

/// The entries an execution writes.
pub struct ExecuteEffect {
    pub role_key: RoleBook,
    pub role: Role,
    pub proposal_key: ProposalBook,
    pub proposal: Proposal,
    pub stats: DAOStats,
}

/// What executing proposal `proposal_id` does, given the proposal stored
/// under that id, the role stored under the proposal's role id, and the
/// stored statistics.
pub open spec fn execute_outcome(
    stored: Option<Proposal>,
    proposal_id: u64,
    stored_role: Option<Role>,
    stats: Option<DAOStats>,
) -> Result<ExecuteEffect, DaoError> {
    match stored {
        None => Err(DaoError::ProposalNotFound),
        Some(p) => if p.status != ProposalStatus::Passed {
            Err(DaoError::ProposalNotPassed)
        } else {
            match stored_role {
                None => Err(DaoError::RoleNotFound),
                Some(r) => {
                    let r2 = executed_role(r, p);
                    Ok(
                        ExecuteEffect {
                            role_key: RoleBook::Role(r2.role_id),
                            role: r2,
                            proposal_key: ProposalBook::Proposal(proposal_id),
                            proposal: executed_proposal(p),
                            stats: stats_after_execute(stats_in_force(stats)),
                        },
                    )
                },
            }
        },
    }
}

/// What an execution decides, told directly: refused with
/// `ProposalNotFound` when no proposal is stored, `ProposalNotPassed` when it
/// has not passed, `RoleNotFound` when its role is not stored; otherwise,
/// whatever the proposal's type, the proposal is written back under
/// `proposal_id` marked `Executed` and otherwise as stored; the role is
/// written back under its own id with its id, name, description and time as
/// stored, and: a creation makes it active and assigned, an assignment hands
/// it to the proposal's target and assigns it, a revocation unassigns it;
/// the statistics count one more member and keep the rest.
pub open spec fn execute_decides(
    stored: Option<Proposal>,
    proposal_id: u64,
    stored_role: Option<Role>,
    stats: Option<DAOStats>,
    r: Result<ExecuteEffect, DaoError>,
) -> bool {
    match stored {
        None => r == Err::<ExecuteEffect, DaoError>(DaoError::ProposalNotFound),
        Some(p) => if p.status != ProposalStatus::Passed {
            r == Err::<ExecuteEffect, DaoError>(DaoError::ProposalNotPassed)
        } else {
            match stored_role {
                None => r == Err::<ExecuteEffect, DaoError>(DaoError::RoleNotFound),
                Some(role) => match r {
                    Err(_) => false,
                    Ok(e) => {
                        let q = e.proposal;
                        let nr = e.role;
                        &&& e.proposal_key == ProposalBook::Proposal(proposal_id)
                        &&& q.status == ProposalStatus::Executed
                        &&& q.proposal_id == p.proposal_id
                        &&& q.proposal_type == p.proposal_type
                        &&& q.role_id == p.role_id
                        &&& q.target == p.target
                        &&& q.votes_for == p.votes_for
                        &&& q.votes_against == p.votes_against
                        &&& q.created_at == p.created_at
                        &&& e.role_key == RoleBook::Role(role.role_id)
                        &&& nr.role_id == role.role_id
                        &&& nr.name == role.name
                        &&& nr.description == role.description
                        &&& nr.created_at == role.created_at
                        &&& match p.proposal_type {
                            ProposalType::CreateRole => nr.is_active && nr.is_assigned
                                && nr.holder == role.holder,
                            ProposalType::AssignRole => nr.is_assigned && nr.holder == p.target
                                && nr.is_active == role.is_active,
                            ProposalType::RevokeRole => !nr.is_assigned && nr.holder == role.holder
                                && nr.is_active == role.is_active,
                        }
                        &&& match stats {
                            Some(st) => {
                                &&& e.stats.total_members == st.total_members + 1
                                &&& e.stats.total_roles == st.total_roles
                                &&& e.stats.total_proposals == st.total_proposals
                                &&& e.stats.active_proposals == st.active_proposals
                            },
                            None => {
                                &&& e.stats.total_members == 1
                                &&& e.stats.total_roles == 0
                                &&& e.stats.total_proposals == 0
                                &&& e.stats.active_proposals == 0
                            },
                        }
                    },
                },
            }
        },
    }
}

/// Decides an execution: refused when no proposal is stored, when it has not
/// passed, or when its role is not stored; otherwise the role change is
/// applied, the proposal marked executed and one more member counted.
pub fn plan_execute_proposal(
    stored: Option<Proposal>,
    proposal_id: u64,
    stored_role: Option<Role>,
    stats: Option<DAOStats>,
) -> (r: Result<ExecuteEffect, DaoError>)
    requires
        execute_fits(stored, stored_role, stats),
    ensures
        r == execute_outcome(stored, proposal_id, stored_role, stats),
        execute_decides(stored, proposal_id, stored_role, stats, r),
{
    let mut p = match proposal_or_not_found(stored) {
        Ok(p) => p,
        Err(e) => return Err(e),
    };
    if p.status != ProposalStatus::Passed {
        return Err(DaoError::ProposalNotPassed);
    }
    let mut role = match role_or_not_found(stored_role) {
        Ok(r) => r,
        Err(e) => return Err(e),
    };
    match p.proposal_type {
        ProposalType::CreateRole => {
            role.is_active = true;
            role.is_assigned = true;
        },
        ProposalType::AssignRole => {
            role.holder = p.target.clone();
            role.is_assigned = true;
        },
        ProposalType::RevokeRole => {
            role.is_assigned = false;
        },
    }
    p.status = ProposalStatus::Executed;
    let mut s = stats_or_default(stats);
    s.total_members = s.total_members + 1;
    let role_key = RoleBook::Role(role.role_id);
    Ok(
        ExecuteEffect {
            role_key,
            role,
            proposal_key: ProposalBook::Proposal(proposal_id),
            proposal: p,
            stats: s,
        },
    )
}

} // verus!
