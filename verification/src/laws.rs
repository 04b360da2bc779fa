//! What every contract call keeps, and how the calls relate.
use vstd::prelude::*;

use soroban_sdk::Address;

use crate::rules::{
    create_effect, create_fits, execute_fits, execute_outcome, vote_fits, vote_outcome,
    ExecuteEffect, VoteEffect, QUORUM,
};
use crate::state::{count_with_status, entry_consistent, DaoState};
use crate::types::{
    DAOStats, DaoError, Proposal, ProposalBook, ProposalStatus, ProposalType, Role, RoleBook,
};

verus! {

/// 1 when `p` has status `st`, else 0.
pub open spec fn has_status(p: Proposal, st: ProposalStatus) -> nat {
    if p.status == st {
        1
    } else {
        0
    }
}

// ─── Counting proposals by status ──────────────────────────────────────────

/// Counting over ids `1..=n` only looks at the statuses stored there.
pub proof fn lemma_count_frame(m1: Map<u64, Proposal>, m2: Map<u64, Proposal>, st: ProposalStatus, n: nat)
    requires
        n <= u64::MAX,
        forall|j: u64| 1 <= j <= n ==> #[trigger] m1[j].status == m2[j].status,
    ensures
        count_with_status(m1, st, n) == count_with_status(m2, st, n),
    decreases n,
{
    if n > 0 {
        lemma_count_frame(m1, m2, st, (n - 1) as nat);
        assert(m1[n as u64].status == m2[n as u64].status);
    }
}

/// Changing the status stored under one id `k` in `1..=n` moves the count by
/// what that one proposal contributes.
pub proof fn lemma_count_update(
    m1: Map<u64, Proposal>,
    m2: Map<u64, Proposal>,
    st: ProposalStatus,
    n: nat,
    k: u64,
)
    requires
        n <= u64::MAX,
        1 <= k <= n,
        forall|j: u64| 1 <= j <= n && j != k ==> #[trigger] m1[j].status == m2[j].status,
    ensures
        count_with_status(m2, st, n) + has_status(m1[k], st) == count_with_status(m1, st, n)
            + has_status(m2[k], st),
    decreases n,
{
    if n == k as nat {
        lemma_count_frame(m1, m2, st, (n - 1) as nat);
    } else {
        lemma_count_update(m1, m2, st, (n - 1) as nat, k);
        assert(m1[n as u64].status == m2[n as u64].status);
    }
}

/// The count never exceeds the number of ids counted.
pub proof fn lemma_count_bounded(m: Map<u64, Proposal>, st: ProposalStatus, n: nat)
    ensures
        count_with_status(m, st, n) <= n,
    decreases n,
{
    if n > 0 {
        lemma_count_bounded(m, st, (n - 1) as nat);
    }
}

/// Proposals that are open and proposals that were executed never outnumber
/// the ids counted.
pub proof fn lemma_open_and_executed_bounded(m: Map<u64, Proposal>, n: nat)
    ensures
        count_with_status(m, ProposalStatus::Active, n) + count_with_status(
            m,
            ProposalStatus::Executed,
            n,
        ) <= n,
    decreases n,
{
    if n > 0 {
        lemma_open_and_executed_bounded(m, (n - 1) as nat);
    }
}

/// A proposal with status `st` under an id in `1..=n` makes the count positive.
pub proof fn lemma_count_positive(m: Map<u64, Proposal>, st: ProposalStatus, n: nat, k: u64)
    requires
        n <= u64::MAX,
        1 <= k <= n,
        m[k].status == st,
    ensures
        count_with_status(m, st, n) >= 1,
    decreases n,
{
    if n != k as nat {
        lemma_count_positive(m, st, (n - 1) as nat, k);
    }
}

/// A proposal with another status under an id in `1..=n` keeps the count
/// below `n`.
pub proof fn lemma_count_below(m: Map<u64, Proposal>, st: ProposalStatus, n: nat, k: u64)
    requires
        n <= u64::MAX,
        1 <= k <= n,
        m[k].status != st,
    ensures
        count_with_status(m, st, n) < n,
    decreases n,
{
    if n == k as nat {
        lemma_count_bounded(m, st, (n - 1) as nat);
    } else {
        lemma_count_below(m, st, (n - 1) as nat, k);
    }
}

// ─── The invariant ─────────────────────────────────────────────────────────

/// A freshly deployed contract satisfies the invariant.
pub proof fn law_initial_state_consistent()
    ensures
        DaoState::initial().inv(),
{
    let s = DaoState::initial();
    assert forall|k: u64| #[trigger] s.proposals.contains_key(k) <==> 1 <= k <= s.proposal_count() by {}
    assert forall|k: u64| #[trigger] s.roles.contains_key(k) <==> 1 <= k <= s.proposal_count() by {}
}

/// Creating a role proposal keeps the invariant, for every ledger time, as
/// long as the proposal counter can still advance.
pub proof fn law_create_keeps_invariant(
    s: DaoState,
    time: u64,
    name: soroban_sdk::String,
    description: soroban_sdk::String,
    target: Address,
)
    requires
        s.inv(),
        s.proposal_count() < u64::MAX,
    ensures
        s.can_create(),
        s.create(time, name, description, target).0.inv(),
{
    let n = s.proposal_count();
    let st = s.view_dao_stats();
    lemma_count_bounded(s.proposals, ProposalStatus::Active, n as nat);
    lemma_count_bounded(s.proposals, ProposalStatus::Executed, n as nat);
    let (s2, id) = s.create(time, name, description, target);
    let m = (n + 1) as u64;
    assert(id == m);
    assert(s2.proposal_count() == m);
    assert forall|k: u64| #[trigger] s2.proposals.contains_key(k) <==> 1 <= k <= m by {}
    assert forall|k: u64| #[trigger] s2.roles.contains_key(k) <==> 1 <= k <= m by {}
    assert forall|k: u64| 1 <= k <= m implies #[trigger] entry_consistent(
        k,
        s2.proposals[k],
        s2.roles[k],
    ) by {
        if k < m {
            assert(entry_consistent(k, s.proposals[k], s.roles[k]));
        }
    }
    lemma_count_frame(s.proposals, s2.proposals, ProposalStatus::Active, n as nat);
    lemma_count_frame(s.proposals, s2.proposals, ProposalStatus::Executed, n as nat);
    assert(s2.proposals[m].status == ProposalStatus::Active);
}

/// An accepted vote keeps the invariant, and its tally stays within `u64`.
pub proof fn law_vote_keeps_invariant(s: DaoState, id: u64, vote_in_favour: bool)
    requires
        s.inv(),
        s.vote(id, vote_in_favour) is Ok,
    ensures
        vote_fits(s.proposals.get(id)),
        s.vote(id, vote_in_favour)->Ok_0.inv(),
{
    let n = s.proposal_count();
    let s2 = s.vote(id, vote_in_favour)->Ok_0;
    assert(s.proposals.contains_key(id));
    let p = s.proposals[id];
    assert(entry_consistent(id, p, s.roles[id]));
    let q = s2.proposals[id];
    assert forall|k: u64| #[trigger] s2.proposals.contains_key(k) <==> 1 <= k <= n by {}
    assert forall|k: u64| 1 <= k <= n implies #[trigger] entry_consistent(
        k,
        s2.proposals[k],
        s2.roles[k],
    ) by {
        assert(entry_consistent(k, s.proposals[k], s.roles[k]));
    }
    assert forall|j: u64| 1 <= j <= n && j != id implies #[trigger] s.proposals[j].status
        == s2.proposals[j].status by {}
    lemma_count_update(s.proposals, s2.proposals, ProposalStatus::Active, n as nat, id);
    lemma_count_update(s.proposals, s2.proposals, ProposalStatus::Executed, n as nat, id);
    lemma_count_positive(s.proposals, ProposalStatus::Active, n as nat, id);
}

/// An accepted execution keeps the invariant, and the member count stays
/// within `u64`.
pub proof fn law_execute_keeps_invariant(s: DaoState, id: u64)
    requires
        s.inv(),
        s.execute(id) is Ok,
    ensures
        execute_fits(s.proposals.get(id), s.role_of(s.proposals.get(id)), s.stats),
        s.execute(id)->Ok_0.inv(),
{
    let n = s.proposal_count();
    let s2 = s.execute(id)->Ok_0;
    assert(s.proposals.contains_key(id));
    let p = s.proposals[id];
    assert(entry_consistent(id, p, s.roles[id]));
    assert(s.roles.contains_key(id));
    assert forall|k: u64| #[trigger] s2.proposals.contains_key(k) <==> 1 <= k <= n by {}
    assert forall|k: u64| #[trigger] s2.roles.contains_key(k) <==> 1 <= k <= n by {}
    assert forall|k: u64| 1 <= k <= n implies #[trigger] entry_consistent(
        k,
        s2.proposals[k],
        s2.roles[k],
    ) by {
        assert(entry_consistent(k, s.proposals[k], s.roles[k]));
    }
    assert forall|j: u64| 1 <= j <= n && j != id implies #[trigger] s.proposals[j].status
        == s2.proposals[j].status by {}
    lemma_count_update(s.proposals, s2.proposals, ProposalStatus::Active, n as nat, id);
    lemma_count_update(s.proposals, s2.proposals, ProposalStatus::Executed, n as nat, id);
    lemma_count_below(s.proposals, ProposalStatus::Executed, n as nat, id);
}

// ─── How the calls relate ──────────────────────────────────────────────────

/// The lifecycle moves one way: `Active` may become `Passed` or `Rejected`,
/// `Passed` may become `Executed`, and nothing else changes a status.
pub open spec fn status_advances(before: ProposalStatus, after: ProposalStatus) -> bool {
    ||| before == after
    ||| before == ProposalStatus::Active && after == ProposalStatus::Passed
    ||| before == ProposalStatus::Active && after == ProposalStatus::Rejected
    ||| before == ProposalStatus::Passed && after == ProposalStatus::Executed
}

/// From `s1` to `s2` no proposal disappears, none moves backwards in its
/// lifecycle, no vote is taken back, and nothing else about it changes.
pub open spec fn lifecycle_respected(s1: DaoState, s2: DaoState) -> bool {
    forall|k: u64| #[trigger]
        s1.proposals.contains_key(k) ==> {
            let p = s1.proposals[k];
            let q = s2.proposals[k];
            &&& s2.proposals.contains_key(k)
            &&& status_advances(p.status, q.status)
            &&& p.votes_for <= q.votes_for
            &&& p.votes_against <= q.votes_against
            &&& q.proposal_id == p.proposal_id
            &&& q.proposal_type == p.proposal_type
            &&& q.role_id == p.role_id
            &&& q.target == p.target
            &&& q.created_at == p.created_at
        }
}

/// Reading back a creation: the new id is one past the number of proposals
/// ever created; reading proposal `id` gives the proposal asking to create
/// role `id` for `target`, open, without votes, stamped with `time`; reading
/// role `id` gives the role with the name and description passed in, held by
/// `target`, stamped with `time`, neither active nor assigned; the statistics
/// count one more proposal, open proposal and role; every other proposal and
/// role reads as before.
pub proof fn law_create_then_read(
    s: DaoState,
    time: u64,
    name: soroban_sdk::String,
    description: soroban_sdk::String,
    target: Address,
)
    requires
        s.inv(),
        s.proposal_count() < u64::MAX,
    ensures
        ({
            let (s2, id) = s.create(time, name, description, target);
            let p = s2.view_proposal(id)->Ok_0;
            let r = s2.view_role(id)->Ok_0;
            &&& id == s.proposal_count() + 1
            &&& s2.view_proposal(id) is Ok
            &&& p.proposal_id == id
            &&& p.proposal_type == ProposalType::CreateRole
            &&& p.role_id == id
            &&& p.target == target
            &&& p.votes_for == 0
            &&& p.votes_against == 0
            &&& p.status == ProposalStatus::Active
            &&& p.created_at == time
            &&& s2.view_role(id) is Ok
            &&& r.role_id == id
            &&& r.name == name
            &&& r.description == description
            &&& !r.is_active
            &&& !r.is_assigned
            &&& r.created_at == time
            &&& r.holder == target
            &&& s2.view_dao_stats().total_proposals == s.view_dao_stats().total_proposals + 1
            &&& s2.view_dao_stats().active_proposals == s.view_dao_stats().active_proposals + 1
            &&& s2.view_dao_stats().total_roles == s.view_dao_stats().total_roles + 1
            &&& s2.view_dao_stats().total_members == s.view_dao_stats().total_members
            &&& forall|k: u64| k != id ==> #[trigger] s2.view_proposal(k) == s.view_proposal(k)
            &&& forall|k: u64| k != id ==> #[trigger] s2.view_role(k) == s.view_role(k)
        }),
{
    law_create_keeps_invariant(s, time, name, description, target);
    let (s2, id) = s.create(time, name, description, target);
    assert(!s.proposals.contains_key(id));
}

/// Whatever the stored counters and statistics, a creation stores the name
/// and description it is given for the new role, hands the role and the
/// proposal to `target`, stamps both with `time`, and numbers them one past
/// the stored counters.
pub proof fn law_create_stores_what_it_is_given(
    count_proposal: Option<u64>,
    count_role: Option<u64>,
    stats: Option<DAOStats>,
    time: u64,
    name: soroban_sdk::String,
    description: soroban_sdk::String,
    target: Address,
)
    requires
        create_fits(count_proposal, count_role, stats),
    ensures
        ({
            let e = create_effect(count_proposal, count_role, stats, time, name, description, target);
            &&& e.role.name == name
            &&& e.role.description == description
            &&& e.role.holder == target
            &&& e.proposal.target == target
            &&& e.role.created_at == time
            &&& e.proposal.created_at == time
            &&& e.count_proposal == (match count_proposal { Some(c) => c as int, None => 0int }) + 1
            &&& e.count_role == (match count_role { Some(c) => c as int, None => 0int }) + 1
            &&& e.role.role_id == e.count_role
            &&& e.proposal.proposal_id == e.count_proposal
            &&& e.proposal.role_id == e.count_role
            &&& e.proposal_key == ProposalBook::Proposal(e.count_proposal)
            &&& e.role_key == RoleBook::Role(e.count_role)
            &&& e.proposal.status == ProposalStatus::Active
            &&& e.proposal.votes_for == 0 && e.proposal.votes_against == 0
            &&& !e.role.is_active && !e.role.is_assigned
        }),
{
}

/// Reading gives back exactly what is stored: in any storage, reading the
/// proposal or role under an id that holds one returns that very proposal or
/// role, and an id that holds none is answered `ProposalNotFound` or
/// `RoleNotFound`.
pub proof fn law_read_returns_stored(s: DaoState, id: u64)
    ensures
        s.proposals.contains_key(id) ==> s.view_proposal(id) == Ok::<Proposal, DaoError>(
            s.proposals[id],
        ),
        !s.proposals.contains_key(id) ==> s.view_proposal(id) == Err::<Proposal, DaoError>(
            DaoError::ProposalNotFound,
        ),
        s.roles.contains_key(id) ==> s.view_role(id) == Ok::<Role, DaoError>(s.roles[id]),
        !s.roles.contains_key(id) ==> s.view_role(id) == Err::<Role, DaoError>(
            DaoError::RoleNotFound,
        ),
{
}

/// In every reachable storage, reading proposal or role `id` for an id among
/// the `n` created returns exactly the proposal or role stored under it,
/// whatever its status and whether or not the role is active.
pub proof fn law_read_created(s: DaoState, id: u64)
    requires
        s.inv(),
        1 <= id <= s.proposal_count(),
    ensures
        s.view_proposal(id) == Ok::<Proposal, DaoError>(s.proposals[id]),
        s.view_role(id) == Ok::<Role, DaoError>(s.roles[id]),
{
    assert(s.proposals.contains_key(id));
    assert(s.roles.contains_key(id));
}

/// Whatever is stored, an accepted vote adds exactly one vote to the side it
/// was cast for, keeps every other field of the proposal, writes it back under
/// the id voted on, leaves it open below the quorum and otherwise passes it
/// exactly when the votes in favour outnumber those against; the statistics
/// are written only on resolution, with one open proposal fewer (never below
/// zero). A vote is refused exactly when nothing is stored or the stored
/// proposal is not open.
pub proof fn law_vote_counts_one_vote(
    stored: Option<Proposal>,
    proposal_id: u64,
    vote_in_favour: bool,
    stats: Option<DAOStats>,
)
    requires
        vote_fits(stored),
    ensures
        stored is None ==> vote_outcome(stored, proposal_id, vote_in_favour, stats) == Err::<
            VoteEffect,
            DaoError,
        >(DaoError::ProposalNotFound),
        stored is Some && stored->Some_0.status != ProposalStatus::Active ==> vote_outcome(
            stored,
            proposal_id,
            vote_in_favour,
            stats,
        ) == Err::<VoteEffect, DaoError>(DaoError::ProposalNotActive),
        stored is Some && stored->Some_0.status == ProposalStatus::Active ==> ({
            let p = stored->Some_0;
            let r = vote_outcome(stored, proposal_id, vote_in_favour, stats);
            let e = r->Ok_0;
            let q = e.proposal;
            let total = q.votes_for + q.votes_against;
            &&& r is Ok
            &&& e.proposal_key == ProposalBook::Proposal(proposal_id)
            &&& q.votes_for == p.votes_for + if vote_in_favour { 1int } else { 0int }
            &&& q.votes_against == p.votes_against + if vote_in_favour { 0int } else { 1int }
            &&& q.proposal_id == p.proposal_id
            &&& q.proposal_type == p.proposal_type
            &&& q.role_id == p.role_id
            &&& q.target == p.target
            &&& q.created_at == p.created_at
            &&& total < QUORUM ==> q.status == ProposalStatus::Active && e.stats is None
            &&& total >= QUORUM ==> {
                &&& (q.status == ProposalStatus::Passed) == (q.votes_for > q.votes_against)
                &&& (q.status == ProposalStatus::Rejected) == (q.votes_for <= q.votes_against)
                &&& e.stats is Some
                &&& e.stats->Some_0.active_proposals == match stats {
                    Some(st) => if st.active_proposals > 0 { st.active_proposals - 1 } else { 0 },
                    None => 0,
                }
                &&& e.stats->Some_0.total_members == match stats {
                    Some(st) => st.total_members as int,
                    None => 0,
                }
                &&& e.stats->Some_0.total_proposals == match stats {
                    Some(st) => st.total_proposals as int,
                    None => 0,
                }
                &&& e.stats->Some_0.total_roles == match stats {
                    Some(st) => st.total_roles as int,
                    None => 0,
                }
            }
        }),
{
}

/// Whatever is stored and whatever the proposal's type, an accepted
/// execution marks the proposal `Executed` and writes it back under the id
/// executed with every other field as stored, so it can never be executed
/// again; the role keeps its id, name, description and time, a creation
/// makes it active and assigned, an assignment hands it to the proposal's
/// target, a revocation unassigns it; one more member is counted. An
/// execution is refused exactly when nothing is stored, the proposal has not
/// passed, or its role is not stored.
pub proof fn law_execution_marks_executed(
    stored: Option<Proposal>,
    proposal_id: u64,
    stored_role: Option<Role>,
    stats: Option<DAOStats>,
)
    requires
        execute_fits(stored, stored_role, stats),
    ensures
        stored is None ==> execute_outcome(stored, proposal_id, stored_role, stats) == Err::<
            ExecuteEffect,
            DaoError,
        >(DaoError::ProposalNotFound),
        stored is Some && stored->Some_0.status != ProposalStatus::Passed ==> execute_outcome(
            stored,
            proposal_id,
            stored_role,
            stats,
        ) == Err::<ExecuteEffect, DaoError>(DaoError::ProposalNotPassed),
        stored is Some && stored->Some_0.status == ProposalStatus::Passed && stored_role is None
            ==> execute_outcome(stored, proposal_id, stored_role, stats) == Err::<
            ExecuteEffect,
            DaoError,
        >(DaoError::RoleNotFound),
        stored is Some && stored->Some_0.status == ProposalStatus::Passed && stored_role is Some
            ==> ({
            let p = stored->Some_0;
            let role = stored_role->Some_0;
            let r = execute_outcome(stored, proposal_id, stored_role, stats);
            let e = r->Ok_0;
            let q = e.proposal;
            let nr = e.role;
            &&& r is Ok
            &&& q.status == ProposalStatus::Executed
            &&& e.proposal_key == ProposalBook::Proposal(proposal_id)
            &&& q.proposal_id == p.proposal_id
            &&& q.proposal_type == p.proposal_type
            &&& q.role_id == p.role_id
            &&& q.target == p.target
            &&& q.votes_for == p.votes_for
            &&& q.votes_against == p.votes_against
            &&& q.created_at == p.created_at
            &&& e.role_key == RoleBook::Role(role.role_id)
            &&& nr.role_id == role.role_id
            &&& nr.name == role.name
            &&& nr.description == role.description
            &&& nr.created_at == role.created_at
            &&& p.proposal_type == ProposalType::CreateRole ==> nr.is_active && nr.is_assigned
                && nr.holder == role.holder
            &&& p.proposal_type == ProposalType::AssignRole ==> nr.is_assigned && nr.holder
                == p.target && nr.is_active == role.is_active
            &&& p.proposal_type == ProposalType::RevokeRole ==> !nr.is_assigned && nr.holder
                == role.holder && nr.is_active == role.is_active
            &&& e.stats.total_members == (match stats {
                Some(st) => st.total_members as int,
                None => 0,
            }) + 1
        }),
{
}

/// Creation respects the lifecycle of every existing proposal.
pub proof fn law_create_respects_lifecycle(
    s: DaoState,
    time: u64,
    name: soroban_sdk::String,
    description: soroban_sdk::String,
    target: Address,
)
    requires
        s.inv(),
        s.proposal_count() < u64::MAX,
    ensures
        lifecycle_respected(s, s.create(time, name, description, target).0),
{
    let (s2, id) = s.create(time, name, description, target);
    assert(!s.proposals.contains_key(id));
}

/// A vote respects the lifecycle of every proposal.
pub proof fn law_vote_respects_lifecycle(s: DaoState, id: u64, vote_in_favour: bool)
    requires
        s.inv(),
        s.vote(id, vote_in_favour) is Ok,
    ensures
        lifecycle_respected(s, s.vote(id, vote_in_favour)->Ok_0),
{
    assert(entry_consistent(id, s.proposals[id], s.roles[id]));
}

/// An execution respects the lifecycle of every proposal.
pub proof fn law_execute_respects_lifecycle(s: DaoState, id: u64)
    requires
        s.inv(),
        s.execute(id) is Ok,
    ensures
        lifecycle_respected(s, s.execute(id)->Ok_0),
{
}

/// The quorum rule: an accepted vote adds exactly one vote to the side it
/// was cast for; below the quorum the proposal stays open, and once the
/// tally reaches the quorum it is passed when the votes in favour strictly
/// outnumber those against and rejected otherwise, and one open proposal
/// fewer is counted.
pub proof fn law_vote_applies_quorum(s: DaoState, id: u64, vote_in_favour: bool)
    requires
        s.inv(),
        s.vote(id, vote_in_favour) is Ok,
    ensures
        ({
            let s2 = s.vote(id, vote_in_favour)->Ok_0;
            let p = s.proposals[id];
            let q = s2.proposals[id];
            let t = q.votes_for + q.votes_against;
            &&& p.status == ProposalStatus::Active
            &&& q.votes_for == p.votes_for + if vote_in_favour { 1int } else { 0int }
            &&& q.votes_against == p.votes_against + if vote_in_favour { 0int } else { 1int }
            &&& t < QUORUM ==> q.status == ProposalStatus::Active && s2.view_dao_stats()
                == s.view_dao_stats()
            &&& t >= QUORUM ==> {
                &&& t == QUORUM
                &&& q.status == ProposalStatus::Passed <==> q.votes_for > q.votes_against
                &&& q.status == ProposalStatus::Rejected <==> q.votes_for <= q.votes_against
                &&& s2.view_dao_stats().active_proposals == s.view_dao_stats().active_proposals - 1
            }
        }),
{
    law_vote_keeps_invariant(s, id, vote_in_favour);
    let s2 = s.vote(id, vote_in_favour)->Ok_0;
    let n = s.proposal_count();
    assert(entry_consistent(id, s.proposals[id], s.roles[id]));
    lemma_count_positive(s.proposals, ProposalStatus::Active, n as nat, id);
}

/// Which reads are refused: a proposal or role can be read exactly under the
/// ids `1..=n` of the `n` proposals ever created, and any other id is
/// answered `ProposalNotFound` or `RoleNotFound`.
pub proof fn law_view_refusals(s: DaoState, id: u64)
    requires
        s.inv(),
    ensures
        s.view_proposal(id) is Ok <==> 1 <= id <= s.proposal_count(),
        s.view_role(id) is Ok <==> 1 <= id <= s.proposal_count(),
        !(1 <= id <= s.proposal_count()) ==> s.view_proposal(id) == Err::<Proposal, DaoError>(
            DaoError::ProposalNotFound,
        ),
        !(1 <= id <= s.proposal_count()) ==> s.view_role(id) == Err::<crate::types::Role, DaoError>(
            DaoError::RoleNotFound,
        ),
{
    assert(s.proposals.contains_key(id) <==> 1 <= id <= s.proposal_count());
    assert(s.roles.contains_key(id) <==> 1 <= id <= s.proposal_count());
}

/// Which votes are refused, and with what: a vote on an id under which no
/// proposal was created is answered `ProposalNotFound`, a vote on a proposal
/// that is no longer open is answered `ProposalNotActive`, and every other
/// vote is accepted.
pub proof fn law_vote_refusals(s: DaoState, id: u64, vote_in_favour: bool)
    requires
        s.inv(),
    ensures
        !(1 <= id <= s.proposal_count()) ==> s.vote(id, vote_in_favour) == Err::<DaoState, DaoError>(
            DaoError::ProposalNotFound,
        ),
        1 <= id <= s.proposal_count() && s.proposals[id].status != ProposalStatus::Active
            ==> s.vote(id, vote_in_favour) == Err::<DaoState, DaoError>(DaoError::ProposalNotActive),
        1 <= id <= s.proposal_count() && s.proposals[id].status == ProposalStatus::Active
            ==> s.vote(id, vote_in_favour) is Ok,
{
    assert(s.proposals.contains_key(id) <==> 1 <= id <= s.proposal_count());
}

/// Which executions are refused, and with what: an id under which no
/// proposal was created is answered `ProposalNotFound`, a proposal that has
/// not passed (open, rejected, or already executed) is answered
/// `ProposalNotPassed`, and every passed proposal is executed (its role is
/// always found).
pub proof fn law_execute_refusals(s: DaoState, id: u64)
    requires
        s.inv(),
    ensures
        !(1 <= id <= s.proposal_count()) ==> s.execute(id) == Err::<DaoState, DaoError>(
            DaoError::ProposalNotFound,
        ),
        1 <= id <= s.proposal_count() && s.proposals[id].status != ProposalStatus::Passed
            ==> s.execute(id) == Err::<DaoState, DaoError>(DaoError::ProposalNotPassed),
        1 <= id <= s.proposal_count() && s.proposals[id].status == ProposalStatus::Passed
            ==> s.execute(id) is Ok,
{
    assert(s.proposals.contains_key(id) <==> 1 <= id <= s.proposal_count());
    if 1 <= id <= s.proposal_count() {
        assert(entry_consistent(id, s.proposals[id], s.roles[id]));
        assert(s.roles.contains_key(id));
    }
}

/// Executing a passed proposal marks it executed, makes its role active and
/// assigned to the proposal's target, counts one more member, and leaves the
/// other proposals and roles as they were.
pub proof fn law_execute_grants_role(s: DaoState, id: u64)
    requires
        s.inv(),
        s.execute(id) is Ok,
    ensures
        ({
            let s2 = s.execute(id)->Ok_0;
            &&& s.proposals[id].status == ProposalStatus::Passed
            &&& s2.proposals[id].status == ProposalStatus::Executed
            &&& s2.roles[id].is_active
            &&& s2.roles[id].is_assigned
            &&& s2.roles[id].holder == s2.proposals[id].target
            &&& s2.roles[id].name == s.roles[id].name
            &&& s2.roles[id].description == s.roles[id].description
            &&& s2.view_dao_stats().total_members == s.view_dao_stats().total_members + 1
            &&& forall|k: u64| k != id ==> #[trigger] s2.view_proposal(k) == s.view_proposal(k)
            &&& forall|k: u64| k != id ==> #[trigger] s2.view_role(k) == s.view_role(k)
        }),
{
    law_execute_keeps_invariant(s, id);
    assert(entry_consistent(id, s.proposals[id], s.roles[id]));
}

/// The statistics account for the proposals: as many roles as proposals were
/// created, and the open proposals together with the members never outnumber
/// the proposals.
pub proof fn law_stats_account_for_proposals(s: DaoState)
    requires
        s.inv(),
    ensures
        s.view_dao_stats().total_roles == s.view_dao_stats().total_proposals,
        s.view_dao_stats().total_proposals == s.proposal_count(),
        s.view_dao_stats().active_proposals + s.view_dao_stats().total_members
            <= s.view_dao_stats().total_proposals,
{
    lemma_open_and_executed_bounded(s.proposals, s.proposal_count() as nat);
}

} // verus!
