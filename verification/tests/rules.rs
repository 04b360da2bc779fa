use role_manager_dao::{
    counter_or_zero, plan_create_role_proposal, plan_execute_proposal, plan_vote_on_proposal,
    proposal_or_not_found, role_or_not_found, stats_or_default, DAOStats, DaoError, Proposal,
    ProposalBook, ProposalStatus, ProposalType, Role, RoleBook, RoleManagerDAO, QUORUM,
};
use soroban_sdk::testutils::{Address as _, EnvTestConfig, Ledger};
use soroban_sdk::{Address, Env, String};

fn test_env() -> Env {
    Env::new_with_config(EnvTestConfig { capture_snapshot_at_drop: false })
}

fn stats(total_roles: u64, total_members: u64, total_proposals: u64, active_proposals: u64) -> DAOStats {
    DAOStats { total_roles, total_members, total_proposals, active_proposals }
}

fn proposal(env: &Env, kind: ProposalType, status: ProposalStatus, votes_for: u64, votes_against: u64) -> Proposal {
    Proposal {
        proposal_id: 7,
        proposal_type: kind,
        role_id: 4,
        target: Address::generate(env),
        votes_for,
        votes_against,
        status,
        created_at: 11,
    }
}

fn role(env: &Env, holder: &Address, is_active: bool, is_assigned: bool) -> Role {
    Role {
        role_id: 4,
        name: String::from_str(env, "Auditor"),
        description: String::from_str(env, "Checks the books"),
        is_active,
        created_at: 5,
        holder: holder.clone(),
        is_assigned,
    }
}

// ─── Reading stored entries ────────────────────────────────────────────────

#[test]
fn stored_values_default_to_zero() {
    assert_eq!(counter_or_zero(None), 0);
    assert_eq!(counter_or_zero(Some(41)), 41);
    assert_eq!(stats_or_default(None), stats(0, 0, 0, 0));
    assert_eq!(stats_or_default(Some(stats(1, 2, 3, 4))), stats(1, 2, 3, 4));
}

#[test]
fn missing_entries_are_refused() {
    let env = test_env();
    assert_eq!(proposal_or_not_found(None).err(), Some(DaoError::ProposalNotFound));
    assert_eq!(role_or_not_found(None).err(), Some(DaoError::RoleNotFound));
    let p = proposal(&env, ProposalType::CreateRole, ProposalStatus::Active, 0, 0);
    assert_eq!(proposal_or_not_found(Some(p)).unwrap().proposal_id, 7);
}

#[test]
fn keys_name_their_ids() {
    assert_eq!(ProposalBook::Proposal(12).id(), 12);
    assert_eq!(RoleBook::Role(9).id(), 9);
}

#[test]
fn refusals_carry_the_contract_messages() {
    assert_eq!(DaoError::ProposalNotFound.message(), "Proposal not found");
    assert_eq!(DaoError::RoleNotFound.message(), "Role not found");
    assert_eq!(DaoError::ProposalNotActive.message(), "Proposal is not active for voting");
    assert_eq!(DaoError::ProposalNotPassed.message(), "Proposal has not passed; cannot execute");
}

// ─── Creating ──────────────────────────────────────────────────────────────

#[test]
fn first_creation_starts_both_counters_at_one() {
    let env = test_env();
    let target = Address::generate(&env);
    let e = plan_create_role_proposal(
        None,
        None,
        None,
        77,
        String::from_str(&env, "Treasurer"),
        String::from_str(&env, "Manages DAO funds"),
        target.clone(),
    );
    assert_eq!(e.count_proposal, 1);
    assert_eq!(e.count_role, 1);
    assert_eq!(e.proposal_key, ProposalBook::Proposal(1));
    assert_eq!(e.role_key, RoleBook::Role(1));
    assert_eq!(e.proposal.proposal_type, ProposalType::CreateRole);
    assert_eq!(e.proposal.status, ProposalStatus::Active);
    assert_eq!(e.proposal.target, target);
    assert_eq!(e.proposal.created_at, 77);
    assert_eq!(e.role.holder, target);
    assert_eq!(e.role.created_at, 77);
    assert_eq!(e.role.name, String::from_str(&env, "Treasurer"));
    assert!(!e.role.is_active && !e.role.is_assigned);
    assert_eq!(e.stats, stats(1, 0, 1, 1));
}

#[test]
fn creation_advances_each_stored_counter() {
    let env = test_env();
    let target = Address::generate(&env);
    let e = plan_create_role_proposal(
        Some(4),
        Some(9),
        Some(stats(9, 2, 4, 1)),
        3,
        String::from_str(&env, "A"),
        String::from_str(&env, "B"),
        target,
    );
    assert_eq!(e.count_proposal, 5);
    assert_eq!(e.count_role, 10);
    assert_eq!(e.proposal.proposal_id, 5);
    assert_eq!(e.proposal.role_id, 10);
    assert_eq!(e.role.role_id, 10);
    assert_eq!(e.stats, stats(10, 2, 5, 2));
}

// ─── Voting ────────────────────────────────────────────────────────────────

#[test]
fn vote_on_missing_proposal_is_refused() {
    let r = plan_vote_on_proposal(None, 3, true, None);
    assert_eq!(r.err(), Some(DaoError::ProposalNotFound));
}

#[test]
fn vote_on_closed_proposal_is_refused() {
    let env = test_env();
    for status in [ProposalStatus::Passed, ProposalStatus::Rejected, ProposalStatus::Executed] {
        let p = proposal(&env, ProposalType::CreateRole, status, 2, 1);
        let r = plan_vote_on_proposal(Some(p), 7, false, None);
        assert_eq!(r.err(), Some(DaoError::ProposalNotActive));
    }
}

#[test]
fn vote_below_quorum_keeps_proposal_open_and_stats_untouched() {
    let env = test_env();
    let p = proposal(&env, ProposalType::CreateRole, ProposalStatus::Active, 1, 0);
    let e = plan_vote_on_proposal(Some(p), 7, false, Some(stats(1, 0, 1, 1))).unwrap();
    assert_eq!(e.proposal_key, ProposalBook::Proposal(7));
    assert_eq!(e.proposal.votes_for, 1);
    assert_eq!(e.proposal.votes_against, 1);
    assert_eq!(e.proposal.status, ProposalStatus::Active);
    assert!(e.stats.is_none());
}

#[test]
fn vote_reaching_quorum_with_majority_passes() {
    let env = test_env();
    let p = proposal(&env, ProposalType::CreateRole, ProposalStatus::Active, 1, 1);
    let e = plan_vote_on_proposal(Some(p), 7, true, Some(stats(2, 0, 2, 2))).unwrap();
    assert_eq!(e.proposal.votes_for + e.proposal.votes_against, QUORUM);
    assert_eq!(e.proposal.status, ProposalStatus::Passed);
    assert_eq!(e.stats, Some(stats(2, 0, 2, 1)));
}

#[test]
fn vote_reaching_quorum_without_majority_rejects() {
    let env = test_env();
    let p = proposal(&env, ProposalType::CreateRole, ProposalStatus::Active, 1, 1);
    let e = plan_vote_on_proposal(Some(p), 7, false, Some(stats(2, 0, 2, 2))).unwrap();
    assert_eq!(e.proposal.status, ProposalStatus::Rejected);
    assert_eq!(e.stats, Some(stats(2, 0, 2, 1)));
}

#[test]
fn resolution_never_lowers_open_count_below_zero() {
    let env = test_env();
    let p = proposal(&env, ProposalType::CreateRole, ProposalStatus::Active, 0, 2);
    let e = plan_vote_on_proposal(Some(p), 7, false, None).unwrap();
    assert_eq!(e.proposal.status, ProposalStatus::Rejected);
    assert_eq!(e.stats, Some(stats(0, 0, 0, 0)));
}

#[test]
fn vote_is_written_under_the_requested_id() {
    let env = test_env();
    let p = proposal(&env, ProposalType::CreateRole, ProposalStatus::Active, 0, 0);
    let e = plan_vote_on_proposal(Some(p), 21, true, None).unwrap();
    assert_eq!(e.proposal_key, ProposalBook::Proposal(21));
}

// ─── Executing ─────────────────────────────────────────────────────────────

#[test]
fn execute_refusals_come_in_order() {
    let env = test_env();
    let holder = Address::generate(&env);
    assert_eq!(plan_execute_proposal(None, 7, None, None).err(), Some(DaoError::ProposalNotFound));
    let open = proposal(&env, ProposalType::CreateRole, ProposalStatus::Active, 0, 0);
    assert_eq!(plan_execute_proposal(Some(open), 7, None, None).err(), Some(DaoError::ProposalNotPassed));
    let passed = proposal(&env, ProposalType::CreateRole, ProposalStatus::Passed, 2, 1);
    assert_eq!(plan_execute_proposal(Some(passed), 7, None, None).err(), Some(DaoError::RoleNotFound));
    let executed = proposal(&env, ProposalType::CreateRole, ProposalStatus::Executed, 2, 1);
    let r = role(&env, &holder, true, true);
    assert_eq!(plan_execute_proposal(Some(executed), 7, Some(r), None).err(), Some(DaoError::ProposalNotPassed));
}

#[test]
fn executing_a_creation_activates_and_assigns() {
    let env = test_env();
    let holder = Address::generate(&env);
    let p = proposal(&env, ProposalType::CreateRole, ProposalStatus::Passed, 2, 1);
    let e = plan_execute_proposal(Some(p), 7, Some(role(&env, &holder, false, false)), Some(stats(1, 3, 1, 0))).unwrap();
    assert!(e.role.is_active && e.role.is_assigned);
    assert_eq!(e.role.holder, holder);
    assert_eq!(e.role_key, RoleBook::Role(4));
    assert_eq!(e.proposal_key, ProposalBook::Proposal(7));
    assert_eq!(e.proposal.status, ProposalStatus::Executed);
    assert_eq!(e.stats, stats(1, 4, 1, 0));
}

#[test]
fn executing_an_assignment_hands_the_role_to_the_target() {
    let env = test_env();
    let holder = Address::generate(&env);
    let p = proposal(&env, ProposalType::AssignRole, ProposalStatus::Passed, 3, 0);
    let target = p.target.clone();
    let e = plan_execute_proposal(Some(p), 7, Some(role(&env, &holder, true, false)), None).unwrap();
    assert_eq!(e.role.holder, target);
    assert_ne!(e.role.holder, holder);
    assert!(e.role.is_assigned);
    assert!(e.role.is_active);
    assert_eq!(e.stats, stats(0, 1, 0, 0));
}

#[test]
fn executing_a_revocation_unassigns_the_role() {
    let env = test_env();
    let holder = Address::generate(&env);
    let p = proposal(&env, ProposalType::RevokeRole, ProposalStatus::Passed, 2, 1);
    let e = plan_execute_proposal(Some(p), 7, Some(role(&env, &holder, true, true)), None).unwrap();
    assert!(!e.role.is_assigned);
    assert!(e.role.is_active);
    assert_eq!(e.role.holder, holder);
}

// ─── Laws on concrete runs ─────────────────────────────────────────────────

#[test]
fn refused_calls_change_nothing() {
    let env = test_env();
    let mut dao = RoleManagerDAO::new(env.clone());
    let target = Address::generate(&env);
    let pid = dao.create_role_proposal(String::from_str(&env, "R"), String::from_str(&env, "d"), target);
    let before = dao.view_dao_stats();
    assert_eq!(dao.vote_on_proposal(pid + 1, true), Err(DaoError::ProposalNotFound));
    assert_eq!(dao.execute_proposal(pid), Err(DaoError::ProposalNotPassed));
    assert_eq!(dao.execute_proposal(0), Err(DaoError::ProposalNotFound));
    assert_eq!(dao.view_dao_stats(), before);
    let p = dao.view_proposal(pid).unwrap();
    assert_eq!((p.votes_for, p.votes_against, p.status), (0, 0, ProposalStatus::Active));
    assert_eq!(dao.view_role(pid + 1).err(), Some(DaoError::RoleNotFound));
}

#[test]
fn read_after_create_gives_back_what_was_written() {
    let env = test_env();
    env.ledger().set_timestamp(123);
    let mut dao = RoleManagerDAO::new(env.clone());
    let target = Address::generate(&env);
    let pid = dao.create_role_proposal_at(55, String::from_str(&env, "R"), String::from_str(&env, "d"), target.clone());
    let p = dao.view_proposal(pid).unwrap();
    assert_eq!((p.proposal_id, p.role_id, p.created_at), (1, 1, 55));
    assert_eq!(p.target, target);
    let r = dao.view_role(pid).unwrap();
    assert_eq!((r.role_id, r.created_at), (1, 55));
    assert_eq!(r.description, String::from_str(&env, "d"));
    let pid2 = dao.create_role_proposal(String::from_str(&env, "S"), String::from_str(&env, "e"), target);
    assert_eq!(pid2, 2);
    assert_eq!(dao.view_role(pid2).unwrap().created_at, 123);
    assert_eq!(dao.view_role(pid).unwrap().name, String::from_str(&env, "R"));
}

#[test]
fn lifecycle_only_moves_forward() {
    let env = test_env();
    let mut dao = RoleManagerDAO::new(env.clone());
    let target = Address::generate(&env);
    let pid = dao.create_role_proposal(String::from_str(&env, "R"), String::from_str(&env, "d"), target);
    for _ in 0..3 {
        dao.vote_on_proposal(pid, true).unwrap();
    }
    assert_eq!(dao.view_proposal(pid).unwrap().status, ProposalStatus::Passed);
    assert_eq!(dao.vote_on_proposal(pid, false), Err(DaoError::ProposalNotActive));
    dao.execute_proposal(pid).unwrap();
    let p = dao.view_proposal(pid).unwrap();
    assert_eq!((p.votes_for, p.votes_against, p.status), (3, 0, ProposalStatus::Executed));
    assert_eq!(dao.vote_on_proposal(pid, true), Err(DaoError::ProposalNotActive));
    assert_eq!(dao.execute_proposal(pid), Err(DaoError::ProposalNotPassed));
}

#[test]
fn stats_account_for_proposals() {
    let env = test_env();
    let mut dao = RoleManagerDAO::new(env.clone());
    let target = Address::generate(&env);
    let mut ids = Vec::new();
    for _ in 0..4 {
        ids.push(dao.create_role_proposal(String::from_str(&env, "R"), String::from_str(&env, "d"), target.clone()));
    }
    for _ in 0..3 {
        dao.vote_on_proposal(ids[0], true).unwrap();
    }
    for _ in 0..3 {
        dao.vote_on_proposal(ids[1], false).unwrap();
    }
    dao.vote_on_proposal(ids[2], true).unwrap();
    dao.execute_proposal(ids[0]).unwrap();
    let s = dao.view_dao_stats();
    assert_eq!(s, stats(4, 1, 4, 2));
    assert!(s.active_proposals + s.total_members <= s.total_proposals);
    assert_eq!(s.total_roles, s.total_proposals);
}
