//! Role Manager DAO: role-based governance in which every role change is
//! gated behind a proposal and a vote.
//!
//! The crate is organised in layers:
//! - `outside`: the host types of the Soroban SDK that the records carry, and
//!   the host calls the logic makes;
//! - `types`: the records kept in contract storage;
//! - `rules`: the decision of each contract call, computed from the storage
//!   entries the call reads and giving the entries it writes;
//! - `state`: the contract storage as a mathematical value, what each call
//!   does to it, and the invariant of every reachable storage;
//! - `laws`: the proofs that every call keeps the invariant, and how the calls
//!   relate;
//! - `dao`: the contract with its storage, and its calls.
mod outside;
pub mod types;
pub mod rules;
pub mod state;
pub mod laws;
pub mod dao;

pub use dao::RoleManagerDAO;
pub use rules::{
    counter_or_zero, plan_create_role_proposal, plan_execute_proposal, plan_vote_on_proposal,
    proposal_or_not_found, role_or_not_found, stats_or_default, CreateEffect, ExecuteEffect,
    VoteEffect, QUORUM,
};
pub use state::DaoState;
pub use types::{DAOStats, DaoError, Proposal, ProposalBook, ProposalStatus, ProposalType, Role, RoleBook};
