//! A phase-gated, community-governed crowdfunding protocol.
//!
//! Communities form, members propose projects and vote on them, approved
//! projects collect donations into a shared pool, the pool is paid out in
//! proportion to donation activity, and members may vote to claw part of a
//! donation back. Every operation takes the acting identity and the current
//! time as arguments; value transfers are returned to the caller as
//! [`Transfer`] records to be carried out on the ledger.

pub mod error;
pub mod laws;
pub mod rules;
pub mod sf;
pub mod state;

pub use error::ErrorCode;
pub use rules::{is_member, parse_vote};
pub use sf::{
    add_member_to_community, ask_for_withdraw, create_community, create_project, distribute_funds,
    donate_project, execute_project, join_community, pause, stage, vote, voting_withdraw, withdraw,
};
pub use state::{
    Community, Counter, Donation, Key, Management, MemberCounter, Multiplier, Project,
    ProjectFunds, SolBank, Transfer, Voting, VotingResult, Withdraw,
};
