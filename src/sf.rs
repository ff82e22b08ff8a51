//! The protocol's operations. Each takes the acting identity and, where a
//! window gates it, the current time; a refused operation changes nothing.

use vstd::prelude::*;

use crate::error::ErrorCode;
use crate::rules::{
    ONE_DAY, admit_member, choice_of, first_index, find_project, funding_weight_prefix_step,
    in_window, is_member, is_published, lemma_entry_le_sum, lemma_first_index_unique,
    lemma_sum_amounts_push_empty, lemma_sum_amounts_update, lemma_weight_prefix, parse_vote,
    payout, project_passes, project_vote_passes, tally, withdraw_passes, withdraw_vote_passes,
};
use crate::state::{
    Community, Counter, Donation, Key, Management, MemberCounter, Multiplier, Project,
    ProjectFunds, SolBank, Transfer, Voting, VotingResult, Withdraw, funding_weight,
};

verus! {

/// The multiplier that a distribution uses: the cached one, or, while that
/// is zero, the pool's total over its funding weight.
pub open spec fn multiplier_after(m: Multiplier, bank: SolBank) -> Multiplier {
    if m.is_zero() {
        Multiplier { num: bank.amount, den: funding_weight(bank.projects@) as u128 }
    } else {
        m
    }
}

/// Why a distribution is refused, if it is.
pub open spec fn distribute_gate(m: Management, user: Key, now: i64) -> Option<ErrorCode> {
    if user != m.admin {
        Some(ErrorCode::AuthenticationError)
    } else if !(m.distribute_stage < now) {
        Some(ErrorCode::NotInDistributeStage)
    } else if m.is_fund_distributed {
        Some(ErrorCode::NotOpenedYet)
    } else {
        None
    }
}

/// The result of a distribution and the phase record it leaves.
pub open spec fn distribute_outcome(
    m: Management,
    bank: SolBank,
    donate: Donation,
    user: Key,
    sol_bank_key: Key,
    project_key: Key,
    now: i64,
) -> (Result<Transfer, ErrorCode>, Management) {
    match distribute_gate(m, user, now) {
        Some(e) => (Err(e), m),
        None => {
            let mult = multiplier_after(m.multiple, bank);
            (
                Ok(
                    Transfer {
                        from: sol_bank_key,
                        to: project_key,
                        amount: payout(donate.donate_count, donate.amount, mult.truncated()) as u64,
                    },
                ),
                Management { multiple: mult, ..m },
            )
        },
    }
}

/// Pays a donation record's share of the pool out to its project.
///
/// Admin only, after the distribute boundary, while distribution is open.
/// The multiplier is computed once, as the pool's total over the sum of
/// amount times count over the published projects, and cached while it is
/// not zero. The payout is the record's count times its amount times the
/// multiplier truncated to an integer, sent from the pool to the project.
pub fn distribute_funds(
    sol_bank: &SolBank,
    management: &mut Management,
    user: Key,
    donate: &Donation,
    sol_bank_key: Key,
    project_key: Key,
    now: i64,
) -> (r: Result<Transfer, ErrorCode>)
    requires
        funding_weight(sol_bank.projects@) <= u128::MAX,
        payout(
            donate.donate_count,
            donate.amount,
            multiplier_after(old(management).multiple, *sol_bank).truncated(),
        ) <= u64::MAX,
    ensures
        (r, *final(management)) == distribute_outcome(
            *old(management),
            *sol_bank,
            *donate,
            user,
            sol_bank_key,
            project_key,
            now,
        ),
{
    if user != management.admin {
        return Err(ErrorCode::AuthenticationError);
    }
    if !(management.distribute_stage < now) {
        return Err(ErrorCode::NotInDistributeStage);
    }
    if management.is_fund_distributed {
        return Err(ErrorCode::NotOpenedYet);
    }
    if management.multiple.num == 0 && management.multiple.den != 0 {
        let mut sum: u128 = 0;
        let mut i: usize = 0;
        while i < sol_bank.projects.len()
            invariant
                i <= sol_bank.projects@.len(),
                sum == funding_weight(sol_bank.projects@.subrange(0, i as int)),
                funding_weight(sol_bank.projects@) <= u128::MAX,
            decreases sol_bank.projects@.len() - i,
        {
            let e = sol_bank.projects[i];
            proof {
                funding_weight_prefix_step(sol_bank.projects@, i as int);
                lemma_weight_prefix(sol_bank.projects@, i + 1);
            }
            sum = sum + (e.amount as u128) * (e.count as u128);
            i += 1;
        }
        assert(sol_bank.projects@.subrange(0, i as int) =~= sol_bank.projects@);
        management.multiple = Multiplier { num: sol_bank.amount, den: sum };
    }
    let m = management.multiple;
    let mult: u64 = if m.den == 0 {
        if m.num == 0 {
            0
        } else {
            u64::MAX
        }
    } else {
        (m.num as u128 / m.den) as u64
    };
    let c = donate.donate_count as u128;
    let a = donate.amount as u128;
    assert(c * a <= u64::MAX as int * u64::MAX as int) by (nonlinear_arith)
        requires
            c <= u64::MAX,
            a <= u64::MAX,
    ;
    let ca: u128 = c * a;
    let funded: u128 = if mult == 0 {
        0
    } else {
        assert(ca * (mult as int) <= u64::MAX);
        ca * (mult as u128)
    };
    Ok(Transfer { from: sol_bank_key, to: project_key, amount: funded as u64 })
}

/// Why a project vote is refused, if it is.
pub open spec fn vote_gate(
    m: Management,
    members: Seq<Key>,
    user: Key,
    choice: Seq<char>,
    now: i64,
) -> Option<ErrorCode> {
    if m.pause {
        Some(ErrorCode::ContractPause)
    } else if !members.contains(user) {
        Some(ErrorCode::AuthenticationError)
    } else if !in_window(m.voting_stage, m.execute_stage, now) {
        Some(ErrorCode::NotInVotingStage)
    } else if choice_of(choice) == VotingResult::Invalid {
        Some(ErrorCode::InvalidChar)
    } else {
        None
    }
}

/// Casts a member's vote on a project during the voting window.
///
/// The choice is read by its first character (`'y'` yes, `'n'` no); the
/// matching count of the tally goes up by one and a receipt is written.
pub fn vote(
    voting: &mut Voting,
    project_key: Key,
    management: &Management,
    counter: &mut Counter,
    community: &Community,
    user: Key,
    choice: String,
    voting_bump: u8,
    now: i64,
) -> (r: Result<(), ErrorCode>)
    requires
        old(counter).yes_count < u64::MAX,
        old(counter).no_count < u64::MAX,
    ensures
        match vote_gate(*management, community.members@, user, choice@, now) {
            Some(e) => r == Err::<(), ErrorCode>(e) && *final(voting) == *old(voting)
                && *final(counter) == *old(counter),
            None => r is Ok && *final(counter) == tally(*old(counter), choice_of(choice@))
                && *final(voting) == (Voting {
                user,
                project: project_key,
                timestamp: now,
                result: choice_of(choice@),
                bump: voting_bump,
            }),
        },
{
    if management.pause {
        return Err(ErrorCode::ContractPause);
    }
    if !is_member(&community.members, user) {
        return Err(ErrorCode::AuthenticationError);
    }
    if !(management.voting_stage < now && management.execute_stage > now) {
        return Err(ErrorCode::NotInVotingStage);
    }
    let voting_char = parse_vote(&choice);
    if voting_char == VotingResult::Invalid {
        return Err(ErrorCode::InvalidChar);
    }
    if voting_char == VotingResult::Yes {
        counter.yes_count = counter.yes_count + 1;
    } else {
        counter.no_count = counter.no_count + 1;
    }
    *voting = Voting {
        user,
        project: project_key,
        timestamp: now,
        result: voting_char,
        bump: voting_bump,
    };
    Ok(())
}

/// Why a donation is refused, if it is.
pub open spec fn donate_gate(m: Management, bank: SolBank, project_key: Key, now: i64) -> Option<
    ErrorCode,
> {
    if m.pause {
        Some(ErrorCode::ContractPause)
    } else if !in_window(m.donate_stage, m.distribute_stage, now) {
        Some(ErrorCode::NotInDonateStage)
    } else if !is_published(bank.projects@, project_key) {
        Some(ErrorCode::NotPublish)
    } else {
        None
    }
}

/// The pool after a donation of `amount` to the project at index `i`.
pub open spec fn pool_after_donation(bank: SolBank, i: int, amount: u64) -> Seq<ProjectFunds> {
    bank.projects@.update(
        i,
        ProjectFunds {
            count: (bank.projects@[i].count + 1) as u64,
            amount: (bank.projects@[i].amount + amount) as u64,
            ..bank.projects@[i]
        },
    )
}

/// Donates `amount` from `user` to a published project during the donate
/// window.
///
/// The returned transfer, from the donor to the pool, is for the caller to
/// carry out; the changes below stand only together with it. The project's
/// entry in the pool gains the amount and one donation, the pool's total
/// and donation counter grow, and so does the donor's record.
pub fn donate_project(
    donate: &mut Donation,
    management: &Management,
    user: Key,
    sol_bank: &mut SolBank,
    sol_bank_key: Key,
    project_key: Key,
    amount: u64,
    donate_bump: u8,
    now: i64,
) -> (r: Result<Transfer, ErrorCode>)
    requires
        old(sol_bank).wf(),
        old(sol_bank).amount + amount <= u64::MAX,
        old(sol_bank).sol_counter < u64::MAX,
        forall|i: int|
            0 <= i < old(sol_bank).projects@.len() ==> #[trigger] old(sol_bank).projects@[i].count
                < u64::MAX,
        old(donate).amount + amount <= u64::MAX,
        old(donate).donate_count < u64::MAX,
    ensures
        final(sol_bank).wf(),
        match donate_gate(*management, *old(sol_bank), project_key, now) {
            Some(e) => r == Err::<Transfer, ErrorCode>(e) && *final(donate) == *old(donate)
                && *final(sol_bank) == *old(sol_bank),
            None => {
                &&& r == Ok::<Transfer, ErrorCode>(
                    Transfer { from: user, to: sol_bank_key, amount },
                )
                &&& final(sol_bank).projects@ == pool_after_donation(
                    *old(sol_bank),
                    first_index(old(sol_bank).projects@, project_key),
                    amount,
                )
                &&& final(sol_bank).amount == old(sol_bank).amount + amount
                &&& final(sol_bank).sol_counter == old(sol_bank).sol_counter + 1
                &&& final(sol_bank).bump == old(sol_bank).bump
                &&& *final(donate) == (Donation {
                    amount: (old(donate).amount + amount) as u64,
                    donate_count: (old(donate).donate_count + 1) as u64,
                    donate_bump,
                })
            },
        },
{
    if management.pause {
        return Err(ErrorCode::ContractPause);
    }
    if !(management.donate_stage < now && management.distribute_stage > now) {
        return Err(ErrorCode::NotInDonateStage);
    }
    let index = find_project(&sol_bank.projects, project_key);
    let i = match index {
        Some(i) => i,
        None => {
            return Err(ErrorCode::NotPublish);
        },
    };
    proof {
        lemma_first_index_unique(sol_bank.projects@, project_key, i as int);
        lemma_entry_le_sum(sol_bank.projects@, i as int);
        lemma_sum_amounts_update(
            sol_bank.projects@,
            i as int,
            pool_after_donation(*sol_bank, i as int, amount)[i as int],
        );
    }
    let old_entry = sol_bank.projects[i];
    let entry = ProjectFunds {
        project: old_entry.project,
        count: old_entry.count + 1,
        amount: old_entry.amount + amount,
    };
    sol_bank.projects.set(i, entry);
    sol_bank.amount = sol_bank.amount + amount;
    sol_bank.sol_counter = sol_bank.sol_counter + 1;
    donate.donate_count = donate.donate_count + 1;
    donate.amount = donate.amount + amount;
    donate.donate_bump = donate_bump;
    Ok(Transfer { from: user, to: sol_bank_key, amount })
}

/// Why a project proposal is refused, if it is.
pub open spec fn create_project_gate(m: Management, members: Seq<Key>, creator: Key, now: i64) -> Option<
    ErrorCode,
> {
    if m.pause {
        Some(ErrorCode::ContractPause)
    } else if !in_window(m.project_stage, m.voting_stage, now) {
        Some(ErrorCode::NotInProjectStage)
    } else if !members.contains(creator) {
        Some(ErrorCode::AuthenticationError)
    } else {
        None
    }
}

/// Proposes a project in a community during the project window.
///
/// The creator must be a member. The project starts not executable, its
/// tally starts at zero, and the count of projects goes up by one.
pub fn create_project(
    project: &mut Project,
    management: &mut Management,
    creator: Key,
    community: &Community,
    community_key: Key,
    counter: &mut Counter,
    subject: String,
    description: String,
    now: i64,
) -> (r: Result<(), ErrorCode>)
    requires
        old(management).projects_count < u64::MAX,
    ensures
        match create_project_gate(*old(management), community.members@, creator, now) {
            Some(e) => r == Err::<(), ErrorCode>(e) && *final(project) == *old(project)
                && *final(management) == *old(management) && *final(counter) == *old(counter),
            None => {
                &&& r is Ok
                &&& *final(counter) == (Counter { yes_count: 0, no_count: 0 })
                &&& final(project).subject@ == subject@
                &&& final(project).description@ == description@
                &&& final(project).creator == creator
                &&& final(project).community == community_key
                &&& !final(project).executable
                &&& *final(management) == (Management {
                    projects_count: (old(management).projects_count + 1) as u64,
                    ..*old(management)
                })
            },
        },
{
    if management.pause {
        return Err(ErrorCode::ContractPause);
    }
    if !(management.project_stage < now && management.voting_stage > now) {
        return Err(ErrorCode::NotInProjectStage);
    }
    if !is_member(&community.members, creator) {
        return Err(ErrorCode::AuthenticationError);
    }
    counter.no_count = 0;
    counter.yes_count = 0;
    project.subject = subject;
    project.description = description;
    project.creator = creator;
    project.community = community_key;
    project.executable = false;
    management.projects_count = management.projects_count + 1;
    Ok(())
}

/// Why a withdrawal vote is refused, if it is.
pub open spec fn voting_withdraw_gate(members: Seq<Key>, user: Key, choice: Seq<char>) -> Option<
    ErrorCode,
> {
    if !members.contains(user) {
        Some(ErrorCode::AuthenticationError)
    } else if choice_of(choice) == VotingResult::Invalid {
        Some(ErrorCode::InvalidChar)
    } else {
        None
    }
}

/// Casts a member's vote on a withdrawal request.
///
/// The tally is updated as for a project vote. The request becomes
/// executable once yes exceeds 60% of the votes cast and more votes are
/// cast than half the community; once executable it stays so.
pub fn voting_withdraw(
    withdraw: &mut Withdraw,
    user: Key,
    community: &Community,
    counter: &mut Counter,
    choice: String,
    withdraw_bump: u8,
) -> (r: Result<(), ErrorCode>)
    requires
        old(counter).yes_count < u64::MAX,
        old(counter).no_count < u64::MAX,
    ensures
        match voting_withdraw_gate(community.members@, user, choice@) {
            Some(e) => r == Err::<(), ErrorCode>(e) && *final(withdraw) == *old(withdraw)
                && *final(counter) == *old(counter),
            None => {
                let t = tally(*old(counter), choice_of(choice@));
                &&& r is Ok
                &&& *final(counter) == t
                &&& *final(withdraw) == (Withdraw {
                    executable: old(withdraw).executable || withdraw_passes(
                        t.yes_count as int,
                        t.no_count as int,
                        community.members@.len() as int,
                    ),
                    bump: withdraw_bump,
                    ..*old(withdraw)
                })
            },
        },
{
    if !is_member(&community.members, user) {
        return Err(ErrorCode::AuthenticationError);
    }
    let voting_char = parse_vote(&choice);
    if voting_char == VotingResult::Invalid {
        return Err(ErrorCode::InvalidChar);
    }
    if voting_char == VotingResult::Yes {
        counter.yes_count = counter.yes_count + 1;
    } else {
        counter.no_count = counter.no_count + 1;
    }
    if withdraw_vote_passes(counter, community.members.len()) {
        withdraw.executable = true;
    }
    withdraw.bump = withdraw_bump;
    Ok(())
}

/// Why publishing a project is refused, if it is.
pub open spec fn execute_gate(
    m: Management,
    project: Project,
    members: Seq<Key>,
    counter: Counter,
    creator: Key,
    now: i64,
) -> Option<ErrorCode> {
    if m.pause {
        Some(ErrorCode::ContractPause)
    } else if !in_window(m.execute_stage, m.donate_stage, now) {
        Some(ErrorCode::NotInExecuteStage)
    } else if creator != project.creator {
        Some(ErrorCode::AuthenticationError)
    } else if !(project.executable || project_passes(
        counter.yes_count as int,
        counter.no_count as int,
        members.len() as int,
    )) {
        Some(ErrorCode::NotPublish)
    } else {
        None
    }
}

/// Publishes a project that passed its vote, during the execute window.
///
/// Only the project's creator may do so. The vote passes when yes exceeds
/// no and more votes are cast than half the community. The project becomes
/// executable and gets an empty entry in the pool.
pub fn execute_project(
    project: &mut Project,
    project_key: Key,
    management: &Management,
    creator: Key,
    community: &Community,
    counter: &Counter,
    sol_bank: &mut SolBank,
    now: i64,
) -> (r: Result<(), ErrorCode>)
    requires
        old(sol_bank).wf(),
    ensures
        final(sol_bank).wf(),
        match execute_gate(*management, *old(project), community.members@, *counter, creator, now) {
            Some(e) => r == Err::<(), ErrorCode>(e) && *final(project) == *old(project)
                && *final(sol_bank) == *old(sol_bank),
            None => {
                &&& r is Ok
                &&& final(project).executable
                &&& final(project).subject == old(project).subject
                &&& final(project).description == old(project).description
                &&& final(project).creator == old(project).creator
                &&& final(project).community == old(project).community
                &&& final(sol_bank).projects@ == old(sol_bank).projects@.push(
                    ProjectFunds { project: project_key, count: 0, amount: 0 },
                )
                &&& final(sol_bank).amount == old(sol_bank).amount
                &&& final(sol_bank).sol_counter == old(sol_bank).sol_counter
                &&& final(sol_bank).bump == old(sol_bank).bump
            },
        },
{
    if management.pause {
        return Err(ErrorCode::ContractPause);
    }
    if !(management.execute_stage < now && management.donate_stage > now) {
        return Err(ErrorCode::NotInExecuteStage);
    }
    if creator != project.creator {
        return Err(ErrorCode::AuthenticationError);
    }
    if !(project.executable || project_vote_passes(counter, community.members.len())) {
        return Err(ErrorCode::NotPublish);
    }
    project.executable = true;
    let entry = ProjectFunds { project: project_key, count: 0, amount: 0 };
    proof {
        lemma_sum_amounts_push_empty(sol_bank.projects@, entry);
    }
    sol_bank.projects.push(entry);
    Ok(())
}

/// Why a withdrawal request is refused, if it is.
pub open spec fn ask_gate(members: Seq<Key>, user: Key, donate: Donation, amount: u64) -> Option<
    ErrorCode,
> {
    if !members.contains(user) {
        Some(ErrorCode::AuthenticationError)
    } else if !(amount < donate.amount) {
        Some(ErrorCode::InsufficientError)
    } else {
        None
    }
}

/// Asks to take `amount` of a donation back.
///
/// The requester must be a member and the amount strictly less than the
/// donated total. The tally is reset for the withdrawal vote and a fresh
/// request is written, neither executable nor executed.
pub fn ask_for_withdraw(
    withdraw: &mut Withdraw,
    user: Key,
    counter: &mut Counter,
    community: &Community,
    donate: &Donation,
    amount: u64,
    withdraw_bump: u8,
) -> (r: Result<(), ErrorCode>)
    ensures
        match ask_gate(community.members@, user, *donate, amount) {
            Some(e) => r == Err::<(), ErrorCode>(e) && *final(withdraw) == *old(withdraw)
                && *final(counter) == *old(counter),
            None => r is Ok && *final(counter) == (Counter { yes_count: 0, no_count: 0 })
                && *final(withdraw) == (Withdraw {
                user,
                amount,
                executable: false,
                executed: false,
                bump: withdraw_bump,
            }),
        },
{
    if !is_member(&community.members, user) {
        return Err(ErrorCode::AuthenticationError);
    }
    if !(amount < donate.amount) {
        return Err(ErrorCode::InsufficientError);
    }
    counter.no_count = 0;
    counter.yes_count = 0;
    *withdraw = Withdraw { user, amount, executable: false, executed: false, bump: withdraw_bump };
    Ok(())
}

/// The result of a withdrawal and the request it leaves.
pub open spec fn withdraw_outcome(w: Withdraw, user: Key, project_key: Key) -> (
    Result<Option<Transfer>, ErrorCode>,
    Withdraw,
) {
    if user != w.user {
        (Err(ErrorCode::AuthenticationError), w)
    } else if w.executed {
        (Err(ErrorCode::AlreadyExecuted), w)
    } else if w.executable {
        (
            Ok(Some(Transfer { from: project_key, to: user, amount: w.amount })),
            Withdraw { executed: true, ..w },
        )
    } else {
        (Ok(None), w)
    }
}

/// Carries out an approved withdrawal request.
///
/// Only the requester may call it, and only once it has not been carried
/// out yet. An executable request is marked executed and yields the
/// transfer of its amount from the project to the requester; one that is
/// not yet executable succeeds and changes nothing.
pub fn withdraw(request: &mut Withdraw, user: Key, project_key: Key) -> (r: Result<
    Option<Transfer>,
    ErrorCode,
>)
    ensures
        (r, *final(request)) == withdraw_outcome(*old(request), user, project_key),
{
    if user != request.user {
        return Err(ErrorCode::AuthenticationError);
    }
    if request.executed {
        return Err(ErrorCode::AlreadyExecuted);
    }
    if request.executable {
        request.executed = true;
        Ok(Some(Transfer { from: project_key, to: user, amount: request.amount }))
    } else {
        Ok(None)
    }
}

/// The result of the one-time setup.
pub open spec fn stage_result(m: Management, admin: Key) -> Result<(), ErrorCode> {
    if m.admin != admin {
        Err(ErrorCode::AuthenticationError)
    } else if m.executed {
        Err(ErrorCode::AlreadyExecuted)
    } else {
        Ok(())
    }
}

/// The phase record right after the one-time setup.
pub open spec fn staged(m: Management) -> Management {
    Management {
        executed: true,
        projects_count: 0,
        is_fund_distributed: false,
        multiple: Multiplier { num: 0, den: 1 },
        ..m
    }
}

/// Sets the protocol up, once, by its admin: counters, the multiplier and
/// the pool start from zero.
pub fn stage(
    management: &mut Management,
    admin: Key,
    sol_bank: &mut SolBank,
    sol_bank_bump: u8,
) -> (r: Result<(), ErrorCode>)
    ensures
        r == stage_result(*old(management), admin),
        r is Ok ==> *final(management) == staged(*old(management)) && final(sol_bank).wf()
            && final(sol_bank).amount == 0 && final(sol_bank).projects@.len() == 0
            && final(sol_bank).sol_counter == 0 && final(sol_bank).bump == sol_bank_bump,
        r is Err ==> *final(management) == *old(management) && *final(sol_bank) == *old(sol_bank),
{
    if management.admin != admin {
        return Err(ErrorCode::AuthenticationError);
    }
    if management.executed {
        return Err(ErrorCode::AlreadyExecuted);
    }
    management.executed = true;
    management.projects_count = 0;
    management.is_fund_distributed = false;
    management.multiple = Multiplier { num: 0, den: 1 };
    sol_bank.amount = 0;
    sol_bank.bump = sol_bank_bump;
    sol_bank.projects = Vec::new();
    sol_bank.sol_counter = 0;
    Ok(())
}

/// Approves a candidate of a community on behalf of a member.
///
/// The candidate's approval count goes up by one; once it exceeds a fifth
/// of the member count (integer division) the candidate is admitted, unless
/// already a member.
pub fn add_member_to_community(
    community: &mut Community,
    member_counter: &mut MemberCounter,
    user: Key,
    candidate: Key,
) -> (r: Result<(), ErrorCode>)
    requires
        old(member_counter).counter < u64::MAX,
    ensures
        if old(community).members@.contains(user) {
            &&& r is Ok
            &&& final(member_counter).counter == old(member_counter).counter + 1
            &&& final(community).members@ == if final(member_counter).counter > old(
                community,
            ).members@.len() / 5 {
                admit_member(old(community).members@, candidate)
            } else {
                old(community).members@
            }
            &&& final(community).members_pool == old(community).members_pool
            &&& final(community).name == old(community).name
            &&& final(community).description == old(community).description
            &&& final(community).permission == old(community).permission
            &&& final(community).timestamp == old(community).timestamp
        } else {
            &&& r == Err::<(), ErrorCode>(ErrorCode::AuthenticationError)
            &&& *final(community) == *old(community)
            &&& *final(member_counter) == *old(member_counter)
        },
{
    if !is_member(&community.members, user) {
        return Err(ErrorCode::AuthenticationError);
    }
    member_counter.counter = member_counter.counter + 1;
    if member_counter.counter > (community.members.len() / 5) as u64 {
        if !is_member(&community.members, candidate) {
            community.members.push(candidate);
        }
    }
    Ok(())
}

/// Pauses or resumes the protocol; admin only.
///
/// Resuming restarts the schedule at `now`: the project window lasts three
/// days, the voting window five, the execute window one and the donate
/// window ten; distribution is reopened.
pub fn pause(management: &mut Management, admin: Key, paused: bool, now: i64) -> (r: Result<
    (),
    ErrorCode,
>)
    requires
        now <= i64::MAX - 19 * ONE_DAY,
    ensures
        admin != old(management).admin ==> r == Err::<(), ErrorCode>(ErrorCode::AuthenticationError)
            && *final(management) == *old(management),
        admin == old(management).admin ==> r is Ok && *final(management) == if paused {
            Management { pause: true, ..*old(management) }
        } else {
            resumed(*old(management), now)
        },
        old(management).stages_ordered() ==> final(management).stages_ordered(),
        r is Ok && !paused ==> final(management).stages_ordered(),
{
    if management.admin != admin {
        return Err(ErrorCode::AuthenticationError);
    }
    management.pause = paused;
    if !paused {
        management.project_stage = now;
        management.voting_stage = now + ONE_DAY * 3;
        management.execute_stage = management.voting_stage + ONE_DAY * 5;
        management.donate_stage = management.execute_stage + ONE_DAY;
        management.distribute_stage = management.donate_stage + ONE_DAY * 10;
        management.is_fund_distributed = false;
    }
    Ok(())
}

/// The phase record after resuming at `now`.
pub open spec fn resumed(m: Management, now: i64) -> Management {
    Management {
        pause: false,
        project_stage: now,
        voting_stage: (now + 3 * ONE_DAY) as i64,
        execute_stage: (now + 8 * ONE_DAY) as i64,
        donate_stage: (now + 9 * ONE_DAY) as i64,
        distribute_stage: (now + 19 * ONE_DAY) as i64,
        is_fund_distributed: false,
        ..m
    }
}

/// Fills a new community. At least four members must be listed; the
/// creator is appended after them.
pub fn create_community(
    community: &mut Community,
    user: Key,
    name: String,
    description: String,
    members: Vec<Key>,
    permission: bool,
    now: i64,
) -> (r: Result<(), ErrorCode>)
    ensures
        members@.len() < 4 ==> r == Err::<(), ErrorCode>(ErrorCode::InsufficientNumber)
            && *final(community) == *old(community),
        members@.len() >= 4 ==> {
            &&& r is Ok
            &&& final(community).members@ == old(community).members@ + members@.push(user)
            &&& final(community).members_pool@ == old(community).members_pool@
            &&& final(community).name@ == name@
            &&& final(community).description@ == description@
            &&& final(community).permission == permission
            &&& final(community).timestamp == now
        },
{
    if members.len() < 4 {
        return Err(ErrorCode::InsufficientNumber);
    }
    let ghost start = community.members@;
    let ghost pool = community.members_pool@;
    let mut i: usize = 0;
    while i < members.len()
        invariant
            i <= members@.len(),
            community.members@ == start + members@.subrange(0, i as int),
            community.members_pool@ == pool,
        decreases members@.len() - i,
    {
        community.members.push(members[i]);
        proof {
            assert(members@.subrange(0, i + 1) =~= members@.subrange(0, i as int).push(members@[i as int]));
        }
        i += 1;
    }
    assert(members@.subrange(0, i as int) =~= members@);
    community.members.push(user);
    assert(community.members@ =~= start + members@.push(user));
    community.timestamp = now;
    community.name = name;
    community.description = description;
    community.permission = permission;
    Ok(())
}

/// Joins a community: straight into the members of an open one, or into
/// the candidates of a gated one, whose approval count starts at zero.
pub fn join_community(community: &mut Community, user: Key, member_counter: &mut MemberCounter) -> (r:
    Result<(), ErrorCode>)
    ensures
        r is Ok,
        final(community).name == old(community).name,
        final(community).description == old(community).description,
        final(community).permission == old(community).permission,
        final(community).timestamp == old(community).timestamp,
        !old(community).permission ==> final(community).members@ == old(community).members@.push(user)
            && final(community).members_pool == old(community).members_pool
            && *final(member_counter) == *old(member_counter),
        old(community).permission ==> final(community).members_pool@ == old(
            community,
        ).members_pool@.push(user) && final(community).members == old(community).members
            && final(member_counter).counter == 0,
{
    if !community.permission {
        community.members.push(user);
    } else {
        community.members_pool.push(user);
        member_counter.counter = 0;
    }
    Ok(())
}

} // verus!
