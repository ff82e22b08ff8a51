//! Properties of the protocol that span several calls or every input.

use vstd::prelude::*;

use crate::error::ErrorCode;
use crate::rules::{
    admit_member, choice_of, in_window, lemma_absent_occurrences, lemma_present_occurrences,
    occurrences, vote_of,
};
use crate::sf::{
    distribute_outcome, execute_gate, resumed, stage_result, staged, vote_gate,
    voting_withdraw_gate, withdraw_outcome,
};
use crate::state::{Counter, Donation, Key, Management, Project, SolBank, VotingResult, Withdraw};

verus! {

/// Resuming at any time that leaves room for the whole schedule puts the
/// five boundaries in strictly increasing order.
pub proof fn lemma_resume_orders_stages(m: Management, now: i64)
    requires
        now <= i64::MAX - 19 * crate::rules::ONE_DAY,
    ensures
        resumed(m, now).stages_ordered(),
{
}

/// The one-time setup succeeds at most once: once it has succeeded, calling
/// it again fails with `AlreadyExecuted`.
pub proof fn lemma_initialize_once(m: Management, admin: Key)
    requires
        stage_result(m, admin) is Ok,
    ensures
        stage_result(staged(m), admin) == Err::<(), ErrorCode>(ErrorCode::AlreadyExecuted),
{
}

/// A vote whose string does not start with a recognised character fails
/// with `InvalidChar` whatever follows that character, once the earlier
/// checks of the vote pass; the same holds of a withdrawal vote.
pub proof fn lemma_unrecognised_choice_rejected(
    m: Management,
    members: Seq<Key>,
    user: Key,
    choice: Seq<char>,
    now: i64,
)
    requires
        choice.len() == 0 || vote_of(choice[0]) == VotingResult::Invalid,
        members.contains(user),
    ensures
        choice_of(choice) == VotingResult::Invalid,
        voting_withdraw_gate(members, user, choice) == Some(ErrorCode::InvalidChar),
        !m.pause && in_window(m.voting_stage, m.execute_stage, now) ==> vote_gate(
            m,
            members,
            user,
            choice,
            now,
        ) == Some(ErrorCode::InvalidChar),
{
}

/// In a community of ten members, a project not yet executable is
/// published, once the earlier checks pass, exactly when yes exceeds no
/// and more than five votes are cast.
pub proof fn lemma_ten_member_threshold(
    m: Management,
    project: Project,
    members: Seq<Key>,
    counter: Counter,
    creator: Key,
    now: i64,
)
    requires
        members.len() == 10,
        !project.executable,
        !m.pause,
        in_window(m.execute_stage, m.donate_stage, now),
        creator == project.creator,
    ensures
        execute_gate(m, project, members, counter, creator, now) is None <==> (counter.yes_count
            > counter.no_count && counter.yes_count + counter.no_count > 5),
{
}

/// A second distribution on the state that the first one left returns the
/// same result and keeps the same cached multiplier.
pub proof fn lemma_distribution_repeatable(
    m: Management,
    bank: SolBank,
    donate: Donation,
    user: Key,
    sol_bank_key: Key,
    project_key: Key,
    now: i64,
)
    ensures
        ({
            let (r, m1) = distribute_outcome(m, bank, donate, user, sol_bank_key, project_key, now);
            distribute_outcome(m1, bank, donate, user, sol_bank_key, project_key, now) == (r, m1)
        }),
{
}

/// A withdrawal request that is not executable is left unchanged by a
/// withdrawal, so repeating the call gives the same result; when the
/// requester calls and the request is not executed, that result is a
/// success that transfers nothing.
pub proof fn lemma_pending_withdraw_idempotent(w: Withdraw, user: Key, project_key: Key)
    requires
        !w.executable,
    ensures
        withdraw_outcome(w, user, project_key).1 == w,
        withdraw_outcome(withdraw_outcome(w, user, project_key).1, user, project_key)
            == withdraw_outcome(w, user, project_key),
        user == w.user && !w.executed ==> withdraw_outcome(w, user, project_key).0 == Ok::<
            Option<crate::state::Transfer>,
            ErrorCode,
        >(None),
{
}

/// Admitting a candidate who occurs at most once leaves the candidate in
/// the list exactly once, and admitting the same candidate again changes
/// nothing.
pub proof fn lemma_admission_exactly_once(members: Seq<Key>, candidate: Key)
    requires
        occurrences(members, candidate) <= 1,
    ensures
        occurrences(admit_member(members, candidate), candidate) == 1,
        admit_member(admit_member(members, candidate), candidate) == admit_member(
            members,
            candidate,
        ),
{
    if members.contains(candidate) {
        assert(occurrences(members, candidate) >= 1) by {
            lemma_present_occurrences(members, candidate);
        }
    } else {
        lemma_absent_occurrences(members, candidate);
        let p = members.push(candidate);
        assert(p.drop_last() =~= members);
        assert(p.contains(candidate)) by {
            assert(p[members.len() as int] == candidate);
        }
    }
}

} // verus!
