use vstd::prelude::*;
use vstd::string::*;

use crate::state::{Counter, Key, ProjectFunds, VotingResult, sum_amounts, funding_weight};

verus! {

/// One day in seconds.
pub const ONE_DAY: i64 = 86400;

/// The time `now` lies strictly between the two boundaries of a window.
pub open spec fn in_window(lower: i64, upper: i64, now: i64) -> bool {
    lower < now && now < upper
}

/// How a single character reads as a vote.
pub open spec fn vote_of(c: char) -> VotingResult {
    if c == 'y' {
        VotingResult::Yes
    } else if c == 'n' {
        VotingResult::No
    } else {
        VotingResult::Invalid
    }
}

/// How a vote string reads: by its first character alone; an empty string
/// is invalid.
pub open spec fn choice_of(s: Seq<char>) -> VotingResult {
    if s.len() == 0 {
        VotingResult::Invalid
    } else {
        vote_of(s[0])
    }
}

/// A project vote passes: more yes than no, and more votes cast than half
/// the community (integer division).
pub open spec fn project_passes(yes: int, no: int, members: int) -> bool {
    yes > no && yes + no > members / 2
}

/// A withdrawal vote passes: yes above 60% of the votes cast, and more
/// votes cast than half the community (integer division).
pub open spec fn withdraw_passes(yes: int, no: int, members: int) -> bool {
    yes > (yes + no) * 60 / 100 && yes + no > members / 2
}

/// The tally after one more vote of the given kind.
pub open spec fn tally(c: Counter, v: VotingResult) -> Counter {
    if v == VotingResult::Yes {
        Counter { yes_count: (c.yes_count + 1) as u64, ..c }
    } else {
        Counter { no_count: (c.no_count + 1) as u64, ..c }
    }
}

/// The member list after `candidate` is admitted: appended unless already
/// there.
pub open spec fn admit_member(members: Seq<Key>, candidate: Key) -> Seq<Key> {
    if members.contains(candidate) {
        members
    } else {
        members.push(candidate)
    }
}

/// How many times `k` occurs in `s`.
pub open spec fn occurrences(s: Seq<Key>, k: Key) -> nat
    decreases s.len(),
{
    if s.len() == 0 {
        0
    } else {
        occurrences(s.drop_last(), k) + if s.last() == k { 1nat } else { 0nat }
    }
}

/// The payout for a donation record: count times amount times the
/// truncated multiplier.
pub open spec fn payout(donate_count: u64, amount: u64, multiplier: nat) -> int {
    donate_count * amount * multiplier
}

impl VotingResult {
    /// Reads one character as a vote: `'y'` is yes, `'n'` is no, anything
    /// else is invalid.
    pub fn validate(c: char) -> (r: VotingResult)
        ensures
            r == vote_of(c),
    {
        if c == 'y' {
            VotingResult::Yes
        } else if c == 'n' {
            VotingResult::No
        } else {
            VotingResult::Invalid
        }
    }
}

/// Reads a vote string by its first character.
pub fn parse_vote(s: &String) -> (r: VotingResult)
    ensures
        r == choice_of(s@),
{
    let t = s.as_str();
    if t.unicode_len() == 0 {
        VotingResult::Invalid
    } else {
        VotingResult::validate(t.get_char(0))
    }
}

/// Whether `user` is among `members`.
pub fn is_member(members: &Vec<Key>, user: Key) -> (r: bool)
    ensures
        r == members@.contains(user),
{
    let mut i: usize = 0;
    while i < members.len()
        invariant
            i <= members@.len(),
            forall|j: int| 0 <= j < i ==> members@[j] != user,
        decreases members@.len() - i,
    {
        if members[i] == user {
            assert(members@[i as int] == user);
            return true;
        }
        i += 1;
    }
    false
}

/// The index of the first entry of the pool kept for `project`.
pub fn find_project(entries: &Vec<ProjectFunds>, project: Key) -> (r: Option<usize>)
    ensures
        match r {
            Some(i) => i < entries@.len() && entries@[i as int].project == project && forall|j: int|
                0 <= j < i ==> entries@[j].project != project,
            None => forall|j: int| 0 <= j < entries@.len() ==> entries@[j].project != project,
        },
{
    let mut i: usize = 0;
    while i < entries.len()
        invariant
            i <= entries@.len(),
            forall|j: int| 0 <= j < i ==> entries@[j].project != project,
        decreases entries@.len() - i,
    {
        if entries[i].project == project {
            return Some(i);
        }
        i += 1;
    }
    None
}

/// Whether a project vote with this tally passes in a community of
/// `members` members.
pub fn project_vote_passes(counter: &Counter, members: usize) -> (r: bool)
    ensures
        r == project_passes(counter.yes_count as int, counter.no_count as int, members as int),
{
    let yes = counter.yes_count as u128;
    let no = counter.no_count as u128;
    yes > no && yes + no > (members / 2) as u128
}

/// Whether a withdrawal vote with this tally passes in a community of
/// `members` members.
pub fn withdraw_vote_passes(counter: &Counter, members: usize) -> (r: bool)
    ensures
        r == withdraw_passes(counter.yes_count as int, counter.no_count as int, members as int),
{
    let yes = counter.yes_count as u128;
    let no = counter.no_count as u128;
    yes > (yes + no) * 60 / 100 && yes + no > (members / 2) as u128
}

/// Adding `d` to the amount of one entry adds `d` to the sum of amounts.
pub proof fn lemma_sum_amounts_update(s: Seq<ProjectFunds>, i: int, e: ProjectFunds)
    requires
        0 <= i < s.len(),
    ensures
        sum_amounts(s.update(i, e)) == sum_amounts(s) - s[i].amount + e.amount,
    decreases s.len(),
{
    let t = s.update(i, e);
    if i == s.len() - 1 {
        assert(t.drop_last() =~= s.drop_last());
    } else {
        lemma_sum_amounts_update(s.drop_last(), i, e);
        assert(t.drop_last() =~= s.drop_last().update(i, e));
    }
}

/// An entry holding nothing leaves the sum of amounts as it was.
pub proof fn lemma_sum_amounts_push_empty(s: Seq<ProjectFunds>, e: ProjectFunds)
    requires
        e.amount == 0,
    ensures
        sum_amounts(s.push(e)) == sum_amounts(s),
{
    assert(s.push(e).drop_last() =~= s);
}

/// A key absent from a sequence occurs in it zero times.
pub proof fn lemma_absent_occurrences(s: Seq<Key>, k: Key)
    requires
        !s.contains(k),
    ensures
        occurrences(s, k) == 0,
    decreases s.len(),
{
    if s.len() > 0 {
        assert(!s.drop_last().contains(k)) by {
            if s.drop_last().contains(k) {
                let j = choose|j: int| 0 <= j < s.drop_last().len() && s.drop_last()[j] == k;
                assert(s[j] == k);
            }
        }
        lemma_absent_occurrences(s.drop_last(), k);
        assert(s.last() != k) by {
            assert(s[s.len() - 1] == s.last());
        }
    }
}

/// A key present in a sequence occurs in it at least once.
pub proof fn lemma_present_occurrences(s: Seq<Key>, k: Key)
    requires
        s.contains(k),
    ensures
        occurrences(s, k) >= 1,
    decreases s.len(),
{
    if s.last() != k {
        let j = choose|j: int| 0 <= j < s.len() && s[j] == k;
        assert(j != s.len() - 1);
        assert(s.drop_last()[j] == k);
        lemma_present_occurrences(s.drop_last(), k);
    }
}


/// `i` is the first index of an entry kept for `project`.
pub open spec fn is_first_index(s: Seq<ProjectFunds>, project: Key, i: int) -> bool {
    0 <= i < s.len() && s[i].project == project && forall|j: int|
        0 <= j < i ==> s[j].project != project
}

/// Some entry is kept for `project`.
pub open spec fn is_published(s: Seq<ProjectFunds>, project: Key) -> bool {
    exists|i: int| 0 <= i < s.len() && s[i].project == project
}

/// The first index of an entry kept for `project`, where there is one.
pub open spec fn first_index(s: Seq<ProjectFunds>, project: Key) -> int {
    choose|i: int| is_first_index(s, project, i)
}

/// Two first indices of the same key are the same index.
pub proof fn lemma_first_index_unique(s: Seq<ProjectFunds>, project: Key, i: int)
    requires
        is_first_index(s, project, i),
    ensures
        first_index(s, project) == i,
{
    let k = first_index(s, project);
    assert(is_first_index(s, project, k));
    if k < i {
        assert(s[k].project != project);
    } else if i < k {
        assert(s[i].project != project);
    }
}

/// Each entry's amount is at most the sum of amounts.
pub proof fn lemma_entry_le_sum(s: Seq<ProjectFunds>, i: int)
    requires
        0 <= i < s.len(),
    ensures
        s[i].amount <= sum_amounts(s),
    decreases s.len(),
{
    if i < s.len() - 1 {
        lemma_entry_le_sum(s.drop_last(), i);
    }
    lemma_sum_amounts_nonneg(s.drop_last());
}

/// A sum of amounts is never negative.
pub proof fn lemma_sum_amounts_nonneg(s: Seq<ProjectFunds>)
    ensures
        sum_amounts(s) >= 0,
    decreases s.len(),
{
    if s.len() > 0 {
        lemma_sum_amounts_nonneg(s.drop_last());
    }
}

/// The weight of a prefix is at most the weight of the whole.
pub proof fn lemma_weight_prefix(s: Seq<ProjectFunds>, i: int)
    requires
        0 <= i <= s.len(),
    ensures
        funding_weight(s.subrange(0, i)) <= funding_weight(s),
    decreases s.len(),
{
    if i == s.len() {
        assert(s.subrange(0, i) =~= s);
    } else {
        lemma_weight_prefix(s.drop_last(), i);
        assert(s.drop_last().subrange(0, i) =~= s.subrange(0, i));
        let a = s.last().amount as int;
        let c = s.last().count as int;
        assert(a * c >= 0) by (nonlinear_arith)
            requires
                a >= 0,
                c >= 0,
        ;
    }
}

/// The weight of a prefix one entry longer adds that entry's product.
pub proof fn funding_weight_prefix_step(s: Seq<ProjectFunds>, i: int)
    requires
        0 <= i < s.len(),
    ensures
        funding_weight(s.subrange(0, i + 1)) == funding_weight(s.subrange(0, i)) + s[i].amount
            * s[i].count,
{
    assert(s.subrange(0, i + 1).drop_last() =~= s.subrange(0, i));
}

} // verus!
