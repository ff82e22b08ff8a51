use vstd::prelude::*;

verus! {

/// An account identity: the 32 bytes of a public key, held as four
/// little-endian 64-bit words.
#[derive(Clone, Copy, Debug, PartialEq, Eq, Structural)]
pub struct Key(pub u64, pub u64, pub u64, pub u64);

impl Key {
    pub fn zero() -> (r: Key)
        ensures
            r == Key(0, 0, 0, 0),
    {
        Key(0, 0, 0, 0)
    }
}

/// The distribution multiplier as the exact ratio `num / den`.
///
/// `num == 0 && den != 0` is the ratio zero, which marks a multiplier that
/// has not been computed yet; `den == 0` is a ratio with no finite value.
#[derive(Clone, Copy, Debug, PartialEq, Eq, Structural)]
pub struct Multiplier {
    pub num: u64,
    pub den: u128,
}

impl Multiplier {
    pub open spec fn is_zero(self) -> bool {
        self.num == 0 && self.den != 0
    }

    /// The multiplier truncated to an integer, as the payout uses it: an
    /// infinite ratio saturates and the undefined one `0 / 0` gives zero.
    pub open spec fn truncated(self) -> nat {
        if self.den == 0 {
            if self.num == 0 { 0 } else { u64::MAX as nat }
        } else {
            (self.num as nat) / (self.den as nat)
        }
    }
}

/// The phase controller: the admin, the one-time setup flag, the pause flag
/// and the five window boundaries.
#[derive(Clone, Copy, Debug, PartialEq, Eq, Structural)]
pub struct Management {
    pub admin: Key,
    pub executed: bool,
    pub pause: bool,
    pub project_stage: i64,
    pub voting_stage: i64,
    pub execute_stage: i64,
    pub donate_stage: i64,
    pub distribute_stage: i64,
    pub projects_count: u64,
    pub is_fund_distributed: bool,
    pub multiple: Multiplier,
}

impl Management {
    /// A fresh record owned by `admin`, not yet set up.
    pub fn new(admin: Key) -> (r: Management)
        ensures
            r == (Management {
                admin,
                executed: false,
                pause: false,
                project_stage: 0,
                voting_stage: 0,
                execute_stage: 0,
                donate_stage: 0,
                distribute_stage: 0,
                projects_count: 0,
                is_fund_distributed: false,
                multiple: Multiplier { num: 0, den: 1 },
            }),
    {
        Management {
            admin,
            executed: false,
            pause: false,
            project_stage: 0,
            voting_stage: 0,
            execute_stage: 0,
            donate_stage: 0,
            distribute_stage: 0,
            projects_count: 0,
            is_fund_distributed: false,
            multiple: Multiplier { num: 0, den: 1 },
        }
    }

    /// The five boundaries stand in strictly increasing order.
    pub open spec fn stages_ordered(self) -> bool {
        self.project_stage < self.voting_stage < self.execute_stage < self.donate_stage
            < self.distribute_stage
    }
}

/// A community: its members (the creator among them) and, for a gated
/// community, the candidates waiting for approval.
#[derive(Clone, Debug)]
pub struct Community {
    pub name: String,
    pub description: String,
    pub members: Vec<Key>,
    pub members_pool: Vec<Key>,
    pub permission: bool,
    pub timestamp: i64,
}

impl Community {
    pub fn new() -> (r: Community)
        ensures
            r.name@.len() == 0,
            r.description@.len() == 0,
            r.members@.len() == 0,
            r.members_pool@.len() == 0,
            !r.permission,
            r.timestamp == 0,
    {
        Community {
            name: String::new(),
            description: String::new(),
            members: Vec::new(),
            members_pool: Vec::new(),
            permission: false,
            timestamp: 0,
        }
    }
}

/// The approval count of one candidate of a gated community.
#[derive(Clone, Copy, Debug, PartialEq, Eq, Structural)]
pub struct MemberCounter {
    pub counter: u64,
}

/// A proposal made within a community.
#[derive(Clone, Debug)]
pub struct Project {
    pub subject: String,
    pub description: String,
    pub creator: Key,
    pub community: Key,
    pub executable: bool,
}

impl Project {
    pub fn new() -> (r: Project)
        ensures
            r.subject@.len() == 0,
            r.description@.len() == 0,
            r.creator == Key(0, 0, 0, 0),
            r.community == Key(0, 0, 0, 0),
            !r.executable,
    {
        Project {
            subject: String::new(),
            description: String::new(),
            creator: Key::zero(),
            community: Key::zero(),
            executable: false,
        }
    }
}

/// The tally of one voting round.
#[derive(Clone, Copy, Debug, PartialEq, Eq, Structural)]
pub struct Counter {
    pub yes_count: u64,
    pub no_count: u64,
}

/// The outcome of reading a vote.
#[derive(Clone, Copy, Debug, PartialEq, Eq, Structural)]
pub enum VotingResult {
    Yes,
    No,
    Invalid,
}

/// The receipt of one cast vote.
#[derive(Clone, Copy, Debug, PartialEq, Eq, Structural)]
pub struct Voting {
    pub user: Key,
    pub project: Key,
    pub timestamp: i64,
    pub result: VotingResult,
    pub bump: u8,
}

impl Voting {
    pub fn new() -> (r: Voting)
        ensures
            r.user == Key(0, 0, 0, 0),
            r.project == Key(0, 0, 0, 0),
            r.timestamp == 0,
            r.result == VotingResult::Invalid,
            r.bump == 0,
    {
        Voting {
            user: Key::zero(),
            project: Key::zero(),
            timestamp: 0,
            result: VotingResult::Invalid,
            bump: 0,
        }
    }
}

/// What the pool holds for one published project: the number and the total
/// of the donations made to it.
#[derive(Clone, Copy, Debug, PartialEq, Eq, Structural)]
pub struct ProjectFunds {
    pub project: Key,
    pub count: u64,
    pub amount: u64,
}

/// The sum of the amounts of the entries.
pub open spec fn sum_amounts(s: Seq<ProjectFunds>) -> int
    decreases s.len(),
{
    if s.len() == 0 {
        0
    } else {
        sum_amounts(s.drop_last()) + s.last().amount
    }
}

/// The sum over the entries of amount times count: the denominator of the
/// distribution multiplier.
pub open spec fn funding_weight(s: Seq<ProjectFunds>) -> int
    decreases s.len(),
{
    if s.len() == 0 {
        0
    } else {
        funding_weight(s.drop_last()) + s.last().amount * s.last().count
    }
}

/// The shared fund pool.
#[derive(Clone, Debug)]
pub struct SolBank {
    pub amount: u64,
    pub bump: u8,
    pub projects: Vec<ProjectFunds>,
    pub sol_counter: u64,
}

impl SolBank {
    pub fn new() -> (r: SolBank)
        ensures
            r.wf(),
            r.amount == 0,
            r.projects@.len() == 0,
            r.sol_counter == 0,
    {
        SolBank { amount: 0, bump: 0, projects: Vec::new(), sol_counter: 0 }
    }

    /// The pool's total is the sum of what it holds for each project.
    pub open spec fn wf(&self) -> bool {
        self.amount == sum_amounts(self.projects@)
    }
}

/// The running total of one donor's donations to one project.
#[derive(Clone, Copy, Debug, PartialEq, Eq, Structural)]
pub struct Donation {
    pub amount: u64,
    pub donate_count: u64,
    pub donate_bump: u8,
}

/// A request to take part of a donation back.
#[derive(Clone, Copy, Debug, PartialEq, Eq, Structural)]
pub struct Withdraw {
    pub user: Key,
    pub amount: u64,
    pub executable: bool,
    pub executed: bool,
    pub bump: u8,
}

/// A value transfer for the caller to carry out on the ledger.
#[derive(Clone, Copy, Debug, PartialEq, Eq, Structural)]
pub struct Transfer {
    pub from: Key,
    pub to: Key,
    pub amount: u64,
}

} // verus!
