use sf::{
    add_member_to_community, ask_for_withdraw, create_community, create_project, distribute_funds,
    donate_project, execute_project, join_community, pause, stage, vote, voting_withdraw, withdraw,
    Community, Counter, Donation, ErrorCode, Key, Management, MemberCounter, Multiplier, Project,
    ProjectFunds, SolBank, Transfer, Voting, VotingResult, Withdraw,
};

const DAY: i64 = 86400;
const START: i64 = 1_000_000;

fn k(n: u64) -> Key {
    Key(n, 0, 0, 0)
}

fn admin() -> Key {
    k(1)
}

fn staged_management() -> (Management, SolBank) {
    let mut m = Management::new(admin());
    let mut bank = SolBank::new();
    stage(&mut m, admin(), &mut bank, 7).unwrap();
    pause(&mut m, admin(), false, START).unwrap();
    (m, bank)
}

/// A community of `n` members: keys 100, 101, ..., with the creator last.
fn community_of(n: u64) -> Community {
    let mut c = Community::new();
    let members: Vec<Key> = (0..n - 1).map(|i| k(100 + i)).collect();
    create_community(&mut c, k(100 + n - 1), "c".to_string(), "d".to_string(), members, false, START)
        .unwrap();
    c
}

fn empty_counter() -> Counter {
    Counter { yes_count: 0, no_count: 0 }
}

fn blank_withdraw() -> Withdraw {
    Withdraw { user: k(0), amount: 0, executable: false, executed: false, bump: 0 }
}

fn blank_donation() -> Donation {
    Donation { amount: 0, donate_count: 0, donate_bump: 0 }
}

#[test]
fn stage_sets_up_once() {
    let mut m = Management::new(admin());
    let mut bank = SolBank::new();
    assert_eq!(stage(&mut m, admin(), &mut bank, 3), Ok(()));
    assert!(m.executed);
    assert_eq!(bank.bump, 3);
    assert_eq!(stage(&mut m, admin(), &mut bank, 3), Err(ErrorCode::AlreadyExecuted));
}

#[test]
fn stage_by_other_fails() {
    let mut m = Management::new(admin());
    let mut bank = SolBank::new();
    assert_eq!(stage(&mut m, k(2), &mut bank, 3), Err(ErrorCode::AuthenticationError));
    assert!(!m.executed);
}

#[test]
fn resume_sets_ordered_windows() {
    let mut m = Management::new(admin());
    for now in [0i64, 5, START, START + 40 * DAY, -3 * DAY] {
        pause(&mut m, admin(), false, now).unwrap();
        assert_eq!(m.project_stage, now);
        assert_eq!(m.voting_stage, now + 3 * DAY);
        assert_eq!(m.execute_stage, now + 8 * DAY);
        assert_eq!(m.donate_stage, now + 9 * DAY);
        assert_eq!(m.distribute_stage, now + 19 * DAY);
        assert!(m.project_stage < m.voting_stage);
        assert!(m.voting_stage < m.execute_stage);
        assert!(m.execute_stage < m.donate_stage);
        assert!(m.donate_stage < m.distribute_stage);
        assert!(!m.pause);
        assert!(!m.is_fund_distributed);
    }
}

#[test]
fn pause_by_other_fails() {
    let mut m = Management::new(admin());
    let before = m;
    assert_eq!(pause(&mut m, k(9), true, START), Err(ErrorCode::AuthenticationError));
    assert_eq!(m, before);
}

#[test]
fn paused_protocol_refuses_projects() {
    let (mut m, _) = staged_management();
    pause(&mut m, admin(), true, START).unwrap();
    let c = community_of(5);
    let mut p = Project::new();
    let mut counter = empty_counter();
    let r = create_project(&mut p, &mut m, k(100), &c, k(50), &mut counter, "s".to_string(),
        "d".to_string(), START + 1);
    assert_eq!(r, Err(ErrorCode::ContractPause));
}

#[test]
fn community_needs_four_listed_members() {
    let mut c = Community::new();
    let r = create_community(&mut c, k(9), "n".to_string(), "d".to_string(),
        vec![k(1), k(2), k(3)], true, START);
    assert_eq!(r, Err(ErrorCode::InsufficientNumber));
    assert!(c.members.is_empty());
}

#[test]
fn community_appends_creator() {
    let mut c = Community::new();
    create_community(&mut c, k(9), "n".to_string(), "d".to_string(),
        vec![k(1), k(2), k(3), k(4)], true, START).unwrap();
    assert_eq!(c.members, vec![k(1), k(2), k(3), k(4), k(9)]);
    assert_eq!(c.name, "n");
    assert!(c.permission);
    assert_eq!(c.timestamp, START);
}

#[test]
fn join_open_and_gated() {
    let mut open = community_of(5);
    let mut mc = MemberCounter { counter: 4 };
    join_community(&mut open, k(7), &mut mc).unwrap();
    assert_eq!(open.members.len(), 6);
    assert_eq!(mc.counter, 4);

    let mut gated = Community::new();
    create_community(&mut gated, k(9), "n".to_string(), "d".to_string(),
        vec![k(1), k(2), k(3), k(4)], true, START).unwrap();
    join_community(&mut gated, k(7), &mut mc).unwrap();
    assert_eq!(gated.members.len(), 5);
    assert_eq!(gated.members_pool, vec![k(7)]);
    assert_eq!(mc.counter, 0);
}

#[test]
fn approval_by_non_member_fails() {
    let mut c = community_of(5);
    let mut mc = MemberCounter { counter: 0 };
    assert_eq!(add_member_to_community(&mut c, &mut mc, k(8), k(7)),
        Err(ErrorCode::AuthenticationError));
    assert_eq!(mc.counter, 0);
}

#[test]
fn admitted_member_appears_once() {
    let mut c = community_of(5);
    let mut mc = MemberCounter { counter: 0 };
    // Five members: the count must exceed 5 / 5 = 1.
    add_member_to_community(&mut c, &mut mc, k(100), k(7)).unwrap();
    assert!(!c.members.contains(&k(7)));
    add_member_to_community(&mut c, &mut mc, k(101), k(7)).unwrap();
    assert_eq!(c.members.iter().filter(|m| **m == k(7)).count(), 1);
    add_member_to_community(&mut c, &mut mc, k(102), k(7)).unwrap();
    add_member_to_community(&mut c, &mut mc, k(102), k(7)).unwrap();
    assert_eq!(c.members.iter().filter(|m| **m == k(7)).count(), 1);
    assert_eq!(c.members.len(), 6);
    assert_eq!(mc.counter, 4);
}

#[test]
fn create_project_checks() {
    let (mut m, _) = staged_management();
    let c = community_of(5);
    let mut p = Project::new();
    let mut counter = Counter { yes_count: 3, no_count: 2 };
    let r = create_project(&mut p, &mut m, k(100), &c, k(50), &mut counter, "s".to_string(),
        "d".to_string(), START);
    assert_eq!(r, Err(ErrorCode::NotInProjectStage));
    let r = create_project(&mut p, &mut m, k(8), &c, k(50), &mut counter, "s".to_string(),
        "d".to_string(), START + 1);
    assert_eq!(r, Err(ErrorCode::AuthenticationError));
    assert_eq!(m.projects_count, 0);
    let r = create_project(&mut p, &mut m, k(100), &c, k(50), &mut counter, "s".to_string(),
        "d".to_string(), START + 1);
    assert_eq!(r, Ok(()));
    assert_eq!(counter, empty_counter());
    assert_eq!(p.creator, k(100));
    assert_eq!(p.community, k(50));
    assert_eq!(p.subject, "s");
    assert!(!p.executable);
    assert_eq!(m.projects_count, 1);
}

fn cast(m: &Management, c: &Community, counter: &mut Counter, user: Key, choice: &str)
    -> Result<(), ErrorCode> {
    let mut receipt = Voting::new();
    vote(&mut receipt, k(60), m, counter, c, user, choice.to_string(), 1, START + 4 * DAY)
}

#[test]
fn vote_counts_and_records() {
    let (m, _) = staged_management();
    let c = community_of(5);
    let mut counter = empty_counter();
    let mut receipt = Voting::new();
    let now = START + 4 * DAY;
    vote(&mut receipt, k(60), &m, &mut counter, &c, k(101), "yes".to_string(), 9, now).unwrap();
    assert_eq!(receipt, Voting { user: k(101), project: k(60), timestamp: now,
        result: VotingResult::Yes, bump: 9 });
    cast(&m, &c, &mut counter, k(102), "no").unwrap();
    cast(&m, &c, &mut counter, k(103), "n").unwrap();
    assert_eq!(counter, Counter { yes_count: 1, no_count: 2 });
}

#[test]
fn unrecognised_vote_is_invalid() {
    let (m, _) = staged_management();
    let c = community_of(5);
    let mut counter = empty_counter();
    for s in ["x", "xyes", "Yes", " y", "", "q-n"] {
        assert_eq!(cast(&m, &c, &mut counter, k(101), s), Err(ErrorCode::InvalidChar));
    }
    assert_eq!(counter, empty_counter());
}

#[test]
fn vote_checks_membership_and_window() {
    let (mut m, _) = staged_management();
    let c = community_of(5);
    let mut counter = empty_counter();
    assert_eq!(cast(&m, &c, &mut counter, k(8), "y"), Err(ErrorCode::AuthenticationError));
    let mut receipt = Voting::new();
    let r = vote(&mut receipt, k(60), &m, &mut counter, &c, k(101), "y".to_string(), 1, START + 1);
    assert_eq!(r, Err(ErrorCode::NotInVotingStage));
    pause(&mut m, admin(), true, START).unwrap();
    assert_eq!(cast(&m, &c, &mut counter, k(101), "y"), Err(ErrorCode::ContractPause));
}

fn execute_with(yes: u64, no: u64) -> (Result<(), ErrorCode>, Project, SolBank) {
    let (m, mut bank) = staged_management();
    let c = community_of(10);
    let mut p = Project::new();
    p.creator = k(100);
    let counter = Counter { yes_count: yes, no_count: no };
    let r = execute_project(&mut p, k(60), &m, k(100), &c, &counter, &mut bank, START + 8 * DAY + 1);
    (r, p, bank)
}

#[test]
fn execute_six_yes_passes() {
    let (r, p, bank) = execute_with(6, 0);
    assert_eq!(r, Ok(()));
    assert!(p.executable);
    assert_eq!(bank.projects, vec![ProjectFunds { project: k(60), count: 0, amount: 0 }]);
}

#[test]
fn execute_five_to_one_passes() {
    let (r, p, _) = execute_with(5, 1);
    assert_eq!(r, Ok(()));
    assert!(p.executable);
}

#[test]
fn execute_low_turnout_fails() {
    let (r, p, bank) = execute_with(3, 2);
    assert_eq!(r, Err(ErrorCode::NotPublish));
    assert!(!p.executable);
    assert!(bank.projects.is_empty());
}

#[test]
fn execute_tie_fails() {
    let (r, _, _) = execute_with(3, 3);
    assert_eq!(r, Err(ErrorCode::NotPublish));
}

#[test]
fn execute_checks_creator_and_window() {
    let (m, mut bank) = staged_management();
    let c = community_of(10);
    let mut p = Project::new();
    p.creator = k(100);
    let counter = Counter { yes_count: 6, no_count: 0 };
    let r = execute_project(&mut p, k(60), &m, k(101), &c, &counter, &mut bank, START + 8 * DAY + 1);
    assert_eq!(r, Err(ErrorCode::AuthenticationError));
    let r = execute_project(&mut p, k(60), &m, k(100), &c, &counter, &mut bank, START + 4 * DAY);
    assert_eq!(r, Err(ErrorCode::NotInExecuteStage));
}

const DONATE_TIME: i64 = START + 10 * DAY;
const DISTRIBUTE_TIME: i64 = START + 20 * DAY;

fn published_bank() -> (Management, SolBank) {
    let (m, mut bank) = staged_management();
    let c = community_of(10);
    for key in [60u64, 61] {
        let mut p = Project::new();
        p.creator = k(100);
        let counter = Counter { yes_count: 6, no_count: 0 };
        execute_project(&mut p, k(key), &m, k(100), &c, &counter, &mut bank, START + 8 * DAY + 1)
            .unwrap();
    }
    (m, bank)
}

#[test]
fn donate_updates_pool_and_record() {
    let (m, mut bank) = published_bank();
    let mut d = blank_donation();
    let t = donate_project(&mut d, &m, k(5), &mut bank, k(70), k(61), 250, 4, DONATE_TIME).unwrap();
    assert_eq!(t, Transfer { from: k(5), to: k(70), amount: 250 });
    donate_project(&mut d, &m, k(5), &mut bank, k(70), k(61), 50, 4, DONATE_TIME).unwrap();
    assert_eq!(bank.amount, 300);
    assert_eq!(bank.sol_counter, 2);
    assert_eq!(bank.projects[0], ProjectFunds { project: k(60), count: 0, amount: 0 });
    assert_eq!(bank.projects[1], ProjectFunds { project: k(61), count: 2, amount: 300 });
    assert_eq!(d, Donation { amount: 300, donate_count: 2, donate_bump: 4 });
}

#[test]
fn donate_to_unpublished_fails() {
    let (m, mut bank) = published_bank();
    let mut d = blank_donation();
    let r = donate_project(&mut d, &m, k(5), &mut bank, k(70), k(62), 10, 4, DONATE_TIME);
    assert_eq!(r, Err(ErrorCode::NotPublish));
    assert_eq!(bank.amount, 0);
    assert_eq!(d, blank_donation());
}

#[test]
fn donate_outside_window_fails() {
    let (m, mut bank) = published_bank();
    let mut d = blank_donation();
    let r = donate_project(&mut d, &m, k(5), &mut bank, k(70), k(60), 10, 4, START + 4 * DAY);
    assert_eq!(r, Err(ErrorCode::NotInDonateStage));
}

#[test]
fn distribute_single_donation_pays_its_amount() {
    let (mut m, mut bank) = published_bank();
    let mut d = blank_donation();
    donate_project(&mut d, &m, k(5), &mut bank, k(70), k(60), 100, 4, DONATE_TIME).unwrap();
    let t = distribute_funds(&bank, &mut m, admin(), &d, k(70), k(60), DISTRIBUTE_TIME).unwrap();
    // Weight 100 * 1, multiplier 100 / 100 = 1, payout 1 * 100 * 1.
    assert_eq!(t, Transfer { from: k(70), to: k(60), amount: 100 });
    assert_eq!(m.multiple, Multiplier { num: 100, den: 100 });
}

#[test]
fn distribute_is_repeatable() {
    let (mut m, mut bank) = published_bank();
    let mut d1 = blank_donation();
    let mut d2 = blank_donation();
    donate_project(&mut d1, &m, k(5), &mut bank, k(70), k(60), 30, 4, DONATE_TIME).unwrap();
    donate_project(&mut d1, &m, k(5), &mut bank, k(70), k(60), 30, 4, DONATE_TIME).unwrap();
    donate_project(&mut d2, &m, k(6), &mut bank, k(70), k(61), 40, 4, DONATE_TIME).unwrap();
    let first = distribute_funds(&bank, &mut m, admin(), &d1, k(70), k(60), DISTRIBUTE_TIME);
    let cached = m.multiple;
    // Weight 60 * 2 + 40 * 1 = 160 over a total of 100: truncates to zero.
    assert_eq!(cached, Multiplier { num: 100, den: 160 });
    assert_eq!(first, Ok(Transfer { from: k(70), to: k(60), amount: 0 }));
    let second = distribute_funds(&bank, &mut m, admin(), &d1, k(70), k(60), DISTRIBUTE_TIME);
    assert_eq!(second, first);
    assert_eq!(m.multiple, cached);
}

#[test]
fn distribute_keeps_cached_multiplier() {
    let (mut m, bank) = published_bank();
    m.multiple = Multiplier { num: 9, den: 4 };
    let d = Donation { amount: 5, donate_count: 3, donate_bump: 0 };
    let t = distribute_funds(&bank, &mut m, admin(), &d, k(70), k(61), DISTRIBUTE_TIME).unwrap();
    assert_eq!(t.amount, 3 * 5 * 2);
    assert_eq!(m.multiple, Multiplier { num: 9, den: 4 });
}

#[test]
fn distribute_checks() {
    let (mut m, bank) = published_bank();
    let d = blank_donation();
    assert_eq!(distribute_funds(&bank, &mut m, k(2), &d, k(70), k(60), DISTRIBUTE_TIME),
        Err(ErrorCode::AuthenticationError));
    assert_eq!(distribute_funds(&bank, &mut m, admin(), &d, k(70), k(60), DONATE_TIME),
        Err(ErrorCode::NotInDistributeStage));
    m.is_fund_distributed = true;
    assert_eq!(distribute_funds(&bank, &mut m, admin(), &d, k(70), k(60), DISTRIBUTE_TIME),
        Err(ErrorCode::NotOpenedYet));
}

#[test]
fn ask_for_withdraw_checks() {
    let c = community_of(10);
    let d = Donation { amount: 100, donate_count: 1, donate_bump: 0 };
    let mut w = blank_withdraw();
    let mut counter = Counter { yes_count: 4, no_count: 1 };
    assert_eq!(ask_for_withdraw(&mut w, k(8), &mut counter, &c, &d, 10, 2),
        Err(ErrorCode::AuthenticationError));
    assert_eq!(ask_for_withdraw(&mut w, k(100), &mut counter, &c, &d, 100, 2),
        Err(ErrorCode::InsufficientError));
    assert_eq!(counter, Counter { yes_count: 4, no_count: 1 });
    assert_eq!(ask_for_withdraw(&mut w, k(100), &mut counter, &c, &d, 99, 2), Ok(()));
    assert_eq!(counter, empty_counter());
    assert_eq!(w, Withdraw { user: k(100), amount: 99, executable: false, executed: false, bump: 2 });
}

#[test]
fn withdrawal_vote_and_payout() {
    let c = community_of(10);
    let d = Donation { amount: 100, donate_count: 1, donate_bump: 0 };
    let mut w = blank_withdraw();
    let mut counter = empty_counter();
    ask_for_withdraw(&mut w, k(100), &mut counter, &c, &d, 40, 2).unwrap();
    for voter in 101..106u64 {
        voting_withdraw(&mut w, k(voter), &c, &mut counter, "y".to_string(), 3).unwrap();
    }
    // Five votes do not exceed half of ten.
    assert!(!w.executable);
    voting_withdraw(&mut w, k(106), &c, &mut counter, "n".to_string(), 3).unwrap();
    // Five yes of six: 5 > 6 * 60 / 100 = 3, and 6 > 5.
    assert!(w.executable);
    assert_eq!(counter, Counter { yes_count: 5, no_count: 1 });
    for voter in 107..110u64 {
        voting_withdraw(&mut w, k(voter), &c, &mut counter, "n".to_string(), 3).unwrap();
    }
    // Five yes of nine no longer passes, but the request stays executable.
    assert!(w.executable);
    assert_eq!(withdraw(&mut w, k(101), k(60)), Err(ErrorCode::AuthenticationError));
    assert_eq!(withdraw(&mut w, k(100), k(60)),
        Ok(Some(Transfer { from: k(60), to: k(100), amount: 40 })));
    assert!(w.executed);
    assert_eq!(withdraw(&mut w, k(100), k(60)), Err(ErrorCode::AlreadyExecuted));
}

#[test]
fn withdrawal_vote_checks() {
    let c = community_of(10);
    let mut w = blank_withdraw();
    let mut counter = empty_counter();
    assert_eq!(voting_withdraw(&mut w, k(8), &c, &mut counter, "y".to_string(), 3),
        Err(ErrorCode::AuthenticationError));
    assert_eq!(voting_withdraw(&mut w, k(101), &c, &mut counter, "z".to_string(), 3),
        Err(ErrorCode::InvalidChar));
    assert_eq!(counter, empty_counter());
}

#[test]
fn pending_withdraw_is_a_no_op() {
    let mut w = Withdraw { user: k(100), amount: 40, executable: false, executed: false, bump: 2 };
    let before = w;
    for _ in 0..3 {
        assert_eq!(withdraw(&mut w, k(100), k(60)), Ok(None));
        assert_eq!(w, before);
    }
}
