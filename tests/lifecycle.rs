use solverse::errors::BountyError;
use solverse::program::{
    accept_task, claim_reward, close_task, create_task, pick_winner, refund_escrow, submit_work,
    Solverse,
};
use solverse::state::{
    Submission, AcceptTask, ClaimReward, CloseTask, CreateTask, ParticipationStatus, PickWinner, Pubkey,
    RefundEscrow, SubmitWork,
};

const CREATOR: Pubkey = 1;
const ALICE: Pubkey = 2;
const BOB: Pubkey = 3;
const START: i64 = 1_700_000_000;

fn funded(amount: u64) -> Solverse {
    let mut program = Solverse::new();
    program.mint_to(CREATOR, amount).unwrap();
    program
}

fn create(program: &mut Solverse, id: &str, reward: u64, duration: i64) -> Result<(), BountyError> {
    create_task(
        program,
        CreateTask { creator: CREATOR },
        START,
        id.to_string(),
        "write the docs".to_string(),
        reward,
        duration,
    )
}

fn submit(program: &mut Solverse, who: Pubkey, id: &str, link: &str, now: i64) -> Result<(), BountyError> {
    submit_work(
        program,
        SubmitWork { participant: who, creator: CREATOR },
        now,
        id.to_string(),
        link.to_string(),
    )
}

fn entry(who: Pubkey, id: &str) -> Submission {
    Submission {
        participant: who,
        task_creator: CREATOR,
        task_id: id.to_string(),
        link: String::new(),
    }
}

fn pick(program: &mut Solverse, who: Pubkey, id: &str, now: i64) -> Result<(), BountyError> {
    let accounts = PickWinner { creator: CREATOR, participant: who };
    pick_winner(program, accounts, now, id.to_string(), &entry(who, id))
}

fn claim(program: &mut Solverse, who: Pubkey, id: &str, now: i64) -> Result<(), BountyError> {
    claim_reward(program, ClaimReward { winner: who, creator: CREATOR }, now, id.to_string())
}

fn refund(program: &mut Solverse, id: &str, now: i64) -> Result<(), BountyError> {
    refund_escrow(program, RefundEscrow { creator: CREATOR }, now, id.to_string())
}

fn close(program: &mut Solverse, id: &str, now: i64) -> Result<(), BountyError> {
    close_task(program, CloseTask { creator: CREATOR }, now, id.to_string())
}

#[test]
fn winner_claims_the_whole_vault() {
    let mut program = funded(1000);
    assert_eq!(create(&mut program, "T1", 1000, 3600), Ok(()));
    assert_eq!(program.escrows.len(), 1);
    assert_eq!(program.escrows[0].reward_tokens, 1000);
    assert_eq!(program.balance_of(CREATOR), 0);
    assert_eq!(program.tasks[0].start_time, START);
    assert_eq!(program.tasks[0].end_time, START + 3600);

    assert_eq!(submit(&mut program, ALICE, "T1", "linkA", START + 10), Ok(()));
    assert_eq!(program.tasks[0].submission_count, 1);
    assert_eq!(program.submissions[0].link, "linkA");

    let end = START + 3600;
    assert_eq!(pick(&mut program, ALICE, "T1", end), Ok(()));
    assert_eq!(program.tasks[0].winner, Some(ALICE));
    assert_eq!(program.escrows[0].winner, Some(ALICE));

    assert_eq!(claim(&mut program, ALICE, "T1", end + 1), Ok(()));
    assert_eq!(program.balance_of(ALICE), 1000);
    assert!(program.escrows.is_empty());
    assert_eq!(program.balance_of(CREATOR), 0);
}

#[test]
fn refund_without_winner_then_claim_fails() {
    let mut program = funded(500);
    assert_eq!(create(&mut program, "T2", 500, 60), Ok(()));
    assert_eq!(program.balance_of(CREATOR), 0);
    assert_eq!(refund(&mut program, "T2", START + 60), Ok(()));
    assert_eq!(program.balance_of(CREATOR), 500);
    assert!(program.escrows.is_empty());
    assert_eq!(claim(&mut program, ALICE, "T2", START + 61), Err(BountyError::AccountMissing));
    assert_eq!(claim(&mut program, CREATOR, "T2", START + 61), Err(BountyError::AccountMissing));
}

#[test]
fn negative_duration_creates_nothing() {
    let mut program = funded(100);
    assert_eq!(create(&mut program, "T3", 100, -1), Err(BountyError::EscrowMismatch));
    assert!(program.tasks.is_empty());
    assert!(program.escrows.is_empty());
    assert_eq!(program.balance_of(CREATOR), 100);
}

#[test]
fn zero_duration_is_rejected() {
    let mut program = funded(100);
    assert_eq!(create(&mut program, "T", 100, 0), Err(BountyError::EscrowMismatch));
    assert!(program.tasks.is_empty());
}

#[test]
fn end_time_overflow_is_rejected() {
    let mut program = funded(100);
    let r = create_task(
        &mut program,
        CreateTask { creator: CREATOR },
        i64::MAX - 10,
        "T".to_string(),
        String::new(),
        100,
        11,
    );
    assert_eq!(r, Err(BountyError::EscrowMismatch));
    let r = create_task(
        &mut program,
        CreateTask { creator: CREATOR },
        i64::MAX - 10,
        "T".to_string(),
        String::new(),
        100,
        10,
    );
    assert_eq!(r, Ok(()));
    assert_eq!(program.tasks[0].end_time, i64::MAX);
}

#[test]
fn created_tasks_end_after_they_start() {
    let mut program = funded(10);
    assert_eq!(create(&mut program, "A", 5, 1), Ok(()));
    assert_eq!(create(&mut program, "B", 5, 86_400), Ok(()));
    for t in &program.tasks {
        assert!(t.end_time > t.start_time);
    }
}

#[test]
fn creating_twice_is_refused() {
    let mut program = funded(100);
    assert_eq!(create(&mut program, "T", 10, 60), Ok(()));
    assert_eq!(create(&mut program, "T", 10, 60), Err(BountyError::AlreadyInUse));
    assert_eq!(program.tasks.len(), 1);
    assert_eq!(program.balance_of(CREATOR), 90);
    // another creator may reuse the identifier
    program.mint_to(BOB, 10).unwrap();
    let r = create_task(
        &mut program,
        CreateTask { creator: BOB },
        START,
        "T".to_string(),
        String::new(),
        10,
        60,
    );
    assert_eq!(r, Ok(()));
    assert_eq!(program.tasks.len(), 2);
}

#[test]
fn creator_must_hold_the_reward() {
    let mut program = funded(99);
    assert_eq!(create(&mut program, "T", 100, 60), Err(BountyError::TransferFailed));
    assert!(program.tasks.is_empty());
    assert_eq!(program.balance_of(CREATOR), 99);
}

#[test]
fn long_strings_are_refused() {
    let mut program = funded(100);
    let id = "x".repeat(33);
    assert_eq!(create(&mut program, &id, 1, 60), Err(BountyError::InputTooLong));
    let id = "x".repeat(32);
    assert_eq!(create(&mut program, &id, 1, 60), Ok(()));
    // the bound counts bytes, not characters
    let id = "é".repeat(17);
    assert_eq!(create(&mut program, &id, 1, 60), Err(BountyError::InputTooLong));
    let r = create_task(
        &mut program,
        CreateTask { creator: CREATOR },
        START,
        "D".to_string(),
        "d".repeat(281),
        1,
        60,
    );
    assert_eq!(r, Err(BountyError::InputTooLong));

    assert_eq!(create(&mut program, "L", 1, 60), Ok(()));
    let link = "l".repeat(101);
    assert_eq!(submit(&mut program, ALICE, "L", &link, START), Err(BountyError::InputTooLong));
    let link = "l".repeat(100);
    assert_eq!(submit(&mut program, ALICE, "L", &link, START), Ok(()));
}

#[test]
fn accept_registers_participation() {
    let mut program = funded(10);
    assert_eq!(create(&mut program, "T", 10, 60), Ok(()));
    let accounts = AcceptTask { participant: ALICE, creator: CREATOR };
    assert_eq!(accept_task(&mut program, accounts, "T".to_string()), Ok(()));
    assert_eq!(program.participations.len(), 1);
    assert_eq!(program.participations[0].status, ParticipationStatus::Accepted);
    assert_eq!(program.participations[0].participant, ALICE);
    assert_eq!(accept_task(&mut program, accounts, "T".to_string()), Err(BountyError::AlreadyInUse));
    let missing = accept_task(&mut program, accounts, "U".to_string());
    assert_eq!(missing, Err(BountyError::AccountMissing));
}

#[test]
fn submitting_after_the_window_fails() {
    let mut program = funded(10);
    assert_eq!(create(&mut program, "T", 10, 60), Ok(()));
    assert_eq!(submit(&mut program, ALICE, "T", "a", START + 60), Err(BountyError::TaskEnded));
    assert_eq!(submit(&mut program, ALICE, "T", "a", START + 59), Ok(()));
    assert_eq!(submit(&mut program, BOB, "T", "b", START + 61), Err(BountyError::TaskEnded));
    assert_eq!(program.tasks[0].submission_count, 1);
}

#[test]
fn each_submission_counts_once() {
    let mut program = funded(10);
    assert_eq!(create(&mut program, "T", 10, 60), Ok(()));
    assert_eq!(submit(&mut program, ALICE, "T", "a", START), Ok(()));
    assert_eq!(program.tasks[0].submission_count, 1);
    assert_eq!(submit(&mut program, BOB, "T", "b", START + 1), Ok(()));
    assert_eq!(program.tasks[0].submission_count, 2);
    assert_eq!(program.submissions.len(), 2);
}

#[test]
fn second_submission_by_same_participant_fails() {
    let mut program = funded(10);
    assert_eq!(create(&mut program, "T", 10, 60), Ok(()));
    assert_eq!(submit(&mut program, ALICE, "T", "a", START), Ok(()));
    assert_eq!(submit(&mut program, ALICE, "T", "b", START + 1), Err(BountyError::AlreadySubmitted));
    assert_eq!(program.submissions.len(), 1);
    assert_eq!(program.tasks[0].submission_count, 1);
}

#[test]
fn submission_to_missing_task_fails() {
    let mut program = funded(10);
    assert_eq!(submit(&mut program, ALICE, "T", "a", START), Err(BountyError::AccountMissing));
}

#[test]
fn full_submission_counter_is_refused() {
    let mut program = funded(10);
    assert_eq!(create(&mut program, "T", 10, 60), Ok(()));
    program.tasks[0].submission_count = u32::MAX;
    assert_eq!(submit(&mut program, ALICE, "T", "a", START), Err(BountyError::EscrowMismatch));
    assert!(program.submissions.is_empty());
}

#[test]
fn winner_is_picked_once() {
    let mut program = funded(10);
    assert_eq!(create(&mut program, "T", 10, 60), Ok(()));
    assert_eq!(submit(&mut program, ALICE, "T", "a", START), Ok(()));
    assert_eq!(submit(&mut program, BOB, "T", "b", START), Ok(()));
    assert_eq!(pick(&mut program, ALICE, "T", START + 59), Err(BountyError::TaskNotEnded));
    assert_eq!(pick(&mut program, ALICE, "T", START + 60), Ok(()));
    assert_eq!(pick(&mut program, BOB, "T", START + 61), Err(BountyError::InvalidWinner));
    assert_eq!(pick(&mut program, ALICE, "T", START + 61), Err(BountyError::InvalidWinner));
    assert_eq!(program.tasks[0].winner, Some(ALICE));
}

#[test]
fn winner_needs_a_submission() {
    let mut program = funded(10);
    assert_eq!(create(&mut program, "T", 10, 60), Ok(()));
    assert_eq!(pick(&mut program, ALICE, "T", START + 60), Err(BountyError::NoSubmissions));
    assert_eq!(program.tasks[0].winner, None);
}

#[test]
fn only_the_winner_claims() {
    let mut program = funded(10);
    assert_eq!(create(&mut program, "T", 10, 60), Ok(()));
    assert_eq!(submit(&mut program, ALICE, "T", "a", START), Ok(()));
    assert_eq!(claim(&mut program, ALICE, "T", START + 60), Err(BountyError::InvalidWinner));
    assert_eq!(pick(&mut program, ALICE, "T", START + 60), Ok(()));
    assert_eq!(claim(&mut program, BOB, "T", START + 60), Err(BountyError::InvalidWinner));
    assert_eq!(program.balance_of(BOB), 0);
    assert_eq!(claim(&mut program, ALICE, "T", START + 60), Ok(()));
    assert_eq!(program.balance_of(ALICE), 10);
}

#[test]
fn claim_and_refund_exclude_each_other() {
    let mut program = funded(20);
    assert_eq!(create(&mut program, "A", 10, 60), Ok(()));
    assert_eq!(submit(&mut program, ALICE, "A", "a", START), Ok(()));
    assert_eq!(pick(&mut program, ALICE, "A", START + 60), Ok(()));
    assert_eq!(refund(&mut program, "A", START + 60), Err(BountyError::InvalidWinner));
    assert_eq!(claim(&mut program, ALICE, "A", START + 60), Ok(()));
    assert_eq!(refund(&mut program, "A", START + 61), Err(BountyError::AccountMissing));
    assert_eq!(claim(&mut program, ALICE, "A", START + 61), Err(BountyError::AccountMissing));
    assert_eq!(program.balance_of(ALICE), 10);

    assert_eq!(create(&mut program, "B", 10, 60), Ok(()));
    assert_eq!(refund(&mut program, "B", START + 60), Ok(()));
    assert_eq!(refund(&mut program, "B", START + 61), Err(BountyError::AccountMissing));
    assert_eq!(pick(&mut program, ALICE, "B", START + 61), Err(BountyError::AccountMissing));
    assert_eq!(program.balance_of(CREATOR), 10);
}

#[test]
fn settlement_and_close_wait_for_the_end() {
    let mut program = funded(10);
    assert_eq!(create(&mut program, "T", 10, 60), Ok(()));
    assert_eq!(submit(&mut program, ALICE, "T", "a", START), Ok(()));
    let before = START + 59;
    assert_eq!(claim(&mut program, ALICE, "T", before), Err(BountyError::TaskNotEnded));
    assert_eq!(refund(&mut program, "T", before), Err(BountyError::TaskNotEnded));
    assert_eq!(close(&mut program, "T", before), Err(BountyError::TaskNotEnded));
    assert_eq!(program.tasks.len(), 1);
    assert_eq!(program.escrows.len(), 1);
}

#[test]
fn empty_vault_is_refused() {
    let mut program = funded(0);
    assert_eq!(create(&mut program, "T", 0, 60), Ok(()));
    assert_eq!(refund(&mut program, "T", START + 60), Err(BountyError::EscrowMismatch));
    assert_eq!(program.escrows.len(), 1);
}

#[test]
fn payout_that_would_overflow_is_refused() {
    let mut program = funded(10);
    assert_eq!(create(&mut program, "T", 10, 60), Ok(()));
    program.mint_to(CREATOR, u64::MAX).unwrap();
    assert_eq!(refund(&mut program, "T", START + 60), Err(BountyError::TransferFailed));
    assert_eq!(program.escrows.len(), 1);
    assert_eq!(program.mint_to(CREATOR, 1), Err(BountyError::TransferFailed));
}

#[test]
fn close_removes_only_the_task() {
    let mut program = funded(10);
    assert_eq!(create(&mut program, "T", 10, 60), Ok(()));
    assert_eq!(close(&mut program, "T", START + 60), Ok(()));
    assert!(program.tasks.is_empty());
    assert_eq!(program.escrows.len(), 1);
    assert_eq!(close(&mut program, "T", START + 60), Err(BountyError::AccountMissing));
    assert_eq!(refund(&mut program, "T", START + 60), Err(BountyError::AccountMissing));
}

#[test]
fn error_messages() {
    assert_eq!(BountyError::InvalidWinner.message(), "Invalid winner");
    assert_eq!(BountyError::TransferFailed.message(), "Token transfer failed");
    assert_eq!(BountyError::TaskEnded.message(), "Task has ended");
    assert_eq!(BountyError::TaskNotEnded.message(), "Task not ended yet");
    assert_eq!(BountyError::NotCreator.message(), "Not creator");
    assert_eq!(BountyError::EscrowMismatch.message(), "Escrow mismatch");
}

#[test]
fn presented_submission_must_match_the_winner() {
    let mut program = funded(10);
    assert_eq!(create(&mut program, "T", 5, 60), Ok(()));
    assert_eq!(create(&mut program, "U", 5, 60), Ok(()));
    assert_eq!(submit(&mut program, ALICE, "T", "a", START), Ok(()));
    assert_eq!(submit(&mut program, BOB, "U", "b", START), Ok(()));
    let accounts = PickWinner { creator: CREATOR, participant: ALICE };
    let end = START + 60;
    let r = pick_winner(&mut program, accounts, end, "T".to_string(), &entry(BOB, "T"));
    assert_eq!(r, Err(BountyError::InvalidWinner));
    let r = pick_winner(&mut program, accounts, end, "T".to_string(), &entry(ALICE, "U"));
    assert_eq!(r, Err(BountyError::InvalidWinner));
    assert_eq!(program.tasks[0].winner, None);
    let r = pick_winner(&mut program, accounts, end, "T".to_string(), &entry(ALICE, "T"));
    assert_eq!(r, Ok(()));
}

#[test]
fn bad_duration_comes_before_long_description() {
    let mut program = funded(100);
    let long = "d".repeat(281);
    let create_with = |program: &mut Solverse, now: i64, duration: i64| {
        create_task(
            program,
            CreateTask { creator: CREATOR },
            now,
            "T3".to_string(),
            long.clone(),
            10,
            duration,
        )
    };
    assert_eq!(create_with(&mut program, START, -1), Err(BountyError::EscrowMismatch));
    assert_eq!(create_with(&mut program, i64::MAX - 10, 11), Err(BountyError::EscrowMismatch));
    assert_eq!(create_with(&mut program, START, 60), Err(BountyError::InputTooLong));
    assert!(program.tasks.is_empty());
}

#[test]
fn full_counter_comes_before_long_link() {
    let mut program = funded(10);
    assert_eq!(create(&mut program, "T", 10, 60), Ok(()));
    program.tasks[0].submission_count = u32::MAX;
    let link = "l".repeat(101);
    assert_eq!(submit(&mut program, ALICE, "T", &link, START), Err(BountyError::EscrowMismatch));
}

#[test]
fn task_and_escrow_stay_in_step() {
    let mut program = funded(10);
    assert_eq!(create(&mut program, "T", 10, 60), Ok(()));
    assert_eq!(submit(&mut program, ALICE, "T", "a", START), Ok(()));
    assert_eq!(pick(&mut program, ALICE, "T", START + 60), Ok(()));
    let (t, e) = (&program.tasks[0], &program.escrows[0]);
    assert_eq!(t.winner, e.winner);
    assert_eq!(t.start_time, e.start_time);
    assert_eq!(t.end_time, e.end_time);
}
