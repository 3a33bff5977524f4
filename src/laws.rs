//! Properties of the lifecycle that hold across operations.
use vstd::prelude::*;

use crate::errors::BountyError;
use crate::keys::{lemma_unique_push, lemma_unique_remove, lemma_unique_update, unique_keys};
use crate::program::{
    accept_task_after, claim_reward_result, close_task_after, close_task_result, create_task_after,
    create_task_result, escrow_is,
    escrow_key, pick_winner_after, pick_winner_result, refund_escrow_result, settle_after,
    submission_is, submit_work_after, submit_work_result, task_is, task_key, SolverseView,
};
use crate::state::{Escrow, Pubkey, Submission, Task};

verus! {

/// Where task keys are unique, the task at `k` is the one its key names.
proof fn lemma_task_at(s: SolverseView, k: int)
    requires
        unique_keys(s.tasks, |t: Task| task_key(t)),
        0 <= k < s.tasks.len(),
    ensures
        s.has_task(s.tasks[k].creator, s.tasks[k].task_id@),
        s.task_index(s.tasks[k].creator, s.tasks[k].task_id@) == k,
{
    let c = s.tasks[k].creator;
    let id = s.tasks[k].task_id@;
    assert(task_is(s.tasks[k], c, id));
    let j = s.task_index(c, id);
    assert(task_is(s.tasks[j], c, id));
    assert(task_key(s.tasks[j]) == task_key(s.tasks[k]));
}

/// Where escrow keys are unique, the escrow at `k` is the one its key names.
proof fn lemma_escrow_at(s: SolverseView, k: int)
    requires
        unique_keys(s.escrows, |e: Escrow| escrow_key(e)),
        0 <= k < s.escrows.len(),
    ensures
        s.has_escrow(s.escrows[k].creator, s.escrows[k].seed@),
        s.escrow_index(s.escrows[k].creator, s.escrows[k].seed@) == k,
{
    let c = s.escrows[k].creator;
    let id = s.escrows[k].seed@;
    assert(escrow_is(s.escrows[k], c, id));
    let j = s.escrow_index(c, id);
    assert(escrow_is(s.escrows[j], c, id));
    assert(escrow_key(s.escrows[j]) == escrow_key(s.escrows[k]));
}

/// Every recorded task ends strictly after it starts.
pub proof fn lemma_task_window(s: SolverseView, creator: Pubkey, task_id: Seq<char>)
    requires
        s.wf(),
        s.has_task(creator, task_id),
    ensures
        s.task(creator, task_id).start_time < s.task(creator, task_id).end_time,
{
    let k = s.task_index(creator, task_id);
    assert(s.tasks[k].start_time < s.tasks[k].end_time);
}

/// A duration of zero or less never creates a task.
pub proof fn lemma_nonpositive_duration_rejected(
    s: SolverseView,
    creator: Pubkey,
    task_id: Seq<char>,
    description: Seq<char>,
    reward_amount: u64,
    duration: i64,
    now: i64,
)
    requires
        duration <= 0,
    ensures
        create_task_result(s, creator, task_id, description, reward_amount, duration, now) is Err,
{
}

/// A created task starts now and ends `duration` seconds later, strictly
/// after its start.
pub proof fn lemma_created_window(
    s: SolverseView,
    creator: Pubkey,
    task_id: String,
    description: String,
    reward_amount: u64,
    duration: i64,
    now: i64,
)
    requires
        s.wf(),
        create_task_result(s, creator, task_id@, description@, reward_amount, duration, now) is Ok,
    ensures
        ({
            let a = create_task_after(s, creator, task_id, description, reward_amount, duration, now);
            &&& a.has_task(creator, task_id@)
            &&& a.task(creator, task_id@).start_time == now
            &&& a.task(creator, task_id@).end_time == now + duration
            &&& a.task(creator, task_id@).start_time < a.task(creator, task_id@).end_time
        }),
{
    let a = create_task_after(s, creator, task_id, description, reward_amount, duration, now);
    let t = a.tasks.last();
    assert forall|i: int| 0 <= i < s.tasks.len() implies task_key(#[trigger] s.tasks[i]) != task_key(t) by {
        assert(!task_is(s.tasks[i], creator, task_id@));
    }
    lemma_unique_push(s.tasks, |t: Task| task_key(t), t);
    lemma_task_at(a, s.tasks.len() as int);
}

/// Once a winner is picked, every later attempt to pick one for the same
/// task fails with `InvalidWinner`.
pub proof fn lemma_single_winner(
    s: SolverseView,
    creator: Pubkey,
    first: Pubkey,
    second: Pubkey,
    task_id: Seq<char>,
    first_submission: Submission,
    second_submission: Submission,
    now: i64,
    later: i64,
)
    requires
        s.wf(),
        pick_winner_result(s, creator, first, task_id, first_submission, now) is Ok,
        now <= later,
    ensures
        pick_winner_result(
            pick_winner_after(s, creator, first, task_id),
            creator,
            second,
            task_id,
            second_submission,
            later,
        ) == Err::<(), BountyError>(BountyError::InvalidWinner),
{
    let a = pick_winner_after(s, creator, first, task_id);
    let ti = s.task_index(creator, task_id);
    let ei = s.escrow_index(creator, task_id);
    let t = Task { winner: Some(first), ..s.tasks[ti] };
    let e = Escrow { winner: Some(first), ..s.escrows[ei] };
    lemma_unique_update(s.tasks, |t: Task| task_key(t), ti, t);
    lemma_unique_update(s.escrows, |e: Escrow| escrow_key(e), ei, e);
    lemma_task_at(a, ti);
    lemma_escrow_at(a, ei);
}

/// A participant has at most one submission per task.
pub proof fn lemma_one_submission_per_pair(s: SolverseView, i: int, j: int)
    requires
        s.wf(),
        0 <= i < s.submissions.len(),
        0 <= j < s.submissions.len(),
        submission_is(
            s.submissions[i],
            s.submissions[j].participant,
            s.submissions[j].task_creator,
            s.submissions[j].task_id@,
        ),
    ensures
        i == j,
{
    assert(crate::program::submission_key(s.submissions[i]) == crate::program::submission_key(
        s.submissions[j],
    ));
}

/// After a participant's submission succeeds, a second one for the same
/// task fails.
pub proof fn lemma_second_submission_fails(
    s: SolverseView,
    participant: Pubkey,
    creator: Pubkey,
    task_id: String,
    link: String,
    second_link: Seq<char>,
    now: i64,
    later: i64,
)
    requires
        s.wf(),
        submit_work_result(s, participant, creator, task_id@, link@, now) is Ok,
    ensures
        submit_work_result(
            submit_work_after(s, participant, creator, task_id, link),
            participant,
            creator,
            task_id@,
            second_link,
            later,
        ) is Err,
{
    let a = submit_work_after(s, participant, creator, task_id, link);
    let ti = s.task_index(creator, task_id@);
    let t = Task { submission_count: (s.tasks[ti].submission_count + 1) as u32, ..s.tasks[ti] };
    lemma_unique_update(s.tasks, |t: Task| task_key(t), ti, t);
    lemma_task_at(a, ti);
    let n = s.submissions.len() as int;
    assert(submission_is(a.submissions[n], participant, creator, task_id@));
}

/// Submitting to an existing task fails with `TaskEnded` once its window has
/// closed; while it is open, a first submission with a link that fits
/// succeeds (unless the counter is full) and counts exactly one more.
pub proof fn lemma_submit_window(
    s: SolverseView,
    participant: Pubkey,
    creator: Pubkey,
    task_id: String,
    link: String,
    now: i64,
)
    requires
        s.wf(),
        s.has_task(creator, task_id@),
    ensures
        now >= s.task(creator, task_id@).end_time ==> submit_work_result(
            s,
            participant,
            creator,
            task_id@,
            link@,
            now,
        ) == Err::<(), BountyError>(BountyError::TaskEnded),
        now < s.task(creator, task_id@).end_time && !s.has_submission(
            participant,
            creator,
            task_id@,
        ) && crate::program::fits(link@, crate::state::MAX_LINK_LEN) && s.task(
            creator,
            task_id@,
        ).submission_count < u32::MAX ==> submit_work_result(
            s,
            participant,
            creator,
            task_id@,
            link@,
            now,
        ) is Ok,
        submit_work_result(s, participant, creator, task_id@, link@, now) is Ok ==> submit_work_after(
            s,
            participant,
            creator,
            task_id,
            link,
        ).task(creator, task_id@).submission_count == s.task(creator, task_id@).submission_count + 1,
{
    let ti = s.task_index(creator, task_id@);
    assert(task_is(s.tasks[ti], creator, task_id@));
    if submit_work_result(s, participant, creator, task_id@, link@, now) is Ok {
        let a = submit_work_after(s, participant, creator, task_id, link);
        let t = Task { submission_count: (s.tasks[ti].submission_count + 1) as u32, ..s.tasks[ti] };
        lemma_unique_update(s.tasks, |t: Task| task_key(t), ti, t);
        lemma_task_at(a, ti);
    }
}

/// Once the vault of a task's escrow is paid out, the escrow is gone: no
/// claim or refund of that task succeeds any more.
pub proof fn lemma_settled_escrow_gone(
    s: SolverseView,
    to: Pubkey,
    creator: Pubkey,
    task_id: Seq<char>,
)
    requires
        s.wf(),
        s.has_escrow(creator, task_id),
    ensures
        !settle_after(s, to, creator, task_id).has_escrow(creator, task_id),
{
    let ei = s.escrow_index(creator, task_id);
    lemma_unique_remove(s.escrows, |e: Escrow| escrow_key(e), ei);
    let a = settle_after(s, to, creator, task_id);
    assert(escrow_is(s.escrows[ei], creator, task_id));
    assert forall|i: int| 0 <= i < a.escrows.len() implies !escrow_is(
        #[trigger] a.escrows[i],
        creator,
        task_id,
    ) by {
        assert(escrow_key(a.escrows[i]) != escrow_key(s.escrows[ei]));
    }
}

/// A successful claim makes every later refund and claim of the task fail.
pub proof fn lemma_claim_excludes_refund(
    s: SolverseView,
    winner: Pubkey,
    creator: Pubkey,
    task_id: Seq<char>,
    now: i64,
    later: i64,
    someone: Pubkey,
)
    requires
        s.wf(),
        claim_reward_result(s, winner, creator, task_id, now) is Ok,
    ensures
        refund_escrow_result(settle_after(s, winner, creator, task_id), creator, task_id, later)
            is Err,
        claim_reward_result(settle_after(s, winner, creator, task_id), someone, creator, task_id, later)
            is Err,
{
    lemma_settled_escrow_gone(s, winner, creator, task_id);
}

/// A successful refund makes every later claim and refund of the task fail.
pub proof fn lemma_refund_excludes_claim(
    s: SolverseView,
    creator: Pubkey,
    task_id: Seq<char>,
    now: i64,
    later: i64,
    someone: Pubkey,
)
    requires
        s.wf(),
        refund_escrow_result(s, creator, task_id, now) is Ok,
    ensures
        claim_reward_result(settle_after(s, creator, creator, task_id), someone, creator, task_id, later)
            is Err,
        refund_escrow_result(settle_after(s, creator, creator, task_id), creator, task_id, later)
            is Err,
{
    lemma_settled_escrow_gone(s, creator, creator, task_id);
}

/// While a task exists, its escrow cannot be created again once settled:
/// a new `create_task` under its key is refused.
pub proof fn lemma_settled_escrow_not_recreated(
    s: SolverseView,
    creator: Pubkey,
    task_id: Seq<char>,
    description: Seq<char>,
    reward_amount: u64,
    duration: i64,
    now: i64,
)
    requires
        s.has_task(creator, task_id),
    ensures
        create_task_result(s, creator, task_id, description, reward_amount, duration, now)
            == Err::<(), BountyError>(BountyError::AlreadyInUse),
{
}

/// Before a task's window closes, closing it, claiming its reward and
/// refunding its escrow all fail with `TaskNotEnded`.
pub proof fn lemma_settlement_waits_for_end(
    s: SolverseView,
    caller: Pubkey,
    creator: Pubkey,
    task_id: Seq<char>,
    now: i64,
)
    requires
        s.has_task(creator, task_id),
        now < s.task(creator, task_id).end_time,
    ensures
        close_task_result(s, creator, task_id, now) == Err::<(), BountyError>(
            BountyError::TaskNotEnded,
        ),
        claim_reward_result(s, caller, creator, task_id, now) == Err::<(), BountyError>(
            BountyError::TaskNotEnded,
        ),
        refund_escrow_result(s, creator, task_id, now) == Err::<(), BountyError>(
            BountyError::TaskNotEnded,
        ),
{
}

/// Every task record under the key of `creator` and `task_id` names `winner`.
pub open spec fn winner_is(s: SolverseView, creator: Pubkey, task_id: Seq<char>, winner: Pubkey) -> bool {
    forall|i: int|
        0 <= i < s.tasks.len() && task_is(#[trigger] s.tasks[i], creator, task_id)
            ==> s.tasks[i].winner == Some(winner)
}

/// A task whose winner is set has that winner under its key.
pub proof fn lemma_winner_is_of_task(s: SolverseView, creator: Pubkey, task_id: Seq<char>)
    requires
        s.wf(),
        s.has_task(creator, task_id),
        s.task(creator, task_id).winner is Some,
    ensures
        winner_is(s, creator, task_id, s.task(creator, task_id).winner->Some_0),
{
    let k = s.task_index(creator, task_id);
    assert forall|i: int|
        0 <= i < s.tasks.len() && task_is(#[trigger] s.tasks[i], creator, task_id) implies s.tasks[i].winner
            == s.tasks[k].winner by {
        assert(task_key(s.tasks[i]) == task_key(s.tasks[k]));
    }
}

/// Where a winner is set under a key, the task under that key names it.
pub proof fn lemma_task_of_winner_is(
    s: SolverseView,
    creator: Pubkey,
    task_id: Seq<char>,
    winner: Pubkey,
)
    requires
        winner_is(s, creator, task_id, winner),
        s.has_task(creator, task_id),
    ensures
        s.task(creator, task_id).winner == Some(winner),
{
    let k = s.task_index(creator, task_id);
    assert(task_is(s.tasks[k], creator, task_id));
}

/// Once a task has a winner, no `pick_winner` on it succeeds.
pub proof fn lemma_no_second_pick(
    s: SolverseView,
    creator: Pubkey,
    task_id: Seq<char>,
    winner: Pubkey,
    participant: Pubkey,
    submission: Submission,
    now: i64,
)
    requires
        winner_is(s, creator, task_id, winner),
    ensures
        pick_winner_result(s, creator, participant, task_id, submission, now) is Err,
{
    if s.has_task(creator, task_id) {
        lemma_task_of_winner_is(s, creator, task_id, winner);
    }
}

/// While a task with a set winner exists, a successful `create_task`, under
/// any key, keeps that winner.
pub proof fn lemma_create_keeps_winner(
    s: SolverseView,
    creator: Pubkey,
    task_id: Seq<char>,
    winner: Pubkey,
    new_creator: Pubkey,
    new_id: String,
    description: String,
    reward_amount: u64,
    duration: i64,
    now: i64,
)
    requires
        winner_is(s, creator, task_id, winner),
        s.has_task(creator, task_id),
        create_task_result(s, new_creator, new_id@, description@, reward_amount, duration, now) is Ok,
    ensures
        winner_is(
            create_task_after(s, new_creator, new_id, description, reward_amount, duration, now),
            creator,
            task_id,
            winner,
        ),
{
    let a = create_task_after(s, new_creator, new_id, description, reward_amount, duration, now);
    assert forall|i: int|
        0 <= i < a.tasks.len() && task_is(#[trigger] a.tasks[i], creator, task_id) implies a.tasks[i].winner
            == Some(winner) by {
        if i < s.tasks.len() {
            assert(a.tasks[i] == s.tasks[i]);
        } else {
            assert(!s.has_task(new_creator, new_id@));
        }
    }
}

/// A successful `submit_work`, under any key, keeps a set winner.
pub proof fn lemma_submit_keeps_winner(
    s: SolverseView,
    creator: Pubkey,
    task_id: Seq<char>,
    winner: Pubkey,
    participant: Pubkey,
    task_creator: Pubkey,
    id: String,
    link: String,
    now: i64,
)
    requires
        winner_is(s, creator, task_id, winner),
        submit_work_result(s, participant, task_creator, id@, link@, now) is Ok,
    ensures
        winner_is(submit_work_after(s, participant, task_creator, id, link), creator, task_id, winner),
{
    let a = submit_work_after(s, participant, task_creator, id, link);
    let k = s.task_index(task_creator, id@);
    assert forall|i: int|
        0 <= i < a.tasks.len() && task_is(#[trigger] a.tasks[i], creator, task_id) implies a.tasks[i].winner
            == Some(winner) by {
        assert(task_key(a.tasks[i]) == task_key(s.tasks[i]));
        assert(a.tasks[i].winner == s.tasks[i].winner);
    }
}

/// A successful `pick_winner`, under any key, keeps a winner already set.
pub proof fn lemma_pick_keeps_winner(
    s: SolverseView,
    creator: Pubkey,
    task_id: Seq<char>,
    winner: Pubkey,
    task_creator: Pubkey,
    participant: Pubkey,
    id: Seq<char>,
    submission: Submission,
    now: i64,
)
    requires
        winner_is(s, creator, task_id, winner),
        pick_winner_result(s, task_creator, participant, id, submission, now) is Ok,
    ensures
        winner_is(pick_winner_after(s, task_creator, participant, id), creator, task_id, winner),
{
    let a = pick_winner_after(s, task_creator, participant, id);
    let k = s.task_index(task_creator, id);
    assert(task_is(s.tasks[k], task_creator, id));
    assert forall|i: int|
        0 <= i < a.tasks.len() && task_is(#[trigger] a.tasks[i], creator, task_id) implies a.tasks[i].winner
            == Some(winner) by {
        if i == k {
            assert(task_key(a.tasks[i]) == task_key(s.tasks[k]));
            assert(task_is(s.tasks[k], creator, task_id));
        } else {
            assert(a.tasks[i] == s.tasks[i]);
        }
    }
}

/// A successful `close_task`, under any key, keeps a set winner on the tasks
/// that remain.
pub proof fn lemma_close_keeps_winner(
    s: SolverseView,
    creator: Pubkey,
    task_id: Seq<char>,
    winner: Pubkey,
    task_creator: Pubkey,
    id: Seq<char>,
    now: i64,
)
    requires
        winner_is(s, creator, task_id, winner),
        close_task_result(s, task_creator, id, now) is Ok,
    ensures
        winner_is(close_task_after(s, task_creator, id), creator, task_id, winner),
{
    let a = close_task_after(s, task_creator, id);
    let k = s.task_index(task_creator, id);
    assert forall|i: int|
        0 <= i < a.tasks.len() && task_is(#[trigger] a.tasks[i], creator, task_id) implies a.tasks[i].winner
            == Some(winner) by {
        if i < k {
            assert(a.tasks[i] == s.tasks[i]);
        } else {
            assert(a.tasks[i] == s.tasks[i + 1]);
        }
    }
}

/// `accept_task`, `claim_reward` and `refund_escrow` leave the task records
/// as they are, so they keep a set winner.
pub proof fn lemma_other_operations_keep_winner(
    s: SolverseView,
    creator: Pubkey,
    task_id: Seq<char>,
    winner: Pubkey,
    participant: Pubkey,
    task_creator: Pubkey,
    id: String,
    to: Pubkey,
)
    requires
        winner_is(s, creator, task_id, winner),
    ensures
        winner_is(accept_task_after(s, participant, task_creator, id), creator, task_id, winner),
        winner_is(settle_after(s, to, task_creator, id@), creator, task_id, winner),
{
}

} // verus!
