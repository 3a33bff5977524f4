use std::collections::HashMap;

use vstd::prelude::*;

use crate::errors::BountyError;
use crate::keys::{lemma_unique_push, lemma_unique_remove, lemma_unique_update, unique_keys};
use crate::state::{
    byte_len, Escrow, Participation, ParticipationStatus, Pubkey, Submission, Task, AcceptTask,
    ClaimReward, CloseTask, CreateTask, PickWinner, RefundEscrow, SubmitWork, MAX_DESCRIPTION_LEN,
    MAX_LINK_LEN, MAX_TASK_ID_LEN,
};

verus! {

broadcast use vstd::std_specs::hash::group_hash_axioms;

/// The key of a task: its creator and identifier.
pub open spec fn task_key(t: Task) -> (Pubkey, Seq<char>) {
    (t.creator, t.task_id@)
}

/// The key of an escrow: the key of its task.
pub open spec fn escrow_key(e: Escrow) -> (Pubkey, Seq<char>) {
    (e.creator, e.seed@)
}

/// The key of a submission: its participant and the key of its task.
pub open spec fn submission_key(s: Submission) -> (Pubkey, Pubkey, Seq<char>) {
    (s.participant, s.task_creator, s.task_id@)
}

/// The key of a participation: its participant and the key of its task.
pub open spec fn participation_key(p: Participation) -> (Pubkey, Pubkey, Seq<char>) {
    (p.participant, p.task_creator, p.task_id@)
}

/// Whether `t` is the task of `creator` named `id`.
pub open spec fn task_is(t: Task, creator: Pubkey, id: Seq<char>) -> bool {
    t.creator == creator && t.task_id@ == id
}

/// Whether `e` is the escrow of the task of `creator` named `id`.
pub open spec fn escrow_is(e: Escrow, creator: Pubkey, id: Seq<char>) -> bool {
    e.creator == creator && e.seed@ == id
}

/// Whether `s` is the submission of `participant` to the task of `creator` named `id`.
pub open spec fn submission_is(s: Submission, participant: Pubkey, creator: Pubkey, id: Seq<char>) -> bool {
    s.participant == participant && s.task_creator == creator && s.task_id@ == id
}

/// Whether `p` is the participation of `participant` in the task of `creator` named `id`.
pub open spec fn participation_is(
    p: Participation,
    participant: Pubkey,
    creator: Pubkey,
    id: Seq<char>,
) -> bool {
    p.participant == participant && p.task_creator == creator && p.task_id@ == id
}

/// A task and the escrow under the same key agree on the window and winner.
pub open spec fn mirrors(t: Task, e: Escrow) -> bool {
    t.winner == e.winner && t.start_time == e.start_time && t.end_time == e.end_time
}

/// Every task and escrow that share a key mirror each other.
pub open spec fn mirrored(tasks: Seq<Task>, escrows: Seq<Escrow>) -> bool {
    forall|i: int, j: int|
        0 <= i < tasks.len() && 0 <= j < escrows.len() && task_key(#[trigger] tasks[i])
            == escrow_key(#[trigger] escrows[j]) ==> mirrors(tasks[i], escrows[j])
}

/// The records of a program, and the token balances of its users.
pub struct SolverseView {
    pub tasks: Seq<Task>,
    pub escrows: Seq<Escrow>,
    pub submissions: Seq<Submission>,
    pub participations: Seq<Participation>,
    pub balances: Map<Pubkey, u64>,
}

impl SolverseView {
    pub open spec fn has_task(self, creator: Pubkey, id: Seq<char>) -> bool {
        exists|i: int| 0 <= i < self.tasks.len() && task_is(#[trigger] self.tasks[i], creator, id)
    }

    pub open spec fn task_index(self, creator: Pubkey, id: Seq<char>) -> int {
        choose|i: int| 0 <= i < self.tasks.len() && task_is(#[trigger] self.tasks[i], creator, id)
    }

    /// The task of `creator` named `id`; meaningful where `has_task` holds.
    pub open spec fn task(self, creator: Pubkey, id: Seq<char>) -> Task {
        self.tasks[self.task_index(creator, id)]
    }

    pub open spec fn has_escrow(self, creator: Pubkey, id: Seq<char>) -> bool {
        exists|i: int|
            0 <= i < self.escrows.len() && escrow_is(#[trigger] self.escrows[i], creator, id)
    }

    pub open spec fn escrow_index(self, creator: Pubkey, id: Seq<char>) -> int {
        choose|i: int|
            0 <= i < self.escrows.len() && escrow_is(#[trigger] self.escrows[i], creator, id)
    }

    /// The escrow of the task of `creator` named `id`; meaningful where `has_escrow` holds.
    pub open spec fn escrow(self, creator: Pubkey, id: Seq<char>) -> Escrow {
        self.escrows[self.escrow_index(creator, id)]
    }

    pub open spec fn has_submission(self, participant: Pubkey, creator: Pubkey, id: Seq<char>) -> bool {
        exists|i: int|
            0 <= i < self.submissions.len() && submission_is(
                #[trigger] self.submissions[i],
                participant,
                creator,
                id,
            )
    }

    pub open spec fn has_participation(
        self,
        participant: Pubkey,
        creator: Pubkey,
        id: Seq<char>,
    ) -> bool {
        exists|i: int|
            0 <= i < self.participations.len() && participation_is(
                #[trigger] self.participations[i],
                participant,
                creator,
                id,
            )
    }

    /// The token balance of `owner` (zero for an owner never seen).
    pub open spec fn balance(self, owner: Pubkey) -> nat {
        if self.balances.contains_key(owner) {
            self.balances[owner] as nat
        } else {
            0
        }
    }

    /// Each key names at most one record of its kind, every task's window
    /// is non-empty, and a task and its escrow agree on window and winner.
    pub open spec fn wf(self) -> bool {
        &&& mirrored(self.tasks, self.escrows)
        &&& unique_keys(self.tasks, |t: Task| task_key(t))
        &&& unique_keys(self.escrows, |e: Escrow| escrow_key(e))
        &&& unique_keys(self.submissions, |s: Submission| submission_key(s))
        &&& unique_keys(self.participations, |p: Participation| participation_key(p))
        &&& forall|i: int|
            0 <= i < self.tasks.len() ==> (#[trigger] self.tasks[i]).start_time
                < self.tasks[i].end_time
    }
}

/// Whether a string fits a record field of `max` bytes.
pub open spec fn fits(s: Seq<char>, max: usize) -> bool {
    byte_len(s) <= max
}

/// The outcome of `create_task`, checked in this order: the task's key is
/// free, the identifier fits, the duration is positive, the end time does
/// not overflow, the creator can pay the reward, the description fits.
pub open spec fn create_task_result(
    s: SolverseView,
    creator: Pubkey,
    task_id: Seq<char>,
    description: Seq<char>,
    reward_amount: u64,
    duration: i64,
    now: i64,
) -> Result<(), BountyError> {
    if s.has_task(creator, task_id) || s.has_escrow(creator, task_id) {
        Err(BountyError::AlreadyInUse)
    } else if !fits(task_id, MAX_TASK_ID_LEN) {
        Err(BountyError::InputTooLong)
    } else if duration <= 0 || now + duration > i64::MAX {
        Err(BountyError::EscrowMismatch)
    } else if s.balance(creator) < reward_amount {
        Err(BountyError::TransferFailed)
    } else if !fits(description, MAX_DESCRIPTION_LEN) {
        Err(BountyError::InputTooLong)
    } else {
        Ok(())
    }
}

/// The state after a successful `create_task`: a new task and its escrow,
/// whose vault holds the reward taken from the creator.
pub open spec fn create_task_after(
    s: SolverseView,
    creator: Pubkey,
    task_id: String,
    description: String,
    reward_amount: u64,
    duration: i64,
    now: i64,
) -> SolverseView {
    SolverseView {
        tasks: s.tasks.push(
            Task {
                task_id,
                description,
                creator,
                reward: reward_amount,
                start_time: now,
                end_time: (now + duration) as i64,
                winner: None,
                submission_count: 0,
            },
        ),
        escrows: s.escrows.push(
            Escrow {
                seed: task_id,
                creator,
                reward_tokens: reward_amount,
                start_time: now,
                end_time: (now + duration) as i64,
                winner: None,
            },
        ),
        balances: s.balances.insert(creator, (s.balance(creator) - reward_amount) as u64),
        ..s
    }
}

/// The outcome of `accept_task`: the task must exist and the participant
/// must not have accepted it before.
pub open spec fn accept_task_result(
    s: SolverseView,
    participant: Pubkey,
    creator: Pubkey,
    task_id: Seq<char>,
) -> Result<(), BountyError> {
    if !s.has_task(creator, task_id) {
        Err(BountyError::AccountMissing)
    } else if s.has_participation(participant, creator, task_id) {
        Err(BountyError::AlreadyInUse)
    } else {
        Ok(())
    }
}

/// The state after a successful `accept_task`: one more participation.
pub open spec fn accept_task_after(
    s: SolverseView,
    participant: Pubkey,
    creator: Pubkey,
    task_id: String,
) -> SolverseView {
    SolverseView {
        participations: s.participations.push(
            Participation {
                participant,
                task_creator: creator,
                task_id,
                status: ParticipationStatus::Accepted,
            },
        ),
        ..s
    }
}

/// The outcome of `submit_work`, checked in this order: the task exists,
/// its window is open, the caller named its creator, the participant has
/// not submitted yet, the counter does not overflow, the link fits.
pub open spec fn submit_work_result(
    s: SolverseView,
    participant: Pubkey,
    creator: Pubkey,
    task_id: Seq<char>,
    link: Seq<char>,
    now: i64,
) -> Result<(), BountyError> {
    if !s.has_task(creator, task_id) {
        Err(BountyError::AccountMissing)
    } else if now >= s.task(creator, task_id).end_time {
        Err(BountyError::TaskEnded)
    } else if s.task(creator, task_id).creator != creator {
        Err(BountyError::NotCreator)
    } else if s.has_submission(participant, creator, task_id) {
        Err(BountyError::AlreadySubmitted)
    } else if s.task(creator, task_id).submission_count == u32::MAX {
        Err(BountyError::EscrowMismatch)
    } else if !fits(link, MAX_LINK_LEN) {
        Err(BountyError::InputTooLong)
    } else {
        Ok(())
    }
}

/// The state after a successful `submit_work`: the task counts one more
/// submission, and the submission is recorded.
pub open spec fn submit_work_after(
    s: SolverseView,
    participant: Pubkey,
    creator: Pubkey,
    task_id: String,
    link: String,
) -> SolverseView {
    let t = s.task(creator, task_id@);
    SolverseView {
        tasks: s.tasks.update(
            s.task_index(creator, task_id@),
            Task { submission_count: (t.submission_count + 1) as u32, ..t },
        ),
        submissions: s.submissions.push(
            Submission { participant, task_creator: creator, task_id, link },
        ),
        ..s
    }
}

/// The outcome of `pick_winner`, checked in this order: the task and its
/// escrow exist, the window has closed, no winner is set yet, `submission`
/// belongs to the chosen participant and to the task named, and it is
/// recorded.
pub open spec fn pick_winner_result(
    s: SolverseView,
    creator: Pubkey,
    participant: Pubkey,
    task_id: Seq<char>,
    submission: Submission,
    now: i64,
) -> Result<(), BountyError> {
    if !s.has_task(creator, task_id) || !s.has_escrow(creator, task_id) {
        Err(BountyError::AccountMissing)
    } else if now < s.task(creator, task_id).end_time {
        Err(BountyError::TaskNotEnded)
    } else if s.task(creator, task_id).winner is Some {
        Err(BountyError::InvalidWinner)
    } else if !submission_is(submission, participant, creator, task_id) {
        Err(BountyError::InvalidWinner)
    } else if !s.has_submission(participant, creator, task_id) {
        Err(BountyError::NoSubmissions)
    } else {
        Ok(())
    }
}

/// The state after a successful `pick_winner`: task and escrow both name
/// the participant as winner.
pub open spec fn pick_winner_after(
    s: SolverseView,
    creator: Pubkey,
    participant: Pubkey,
    task_id: Seq<char>,
) -> SolverseView {
    let t = s.task(creator, task_id);
    let e = s.escrow(creator, task_id);
    SolverseView {
        tasks: s.tasks.update(s.task_index(creator, task_id), Task { winner: Some(participant), ..t }),
        escrows: s.escrows.update(
            s.escrow_index(creator, task_id),
            Escrow { winner: Some(participant), ..e },
        ),
        ..s
    }
}

/// The outcome of `claim_reward`, checked in this order: the task exists,
/// its window has closed, its escrow exists, both name the caller as winner, the
/// vault is not empty, the winner's balance can take the reward.
pub open spec fn claim_reward_result(
    s: SolverseView,
    winner: Pubkey,
    creator: Pubkey,
    task_id: Seq<char>,
    now: i64,
) -> Result<(), BountyError> {
    if !s.has_task(creator, task_id) {
        Err(BountyError::AccountMissing)
    } else if now < s.task(creator, task_id).end_time {
        Err(BountyError::TaskNotEnded)
    } else if !s.has_escrow(creator, task_id) {
        Err(BountyError::AccountMissing)
    } else if s.task(creator, task_id).winner != Some(winner) || s.escrow(creator, task_id).winner
        != Some(winner) {
        Err(BountyError::InvalidWinner)
    } else if s.escrow(creator, task_id).reward_tokens == 0 {
        Err(BountyError::EscrowMismatch)
    } else if s.balance(winner) + s.escrow(creator, task_id).reward_tokens > u64::MAX {
        Err(BountyError::TransferFailed)
    } else {
        Ok(())
    }
}

/// The state after the vault of the task's escrow is paid out to `to`: the
/// balance moves, and the escrow with its vault is gone.
pub open spec fn settle_after(
    s: SolverseView,
    to: Pubkey,
    creator: Pubkey,
    task_id: Seq<char>,
) -> SolverseView {
    SolverseView {
        escrows: s.escrows.remove(s.escrow_index(creator, task_id)),
        balances: s.balances.insert(
            to,
            (s.balance(to) + s.escrow(creator, task_id).reward_tokens) as u64,
        ),
        ..s
    }
}

/// The outcome of `refund_escrow`, checked in this order: the task exists,
/// its window has closed, its escrow exists, no winner was picked, the vault is
/// not empty, the creator's balance can take the reward.
pub open spec fn refund_escrow_result(
    s: SolverseView,
    creator: Pubkey,
    task_id: Seq<char>,
    now: i64,
) -> Result<(), BountyError> {
    if !s.has_task(creator, task_id) {
        Err(BountyError::AccountMissing)
    } else if now < s.task(creator, task_id).end_time {
        Err(BountyError::TaskNotEnded)
    } else if !s.has_escrow(creator, task_id) {
        Err(BountyError::AccountMissing)
    } else if s.task(creator, task_id).winner is Some {
        Err(BountyError::InvalidWinner)
    } else if s.escrow(creator, task_id).reward_tokens == 0 {
        Err(BountyError::EscrowMismatch)
    } else if s.balance(creator) + s.escrow(creator, task_id).reward_tokens > u64::MAX {
        Err(BountyError::TransferFailed)
    } else {
        Ok(())
    }
}

/// The outcome of `close_task`: the task exists and its window has closed.
pub open spec fn close_task_result(
    s: SolverseView,
    creator: Pubkey,
    task_id: Seq<char>,
    now: i64,
) -> Result<(), BountyError> {
    if !s.has_task(creator, task_id) {
        Err(BountyError::AccountMissing)
    } else if now < s.task(creator, task_id).end_time {
        Err(BountyError::TaskNotEnded)
    } else {
        Ok(())
    }
}

/// The state after a successful `close_task`: the task record is gone.
pub open spec fn close_task_after(s: SolverseView, creator: Pubkey, task_id: Seq<char>) -> SolverseView {
    SolverseView { tasks: s.tasks.remove(s.task_index(creator, task_id)), ..s }
}

/// The whole state of the program: its records and a token ledger.
pub struct Solverse {
    pub tasks: Vec<Task>,
    pub escrows: Vec<Escrow>,
    pub submissions: Vec<Submission>,
    pub participations: Vec<Participation>,
    pub balances: HashMap<Pubkey, u64>,
}

impl View for Solverse {
    type V = SolverseView;

    open spec fn view(&self) -> SolverseView {
        SolverseView {
            tasks: self.tasks@,
            escrows: self.escrows@,
            submissions: self.submissions@,
            participations: self.participations@,
            balances: self.balances@,
        }
    }
}

impl Solverse {
    /// A program with no records and no balances.
    pub fn new() -> (r: Solverse)
        ensures
            r@.tasks.len() == 0,
            r@.escrows.len() == 0,
            r@.submissions.len() == 0,
            r@.participations.len() == 0,
            r@.balances == Map::<Pubkey, u64>::empty(),
            r@.wf(),
    {
        Solverse {
            tasks: Vec::new(),
            escrows: Vec::new(),
            submissions: Vec::new(),
            participations: Vec::new(),
            balances: HashMap::new(),
        }
    }

    pub open spec fn wf(&self) -> bool {
        self@.wf()
    }

    /// Index of the task of `creator` named `task_id`.
    fn find_task(&self, creator: Pubkey, task_id: &String) -> (r: Option<usize>)
        requires
            self.wf(),
        ensures
            match r {
                Some(i) => self@.has_task(creator, task_id@) && i as int == self@.task_index(
                    creator,
                    task_id@,
                ),
                None => !self@.has_task(creator, task_id@),
            },
    {
        let mut i: usize = 0;
        while i < self.tasks.len()
            invariant
                self.wf(),
                i <= self.tasks.len(),
                forall|j: int| 0 <= j < i ==> !task_is(#[trigger] self.tasks@[j], creator, task_id@),
            decreases self.tasks.len() - i,
        {
            if self.tasks[i].creator == creator && self.tasks[i].task_id == *task_id {
                proof {
                    let v = self@;
                    assert(task_is(v.tasks[i as int], creator, task_id@));
                    let k = v.task_index(creator, task_id@);
                    assert(task_is(v.tasks[k], v.tasks[i as int].creator, v.tasks[i as int].task_id@));
                }
                return Some(i);
            }
            i = i + 1;
        }
        None
    }

    /// Index of the escrow of the task of `creator` named `task_id`.
    fn find_escrow(&self, creator: Pubkey, task_id: &String) -> (r: Option<usize>)
        requires
            self.wf(),
        ensures
            match r {
                Some(i) => self@.has_escrow(creator, task_id@) && i as int == self@.escrow_index(
                    creator,
                    task_id@,
                ),
                None => !self@.has_escrow(creator, task_id@),
            },
    {
        let mut i: usize = 0;
        while i < self.escrows.len()
            invariant
                self.wf(),
                i <= self.escrows.len(),
                forall|j: int|
                    0 <= j < i ==> !escrow_is(#[trigger] self.escrows@[j], creator, task_id@),
            decreases self.escrows.len() - i,
        {
            if self.escrows[i].creator == creator && self.escrows[i].seed == *task_id {
                proof {
                    let v = self@;
                    assert(escrow_is(v.escrows[i as int], creator, task_id@));
                    let k = v.escrow_index(creator, task_id@);
                    assert(escrow_is(v.escrows[k], v.escrows[i as int].creator, v.escrows[i as int].seed@));
                }
                return Some(i);
            }
            i = i + 1;
        }
        None
    }

    /// Whether `participant` has a submission for the task of `creator` named `task_id`.
    fn submission_exists(&self, participant: Pubkey, creator: Pubkey, task_id: &String) -> (r: bool)
        ensures
            r == self@.has_submission(participant, creator, task_id@),
    {
        let mut i: usize = 0;
        while i < self.submissions.len()
            invariant
                i <= self.submissions.len(),
                forall|j: int|
                    0 <= j < i ==> !submission_is(
                        #[trigger] self.submissions@[j],
                        participant,
                        creator,
                        task_id@,
                    ),
            decreases self.submissions.len() - i,
        {
            let sub = &self.submissions[i];
            if sub.participant == participant && sub.task_creator == creator && sub.task_id
                == *task_id {
                assert(submission_is(self@.submissions[i as int], participant, creator, task_id@));
                return true;
            }
            i = i + 1;
        }
        false
    }

    /// Whether `participant` has accepted the task of `creator` named `task_id`.
    fn participation_exists(&self, participant: Pubkey, creator: Pubkey, task_id: &String) -> (r:
        bool)
        ensures
            r == self@.has_participation(participant, creator, task_id@),
    {
        let mut i: usize = 0;
        while i < self.participations.len()
            invariant
                i <= self.participations.len(),
                forall|j: int|
                    0 <= j < i ==> !participation_is(
                        #[trigger] self.participations@[j],
                        participant,
                        creator,
                        task_id@,
                    ),
            decreases self.participations.len() - i,
        {
            let p = &self.participations[i];
            if p.participant == participant && p.task_creator == creator && p.task_id == *task_id {
                assert(participation_is(
                    self@.participations[i as int],
                    participant,
                    creator,
                    task_id@,
                ));
                return true;
            }
            i = i + 1;
        }
        false
    }

    /// The token balance of `owner`.
    pub fn balance_of(&self, owner: Pubkey) -> (r: u64)
        ensures
            r as nat == self@.balance(owner),
    {
        match self.balances.get(&owner) {
            Some(v) => *v,
            None => 0,
        }
    }

    /// Credits `amount` tokens to `owner`, as the token ledger's mint does.
    pub fn mint_to(&mut self, owner: Pubkey, amount: u64) -> (r: Result<(), BountyError>)
        ensures
            r == (if old(self)@.balance(owner) + amount > u64::MAX {
                Err(BountyError::TransferFailed)
            } else {
                Ok(())
            }),
            r is Ok ==> final(self)@ == (SolverseView {
                balances: old(self)@.balances.insert(
                    owner,
                    (old(self)@.balance(owner) + amount) as u64,
                ),
                ..old(self)@
            }),
            r is Err ==> final(self)@ == old(self)@,
    {
        let b = self.balance_of(owner);
        match b.checked_add(amount) {
            Some(n) => {
                self.balances.insert(owner, n);
                Ok(())
            },
            None => Err(BountyError::TransferFailed),
        }
    }
}

} // verus!

verus! {

/// Posts a task whose window opens at `now` and lasts `duration` seconds,
/// and moves `reward_amount` tokens from the creator into its escrow's vault.
pub fn create_task(
    program: &mut Solverse,
    accounts: CreateTask,
    now: i64,
    task_id: String,
    description: String,
    reward_amount: u64,
    duration: i64,
) -> (r: Result<(), BountyError>)
    requires
        old(program).wf(),
    ensures
        final(program).wf(),
        r == create_task_result(
            old(program)@,
            accounts.creator,
            task_id@,
            description@,
            reward_amount,
            duration,
            now,
        ),
        r is Ok ==> final(program)@ == create_task_after(
            old(program)@,
            accounts.creator,
            task_id,
            description,
            reward_amount,
            duration,
            now,
        ),
        r is Err ==> final(program)@ == old(program)@,
{
    let creator = accounts.creator;
    if program.find_task(creator, &task_id).is_some() || program.find_escrow(
        creator,
        &task_id,
    ).is_some() {
        return Err(BountyError::AlreadyInUse);
    }
    if task_id.as_str().as_bytes().len() > MAX_TASK_ID_LEN {
        return Err(BountyError::InputTooLong);
    }
    if duration <= 0 {
        return Err(BountyError::EscrowMismatch);
    }
    let end_time = match now.checked_add(duration) {
        Some(t) => t,
        None => {
            return Err(BountyError::EscrowMismatch);
        },
    };
    let balance = program.balance_of(creator);
    if balance < reward_amount {
        return Err(BountyError::TransferFailed);
    }
    if description.as_str().as_bytes().len() > MAX_DESCRIPTION_LEN {
        return Err(BountyError::InputTooLong);
    }
    let ghost s = program@;
    let seed = task_id.clone();
    let task = Task {
        task_id,
        description,
        creator,
        reward: reward_amount,
        start_time: now,
        end_time,
        winner: None,
        submission_count: 0,
    };
    let escrow = Escrow {
        seed,
        creator,
        reward_tokens: reward_amount,
        start_time: now,
        end_time,
        winner: None,
    };
    proof {
        lemma_unique_push(s.tasks, |t: Task| task_key(t), task);
        lemma_unique_push(s.escrows, |e: Escrow| escrow_key(e), escrow);
    }
    program.tasks.push(task);
    program.escrows.push(escrow);
    program.balances.insert(creator, balance - reward_amount);
    Ok(())
}

/// Records that the caller intends to work on the task. No timing check
/// applies.
pub fn accept_task(program: &mut Solverse, accounts: AcceptTask, task_id: String) -> (r: Result<
    (),
    BountyError,
>)
    requires
        old(program).wf(),
    ensures
        final(program).wf(),
        r == accept_task_result(old(program)@, accounts.participant, accounts.creator, task_id@),
        r is Ok ==> final(program)@ == accept_task_after(
            old(program)@,
            accounts.participant,
            accounts.creator,
            task_id,
        ),
        r is Err ==> final(program)@ == old(program)@,
{
    let participant = accounts.participant;
    let creator = accounts.creator;
    if program.find_task(creator, &task_id).is_none() {
        return Err(BountyError::AccountMissing);
    }
    if program.participation_exists(participant, creator, &task_id) {
        return Err(BountyError::AlreadyInUse);
    }
    let participation = Participation {
        participant,
        task_creator: creator,
        task_id,
        status: ParticipationStatus::Accepted,
    };
    proof {
        lemma_unique_push(
            program@.participations,
            |p: Participation| participation_key(p),
            participation,
        );
    }
    program.participations.push(participation);
    Ok(())
}

/// Records the caller's work for a task whose window is still open, and
/// counts it on the task.
pub fn submit_work(
    program: &mut Solverse,
    accounts: SubmitWork,
    now: i64,
    task_id: String,
    link: String,
) -> (r: Result<(), BountyError>)
    requires
        old(program).wf(),
    ensures
        final(program).wf(),
        r == submit_work_result(
            old(program)@,
            accounts.participant,
            accounts.creator,
            task_id@,
            link@,
            now,
        ),
        r is Ok ==> final(program)@ == submit_work_after(
            old(program)@,
            accounts.participant,
            accounts.creator,
            task_id,
            link,
        ),
        r is Err ==> final(program)@ == old(program)@,
{
    let participant = accounts.participant;
    let creator = accounts.creator;
    let i = match program.find_task(creator, &task_id) {
        Some(i) => i,
        None => {
            return Err(BountyError::AccountMissing);
        },
    };
    if now >= program.tasks[i].end_time {
        return Err(BountyError::TaskEnded);
    }
    if program.tasks[i].creator != creator {
        return Err(BountyError::NotCreator);
    }
    if program.submission_exists(participant, creator, &task_id) {
        return Err(BountyError::AlreadySubmitted);
    }
    let count = match program.tasks[i].submission_count.checked_add(1) {
        Some(n) => n,
        None => {
            return Err(BountyError::EscrowMismatch);
        },
    };
    if link.as_str().as_bytes().len() > MAX_LINK_LEN {
        return Err(BountyError::InputTooLong);
    }
    let ghost s = program@;
    let ghost t = Task { submission_count: count, ..s.tasks[i as int] };
    program.tasks[i].submission_count = count;
    let submission = Submission { participant, task_creator: creator, task_id, link };
    proof {
        assert(program@.tasks == s.tasks.update(i as int, t));
        lemma_unique_update(s.tasks, |t: Task| task_key(t), i as int, t);
        lemma_unique_push(s.submissions, |x: Submission| submission_key(x), submission);
    }
    program.submissions.push(submission);
    Ok(())
}

/// Names the winner of a task whose window has closed: `submission` must be
/// the chosen participant's recorded entry for the task, and no winner may be
/// set yet.
pub fn pick_winner(
    program: &mut Solverse,
    accounts: PickWinner,
    now: i64,
    task_id: String,
    submission: &Submission,
) -> (r: Result<(), BountyError>)
    requires
        old(program).wf(),
    ensures
        final(program).wf(),
        r == pick_winner_result(
            old(program)@,
            accounts.creator,
            accounts.participant,
            task_id@,
            *submission,
            now,
        ),
        r is Ok ==> final(program)@ == pick_winner_after(
            old(program)@,
            accounts.creator,
            accounts.participant,
            task_id@,
        ),
        r is Err ==> final(program)@ == old(program)@,
{
    let creator = accounts.creator;
    let participant = accounts.participant;
    let ti = match program.find_task(creator, &task_id) {
        Some(i) => i,
        None => {
            return Err(BountyError::AccountMissing);
        },
    };
    let ei = match program.find_escrow(creator, &task_id) {
        Some(i) => i,
        None => {
            return Err(BountyError::AccountMissing);
        },
    };
    if now < program.tasks[ti].end_time {
        return Err(BountyError::TaskNotEnded);
    }
    if program.tasks[ti].winner.is_some() {
        return Err(BountyError::InvalidWinner);
    }
    if !(submission.participant == participant && submission.task_creator == creator
        && submission.task_id == task_id) {
        return Err(BountyError::InvalidWinner);
    }
    if !program.submission_exists(participant, creator, &task_id) {
        return Err(BountyError::NoSubmissions);
    }
    let ghost s = program@;
    let ghost t = Task { winner: Some(participant), ..s.tasks[ti as int] };
    let ghost e = Escrow { winner: Some(participant), ..s.escrows[ei as int] };
    program.tasks[ti].winner = Some(participant);
    program.escrows[ei].winner = Some(participant);
    proof {
        assert(program@.tasks == s.tasks.update(ti as int, t));
        assert(program@.escrows == s.escrows.update(ei as int, e));
        lemma_unique_update(s.tasks, |t: Task| task_key(t), ti as int, t);
        lemma_unique_update(s.escrows, |e: Escrow| escrow_key(e), ei as int, e);
    }
    Ok(())
}

/// Pays the whole vault of the escrow at `ei` to `to` and removes the
/// escrow with its vault.
fn release_vault(
    program: &mut Solverse,
    creator: Pubkey,
    task_id: &String,
    ei: usize,
    to: Pubkey,
) -> (r: Result<(), BountyError>)
    requires
        old(program).wf(),
        old(program)@.has_escrow(creator, task_id@),
        ei as int == old(program)@.escrow_index(creator, task_id@),
    ensures
        final(program).wf(),
        r == (if old(program)@.escrow(creator, task_id@).reward_tokens == 0 {
            Err(BountyError::EscrowMismatch)
        } else if old(program)@.balance(to) + old(program)@.escrow(creator, task_id@).reward_tokens
            > u64::MAX {
            Err(BountyError::TransferFailed)
        } else {
            Ok(())
        }),
        r is Ok ==> final(program)@ == settle_after(old(program)@, to, creator, task_id@),
        r is Err ==> final(program)@ == old(program)@,
{
    let amount = program.escrows[ei].reward_tokens;
    if amount == 0 {
        return Err(BountyError::EscrowMismatch);
    }
    let balance = program.balance_of(to);
    let credited = match balance.checked_add(amount) {
        Some(n) => n,
        None => {
            return Err(BountyError::TransferFailed);
        },
    };
    proof {
        lemma_unique_remove(program@.escrows, |e: Escrow| escrow_key(e), ei as int);
    }
    program.escrows.remove(ei);
    program.balances.insert(to, credited);
    Ok(())
}

/// Pays the vault of a task's escrow to its winner, who must be the caller,
/// and removes the escrow.
pub fn claim_reward(program: &mut Solverse, accounts: ClaimReward, now: i64, task_id: String) -> (r:
    Result<(), BountyError>)
    requires
        old(program).wf(),
    ensures
        final(program).wf(),
        r == claim_reward_result(old(program)@, accounts.winner, accounts.creator, task_id@, now),
        r is Ok ==> final(program)@ == settle_after(
            old(program)@,
            accounts.winner,
            accounts.creator,
            task_id@,
        ),
        r is Err ==> final(program)@ == old(program)@,
{
    let winner = accounts.winner;
    let creator = accounts.creator;
    let ti = match program.find_task(creator, &task_id) {
        Some(i) => i,
        None => {
            return Err(BountyError::AccountMissing);
        },
    };
    if now < program.tasks[ti].end_time {
        return Err(BountyError::TaskNotEnded);
    }
    let ei = match program.find_escrow(creator, &task_id) {
        Some(i) => i,
        None => {
            return Err(BountyError::AccountMissing);
        },
    };
    let task_names_winner = match program.tasks[ti].winner {
        Some(w) => w == winner,
        None => false,
    };
    let escrow_names_winner = match program.escrows[ei].winner {
        Some(w) => w == winner,
        None => false,
    };
    if !task_names_winner || !escrow_names_winner {
        return Err(BountyError::InvalidWinner);
    }
    release_vault(program, creator, &task_id, ei, winner)
}

/// Returns the vault of a task's escrow to its creator, who must be the
/// caller, when no winner was picked, and removes the escrow.
pub fn refund_escrow(program: &mut Solverse, accounts: RefundEscrow, now: i64, task_id: String) -> (r:
    Result<(), BountyError>)
    requires
        old(program).wf(),
    ensures
        final(program).wf(),
        r == refund_escrow_result(old(program)@, accounts.creator, task_id@, now),
        r is Ok ==> final(program)@ == settle_after(
            old(program)@,
            accounts.creator,
            accounts.creator,
            task_id@,
        ),
        r is Err ==> final(program)@ == old(program)@,
{
    let creator = accounts.creator;
    let ti = match program.find_task(creator, &task_id) {
        Some(i) => i,
        None => {
            return Err(BountyError::AccountMissing);
        },
    };
    if now < program.tasks[ti].end_time {
        return Err(BountyError::TaskNotEnded);
    }
    let ei = match program.find_escrow(creator, &task_id) {
        Some(i) => i,
        None => {
            return Err(BountyError::AccountMissing);
        },
    };
    if program.tasks[ti].winner.is_some() {
        return Err(BountyError::InvalidWinner);
    }
    release_vault(program, creator, &task_id, ei, creator)
}

/// Removes a task record once its window has closed. The escrow is left
/// as it is.
pub fn close_task(program: &mut Solverse, accounts: CloseTask, now: i64, task_id: String) -> (r:
    Result<(), BountyError>)
    requires
        old(program).wf(),
    ensures
        final(program).wf(),
        r == close_task_result(old(program)@, accounts.creator, task_id@, now),
        r is Ok ==> final(program)@ == close_task_after(old(program)@, accounts.creator, task_id@),
        r is Err ==> final(program)@ == old(program)@,
{
    let creator = accounts.creator;
    let ti = match program.find_task(creator, &task_id) {
        Some(i) => i,
        None => {
            return Err(BountyError::AccountMissing);
        },
    };
    if now < program.tasks[ti].end_time {
        return Err(BountyError::TaskNotEnded);
    }
    proof {
        lemma_unique_remove(program@.tasks, |t: Task| task_key(t), ti as int);
    }
    program.tasks.remove(ti);
    Ok(())
}

} // verus!
