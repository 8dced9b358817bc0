//! Tasks a user sets for themself: each pays its flux once, when done.

use vstd::prelude::*;
use crate::errors::Refusal;
use crate::ledger::{User, ISRDO};
use crate::outside::fresh_uuid;

verus! {

/// Most tasks a ledger can hold at a time.
pub const TASK_LIMIT: usize = 8;

/// Flux a ledger must hold before it can take a task.
pub const TASK_FLOOR: i128 = 80;

/// The tasks that do not carry the identifier `uuid`.
pub open spec fn tasks_other_than(uuid: u128) -> spec_fn(ISRDO) -> bool {
    |t: ISRDO| t.uuid != uuid
}

/// `at` is the first place in `held` whose task carries `uuid`.
pub open spec fn first_task(held: Seq<ISRDO>, uuid: u128, at: int) -> bool {
    &&& 0 <= at < held.len()
    &&& held[at].uuid == uuid
    &&& forall|j: int| 0 <= j < at ==> held[j].uuid != uuid
}

/// Some task of `held` carries `uuid`.
pub open spec fn has_task(held: Seq<ISRDO>, uuid: u128) -> bool {
    exists|at: int| first_task(held, uuid, at)
}

/// The ledger takes no task: it holds too little flux or its fill of tasks,
/// or the task says nothing.
pub open spec fn task_refused(pre: User, description: Seq<char>) -> bool {
    pre.flux < TASK_FLOOR || pre.isrdos@.len() == TASK_LIMIT || description.len() == 0
}

/// What the first task that carries `uuid` pays; zero where none carries it.
pub open spec fn task_due(held: Seq<ISRDO>, uuid: u128) -> int {
    if has_task(held, uuid) {
        held[choose|at: int| first_task(held, uuid, at)].payout as int
    } else {
        0
    }
}

/// What a request to set a task makes of the ledger and answers: a refused
/// task is forbidden and leaves the ledger as it was; else the task, with
/// this description and payout, is held last and answered.
pub open spec fn task_set(
    pre: User,
    post: User,
    description: String,
    payout: u16,
    out: Result<ISRDO, Refusal>,
) -> bool {
    if task_refused(pre, description@) {
        out == Err::<ISRDO, Refusal>(Refusal::Forbidden) && post == pre
    } else {
        &&& out matches Ok(made)
        &&& made.description == description
        &&& made.payout == payout
        &&& post.isrdos@ == pre.isrdos@.push(made)
        &&& post == (User { isrdos: post.isrdos, ..pre })
    }
}

/// What marking the task `uuid` as done makes of the ledger and answers:
/// where no task carries `uuid`, nothing is found and the ledger stays as it
/// was; else what the first such task pays is credited as flux and
/// answered, and every task that carries `uuid` leaves the ledger.
pub open spec fn task_completed(pre: User, post: User, uuid: u128, out: Result<i128, Refusal>) -> bool {
    if has_task(pre.isrdos@, uuid) {
        &&& out == Ok::<i128, Refusal>(task_due(pre.isrdos@, uuid) as i128)
        &&& post.isrdos@ == pre.isrdos@.filter(tasks_other_than(uuid))
        &&& post.flux == pre.flux + task_due(pre.isrdos@, uuid)
        &&& post == (User { isrdos: post.isrdos, flux: post.flux, ..pre })
    } else {
        out == Err::<i128, Refusal>(Refusal::NotFound) && post == pre
    }
}

/// A copy of the tasks.
fn copy_tasks(held: &Vec<ISRDO>) -> (copy: Vec<ISRDO>)
    ensures
        copy@ == held@,
{
    let mut copy: Vec<ISRDO> = Vec::new();
    for i in 0..held.len()
        invariant
            copy@ == held@.take(i as int),
    {
        copy.push(held[i].clone());
    }
    copy
}

/// The tasks of `held` that do not carry `uuid`, in order.
fn tasks_without(held: &Vec<ISRDO>, uuid: u128) -> (kept: Vec<ISRDO>)
    ensures
        kept@ == held@.filter(tasks_other_than(uuid)),
{
    let mut kept: Vec<ISRDO> = Vec::new();
    proof {
        Seq::<ISRDO>::empty().lemma_filter_len(tasks_other_than(uuid));
    }
    for i in 0..held.len()
        invariant
            kept@ == held@.take(i as int).filter(tasks_other_than(uuid)),
    {
        proof {
            held@.take(i as int).lemma_filter_push(held@[i as int], tasks_other_than(uuid));
            assert(held@.take(i + 1) =~= held@.take(i as int).push(held@[i as int]));
        }
        if held[i].uuid != uuid {
            kept.push(held[i].clone());
        }
    }
    assert(held@.take(held@.len() as int) =~= held@);
    kept
}

/// What the first task of `held` that carries `uuid` pays, if there is one.
fn find_task(held: &Vec<ISRDO>, uuid: u128) -> (found: Option<u16>)
    ensures
        found is Some == has_task(held@, uuid),
        found matches Some(payout) ==> payout == task_due(held@, uuid),
{
    let mut i: usize = 0;
    while i < held.len()
        invariant
            i <= held.len(),
            forall|j: int| 0 <= j < i ==> held@[j].uuid != uuid,
        decreases held.len() - i,
    {
        if held[i].uuid == uuid {
            assert(first_task(held@, uuid, i as int));
            return Some(held[i].payout);
        }
        i += 1;
    }
    None
}

/// Sets a task that will pay `payout` flux. The ledger takes it unless
/// `task_refused`; then the request is forbidden and the ledger stays as it
/// was. The task answered is the one now held last.
pub fn isrdo(user: &mut User, description: String, payout: u16) -> (out: Result<ISRDO, Refusal>)
    ensures
        task_set(*old(user), *final(user), description, payout, out),
{
    if user.flux < TASK_FLOOR || user.isrdos.len() == TASK_LIMIT || description.as_str().is_empty() {
        return Err(Refusal::Forbidden);
    }
    let made = ISRDO { description, payout, uuid: fresh_uuid() };

    user.isrdos.push(made.clone());
    Ok(made)
}

/// The tasks that the ledger holds; where it holds none, nothing is found.
pub fn get_isrdos(user: &User) -> (out: Result<Vec<ISRDO>, Refusal>)
    ensures
        user.isrdos@.len() < 1 ==> out == Err::<Vec<ISRDO>, Refusal>(Refusal::NotFound),
        user.isrdos@.len() >= 1 ==> (out matches Ok(held) && held@ == user.isrdos@),
{
    if user.isrdos.len() < 1 {
        return Err(Refusal::NotFound);
    }
    Ok(copy_tasks(&user.isrdos))
}

/// Marks the task that carries `uuid` as done: what the first such task
/// pays is credited as flux and answered, and every task that carries `uuid`
/// leaves the ledger. Where none carries it, nothing is found and the ledger
/// stays as it was.
pub fn isrdo_complete(user: &mut User, uuid: u128) -> (out: Result<i128, Refusal>)
    requires
        old(user).flux + task_due(old(user).isrdos@, uuid) <= i128::MAX,
    ensures
        task_completed(*old(user), *final(user), uuid, out),
{
    match find_task(&user.isrdos, uuid) {
        Some(due) => {
            let payout = due as i128;
            user.isrdos = tasks_without(&user.isrdos, uuid);

            user.flux += payout;
            Ok(payout)
        },
        None => Err(Refusal::NotFound),
    }
}

impl User {
    /// Tells whether `isrdo_complete` may be called with `uuid`: what the
    /// task pays fits the ledger's flux.
    pub fn task_in_range(&self, uuid: u128) -> (ok: bool)
        ensures
            ok == (self.flux + task_due(self.isrdos@, uuid) <= i128::MAX),
    {
        match find_task(&self.isrdos, uuid) {
            Some(due) => self.flux <= i128::MAX - (due as i128),
            None => true,
        }
    }
}

} // verus!
