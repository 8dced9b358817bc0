//! What holds of a ledger across every operation of the library.

use vstd::prelude::*;
use crate::daily::{dailies_answered, DailiesResp};
use crate::errors::Refusal;
use crate::isrdo::{task_completed, task_set};
use crate::ledger::{User, ISRDO};
use crate::pull::{outcome_applied, pulled, PullResponse, Rolls};
use crate::rarity::Rarities;
use crate::store::{batch_answered, purchase_answered, spent};
use crate::timer::{payout_floor, timer_started, timer_stopped, Category, TimerResponse};
use crate::voucher::Voucher;

verus! {

/// `post` is what one operation of the library makes of `pre`: a draw or a
/// pull, a request on the quest slots, the start or the stop of a timer, a
/// spending, a purchase or a batch, a task set or done, or a change to the
/// vouchers held or to the catalog alone.
pub open spec fn step(pre: User, post: User) -> bool {
    ||| exists|outcome: Rarities, rolls: Rolls, count: u8|
        outcome_applied(pre, post, outcome, rolls, count)
    ||| exists|outcome: Rarities, rolls: Rolls, resp: PullResponse|
        pulled(pre, post, outcome, rolls, resp)
    ||| exists|info: bool, id: u8, now: int, out: Result<DailiesResp, Refusal>|
        dailies_answered(pre, post, info, id, now, out)
    ||| exists|category: Category, now: int, resp: TimerResponse|
        timer_started(pre, post, category, now, resp)
    ||| exists|now: int, resp: TimerResponse| timer_stopped(pre, post, now, resp)
    ||| exists|total: int, now: int| spent(pre, post, total, now)
    ||| exists|id: u64, amount: u8, now: int, out: Result<Voucher, Refusal>|
        purchase_answered(pre, post, id, amount, now, out)
    ||| exists|id: u64, amount: u8, now: int, out: Result<(), Refusal>|
        batch_answered(pre, post, id, amount, now, out)
    ||| exists|description: String, payout: u16, out: Result<ISRDO, Refusal>|
        task_set(pre, post, description, payout, out)
    ||| exists|uuid: u128, out: Result<i128, Refusal>| task_completed(pre, post, uuid, out)
    ||| post == (User { vouchers: post.vouchers, ..pre })
    ||| post == (User { templates: post.templates, ..pre })
}

/// Once a ledger holds the slip, no operation takes it away.
pub proof fn slip_is_kept(pre: User, post: User)
    requires
        step(pre, post),
        pre.has_slip,
    ensures
        post.has_slip,
{
}

/// No operation lowers a lifetime total.
pub proof fn totals_never_fall(pre: User, post: User)
    requires
        step(pre, post),
    ensures
        post.total_pulls >= pre.total_pulls,
        post.total_flux_aq >= pre.total_flux_aq,
        post.total_astrum_aq >= pre.total_astrum_aq,
{
    if exists|now: int, resp: TimerResponse| timer_stopped(pre, post, now, resp) {
        let (now, resp) = choose|now: int, resp: TimerResponse|
            timer_stopped(pre, post, now, resp);
        if pre.timer is Some {
            payout_floor(pre.timer->0.category, pre.timer->0.started as int, now);
        }
    }
}

/// Every operation keeps a well-formed ledger well formed: four quest
/// slots, and a timer flag that tells whether a timer is kept.
pub proof fn step_keeps_wf(pre: User, post: User)
    requires
        step(pre, post),
        pre.wf(),
    ensures
        post.wf(),
{
}

/// Only a draw moves the pity counters, and only a draw counts as a pull.
pub proof fn only_draws_move_pity(pre: User, post: User)
    requires
        step(pre, post),
        post.total_pulls == pre.total_pulls,
    ensures
        post.pity() == pre.pity(),
{
}

} // verus!
