//! The daily quest cycle: where a day begins, and the four quest slots.

use vstd::prelude::*;
use crate::errors::Refusal;
use crate::ledger::User;
use crate::outside::{day_start, now_timestamp, utc_day_at, DAY, MAX_TIMESTAMP, MIN_TIMESTAMP};

verus! {

/// One quest slot. A slot is open for a claim while `last_claimed` lies before
/// the start of the running cycle.
#[derive(Clone, Copy, Debug, PartialEq, Eq, Structural)]
pub struct Daily {
    pub id: u8,
    pub claimable: bool,
    pub claimed: bool,
    pub last_claimed: i64,
}

/// Hour of day (UTC) at which a new cycle begins.
pub const CUTOFF_HOUR: u32 = 4;

/// Seconds from midnight to the cutoff.
pub const CUTOFF_SECS: i64 = 14_400;

/// Start of the cycle that holds `now`: the latest cutoff at or before `now`.
pub open spec fn cycle_start(now: int) -> int {
    ((now - 14_400) / 86_400) * 86_400 + 14_400
}

/// An instant that the calendar can hold.
pub open spec fn representable(now: int) -> bool {
    MIN_TIMESTAMP <= now <= MAX_TIMESTAMP
}

/// Start of the cycle that holds `now`: today's cutoff if `now` has reached
/// it, else yesterday's.
pub fn cycle_boundary(now: i64) -> (start: i64)
    requires
        representable(now as int),
    ensures
        start == cycle_start(now as int),
        start <= now < start + DAY,
{
    let today = utc_day_at(now, CUTOFF_HOUR, 0, 0);
    if now < today {
        today - DAY
    } else {
        today
    }
}

/// Flux that must have been spent in the running cycle before the bonus slot
/// opens.
pub const BONUS_THRESHOLD: u64 = 500;

/// The answer to a request on the quest slots: the slots as they now stand,
/// and what the claim paid.
#[derive(Debug)]
pub struct DailiesResp {
    pub dailies: Vec<Daily>,
    pub astrum: u16,
    pub flux: u16,
    pub astrai: u16,
}

/// Amounts of the three currencies.
pub struct Reward {
    pub astrum: int,
    pub flux: int,
    pub astrai: int,
}

/// The slots of a new ledger: nothing claimed yet, and the bonus slot shut.
pub open spec fn fresh_slots() -> Seq<Daily> {
    Seq::new(
        4,
        |i: int| Daily { id: i as u8, claimable: i != 3, claimed: false, last_claimed: 0 },
    )
}

/// A slot as a look at the cycle that began at `start` shows it: claimed if it
/// was claimed in this cycle, else open; the bonus slot is open only if, in
/// addition, `spent` has reached the threshold.
pub open spec fn refreshed(slot: Daily, start: int, spent: u64) -> Daily {
    let claimed = slot.last_claimed >= start;
    Daily {
        claimed,
        claimable: if slot.id == 3 {
            spent >= BONUS_THRESHOLD && !claimed
        } else {
            !claimed
        },
        ..slot
    }
}

/// What the slot in place `id` pays by itself.
pub open spec fn slot_reward(id: u8) -> Reward {
    if id == 0 {
        Reward { astrum: 40, flux: 0, astrai: 1 }
    } else if id == 1 {
        Reward { astrum: 40, flux: 0, astrai: 2 }
    } else if id == 2 {
        Reward { astrum: 80, flux: 75, astrai: 0 }
    } else {
        Reward { astrum: 80, flux: 0, astrai: 0 }
    }
}

/// The slot in place `id` can be claimed at `now`: it was not claimed in the
/// running cycle, and for the bonus slot the spending has reached the
/// threshold.
pub open spec fn open_for_claim(pre: User, id: u8, now: int) -> bool {
    &&& id < 4
    &&& pre.dailies@[id as int].last_claimed < cycle_start(now)
    &&& id == 3 ==> pre.todays_flux.1 >= BONUS_THRESHOLD
}

/// The slot was claimed in the cycle that holds `now`.
pub open spec fn claimed_in_cycle(slot: Daily, now: int) -> bool {
    slot.last_claimed >= cycle_start(now)
}

/// A claim of the slot in place `id` at `now` completes the set: every other
/// slot was claimed in the running cycle, so that with this claim all four
/// are.
pub open spec fn completes_set(pre: User, id: u8, now: int) -> bool {
    &&& id == 0 || claimed_in_cycle(pre.dailies@[0], now)
    &&& id == 1 || claimed_in_cycle(pre.dailies@[1], now)
    &&& id == 2 || claimed_in_cycle(pre.dailies@[2], now)
    &&& id == 3 || claimed_in_cycle(pre.dailies@[3], now)
}

/// What the ledger is credited for a claim of the slot in place `id` at
/// `now`: the slot's own reward, and the reward for the full set where the
/// claim completes it.
pub open spec fn credited(pre: User, id: u8, now: int) -> Reward {
    let own = slot_reward(id);
    if completes_set(pre, id, now) {
        Reward { astrum: own.astrum + 100, flux: own.flux, astrai: own.astrai + 2 }
    } else {
        own
    }
}

/// What the answer reports for a claim of the slot in place `id` at `now`.
/// For the full set it reports 100 flux besides what the ledger is credited.
pub open spec fn answered(pre: User, id: u8, now: int) -> Reward {
    let paid = credited(pre, id, now);
    if completes_set(pre, id, now) {
        Reward { flux: paid.flux + 100, ..paid }
    } else {
        paid
    }
}

/// The credit for a claim of the slot in place `id` at `now` fits the
/// ledger.
pub open spec fn claim_fits(pre: User, id: u8, now: int) -> bool {
    &&& pre.astrum + credited(pre, id, now).astrum <= u64::MAX
    &&& pre.astrai + credited(pre, id, now).astrai <= u64::MAX
    &&& pre.flux + credited(pre, id, now).flux <= i128::MAX
}

/// What a request on the quest slots at `now` makes of the ledger and
/// answers.
///
/// A look (`info`) marks every slot as `refreshed` says and pays nothing.
/// A claim of a slot that is open stamps the slot with `now`, marks it
/// claimed, credits the reward, and for the bonus slot sets the spending of
/// the cycle back to zero. Any other claim is forbidden and leaves the ledger
/// as it was.
pub open spec fn dailies_answered(
    pre: User,
    post: User,
    info: bool,
    id: u8,
    now: int,
    out: Result<DailiesResp, Refusal>,
) -> bool {
    if info {
        &&& out matches Ok(resp)
        &&& post.dailies@ == pre.dailies@.map_values(
            |slot: Daily| refreshed(slot, cycle_start(now), pre.todays_flux.1),
        )
        &&& post == (User { dailies: post.dailies, ..pre })
        &&& resp.dailies@ == post.dailies@
        &&& resp.astrum == 0 && resp.flux == 0 && resp.astrai == 0
    } else if open_for_claim(pre, id, now) {
        &&& out matches Ok(resp)
        &&& post.dailies@ == pre.dailies@.update(
            id as int,
            Daily { last_claimed: now as i64, claimed: true, ..pre.dailies@[id as int] },
        )
        &&& post.todays_flux == if id == 3 {
            (pre.todays_flux.0, 0u64)
        } else {
            pre.todays_flux
        }
        &&& post.astrum == pre.astrum + credited(pre, id, now).astrum
        &&& post.astrai == pre.astrai + credited(pre, id, now).astrai
        &&& post.flux == pre.flux + credited(pre, id, now).flux
        &&& post == (User {
            dailies: post.dailies,
            todays_flux: post.todays_flux,
            astrum: post.astrum,
            astrai: post.astrai,
            flux: post.flux,
            ..pre
        })
        &&& resp.dailies@ == post.dailies@
        &&& resp.astrum == answered(pre, id, now).astrum
        &&& resp.flux == answered(pre, id, now).flux
        &&& resp.astrai == answered(pre, id, now).astrai
    } else {
        &&& out == Err::<DailiesResp, Refusal>(Refusal::Forbidden)
        &&& post == pre
    }
}

/// What a request on the quest slots at `now` comes to where the ledger's
/// limits are minded: the answer of `dailies_answered`, or nothing, with the
/// ledger as it was, where the slot is open but its credit does not fit.
pub open spec fn dailies_tried(
    pre: User,
    post: User,
    info: bool,
    id: u8,
    now: int,
    out: Option<Result<DailiesResp, Refusal>>,
) -> bool {
    match out {
        Some(answer) => dailies_answered(pre, post, info, id, now, answer),
        None => !info && open_for_claim(pre, id, now) && !claim_fits(pre, id, now) && post == pre,
    }
}

impl Daily {
    /// The slots of a new ledger.
    pub fn init() -> (slots: Vec<Self>)
        ensures
            slots@ == fresh_slots(),
    {
        let mut vec: Vec<Self> = Vec::new();
        for i in 0..4u8
            invariant
                vec@.len() == i,
                forall|j: int|
                    0 <= j < i ==> vec@[j] == (Daily {
                        id: j as u8,
                        claimable: true,
                        claimed: false,
                        last_claimed: 0,
                    }),
        {
            vec.push(Daily { id: i, claimable: true, claimed: false, last_claimed: 0 });
        }
        let last = vec[3];
        vec.set(3, Daily { claimable: false, ..last });
        vec
    }

    /// Start of the running cycle, by the system clock.
    pub fn cycle() -> (start: i64)
        ensures
            exists|now: i64| 0 <= now <= MAX_TIMESTAMP && start == #[trigger] cycle_start(now as int),
    {
        let now = now_timestamp();
        cycle_boundary(now)
    }
}

impl User {
    /// Tells whether the credit for a claim of the slot in place `id` at
    /// `now` fits the ledger.
    pub fn claim_in_range(&self, id: u8, now: i64) -> (ok: bool)
        requires
            self.has_slots(),
            representable(now as int),
        ensures
            ok == claim_fits(*self, id, now as int),
    {
        let start = cycle_boundary(now);
        let full = (id == 0 || self.dailies[0].last_claimed >= start) && (id == 1
            || self.dailies[1].last_claimed >= start) && (id == 2 || self.dailies[2].last_claimed
            >= start) && (id == 3 || self.dailies[3].last_claimed >= start);
        let astrum: u64 = if id < 2 {
            40
        } else {
            80
        };
        let astrai: u64 = if id == 0 {
            1
        } else if id == 1 {
            2
        } else {
            0
        };
        let flux: i128 = if id == 2 {
            75
        } else {
            0
        };
        let (astrum, astrai) = if full {
            (astrum + 100, astrai + 2)
        } else {
            (astrum, astrai)
        };
        self.astrum <= u64::MAX - astrum && self.astrai <= u64::MAX - astrai && self.flux
            <= i128::MAX - flux
    }
}

/// A copy of the slots.
fn copy_slots(slots: &Vec<Daily>) -> (copy: Vec<Daily>)
    ensures
        copy@ == slots@,
{
    let mut copy: Vec<Daily> = Vec::new();
    for i in 0..slots.len()
        invariant
            copy@ == slots@.take(i as int),
    {
        copy.push(slots[i]);
    }
    copy
}

/// Answers a request on the quest slots made at `now`: a look at them
/// (`info`), or a claim of the slot in place `id`.
pub fn dailies_at(user: &mut User, info: bool, id: u8, now: i64) -> (out: Result<
    DailiesResp,
    Refusal,
>)
    requires
        old(user).has_slots(),
        representable(now as int),
        !info && open_for_claim(*old(user), id, now as int) ==> claim_fits(
            *old(user),
            id,
            now as int,
        ),
    ensures
        dailies_answered(*old(user), *final(user), info, id, now as int, out),
        final(user).has_slots(),
{
    let start = cycle_boundary(now);
    let (mut rw_astrum, mut rw_flux, mut rw_astrai): (u16, u16, u16) = (0, 0, 0);

    if info {
        let spent = user.todays_flux.1;
        let ghost entry = *user;
        for i in 0..4usize
            invariant
                entry == *old(user),
                entry.has_slots(),
                spent == entry.todays_flux.1,
                *user == (User { dailies: user.dailies, ..entry }),
                user.dailies@.len() == 4,
                forall|j: int|
                    0 <= j < i ==> user.dailies@[j] == refreshed(
                        entry.dailies@[j],
                        start as int,
                        spent,
                    ),
                forall|j: int| i <= j < 4 ==> user.dailies@[j] == entry.dailies@[j],
        {
            let slot = user.dailies[i];
            let claimed = slot.last_claimed >= start;
            let claimable = if slot.id == 3 {
                spent >= BONUS_THRESHOLD && !claimed
            } else {
                !claimed
            };
            user.dailies.set(
                i,
                Daily { id: slot.id, claimable, claimed, last_claimed: slot.last_claimed },
            );
        }
        assert(user.dailies@ =~= old(user).dailies@.map_values(
            |slot: Daily| refreshed(slot, cycle_start(now as int), old(user).todays_flux.1),
        ));
        return Ok(
            DailiesResp {
                dailies: copy_slots(&user.dailies),
                astrum: rw_astrum,
                flux: rw_flux,
                astrai: rw_astrai,
            },
        );
    }
    if id < 4 && user.dailies[id as usize].last_claimed < start {
        if id == 3 && user.todays_flux.1 < BONUS_THRESHOLD {
            return Err(Refusal::Forbidden);
        }
        let slot = user.dailies[id as usize];
        user.dailies.set(
            id as usize,
            Daily { id: slot.id, claimable: slot.claimable, claimed: true, last_claimed: now },
        );
        if id == 3 {
            user.todays_flux.1 = 0;
        }
        if id == 0 {
            user.astrum += 40;
            user.astrai += 1;

            rw_astrai += 1;
            rw_astrum += 40;
        } else if id == 1 {
            user.astrum += 40;
            user.astrai += 2;

            rw_astrum += 40;
            rw_astrai += 2;
        } else if id == 2 {
            user.astrum += 80;
            user.flux += 75;

            rw_astrum += 80;
            rw_flux += 75;
        } else {
            user.astrum += 80;
            rw_astrum += 80;
        }

        let all = user.dailies[0].last_claimed >= start && user.dailies[1].last_claimed >= start
            && user.dailies[2].last_claimed >= start && user.dailies[3].last_claimed >= start;
        if all {
            user.astrum += 100;
            user.astrai += 2;

            rw_astrum += 100;
            rw_astrai += 2;
            rw_flux += 100;
        }
        return Ok(
            DailiesResp {
                dailies: copy_slots(&user.dailies),
                astrum: rw_astrum,
                flux: rw_flux,
                astrai: rw_astrai,
            },
        );
    }
    Err(Refusal::Forbidden)
}

/// Answers a request on the quest slots made now, by the system clock. Where
/// the credit for the claim would not fit the ledger, nothing is done and
/// nothing is answered.
pub fn dailies(user: &mut User, info: bool, id: u8) -> (out: Option<Result<DailiesResp, Refusal>>)
    requires
        old(user).has_slots(),
    ensures
        final(user).has_slots(),
        exists|now: i64|
            0 <= now <= MAX_TIMESTAMP && #[trigger] dailies_tried(
                *old(user),
                *final(user),
                info,
                id,
                now as int,
                out,
            ),
{
    let now = now_timestamp();
    if !info && id < 4 && !user.claim_in_range(id, now) {
        let start = cycle_boundary(now);
        if user.dailies[id as usize].last_claimed < start && (id != 3 || user.todays_flux.1
            >= BONUS_THRESHOLD) {
            assert(dailies_tried(*old(user), *user, info, id, now as int, None));
            return None;
        }
    }
    let out = Some(dailies_at(user, info, id, now));
    assert(dailies_tried(*old(user), *user, info, id, now as int, out));
    out
}

/// Two instants on the same calendar day and on the same side of that day's
/// cutoff lie in the same cycle.
pub proof fn same_window_same_cycle(now1: int, now2: int)
    requires
        day_start(now1) == day_start(now2),
        (now1 < day_start(now1) + CUTOFF_SECS) == (now2 < day_start(now2) + CUTOFF_SECS),
    ensures
        cycle_start(now1) == cycle_start(now2),
{
}

/// A cycle starts at a cutoff, holds the instant it is asked for, lasts a
/// day, and is the cycle of its own start.
pub proof fn cycle_holds_instant(now: int)
    ensures
        cycle_start(now) <= now < cycle_start(now) + DAY,
        cycle_start(now) == day_start(cycle_start(now)) + CUTOFF_SECS,
        cycle_start(cycle_start(now)) == cycle_start(now),
{
}

/// The full set is paid exactly where, with the claim made, every one of
/// the four slots was claimed in the running cycle: marks left from an
/// earlier cycle pay nothing.
pub proof fn set_is_full_in_this_cycle(
    pre: User,
    post: User,
    id: u8,
    now: int,
    out: Result<DailiesResp, Refusal>,
)
    requires
        pre.has_slots(),
        i64::MIN <= now <= i64::MAX,
        dailies_answered(pre, post, false, id, now, out),
        out is Ok,
    ensures
        completes_set(pre, id, now) <==> forall|j: int|
            0 <= j < 4 ==> claimed_in_cycle(#[trigger] post.dailies@[j], now),
        completes_set(pre, id, now) ==> post.astrum == pre.astrum + slot_reward(id).astrum + 100
            && post.astrai == pre.astrai + slot_reward(id).astrai + 2,
        !completes_set(pre, id, now) ==> post.astrum == pre.astrum + slot_reward(id).astrum
            && post.astrai == pre.astrai + slot_reward(id).astrai,
{
    cycle_holds_instant(now);
    if !completes_set(pre, id, now) {
        let j = if id != 0 && !claimed_in_cycle(pre.dailies@[0], now) {
            0int
        } else if id != 1 && !claimed_in_cycle(pre.dailies@[1], now) {
            1int
        } else if id != 2 && !claimed_in_cycle(pre.dailies@[2], now) {
            2int
        } else {
            3int
        };
        assert(!claimed_in_cycle(post.dailies@[j], now));
    }
}

/// A slot that was claimed stays shut for the rest of its cycle, and a slot
/// other than the bonus slot is open again in every later cycle.
pub proof fn claim_lasts_the_cycle(
    pre: User,
    post: User,
    id: u8,
    now: int,
    later: int,
    out: Result<DailiesResp, Refusal>,
)
    requires
        pre.has_slots(),
        i64::MIN <= now <= i64::MAX,
        dailies_answered(pre, post, false, id, now, out),
        out is Ok,
    ensures
        cycle_start(later) <= now ==> !open_for_claim(post, id, later),
        cycle_start(later) > now && id != 3 ==> open_for_claim(post, id, later),
{
}

/// A look changes nothing but the marks of the slots, and a second look at
/// the same instant changes nothing at all.
pub proof fn look_is_idempotent(
    pre: User,
    mid: User,
    post: User,
    now: int,
    first: Result<DailiesResp, Refusal>,
    second: Result<DailiesResp, Refusal>,
)
    requires
        dailies_answered(pre, mid, true, 0, now, first),
        dailies_answered(mid, post, true, 0, now, second),
    ensures
        post.dailies@ == mid.dailies@,
        forall|i: int|
            0 <= i < pre.dailies@.len() ==> (#[trigger] mid.dailies@[i]).last_claimed
                == pre.dailies@[i].last_claimed && mid.dailies@[i].id == pre.dailies@[i].id,
{
    assert(post.dailies@ =~= mid.dailies@);
}

} // verus!
