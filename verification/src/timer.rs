//! Category timers and what they pay when stopped.

use vstd::prelude::*;
use crate::ledger::{User, UserId};
use crate::outside::{now_timestamp, MAX_TIMESTAMP};

verus! {

/// What a timer is run for; each category pays at its own rate.
#[derive(Clone, Copy, Debug, PartialEq, Eq, Structural)]
pub enum Category {
    SNode,
    ANode,
    BNode,
}

/// A running timer. `started` is in seconds since the epoch.
#[derive(Debug)]
pub struct Timer {
    pub id: String,
    pub owner: UserId,
    pub started: i64,
    pub ended: Option<i64>,
    pub category: Category,
}

/// The answer to a request that starts or stops a timer.
#[derive(Debug)]
pub struct TimerResponse {
    pub status: String,
    pub category: Category,
    pub reward: Option<u64>,
}

/// Seconds a timer must have run before it pays anything.
pub const MIN_ELAPSED: i64 = 60;

/// The rate of a category: so much astrum for so many minutes.
pub open spec fn rate(category: Category) -> (int, int) {
    match category {
        Category::SNode => (480, 60),
        Category::ANode => (120, 30),
        Category::BNode => (25, 10),
    }
}

/// Whole minutes from `started` to `now`, counted towards zero.
pub open spec fn whole_minutes(started: int, now: int) -> int {
    if now >= started {
        (now - started) / 60
    } else {
        -((started - now) / 60)
    }
}

/// What `minutes` whole minutes of a category pay: nothing under one minute,
/// else the category's rate, rounded down.
pub open spec fn payout(category: Category, minutes: int) -> int {
    if minutes < 1 {
        0
    } else {
        minutes * rate(category).0 / rate(category).1
    }
}

/// What a timer started at `started` pays when stopped at `now`.
pub open spec fn reward_at(category: Category, started: int, now: int) -> int {
    payout(category, whole_minutes(started, now))
}

/// A timer that ran for less than a minute pays nothing, and no timer pays
/// less than nothing, however long it ran and even if it seems to have been
/// started after it was stopped.
pub proof fn payout_floor(category: Category, started: int, now: int)
    ensures
        now - started < MIN_ELAPSED ==> reward_at(category, started, now) == 0,
        reward_at(category, started, now) >= 0,
{
}

/// A timer pays its rate for every full span of its category: after `spans`
/// spans exactly, `spans` times the rate.
pub proof fn payout_full_spans(category: Category, started: int, spans: int)
    requires
        spans >= 1,
    ensures
        reward_at(category, started, started + spans * rate(category).1 * 60) == spans * rate(
            category,
        ).0,
{
}

/// A timer that runs longer never pays less.
pub proof fn payout_grows_with_time(category: Category, started: int, sooner: int, later: int)
    requires
        sooner <= later,
    ensures
        reward_at(category, started, sooner) <= reward_at(category, started, later),
{
}

impl TimerResponse {
    /// An answer with this status and no reward.
    pub fn new(status: String, cat: Category) -> (resp: Self)
        ensures
            resp == (TimerResponse { status, category: cat, reward: None }),
    {
        TimerResponse { status, category: cat, reward: None }
    }

    /// The answer to a start while a timer of category `cat` is running.
    pub fn already_exists(cat: Category) -> (resp: Self)
        ensures
            resp.status@ == "Timer Already Active"@,
            resp.category == cat,
            resp.reward is None,
    {
        TimerResponse { status: "Timer Already Active".to_owned(), category: cat, reward: None }
    }
}

/// The identifier given to every timer.
pub fn gen_timer_id() -> (id: String)
    ensures
        id@ == "1111"@,
{
    "1111".to_owned()
}

/// What `timer` pays when it is stopped at `now`.
pub fn resolve_timer_at(timer: &Timer, now: i64) -> (reward: u64)
    ensures
        reward == reward_at(timer.category, timer.started as int, now as int),
{
    let elapsed: i128 = now as i128 - timer.started as i128;
    if elapsed < 60 {
        return 0;
    }
    let minutes: i128 = elapsed / 60;
    let reward: i128 = match timer.category {
        Category::SNode => minutes * 480 / 60,
        Category::ANode => minutes * 120 / 30,
        Category::BNode => minutes * 25 / 10,
    };
    reward as u64
}

/// What `timer` pays when it is stopped now, by the system clock.
pub fn resolve_timer(timer: &Timer) -> (reward: u64)
    ensures
        exists|now: i64|
            0 <= now <= MAX_TIMESTAMP && reward == #[trigger] reward_at(
                timer.category,
                timer.started as int,
                now as int,
            ),
{
    let now = now_timestamp();
    resolve_timer_at(timer, now)
}

/// What a request to start a timer of `category` at `now` makes of the
/// ledger and answers: where a timer runs already, nothing changes and the
/// answer names the running timer's category; else the ledger keeps a new
/// timer, started at `now` and owned by the ledger's user.
pub open spec fn timer_started(
    pre: User,
    post: User,
    category: Category,
    now: int,
    resp: TimerResponse,
) -> bool {
    if pre.active_timer {
        &&& post == pre
        &&& resp.status@ == "Timer Already Active"@
        &&& resp.category == pre.timer->0.category
        &&& resp.reward is None
    } else {
        &&& post.timer matches Some(t)
        &&& t.category == category
        &&& t.started == now
        &&& t.ended is None
        &&& t.id@ == "1111"@
        &&& t.owner == pre.id
        &&& post == (User { timer: post.timer, active_timer: true, ..pre })
        &&& resp.status@ == "Timing..."@
        &&& resp.category == category
        &&& resp.reward is None
    }
}

/// What the running timer of the ledger pays when stopped at `now`; zero
/// where none runs.
pub open spec fn due(pre: User, now: int) -> int {
    match pre.timer {
        Some(t) => if pre.active_timer {
            reward_at(t.category, t.started as int, now)
        } else {
            0
        },
        None => 0,
    }
}

/// What the timer pays at `now` fits the ledger.
pub open spec fn stop_fits(pre: User, now: int) -> bool {
    &&& pre.astrum + due(pre, now) <= u64::MAX
    &&& pre.total_astrum_aq + due(pre, now) <= u128::MAX
}

/// What a request to stop the timer at `now` makes of the ledger and
/// answers: where none runs, nothing changes; else the timer is dropped and
/// what it pays is credited as astrum and counted.
pub open spec fn timer_stopped(pre: User, post: User, now: int, resp: TimerResponse) -> bool {
    if pre.active_timer {
        &&& post.astrum == pre.astrum + due(pre, now)
        &&& post.total_astrum_aq == pre.total_astrum_aq + due(pre, now)
        &&& post == (User {
            active_timer: false,
            timer: None,
            astrum: post.astrum,
            total_astrum_aq: post.total_astrum_aq,
            ..pre
        })
        &&& resp.status@ == "Timer Stopped"@
        &&& resp.category == pre.timer->0.category
        &&& resp.reward == Some(due(pre, now) as u64)
    } else {
        &&& post == pre
        &&& resp.status@ == "No Active Timers"@
        &&& resp.category == Category::SNode
        &&& resp.reward is None
    }
}

/// What a request to stop the timer at `now` comes to where the ledger's
/// limits are minded: the answer of `timer_stopped`, or nothing, with the
/// ledger as it was, where the payout does not fit.
pub open spec fn stop_tried(pre: User, post: User, now: int, out: Option<TimerResponse>) -> bool {
    match out {
        Some(resp) => timer_stopped(pre, post, now, resp),
        None => !stop_fits(pre, now) && post == pre,
    }
}

impl User {
    /// Tells whether what the timer pays at `now` fits the ledger.
    pub fn stop_in_range(&self, now: i64) -> (ok: bool)
        ensures
            ok == stop_fits(*self, now as int),
    {
        if !self.active_timer {
            return true;
        }
        match &self.timer {
            Some(t) => {
                let reward = resolve_timer_at(t, now);
                self.astrum <= u64::MAX - reward && self.total_astrum_aq <= u128::MAX - (
                reward as u128)
            },
            None => true,
        }
    }
}

/// Starts a timer of `category` at `now`, unless one runs already.
pub fn start_timer_at(user: &mut User, category: Category, now: i64) -> (resp: TimerResponse)
    requires
        old(user).timer_kept(),
    ensures
        timer_started(*old(user), *final(user), category, now as int, resp),
        final(user).timer_kept(),
{
    if user.active_timer {
        let running = match &user.timer {
            Some(t) => t.category,
            None => category,
        };
        return TimerResponse::already_exists(running);
    }
    user.timer = Some(
        Timer { category, ended: None, started: now, id: gen_timer_id(), owner: user.id.clone() },
    );
    user.active_timer = true;
    TimerResponse { status: "Timing...".to_owned(), category, reward: None }
}

/// Starts a timer of `category` now, by the system clock, unless one runs
/// already.
pub fn start_timer(user: &mut User, category: Category) -> (resp: TimerResponse)
    requires
        old(user).timer_kept(),
    ensures
        final(user).timer_kept(),
        exists|now: i64|
            0 <= now <= MAX_TIMESTAMP && #[trigger] timer_started(
                *old(user),
                *final(user),
                category,
                now as int,
                resp,
            ),
{
    let now = now_timestamp();
    let resp = start_timer_at(user, category, now);
    resp
}

/// Stops the timer at `now` and credits what it pays.
pub fn stop_timer_at(user: &mut User, now: i64) -> (resp: TimerResponse)
    requires
        old(user).timer_kept(),
        stop_fits(*old(user), now as int),
    ensures
        timer_stopped(*old(user), *final(user), now as int, resp),
        final(user).timer_kept(),
{
    if !user.active_timer {
        return TimerResponse::new("No Active Timers".to_owned(), Category::SNode);
    }
    let (category, reward) = match &user.timer {
        Some(t) => (t.category, resolve_timer_at(t, now)),
        None => (Category::SNode, 0),
    };
    user.active_timer = false;
    user.timer = None;
    user.astrum += reward;
    user.total_astrum_aq += reward as u128;

    TimerResponse { status: "Timer Stopped".to_owned(), category, reward: Some(reward) }
}

/// Stops the timer now, by the system clock, and credits what it pays.
/// Where the payout would not fit the ledger, nothing is done and nothing is
/// answered.
pub fn stop_timer(user: &mut User) -> (out: Option<TimerResponse>)
    requires
        old(user).timer_kept(),
    ensures
        final(user).timer_kept(),
        exists|now: i64|
            0 <= now <= MAX_TIMESTAMP && #[trigger] stop_tried(
                *old(user),
                *final(user),
                now as int,
                out,
            ),
{
    let now = now_timestamp();
    if !user.stop_in_range(now) {
        assert(stop_tried(*old(user), *user, now as int, None));
        return None;
    }
    let out = Some(stop_timer_at(user, now));
    assert(stop_tried(*old(user), *user, now as int, out));
    out
}

} // verus!
