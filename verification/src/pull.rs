//! A draw: what a drawn rarity does to the ledger.

use vstd::prelude::*;
use crate::errors::PersistenceError;
use crate::ledger::User;
use crate::outside::quick_roll;
use crate::rarity::{PityCtx, Rarities, SerializedRarity};
use crate::voucher::{
    award, coffee_listing, gaming_listing, granted, japanese_listing, mythic_week_listing,
    off_day_listing, Listing, Voucher,
};

verus! {

/// Astrum that a draw costs where no ticket pays for it.
pub const PULL_COST: u64 = 160;

/// The secondary draws of one pull, in the order in which they are made. A
/// rarity reads as many of them as it has branches to decide.
#[derive(Clone, Copy, Debug, PartialEq, Eq, Structural)]
pub struct Rolls {
    pub first: u8,
    pub second: u8,
    pub third: u8,
    pub fourth: u8,
}

/// The answer to a pull.
#[derive(Clone, Copy, Debug, PartialEq, Eq, Structural)]
pub struct PullResponse {
    pub result: SerializedRarity,
    pub vouchers: u8,
}

/// Three hours of Japanese, as the second tier pays them.
pub open spec fn long_study_listing() -> Listing {
    Listing { id: 24, name: "Japanese [3H]"@, cost: 150, description: "Study Japanese for 3 Hours"@ }
}

/// One hour of Japanese, as the second tier pays it.
pub open spec fn short_study_listing() -> Listing {
    Listing { id: 24, name: "Japanese [1H]"@, cost: 50, description: "Study Japanese for 1 Hour"@ }
}

/// Two hours of work on the machine, as the second tier pays them.
pub open spec fn machine_slip_listing() -> Listing {
    Listing {
        id: 9,
        name: "Gacha Slip [2H]"@,
        cost: 180,
        description: "Permission Slip to Work on LifeGacha for 2 Hours"@,
    }
}

/// The short break that the third tier pays.
pub open spec fn break_listing() -> Listing {
    Listing {
        id: 0,
        name: "15 Minute Break"@,
        cost: 35,
        description: "Take a 15 minute breather break"@,
    }
}

/// Flux that a rarity pays.
pub open spec fn flux_payout(outcome: Rarities) -> int {
    match outcome {
        Rarities::MythicSSS => 2400,
        Rarities::S => 360,
        Rarities::A => 120,
        Rarities::B => 10,
    }
}

/// A top-tier draw pays the single week off where the first roll is in the
/// lower half or the ledger holds the slip; else it pays the bundle.
pub open spec fn pays_week(has_slip: bool, rolls: Rolls) -> bool {
    rolls.first < 128 || has_slip
}

/// `one` if `cond`, else nothing.
pub open spec fn when(cond: bool, one: Listing) -> Seq<Listing> {
    if cond {
        seq![one]
    } else {
        Seq::empty()
    }
}

/// The vouchers that a draw grants, in the order in which the ledger gets
/// them.
pub open spec fn grants(outcome: Rarities, has_slip: bool, rolls: Rolls) -> Seq<Listing> {
    match outcome {
        Rarities::MythicSSS => if pays_week(has_slip, rolls) {
            seq![mythic_week_listing()]
        } else {
            seq![
                gaming_listing(),
                gaming_listing(),
                off_day_listing(),
                coffee_listing(),
                japanese_listing(),
                coffee_listing(),
                japanese_listing(),
                coffee_listing(),
                japanese_listing(),
            ]
        },
        Rarities::S => seq![
            if rolls.first < 64 {
                long_study_listing()
            } else {
                short_study_listing()
            },
        ] + when(rolls.second < 85, machine_slip_listing()) + when(
            rolls.third < 85,
            coffee_listing(),
        ) + when(rolls.fourth < 16, gaming_listing()),
        Rarities::A => seq![break_listing()],
        Rarities::B => when(rolls.first == 24, gaming_listing()),
    }
}

impl User {
    /// The pity counters of this ledger.
    pub open spec fn pity(self) -> PityCtx {
        PityCtx { sss_pity: self.sss_pity, s_pity: self.s_pity, a_pity: self.a_pity }
    }

    /// A ticket or enough astrum is there to pay for a draw.
    pub open spec fn can_pull(self) -> bool {
        self.astrai >= 1 || self.astrum >= PULL_COST
    }

    /// A draw of `outcome` can be booked: it can be paid for, and no counter
    /// or total would leave its range.
    pub open spec fn can_apply(self, outcome: Rarities) -> bool {
        &&& self.can_pull()
        &&& self.pity().can_advance(outcome)
        &&& self.flux + flux_payout(outcome) <= i128::MAX
        &&& self.total_flux_aq + flux_payout(outcome) <= u128::MAX
        &&& self.total_pulls + 1 <= u128::MAX
    }

    /// Tells whether a draw can be paid for.
    pub fn has_funds(&self) -> (ok: bool)
        ensures
            ok == self.can_pull(),
    {
        self.astrai >= 1 || self.astrum >= PULL_COST
    }

    /// Tells whether `apply_outcome` may be called with `outcome`.
    pub fn applies(&self, outcome: Rarities) -> (ok: bool)
        ensures
            ok == self.can_apply(outcome),
    {
        let pity = PityCtx { sss_pity: self.sss_pity, s_pity: self.s_pity, a_pity: self.a_pity };
        let payout: u16 = match outcome {
            Rarities::MythicSSS => 2400,
            Rarities::S => 360,
            Rarities::A => 120,
            Rarities::B => 10,
        };
        self.has_funds() && pity.advances(outcome) && self.flux <= i128::MAX - (payout as i128)
            && self.total_flux_aq <= u128::MAX - (payout as u128) && self.total_pulls < u128::MAX
    }
}

/// What a draw of `outcome`, decided by `rolls`, makes of the ledger `pre`:
/// the pity counters move as the rarity says, the rarity's flux is paid and
/// counted, its vouchers are put behind those held, the slip is set where
/// the bundle was paid, one more pull is counted, and a ticket pays if there
/// is one, else astrum. Nothing else changes. `count` is the number of
/// vouchers granted.
pub open spec fn outcome_applied(
    pre: User,
    post: User,
    outcome: Rarities,
    rolls: Rolls,
    count: u8,
) -> bool {
    &&& (post.sss_pity as int, post.s_pity as int, post.a_pity as int) == pre.pity().after(outcome)
    &&& post.flux == pre.flux + flux_payout(outcome)
    &&& post.total_flux_aq == pre.total_flux_aq + flux_payout(outcome)
    &&& post.has_slip == (pre.has_slip || (outcome == Rarities::MythicSSS && !pays_week(
        pre.has_slip,
        rolls,
    )))
    &&& granted(pre.vouchers@, post.vouchers@, grants(outcome, pre.has_slip, rolls))
    &&& count == grants(outcome, pre.has_slip, rolls).len()
    &&& post.total_pulls == pre.total_pulls + 1
    &&& post.astrai == if pre.astrai > 0 {
        pre.astrai - 1
    } else {
        0
    }
    &&& post.astrum == if pre.astrai > 0 {
        pre.astrum as int
    } else {
        pre.astrum - PULL_COST
    }
    &&& post == (User {
        sss_pity: post.sss_pity,
        s_pity: post.s_pity,
        a_pity: post.a_pity,
        flux: post.flux,
        total_flux_aq: post.total_flux_aq,
        has_slip: post.has_slip,
        vouchers: post.vouchers,
        total_pulls: post.total_pulls,
        astrai: post.astrai,
        astrum: post.astrum,
        ..pre
    })
}

/// Number of secondary draws that a rarity reads.
pub open spec fn reads(outcome: Rarities) -> int {
    match outcome {
        Rarities::MythicSSS => 1,
        Rarities::S => 4,
        Rarities::A => 0,
        Rarities::B => 1,
    }
}

/// The tier as a pull reports it.
pub open spec fn reported(outcome: Rarities) -> SerializedRarity {
    match outcome {
        Rarities::MythicSSS => SerializedRarity::MythicSSS,
        Rarities::S => SerializedRarity::S,
        Rarities::A => SerializedRarity::A,
        Rarities::B => SerializedRarity::B,
    }
}

/// What a pull that drew `outcome` makes of the ledger and answers: where
/// nothing can pay for it, the ledger stays as it was and the answer says
/// so; else the draw is booked and the answer names the tier and the number
/// of vouchers granted.
pub open spec fn pulled(
    pre: User,
    post: User,
    outcome: Rarities,
    rolls: Rolls,
    resp: PullResponse,
) -> bool {
    if pre.can_pull() {
        &&& outcome_applied(pre, post, outcome, rolls, resp.vouchers)
        &&& resp.result == reported(outcome)
    } else {
        &&& post == pre
        &&& resp == (PullResponse { result: SerializedRarity::NoTickets, vouchers: 0 })
    }
}

impl SerializedRarity {
    /// The tier as a pull reports it. Every tier has its report.
    pub fn try_from(value: Rarities) -> (out: Result<Self, PersistenceError>)
        ensures
            out == Ok::<SerializedRarity, PersistenceError>(reported(value)),
    {
        match value {
            Rarities::MythicSSS => Ok(SerializedRarity::MythicSSS),
            Rarities::S => Ok(SerializedRarity::S),
            Rarities::A => Ok(SerializedRarity::A),
            Rarities::B => Ok(SerializedRarity::B),
        }
    }
}

impl PityCtx {
    /// The pity counters of a ledger. Every ledger has them.
    pub fn try_from(user: &User) -> (out: Result<Self, PersistenceError>)
        ensures
            out == Ok::<PityCtx, PersistenceError>(user.pity()),
    {
        Ok(PityCtx { sss_pity: user.sss_pity, s_pity: user.s_pity, a_pity: user.a_pity })
    }
}

/// Makes the secondary draws that a draw of `outcome` reads, in order; the
/// places it does not read are zero.
pub fn draw_rolls(outcome: Rarities) -> (rolls: Rolls)
    ensures
        reads(outcome) < 1 ==> rolls.first == 0,
        reads(outcome) < 2 ==> rolls.second == 0,
        reads(outcome) < 3 ==> rolls.third == 0,
        reads(outcome) < 4 ==> rolls.fourth == 0,
{
    match outcome {
        Rarities::MythicSSS | Rarities::B => Rolls {
            first: quick_roll(),
            second: 0,
            third: 0,
            fourth: 0,
        },
        Rarities::S => {
            let first = quick_roll();
            let second = quick_roll();
            let third = quick_roll();
            let fourth = quick_roll();
            Rolls { first, second, third, fourth }
        },
        Rarities::A => Rolls { first: 0, second: 0, third: 0, fourth: 0 },
    }
}

/// Books a draw of `outcome` whose secondary draws came out as `rolls`, and
/// returns the number of vouchers granted.
pub fn apply_outcome_with(user: &mut User, outcome: Rarities, rolls: Rolls) -> (count: u8)
    requires
        old(user).can_apply(outcome),
    ensures
        outcome_applied(*old(user), *final(user), outcome, rolls, count),
{
    let ghost before = user.vouchers@;
    let ghost mut given: Seq<Listing> = Seq::empty();
    let mut rw_vouchers: u8 = 0;
    let next = PityCtx { sss_pity: user.sss_pity, s_pity: user.s_pity, a_pity: user.a_pity }.advance(
        outcome,
    );
    user.sss_pity = next.sss_pity;
    user.s_pity = next.s_pity;
    user.a_pity = next.a_pity;

    match outcome {
        Rarities::MythicSSS => {
            user.flux += 2400;
            user.total_flux_aq += 2400;

            if rolls.first < 128 || user.has_slip {
                award(
                    &mut user.vouchers,
                    Voucher::mythic_week(),
                    Ghost(before),
                    Ghost(given),
                    Ghost(mythic_week_listing()),
                );
                proof {
                    given = given.push(mythic_week_listing());
                }
                rw_vouchers += 1;
            } else {
                award(
                    &mut user.vouchers,
                    Voucher::gaming(),
                    Ghost(before),
                    Ghost(given),
                    Ghost(gaming_listing()),
                );
                proof {
                    given = given.push(gaming_listing());
                }
                award(
                    &mut user.vouchers,
                    Voucher::gaming(),
                    Ghost(before),
                    Ghost(given),
                    Ghost(gaming_listing()),
                );
                proof {
                    given = given.push(gaming_listing());
                }
                award(
                    &mut user.vouchers,
                    Voucher::off_day(),
                    Ghost(before),
                    Ghost(given),
                    Ghost(off_day_listing()),
                );
                proof {
                    given = given.push(off_day_listing());
                }
                let ghost head = given;
                let ghost entry = *user;
                for round in 0..3u8
                    invariant
                        *user == (User { vouchers: user.vouchers, ..entry }),
                        granted(before, user.vouchers@, given),
                        given.len() == 3 + 2 * round,
                        given.take(3) == head,
                        forall|k: int|
                            3 <= k < given.len() ==> given[k] == if (k - 3) % 2 == 0 {
                                coffee_listing()
                            } else {
                                japanese_listing()
                            },
                {
                    award(
                        &mut user.vouchers,
                        Voucher::coffee(),
                        Ghost(before),
                        Ghost(given),
                        Ghost(coffee_listing()),
                    );
                    proof {
                        given = given.push(coffee_listing());
                    }
                    award(
                        &mut user.vouchers,
                        Voucher::japanese(),
                        Ghost(before),
                        Ghost(given),
                        Ghost(japanese_listing()),
                    );
                    proof {
                        given = given.push(japanese_listing());
                    }
                }
                assert(given =~= grants(outcome, old(user).has_slip, rolls)) by {
                    assert(forall|k: int| 0 <= k < 3 ==> given[k] == given.take(3)[k]);
                }
                rw_vouchers += 9;
                user.has_slip = true;
            }
        },
        Rarities::S => {
            user.flux += 360;
            user.total_flux_aq += 360;

            if rolls.first < 64 {
                award(
                    &mut user.vouchers,
                    Voucher::grant(24, "Japanese [3H]", 150, "Study Japanese for 3 Hours"),
                    Ghost(before),
                    Ghost(given),
                    Ghost(long_study_listing()),
                );
                proof {
                    given = given.push(long_study_listing());
                }
                rw_vouchers += 1;
            } else {
                award(
                    &mut user.vouchers,
                    Voucher::grant(24, "Japanese [1H]", 50, "Study Japanese for 1 Hour"),
                    Ghost(before),
                    Ghost(given),
                    Ghost(short_study_listing()),
                );
                proof {
                    given = given.push(short_study_listing());
                }
                rw_vouchers += 1;
            }
            if rolls.second < 85 {
                award(
                    &mut user.vouchers,
                    Voucher::grant(
                        9,
                        "Gacha Slip [2H]",
                        180,
                        "Permission Slip to Work on LifeGacha for 2 Hours",
                    ),
                    Ghost(before),
                    Ghost(given),
                    Ghost(machine_slip_listing()),
                );
                proof {
                    given = given.push(machine_slip_listing());
                }
                rw_vouchers += 1;
            }
            if rolls.third < 85 {
                award(
                    &mut user.vouchers,
                    Voucher::coffee(),
                    Ghost(before),
                    Ghost(given),
                    Ghost(coffee_listing()),
                );
                proof {
                    given = given.push(coffee_listing());
                }
                rw_vouchers += 1;
            }
            if rolls.fourth < 16 {
                award(
                    &mut user.vouchers,
                    Voucher::gaming(),
                    Ghost(before),
                    Ghost(given),
                    Ghost(gaming_listing()),
                );
                proof {
                    given = given.push(gaming_listing());
                }
                rw_vouchers += 1;
            }
        },
        Rarities::A => {
            user.flux += 120;
            user.total_flux_aq += 120;

            award(
                &mut user.vouchers,
                Voucher::grant(0, "15 Minute Break", 35, "Take a 15 minute breather break"),
                Ghost(before),
                Ghost(given),
                Ghost(break_listing()),
            );
            proof {
                given = given.push(break_listing());
            }
            rw_vouchers += 1;
        },
        Rarities::B => {
            user.flux += 10;
            user.total_flux_aq += 10;

            if rolls.first == 24 {
                award(
                    &mut user.vouchers,
                    Voucher::gaming(),
                    Ghost(before),
                    Ghost(given),
                    Ghost(gaming_listing()),
                );
                proof {
                    given = given.push(gaming_listing());
                }
                rw_vouchers += 1;
            }
        },
    }

    user.total_pulls += 1;
    if user.astrai > 0 {
        user.astrai -= 1;
        return rw_vouchers;
    }
    user.astrum -= PULL_COST;
    rw_vouchers
}

/// Books a draw of `outcome`, making its secondary draws, and returns the
/// number of vouchers granted. The ledger ends as `apply_outcome_with` leaves
/// it for the rolls that came up.
pub fn apply_outcome(user: &mut User, outcome: Rarities) -> (count: u8)
    requires
        old(user).can_apply(outcome),
    ensures
        exists|rolls: Rolls| outcome_applied(*old(user), *final(user), outcome, rolls, count),
{
    let rolls = draw_rolls(outcome);
    apply_outcome_with(user, outcome, rolls)
}

/// A pull that drew `outcome`, its secondary draws given as `rolls`.
pub fn handle_pull_with(user: &mut User, outcome: Rarities, rolls: Rolls) -> (resp: PullResponse)
    requires
        old(user).can_pull() ==> old(user).can_apply(outcome),
    ensures
        pulled(*old(user), *final(user), outcome, rolls, resp),
{
    if user.astrai < 1 && user.astrum < PULL_COST {
        return PullResponse { result: SerializedRarity::NoTickets, vouchers: 0 };
    }
    let reward = apply_outcome_with(user, outcome, rolls);
    let result = match SerializedRarity::try_from(outcome) {
        Ok(tier) => tier,
        Err(_) => SerializedRarity::NoTickets,
    };
    PullResponse { result, vouchers: reward }
}

/// A pull that drew `outcome`. Where nothing can pay for it, no secondary
/// draw is made.
pub fn handle_pull(user: &mut User, outcome: Rarities) -> (resp: PullResponse)
    requires
        old(user).can_pull() ==> old(user).can_apply(outcome),
    ensures
        exists|rolls: Rolls| pulled(*old(user), *final(user), outcome, rolls, resp),
{
    if user.astrai < 1 && user.astrum < PULL_COST {
        assert(pulled(
            *old(user),
            *user,
            outcome,
            Rolls { first: 0, second: 0, third: 0, fourth: 0 },
            PullResponse { result: SerializedRarity::NoTickets, vouchers: 0 },
        ));
        return PullResponse { result: SerializedRarity::NoTickets, vouchers: 0 };
    }
    let rolls = draw_rolls(outcome);
    handle_pull_with(user, outcome, rolls)
}

/// A draw moves the pity counters as its rarity says: the counter of the
/// drawn tier goes to zero and the others go up by one; the lowest tier
/// sends none to zero.
pub proof fn draw_moves_pity(pre: User, post: User, outcome: Rarities, rolls: Rolls, count: u8)
    requires
        outcome_applied(pre, post, outcome, rolls, count),
    ensures
        outcome == Rarities::MythicSSS ==> post.sss_pity == 0 && post.s_pity == pre.s_pity + 1
            && post.a_pity == pre.a_pity + 1,
        outcome == Rarities::S ==> post.s_pity == 0 && post.sss_pity == pre.sss_pity + 1
            && post.a_pity == pre.a_pity + 1,
        outcome == Rarities::A ==> post.a_pity == 0 && post.sss_pity == pre.sss_pity + 1
            && post.s_pity == pre.s_pity + 1,
        outcome == Rarities::B ==> post.sss_pity == pre.sss_pity + 1 && post.s_pity == pre.s_pity
            + 1 && post.a_pity == pre.a_pity + 1,
{
}

/// A draw is paid with a ticket where the ledger has one, and then costs no
/// astrum; else it costs the fixed price in astrum and no ticket.
pub proof fn ticket_is_preferred(pre: User, post: User, outcome: Rarities, rolls: Rolls, count: u8)
    requires
        outcome_applied(pre, post, outcome, rolls, count),
    ensures
        pre.astrai > 0 ==> post.astrai == pre.astrai - 1 && post.astrum == pre.astrum,
        pre.astrai == 0 ==> post.astrum == pre.astrum - PULL_COST && post.astrai == pre.astrai,
{
}

/// A draw never takes the slip away.
pub proof fn draw_keeps_slip(pre: User, post: User, outcome: Rarities, rolls: Rolls, count: u8)
    requires
        outcome_applied(pre, post, outcome, rolls, count),
        pre.has_slip,
    ensures
        post.has_slip,
{
}

/// Some draw makes `post` of `pre`.
pub open spec fn some_draw(pre: User, post: User) -> bool {
    exists|outcome: Rarities, rolls: Rolls, count: u8|
        outcome_applied(pre, post, outcome, rolls, count)
}

/// The ledger behind place `i` is what some draw made of the one at `i`.
pub open spec fn draw_at(ledgers: Seq<User>, i: int) -> bool {
    some_draw(ledgers[i], ledgers[i + 1])
}

/// `ledgers` is a run of draws: each ledger but the first is what some draw
/// made of the one before it.
pub open spec fn run_of_draws(ledgers: Seq<User>) -> bool {
    forall|i: int| 0 <= i < ledgers.len() - 1 ==> #[trigger] draw_at(ledgers, i)
}

/// After a run of draws, of whatever rarities, the ledger counts one pull
/// more for each draw made.
pub proof fn pulls_are_counted(ledgers: Seq<User>)
    requires
        ledgers.len() >= 1,
        run_of_draws(ledgers),
    ensures
        ledgers.last().total_pulls == ledgers[0].total_pulls + (ledgers.len() - 1),
    decreases ledgers.len(),
{
    if ledgers.len() > 1 {
        let shorter = ledgers.drop_last();
        assert forall|i: int| 0 <= i < shorter.len() - 1 implies #[trigger] draw_at(shorter, i) by {
            assert(draw_at(ledgers, i));
        }
        pulls_are_counted(shorter);
        assert(draw_at(ledgers, ledgers.len() - 2));
    }
}

} // verus!
