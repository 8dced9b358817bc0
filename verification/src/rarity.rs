//! Rarity tiers and the pity counters that a draw moves.

use vstd::prelude::*;

verus! {

/// Tier of a single draw, best first.
#[derive(Clone, Copy, Debug, PartialEq, Eq, Structural)]
pub enum Rarities {
    MythicSSS,
    S,
    A,
    B,
}

/// The three pity counters a draw is weighted by.
#[derive(Clone, Copy, Debug, PartialEq, Eq, Structural)]
pub struct PityCtx {
    pub sss_pity: u16,
    pub s_pity: u16,
    pub a_pity: u16,
}

/// What a draw reports to the client: a tier, or that nothing could pay for it.
#[derive(Clone, Copy, Debug, PartialEq, Eq, Structural)]
pub enum SerializedRarity {
    MythicSSS,
    S,
    A,
    B,
    NoTickets,
}

/// A counter after a draw of another tier: one more.
pub open spec fn bumped(counter: u16) -> int {
    counter + 1
}

impl PityCtx {
    /// The counters that a draw of `outcome` leaves: the counter of the drawn
    /// tier at zero (`B` has none), every other counter one higher.
    pub open spec fn after(self, outcome: Rarities) -> (int, int, int) {
        match outcome {
            Rarities::MythicSSS => (0, bumped(self.s_pity), bumped(self.a_pity)),
            Rarities::S => (bumped(self.sss_pity), 0, bumped(self.a_pity)),
            Rarities::A => (bumped(self.sss_pity), bumped(self.s_pity), 0),
            Rarities::B => (bumped(self.sss_pity), bumped(self.s_pity), bumped(self.a_pity)),
        }
    }

    /// A draw of `outcome` keeps every counter within sixteen bits.
    pub open spec fn can_advance(self, outcome: Rarities) -> bool {
        let (sss, s, a) = self.after(outcome);
        sss <= u16::MAX && s <= u16::MAX && a <= u16::MAX
    }

    /// Tells whether `advance` may be called with `outcome`.
    pub fn advances(&self, outcome: Rarities) -> (ok: bool)
        ensures
            ok == self.can_advance(outcome),
    {
        match outcome {
            Rarities::MythicSSS => self.s_pity < u16::MAX && self.a_pity < u16::MAX,
            Rarities::S => self.sss_pity < u16::MAX && self.a_pity < u16::MAX,
            Rarities::A => self.sss_pity < u16::MAX && self.s_pity < u16::MAX,
            Rarities::B => self.sss_pity < u16::MAX && self.s_pity < u16::MAX && self.a_pity
                < u16::MAX,
        }
    }

    /// The counters after a draw of `outcome`; `self` is left as it was.
    pub fn advance(&self, outcome: Rarities) -> (next: PityCtx)
        requires
            self.can_advance(outcome),
        ensures
            (next.sss_pity as int, next.s_pity as int, next.a_pity as int) == self.after(outcome),
    {
        match outcome {
            Rarities::MythicSSS => PityCtx {
                sss_pity: 0,
                s_pity: self.s_pity + 1,
                a_pity: self.a_pity + 1,
            },
            Rarities::S => PityCtx {
                sss_pity: self.sss_pity + 1,
                s_pity: 0,
                a_pity: self.a_pity + 1,
            },
            Rarities::A => PityCtx {
                sss_pity: self.sss_pity + 1,
                s_pity: self.s_pity + 1,
                a_pity: 0,
            },
            Rarities::B => PityCtx {
                sss_pity: self.sss_pity + 1,
                s_pity: self.s_pity + 1,
                a_pity: self.a_pity + 1,
            },
        }
    }
}

} // verus!
