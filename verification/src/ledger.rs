//! The ledger: everything the economy keeps for one user.

use vstd::prelude::*;
use crate::daily::{fresh_slots, Daily};
use crate::timer::Timer;
use crate::voucher::{catalog, Voucher};

verus! {

/// The key a ledger is kept under.
#[derive(Debug)]
pub struct UserId(pub String);

impl Clone for UserId {
    fn clone(&self) -> (copy: Self)
        ensures
            copy == *self,
    {
        UserId(self.0.clone())
    }
}

/// A task the user set for themself, with the flux it pays when done.
#[derive(Debug)]
pub struct ISRDO {
    pub uuid: u128,
    pub description: String,
    pub payout: u16,
}

impl Clone for ISRDO {
    fn clone(&self) -> (copy: Self)
        ensures
            copy == *self,
    {
        ISRDO { uuid: self.uuid, description: self.description.clone(), payout: self.payout }
    }
}

/// One user's ledger.
#[derive(Debug)]
pub struct User {
    pub id: UserId,
    /// Tickets; a draw takes one before it takes astrum.
    pub astrai: u64,
    /// Soft currency.
    pub astrum: u64,
    /// Premium currency.
    pub flux: i128,
    /// Set for good by the first top-tier draw that paid out the bundle.
    pub has_slip: bool,
    pub username: String,
    pub email: Option<String>,
    /// The four quest slots; the last is the bonus slot.
    pub dailies: Vec<Daily>,
    pub vouchers: Vec<Voucher>,
    /// The user's own catalog.
    pub templates: Vec<Voucher>,
    pub active_timer: bool,
    pub timer: Option<Timer>,
    pub isrdos: Vec<ISRDO>,
    pub sss_pity: u16,
    pub s_pity: u16,
    pub a_pity: u16,
    pub total_pulls: u128,
    pub total_flux_aq: u128,
    pub total_astrum_aq: u128,
    /// Flux spent in the running cycle, in the second place.
    pub todays_flux: (i64, u64),
}

/// Number of quest slots in a ledger.
pub const SLOTS: usize = 4;

/// Place of the bonus slot.
pub const BONUS_SLOT: usize = 3;

impl User {
    /// The ledger holds its four quest slots.
    pub open spec fn has_slots(self) -> bool {
        self.dailies@.len() == SLOTS
    }

    /// Where the timer flag is set, a timer is kept.
    pub open spec fn timer_kept(self) -> bool {
        self.active_timer ==> self.timer is Some
    }

    /// The ledger holds its four quest slots, and the timer flag tells
    /// whether a timer is kept.
    pub open spec fn wf(self) -> bool {
        &&& self.has_slots()
        &&& self.active_timer == self.timer.is_some()
    }

    /// The ledger that the store is seeded with: the starting currencies, no
    /// vouchers, the built-in catalog, four fresh quest slots, no timer, and
    /// every counter at zero.
    pub fn seed() -> (user: User)
        ensures
            user.wf(),
            user.id.0@ == "testing"@,
            user.username@ == "Test User"@,
            user.email is None,
            user.astrum == 1600 && user.astrai == 30 && user.flux == 500,
            !user.has_slip,
            !user.active_timer && user.timer is None,
            user.sss_pity == 0 && user.s_pity == 0 && user.a_pity == 0,
            user.total_pulls == 0 && user.total_flux_aq == 0 && user.total_astrum_aq == 0,
            user.todays_flux == (0i64, 0u64),
            user.dailies@ == fresh_slots(),
            user.vouchers@.len() == 0,
            user.isrdos@.len() == 0,
            user.templates@.len() == catalog().len(),
            forall|i: int|
                0 <= i < catalog().len() ==> (#[trigger] user.templates@[i]).is_grant_of(
                    catalog()[i],
                ),
    {
        User {
            id: UserId("testing".to_owned()),
            astrum: 1600,
            astrai: 30,
            flux: 500,
            has_slip: false,
            email: None,
            active_timer: false,
            timer: None,
            a_pity: 0,
            s_pity: 0,
            sss_pity: 0,
            dailies: Daily::init(),
            todays_flux: (0, 0),
            total_pulls: 0,
            total_flux_aq: 0,
            total_astrum_aq: 0,
            username: "Test User".to_owned(),
            vouchers: Vec::new(),
            templates: Voucher::get_templates(),
            isrdos: Vec::new(),
        }
    }

    /// Tells whether the ledger holds its four quest slots.
    pub fn has_four_slots(&self) -> (ok: bool)
        ensures
            ok == self.has_slots(),
    {
        self.dailies.len() == SLOTS
    }

    /// Tells whether a timer is kept where the timer flag is set.
    pub fn keeps_timer(&self) -> (ok: bool)
        ensures
            ok == self.timer_kept(),
    {
        !self.active_timer || self.timer.is_some()
    }

    /// Tells whether the ledger is well formed.
    pub fn is_wf(&self) -> (ok: bool)
        ensures
            ok == self.wf(),
    {
        self.dailies.len() == SLOTS && self.active_timer == self.timer.is_some()
    }
}

} // verus!
