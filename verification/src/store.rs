//! The voucher store: what a ledger holds, what its catalog offers, and what
//! buying costs.

use vstd::prelude::*;
use crate::daily::{cycle_boundary, cycle_start, representable};
use crate::errors::Refusal;
use crate::ledger::User;
use crate::outside::{now_timestamp, MAX_TIMESTAMP};
use crate::voucher::{award, builtin, granted, lookup, offer, Listing, ReqVoucher, Voucher};

verus! {

/// Most vouchers that one request can have made.
pub const BATCH_LIMIT: u8 = 26;

/// The currencies of a ledger.
#[derive(Clone, Copy, Debug, PartialEq, Eq, Structural)]
pub struct Funds {
    pub astrum: u64,
    pub astrai: u64,
    pub flux: i128,
}

/// The vouchers that do not carry the identifier `uuid`.
pub open spec fn other_than(uuid: u128) -> spec_fn(Voucher) -> bool {
    |v: Voucher| v.uuid != uuid
}

/// The vouchers made from the catalog entry `id`.
pub open spec fn made_from(id: u64) -> spec_fn(Voucher) -> bool {
    |v: Voucher| v.id == id
}

/// `at` is the first place in `held` whose voucher carries `uuid`.
pub open spec fn first_with_uuid(held: Seq<Voucher>, uuid: u128, at: int) -> bool {
    &&& 0 <= at < held.len()
    &&& held[at].uuid == uuid
    &&& forall|j: int| 0 <= j < at ==> held[j].uuid != uuid
}

/// What `amount` pieces of `listing` cost.
pub open spec fn price(listing: Listing, amount: u8) -> int {
    listing.cost * amount
}

/// `v` is what the store hands out under `id`: a new instance of the
/// built-in entry, else the user's own first entry with that id as it
/// stands.
pub open spec fn sold(templates: Seq<Voucher>, userid: Seq<char>, id: u64, v: Voucher) -> bool {
    match builtin(id) {
        Some(listing) => v.is_grant_of(listing),
        None => userid.len() != 0 && lookup(templates, id) == Some(v),
    }
}

/// Flux spent at `now` counts towards the bonus slot: the slot has not been
/// claimed in the running cycle.
pub open spec fn spend_counts(pre: User, now: int) -> bool {
    pre.dailies@[3].last_claimed < cycle_start(now)
}

/// The ledger can take a spending of `total` flux at `now`: the flux does
/// not leave its range, and where the spending counts it is not negative and
/// the cycle's count has room for it.
pub open spec fn spend_fits(pre: User, total: int, now: int) -> bool {
    &&& i128::MIN <= pre.flux - total <= i128::MAX
    &&& spend_counts(pre, now) ==> 0 <= total && pre.todays_flux.1 + total <= u64::MAX
}

/// What spending `total` flux at `now` makes of the ledger: the flux goes
/// down by `total`, and the cycle's count goes up by it where it counts.
pub open spec fn spent(pre: User, post: User, total: int, now: int) -> bool {
    &&& post.flux == pre.flux - total
    &&& post.todays_flux.0 == pre.todays_flux.0
    &&& post.todays_flux.1 == if spend_counts(pre, now) {
        pre.todays_flux.1 + total
    } else {
        pre.todays_flux.1 as int
    }
    &&& post == (User { flux: post.flux, todays_flux: post.todays_flux, ..pre })
}

/// What spending `total` flux at `now` comes to where the ledger's limits
/// are minded: it is done, or, where it does not fit, the ledger stays as it
/// was.
pub open spec fn spend_tried(pre: User, post: User, total: int, now: int, done: bool) -> bool {
    if done {
        spent(pre, post, total, now)
    } else {
        !spend_fits(pre, total, now) && post == pre
    }
}

/// What a request to buy `amount` pieces of the entry `id` at `now` makes of
/// the ledger and answers. An id that nothing is offered under is not found.
/// An amount of zero, or a price above the ledger's flux, is forbidden. Both
/// leave the ledger as it was. Else the price is spent and one voucher, the
/// one answered, is put behind those held.
pub open spec fn purchase_answered(
    pre: User,
    post: User,
    id: u64,
    amount: u8,
    now: int,
    out: Result<Voucher, Refusal>,
) -> bool {
    match offer(pre.templates@, pre.id.0@, id) {
        None => out == Err::<Voucher, Refusal>(Refusal::NotFound) && post == pre,
        Some(listing) => if pre.flux < price(listing, amount) || amount < 1 {
            out == Err::<Voucher, Refusal>(Refusal::Forbidden) && post == pre
        } else {
            &&& out matches Ok(v)
            &&& sold(pre.templates@, pre.id.0@, id, v)
            &&& post.vouchers@ == pre.vouchers@.push(v)
            &&& spent(pre, User { vouchers: pre.vouchers, ..post }, price(listing, amount), now)
        },
    }
}

/// The spending that a purchase would make fits the ledger.
pub open spec fn purchase_fits(pre: User, id: u64, amount: u8, now: int) -> bool {
    match offer(pre.templates@, pre.id.0@, id) {
        None => true,
        Some(listing) => amount >= 1 && pre.flux >= price(listing, amount) ==> spend_fits(
            pre,
            price(listing, amount),
            now,
        ),
    }
}

/// What a request to buy at `now` comes to where the ledger's limits are
/// minded: the answer of `purchase_answered`, or nothing, with the ledger as
/// it was, where the spending does not fit.
pub open spec fn purchase_tried(
    pre: User,
    post: User,
    id: u64,
    amount: u8,
    now: int,
    out: Option<Result<Voucher, Refusal>>,
) -> bool {
    match out {
        Some(answer) => purchase_answered(pre, post, id, amount, now, answer),
        None => !purchase_fits(pre, id, amount, now) && post == pre,
    }
}

/// What a request to have `amount` vouchers of the entry `id` made at `now`
/// makes of the ledger and answers. An id that nothing is offered under is
/// not found; a price above the ledger's flux cannot be paid; more vouchers
/// than a batch holds are forbidden. All three leave the ledger as it was.
/// Else `amount` new instances of the entry are put behind the vouchers held
/// and the price is spent.
pub open spec fn batch_answered(
    pre: User,
    post: User,
    id: u64,
    amount: u8,
    now: int,
    out: Result<(), Refusal>,
) -> bool {
    match offer(pre.templates@, pre.id.0@, id) {
        None => out == Err::<(), Refusal>(Refusal::NotFound) && post == pre,
        Some(listing) => if pre.flux < price(listing, amount) {
            out == Err::<(), Refusal>(Refusal::InsufficientStorage) && post == pre
        } else if amount > BATCH_LIMIT {
            out == Err::<(), Refusal>(Refusal::Forbidden) && post == pre
        } else {
            &&& out is Ok
            &&& granted(pre.vouchers@, post.vouchers@, Seq::new(amount as nat, |k: int| listing))
            &&& spent(pre, User { vouchers: pre.vouchers, ..post }, price(listing, amount), now)
        },
    }
}

/// The spending that a batch would make fits the ledger.
pub open spec fn batch_fits(pre: User, id: u64, amount: u8, now: int) -> bool {
    match offer(pre.templates@, pre.id.0@, id) {
        None => true,
        Some(listing) => amount <= BATCH_LIMIT && pre.flux >= price(listing, amount)
            ==> spend_fits(pre, price(listing, amount), now),
    }
}

/// What a request for a batch at `now` comes to where the ledger's limits
/// are minded.
pub open spec fn batch_tried(
    pre: User,
    post: User,
    id: u64,
    amount: u8,
    now: int,
    out: Option<Result<(), Refusal>>,
) -> bool {
    match out {
        Some(answer) => batch_answered(pre, post, id, amount, now, answer),
        None => !batch_fits(pre, id, amount, now) && post == pre,
    }
}

/// A copy of the vouchers.
fn copy_vouchers(held: &Vec<Voucher>) -> (copy: Vec<Voucher>)
    ensures
        copy@ == held@,
{
    let mut copy: Vec<Voucher> = Vec::new();
    for i in 0..held.len()
        invariant
            copy@ == held@.take(i as int),
    {
        copy.push(held[i].clone());
    }
    copy
}

/// The vouchers of `held` that do not carry `uuid`, in order.
fn without_uuid(held: &Vec<Voucher>, uuid: u128) -> (kept: Vec<Voucher>)
    ensures
        kept@ == held@.filter(other_than(uuid)),
{
    let mut kept: Vec<Voucher> = Vec::new();
    proof {
        Seq::<Voucher>::empty().lemma_filter_len(other_than(uuid));
    }
    for i in 0..held.len()
        invariant
            kept@ == held@.take(i as int).filter(other_than(uuid)),
    {
        proof {
            held@.take(i as int).lemma_filter_push(held@[i as int], other_than(uuid));
            assert(held@.take(i + 1) =~= held@.take(i as int).push(held@[i as int]));
        }
        if held[i].uuid != uuid {
            kept.push(held[i].clone());
        }
    }
    assert(held@.take(held@.len() as int) =~= held@);
    kept
}

/// The vouchers of `held` made from the entry `id`, in order.
fn with_id(held: &Vec<Voucher>, id: u64) -> (kept: Vec<Voucher>)
    ensures
        kept@ == held@.filter(made_from(id)),
{
    let mut kept: Vec<Voucher> = Vec::new();
    proof {
        Seq::<Voucher>::empty().lemma_filter_len(made_from(id));
    }
    for i in 0..held.len()
        invariant
            kept@ == held@.take(i as int).filter(made_from(id)),
    {
        proof {
            held@.take(i as int).lemma_filter_push(held@[i as int], made_from(id));
            assert(held@.take(i + 1) =~= held@.take(i as int).push(held@[i as int]));
        }
        if held[i].id == id {
            kept.push(held[i].clone());
        }
    }
    assert(held@.take(held@.len() as int) =~= held@);
    kept
}

impl User {
    /// Tells whether the ledger can take a spending of `total` flux at `now`.
    pub fn spend_in_range(&self, total: i128, now: i64) -> (ok: bool)
        requires
            self.has_slots(),
            representable(now as int),
        ensures
            ok == spend_fits(*self, total as int, now as int),
    {
        let keeps = if total >= 0 {
            self.flux >= i128::MIN + total
        } else {
            self.flux <= i128::MAX + total
        };
        if !keeps {
            return false;
        }
        if self.dailies[3].last_claimed < cycle_boundary(now) {
            total >= 0 && total <= (u64::MAX - self.todays_flux.1) as i128
        } else {
            true
        }
    }
}

impl User {
    /// Tells whether the spending that a purchase at `now` would make fits
    /// the ledger.
    pub fn purchase_in_range(&self, id: u64, amount: u8, now: i64) -> (ok: bool)
        requires
            self.has_slots(),
            representable(now as int),
        ensures
            ok == purchase_fits(*self, id, amount, now as int),
    {
        match Voucher::cost_by_id(id, self.id.0.as_str(), &self.templates) {
            Some(cost) => {
                let total = total_price(cost, amount);
                if amount >= 1 && self.flux >= total {
                    self.spend_in_range(total, now)
                } else {
                    true
                }
            },
            None => true,
        }
    }

    /// Tells whether the spending that a batch at `now` would make fits the
    /// ledger.
    pub fn batch_in_range(&self, id: u64, amount: u8, now: i64) -> (ok: bool)
        requires
            self.has_slots(),
            representable(now as int),
        ensures
            ok == batch_fits(*self, id, amount, now as int),
    {
        match Voucher::cost_by_id(id, self.id.0.as_str(), &self.templates) {
            Some(cost) => {
                let total = total_price(cost, amount);
                if amount <= BATCH_LIMIT && self.flux >= total {
                    self.spend_in_range(total, now)
                } else {
                    true
                }
            },
            None => true,
        }
    }
}

/// The name this server's single user is kept under.
pub fn get_username() -> (name: String)
    ensures
        name@ == "axol999"@,
{
    "axol999".to_owned()
}

/// The currencies of the ledger.
pub fn get_user_info(user: &User) -> (funds: Funds)
    ensures
        funds == (Funds { astrum: user.astrum, astrai: user.astrai, flux: user.flux }),
{
    Funds { astrum: user.astrum, astrai: user.astrai, flux: user.flux }
}

/// What the ledger has to show: its catalog where `store` is set; else,
/// where `request_all` is set, its vouchers, all of them for the id zero and
/// for another id those made from that entry. Anything else is not found.
pub fn get_user_vouchers(user: &User, request_all: bool, filter_by_id: u64, store: bool) -> (out:
    Result<Vec<Voucher>, Refusal>)
    ensures
        store ==> (out matches Ok(shown) && shown@ == user.templates@),
        !store && request_all && filter_by_id == 0 ==> (out matches Ok(shown) && shown@
            == user.vouchers@),
        !store && request_all && filter_by_id > 0 ==> (out matches Ok(shown) && shown@
            == user.vouchers@.filter(made_from(filter_by_id))),
        !store && !request_all ==> out == Err::<Vec<Voucher>, Refusal>(Refusal::NotFound),
{
    if store {
        return Ok(copy_vouchers(&user.templates));
    }
    if request_all && filter_by_id == 0 {
        return Ok(copy_vouchers(&user.vouchers));
    }
    if request_all && filter_by_id > 0 {
        return Ok(with_id(&user.vouchers, filter_by_id));
    }
    Err(Refusal::NotFound)
}

/// Adds an entry to the ledger's catalog. An entry without a cost or without
/// a name is turned down, and the ledger stays as it was.
pub fn create(user: &mut User, voucher: ReqVoucher) -> (out: Result<(), Refusal>)
    ensures
        voucher.cost < 1 || voucher.name@.len() == 0 ==> out == Err::<(), Refusal>(
            Refusal::LengthRequired,
        ) && *final(user) == *old(user),
        !(voucher.cost < 1 || voucher.name@.len() == 0) ==> out is Ok && granted(
            old(user).templates@,
            final(user).templates@,
            seq![
                Listing {
                    id: voucher.id,
                    name: voucher.name@,
                    cost: voucher.cost,
                    description: voucher.description@,
                },
            ],
        ) && *final(user) == (User { templates: final(user).templates, ..*old(user) }),
{
    if voucher.cost < 1 || voucher.name.as_str().is_empty() {
        return Err(Refusal::LengthRequired);
    }
    let ghost listing = Listing {
        id: voucher.id,
        name: voucher.name@,
        cost: voucher.cost,
        description: voucher.description@,
    };
    award(
        &mut user.templates,
        Voucher::from_req_voucher(voucher),
        Ghost(old(user).templates@),
        Ghost(Seq::empty()),
        Ghost(listing),
    );
    Ok(())
}

/// Spends `amount` flux at `now`.
pub fn decrease_flux_at(user: &mut User, amount: i128, now: i64)
    requires
        old(user).has_slots(),
        representable(now as int),
        spend_fits(*old(user), amount as int, now as int),
    ensures
        spent(*old(user), *final(user), amount as int, now as int),
        final(user).has_slots(),
{
    user.flux -= amount;

    if user.dailies[3].last_claimed < cycle_boundary(now) {
        user.todays_flux.1 += amount as u64;
    }
}

/// Spends `amount` flux now, by the system clock, and tells whether it did:
/// where the spending does not fit the ledger, nothing is done.
pub fn decrease_flux(user: &mut User, amount: i128) -> (done: bool)
    requires
        old(user).has_slots(),
    ensures
        final(user).has_slots(),
        exists|now: i64|
            0 <= now <= MAX_TIMESTAMP && #[trigger] spend_tried(
                *old(user),
                *final(user),
                amount as int,
                now as int,
                done,
            ),
{
    let now = now_timestamp();
    if !user.spend_in_range(amount, now) {
        assert(spend_tried(*old(user), *user, amount as int, now as int, false));
        return false;
    }
    decrease_flux_at(user, amount, now);
    assert(spend_tried(*old(user), *user, amount as int, now as int, true));
    true
}

/// What `amount` pieces at `cost` each come to.
fn total_price(cost: u64, amount: u8) -> (total: i128)
    ensures
        total == cost * amount,
        total >= 0,
{
    assert(0 <= cost * amount <= u64::MAX * 255) by (nonlinear_arith)
        requires
            0 <= cost <= u64::MAX,
            0 <= amount <= 255,
    ;
    (cost as i128) * (amount as i128)
}

/// Books a sale: spends `cost` at `now` and puts `sold` behind the vouchers
/// held.
fn pay_for(user: &mut User, sold: &Voucher, cost: i128, now: i64)
    requires
        old(user).has_slots(),
        representable(now as int),
        spend_fits(*old(user), cost as int, now as int),
    ensures
        final(user).has_slots(),
        final(user).vouchers@ == old(user).vouchers@.push(*sold),
        spent(
            *old(user),
            User { vouchers: old(user).vouchers, ..*final(user) },
            cost as int,
            now as int,
        ),
{
    decrease_flux_at(user, cost, now);
    user.vouchers.push(sold.clone());
}

/// Buys `amount` pieces of the entry `id` at `now`. The ledger gets one
/// voucher for them, which is also answered.
pub fn purchase_at(user: &mut User, id: u64, amount: u8, now: i64) -> (out: Result<Voucher, Refusal>)
    requires
        old(user).has_slots(),
        representable(now as int),
        purchase_fits(*old(user), id, amount, now as int),
    ensures
        purchase_answered(*old(user), *final(user), id, amount, now as int, out),
        final(user).has_slots(),
{
    let req_voucher = match Voucher::by_id(id, user.id.0.as_str(), Some(&user.templates)) {
        Ok(v) => v,
        Err(_) => {
            return Err(Refusal::NotFound);
        },
    };
    let cost = total_price(req_voucher.cost, amount);

    if user.flux < cost || amount < 1 {
        return Err(Refusal::Forbidden);
    }
    pay_for(user, &req_voucher, cost, now);
    Ok(req_voucher)
}

/// Buys `amount` pieces of the entry `id` now, by the system clock. Where the
/// spending would not fit the ledger, nothing is done and nothing is
/// answered.
pub fn purchase(user: &mut User, id: u64, amount: u8) -> (out: Option<Result<Voucher, Refusal>>)
    requires
        old(user).has_slots(),
    ensures
        final(user).has_slots(),
        exists|now: i64|
            0 <= now <= MAX_TIMESTAMP && #[trigger] purchase_tried(
                *old(user),
                *final(user),
                id,
                amount,
                now as int,
                out,
            ),
{
    let now = now_timestamp();
    if !user.purchase_in_range(id, amount, now) {
        assert(purchase_tried(*old(user), *user, id, amount, now as int, None));
        return None;
    }
    let out = Some(purchase_at(user, id, amount, now));
    assert(purchase_tried(*old(user), *user, id, amount, now as int, out));
    out
}

/// Books a batch: puts `amount` new instances of `entry` behind the vouchers
/// held and spends `cost` at `now`.
fn stock(user: &mut User, entry: &Voucher, amount: u8, cost: i128, now: i64)
    requires
        old(user).has_slots(),
        representable(now as int),
        spend_fits(*old(user), cost as int, now as int),
    ensures
        final(user).has_slots(),
        granted(
            old(user).vouchers@,
            final(user).vouchers@,
            Seq::new(amount as nat, |k: int| entry.listing()),
        ),
        spent(
            *old(user),
            User { vouchers: old(user).vouchers, ..*final(user) },
            cost as int,
            now as int,
        ),
{
    let ghost before = user.vouchers@;
    let ghost mut given: Seq<Listing> = Seq::empty();
    for idx in 0..amount
        invariant
            *user == (User { vouchers: user.vouchers, ..*old(user) }),
            before == old(user).vouchers@,
            granted(before, user.vouchers@, given),
            given =~= Seq::new(idx as nat, |k: int| entry.listing()),
    {
        award(
            &mut user.vouchers,
            Voucher::new(
                entry.id,
                crate::outside::fresh_uuid(),
                entry.name.clone(),
                entry.cost,
                true,
                entry.description.clone(),
            ),
            Ghost(before),
            Ghost(given),
            Ghost(entry.listing()),
        );
        proof {
            given = given.push(entry.listing());
        }
    }
    decrease_flux_at(user, cost, now);
}

/// Has `amount` vouchers of the entry `id` made at `now`, each a new
/// instance, and spends their price.
pub fn create_advanced_at(user: &mut User, id: u64, amount: u8, now: i64) -> (out: Result<
    (),
    Refusal,
>)
    requires
        old(user).has_slots(),
        representable(now as int),
        batch_fits(*old(user), id, amount, now as int),
    ensures
        batch_answered(*old(user), *final(user), id, amount, now as int, out),
        final(user).has_slots(),
{
    let voucher = match Voucher::by_id(id, user.id.0.as_str(), Some(&user.templates)) {
        Ok(v) => v,
        Err(_) => {
            return Err(Refusal::NotFound);
        },
    };
    let cost = total_price(voucher.cost, amount);
    if user.flux < cost {
        return Err(Refusal::InsufficientStorage);
    }
    if amount > BATCH_LIMIT {
        return Err(Refusal::Forbidden);
    }
    stock(user, &voucher, amount, cost, now);
    Ok(())
}

/// Has `amount` vouchers of the entry `id` made now, by the system clock.
/// Where the spending would not fit the ledger, nothing is done and nothing
/// is answered.
pub fn create_advanced(user: &mut User, id: u64, amount: u8) -> (out: Option<Result<(), Refusal>>)
    requires
        old(user).has_slots(),
    ensures
        final(user).has_slots(),
        exists|now: i64|
            0 <= now <= MAX_TIMESTAMP && #[trigger] batch_tried(
                *old(user),
                *final(user),
                id,
                amount,
                now as int,
                out,
            ),
{
    let now = now_timestamp();
    if !user.batch_in_range(id, amount, now) {
        assert(batch_tried(*old(user), *user, id, amount, now as int, None));
        return None;
    }
    let out = Some(create_advanced_at(user, id, amount, now));
    assert(batch_tried(*old(user), *user, id, amount, now as int, out));
    out
}

/// Some voucher of `held` carries `uuid`.
pub open spec fn carries(held: Seq<Voucher>, uuid: u128) -> bool {
    exists|at: int| first_with_uuid(held, uuid, at)
}

/// The first place of `held` whose voucher carries `uuid`, if there is one.
fn find_uuid(held: &Vec<Voucher>, uuid: u128) -> (found: Option<usize>)
    ensures
        match found {
            Some(at) => first_with_uuid(held@, uuid, at as int),
            None => !carries(held@, uuid),
        },
{
    let mut i: usize = 0;
    while i < held.len()
        invariant
            i <= held.len(),
            forall|j: int| 0 <= j < i ==> held@[j].uuid != uuid,
        decreases held.len() - i,
    {
        if held[i].uuid == uuid {
            return Some(i);
        }
        i += 1;
    }
    None
}

/// Takes the entries that carry `uuid` out of the ledger's catalog. Where
/// none carries it, nothing is found and the ledger stays as it was.
pub fn delete_storeitem(user: &mut User, uuid: u128) -> (out: Result<(), Refusal>)
    ensures
        !carries(old(user).templates@, uuid) ==> out == Err::<(), Refusal>(Refusal::NotFound)
            && *final(user) == *old(user),
        carries(old(user).templates@, uuid) ==> out is Ok && final(user).templates@ == old(
            user,
        ).templates@.filter(other_than(uuid)) && *final(user) == (User {
            templates: final(user).templates,
            ..*old(user)
        }),
{
    if find_uuid(&user.templates, uuid).is_none() {
        return Err(Refusal::NotFound);
    }
    user.templates = without_uuid(&user.templates, uuid);
    Ok(())
}

/// Uses up the vouchers that carry `uuid`: they leave the ledger.
pub fn consume(user: &mut User, uuid: u128)
    ensures
        final(user).vouchers@ == old(user).vouchers@.filter(other_than(uuid)),
        *final(user) == (User { vouchers: final(user).vouchers, ..*old(user) }),
{
    user.vouchers = without_uuid(&user.vouchers, uuid);
}

/// Takes the `new` mark off the first voucher that carries `uuid`. Where
/// none carries it the ledger stays as it was.
pub fn remove_new_logo(user: &mut User, uuid: u128)
    ensures
        !carries(old(user).vouchers@, uuid) ==> *final(user) == *old(user),
        forall|at: int|
            first_with_uuid(old(user).vouchers@, uuid, at) ==> final(user).vouchers@ == old(
                user,
            ).vouchers@.update(at, Voucher { new: false, ..old(user).vouchers@[at] }),
        *final(user) == (User { vouchers: final(user).vouchers, ..*old(user) }),
{
    match find_uuid(&user.vouchers, uuid) {
        Some(at) => {
            let seen = Voucher::flip_new(user.vouchers[at].clone());
            user.vouchers.set(at, seen);
        },
        None => {},
    }
}

} // verus!
