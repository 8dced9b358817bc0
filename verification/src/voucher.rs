//! Vouchers: the built-in catalog, entries a user adds to it, and the
//! instances a ledger owns.

use vstd::prelude::*;
use crate::errors::PersistenceError;
use crate::outside::fresh_uuid;

verus! {

/// A redeemable reward. `uuid` tells one instance from another; the other
/// fields repeat the catalog entry it was made from.
#[derive(Debug)]
pub struct Voucher {
    pub id: u64,
    pub uuid: u128,
    pub name: String,
    pub cost: u64,
    pub new: bool,
    pub description: String,
}

/// A voucher as asked for by a client that adds an entry to its catalog.
#[derive(Debug)]
pub struct ReqVoucher {
    pub id: u64,
    pub cost: u64,
    pub name: String,
    pub description: String,
}

/// What a catalog says of a voucher: all of it but the instance's identifier
/// and its `new` mark.
pub struct Listing {
    pub id: u64,
    pub name: Seq<char>,
    pub cost: u64,
    pub description: Seq<char>,
}

impl Clone for Voucher {
    fn clone(&self) -> (copy: Self)
        ensures
            copy == *self,
    {
        Voucher {
            id: self.id,
            uuid: self.uuid,
            name: self.name.clone(),
            cost: self.cost,
            new: self.new,
            description: self.description.clone(),
        }
    }
}

/// The week off that a top-tier draw can pay.
pub open spec fn mythic_week_listing() -> Listing {
    Listing { id: 999, name: "Mythic Week Off"@, cost: 24192, description: "Get a full week off"@ }
}

/// One full day off.
pub open spec fn off_day_listing() -> Listing {
    Listing { id: 1, name: "Full Day Off"@, cost: 3200, description: "Get one full day off"@ }
}

/// Two hours of gaming.
pub open spec fn gaming_listing() -> Listing {
    Listing {
        id: 2,
        name: "Gaming Session (2H)"@,
        cost: 285,
        description: "2 Hour Gaming Session"@,
    }
}

/// Two hours of work on the machine itself.
pub open spec fn slip_gacha_listing() -> Listing {
    Listing {
        id: 3,
        name: "Gacha Slip (2H)"@,
        cost: 180,
        description: "Permission Slip for Working on the Gacha Machine for 2 Hours"@,
    }
}

/// A cup of premium coffee.
pub open spec fn coffee_listing() -> Listing {
    Listing {
        id: 4,
        name: "Coffee (Premium)"@,
        cost: 150,
        description: "Get 1 cup of Premium Coffee (250ml)"@,
    }
}

/// A cup of standard coffee.
pub open spec fn coffee_standard_listing() -> Listing {
    Listing {
        id: 5,
        name: "Coffee (Standard)"@,
        cost: 75,
        description: "Get 1 cup of Coffee Standard (250ml)"@,
    }
}

/// Three hours of Japanese studies.
pub open spec fn japanese_listing() -> Listing {
    Listing {
        id: 24,
        name: "Japanese Studies (3H)"@,
        cost: 160,
        description: "Slip to study Japanese for 3 Hours"@,
    }
}

/// The built-in catalog: the entry kept under `id`, if there is one.
pub open spec fn builtin(id: u64) -> Option<Listing> {
    if id == 999 {
        Some(mythic_week_listing())
    } else if id == 1 {
        Some(off_day_listing())
    } else if id == 2 {
        Some(gaming_listing())
    } else if id == 3 {
        Some(slip_gacha_listing())
    } else if id == 4 {
        Some(coffee_listing())
    } else if id == 5 {
        Some(coffee_standard_listing())
    } else if id == 24 {
        Some(japanese_listing())
    } else {
        None
    }
}

/// The built-in catalog in the order in which a new ledger lists it.
pub open spec fn catalog() -> Seq<Listing> {
    seq![
        off_day_listing(),
        gaming_listing(),
        slip_gacha_listing(),
        coffee_listing(),
        coffee_standard_listing(),
        japanese_listing(),
        mythic_week_listing(),
    ]
}

/// `at` is the first place in `entries` that holds a voucher with this `id`.
pub open spec fn first_with_id(entries: Seq<Voucher>, id: u64, at: int) -> bool {
    &&& 0 <= at < entries.len()
    &&& entries[at].id == id
    &&& forall|j: int| 0 <= j < at ==> entries[j].id != id
}

/// Some voucher in `entries` has this `id`.
pub open spec fn has_id(entries: Seq<Voucher>, id: u64) -> bool {
    exists|at: int| first_with_id(entries, id, at)
}

/// The first voucher in `entries` with this `id`, if there is one.
pub open spec fn lookup(entries: Seq<Voucher>, id: u64) -> Option<Voucher> {
    if has_id(entries, id) {
        Some(entries[choose|at: int| first_with_id(entries, id, at)])
    } else {
        None
    }
}

/// What stands for sale under `id`: the built-in entry, else, for a known
/// user, the first of the user's own entries with that id.
pub open spec fn offer(templates: Seq<Voucher>, userid: Seq<char>, id: u64) -> Option<Listing> {
    if builtin(id) is Some {
        builtin(id)
    } else if userid.len() == 0 {
        None
    } else {
        match lookup(templates, id) {
            Some(v) => Some(v.listing()),
            None => None,
        }
    }
}

/// Only one place can be the first with an id, so `lookup` finds the voucher
/// at `at` whenever `at` is that place.
pub proof fn lookup_finds_first(entries: Seq<Voucher>, id: u64, at: int)
    requires
        first_with_id(entries, id, at),
    ensures
        lookup(entries, id) == Some(entries[at]),
{
}

/// Where no voucher has the id, `lookup` finds none.
pub proof fn lookup_misses(entries: Seq<Voucher>, id: u64)
    requires
        forall|j: int| 0 <= j < entries.len() ==> entries[j].id != id,
    ensures
        lookup(entries, id) is None,
{
}

/// `after` is `before` with one new instance of each of `given` behind it, in
/// order.
pub open spec fn granted(before: Seq<Voucher>, after: Seq<Voucher>, given: Seq<Listing>) -> bool {
    &&& after.len() == before.len() + given.len()
    &&& forall|i: int| 0 <= i < before.len() ==> after[i] == before[i]
    &&& forall|i: int|
        before.len() <= i < after.len() ==> (#[trigger] after[i]).is_grant_of(
            given[i - before.len()],
        )
}

/// Puts `v`, a new instance of `listing`, behind the vouchers held.
pub(crate) fn award(
    held: &mut Vec<Voucher>,
    v: Voucher,
    Ghost(before): Ghost<Seq<Voucher>>,
    Ghost(given): Ghost<Seq<Listing>>,
    Ghost(listing): Ghost<Listing>,
)
    requires
        granted(before, old(held)@, given),
        v.is_grant_of(listing),
    ensures
        granted(before, final(held)@, given.push(listing)),
{
    held.push(v);
}

/// The first place of `entries` that holds a voucher with this `id`, if
/// there is one.
fn find_id(entries: &Vec<Voucher>, id: u64) -> (found: Option<usize>)
    ensures
        match found {
            Some(at) => first_with_id(entries@, id, at as int) && lookup(entries@, id) == Some(
                entries@[at as int],
            ),
            None => lookup(entries@, id) is None,
        },
{
    let mut i: usize = 0;
    while i < entries.len()
        invariant
            i <= entries.len(),
            forall|j: int| 0 <= j < i ==> entries@[j].id != id,
        decreases entries.len() - i,
    {
        if entries[i].id == id {
            proof {
                lookup_finds_first(entries@, id, i as int);
            }
            return Some(i);
        }
        i += 1;
    }
    proof {
        lookup_misses(entries@, id);
    }
    None
}

impl Voucher {
    /// This voucher is a fresh instance of `listing`: it repeats the entry
    /// and is marked new. Its identifier is left open.
    pub open spec fn is_grant_of(self, listing: Listing) -> bool {
        &&& self.id == listing.id
        &&& self.name@ == listing.name
        &&& self.cost == listing.cost
        &&& self.description@ == listing.description
        &&& self.new
    }

    /// The catalog entry that this voucher repeats.
    pub open spec fn listing(self) -> Listing {
        Listing { id: self.id, name: self.name@, cost: self.cost, description: self.description@ }
    }

    /// The same voucher, no longer marked new.
    pub fn flip_new(v: Self) -> (seen: Self)
        ensures
            seen == (Voucher { new: false, ..v }),
    {
        Voucher { new: false, ..v }
    }

    /// A voucher with exactly these contents.
    pub fn new(id: u64, uuid: u128, name: String, cost: u64, new: bool, desc: String) -> (v: Self)
        ensures
            v == (Voucher { id, uuid, name, cost, new, description: desc }),
    {
        Voucher { id, uuid, name, cost, new, description: desc }
    }

    /// The voucher kept under `id`, as a new instance where the built-in
    /// catalog has the id, else a copy of the first of `templates` with that
    /// id. Without a user or without templates only the built-in catalog is
    /// asked.
    pub fn by_id(id: u64, userid: &str, templates: Option<&Vec<Voucher>>) -> (found: Result<
        Self,
        PersistenceError,
    >)
        ensures
            builtin(id) matches Some(listing) ==> (found matches Ok(v) && v.is_grant_of(listing)),
            builtin(id) is None && (userid@.len() == 0 || templates is None) ==> found == Err::<
                Voucher,
                PersistenceError,
            >(PersistenceError::InvalidIDVoucher),
            builtin(id) is None && userid@.len() != 0 && templates is Some ==> found == match lookup(
                templates->0@,
                id,
            ) {
                Some(v) => Ok::<Voucher, PersistenceError>(v),
                None => Err::<Voucher, PersistenceError>(PersistenceError::InvalidIDVoucher),
            },
    {
        match id {
            999 => Ok(Self::mythic_week()),
            1 => Ok(Self::off_day()),
            2 => Ok(Self::gaming()),
            3 => Ok(Self::slip_gacha()),
            4 => Ok(Self::coffee()),
            5 => Ok(Self::coffee_standard()),
            24 => Ok(Self::japanese()),
            _ => {
                if userid.is_empty() {
                    return Err(PersistenceError::InvalidIDVoucher);
                }
                match templates {
                    None => Err(PersistenceError::InvalidIDVoucher),
                    Some(entries) => match find_id(entries, id) {
                        Some(at) => Ok(entries[at].clone()),
                        None => Err(PersistenceError::InvalidIDVoucher),
                    },
                }
            },
        }
    }

    /// What one piece of the entry offered under `id` costs, if one is
    /// offered: the built-in entry's cost, else, for a known user, that of
    /// the first of `templates` with that id.
    pub fn cost_by_id(id: u64, userid: &str, templates: &Vec<Voucher>) -> (cost: Option<u64>)
        ensures
            cost == match offer(templates@, userid@, id) {
                Some(listing) => Some(listing.cost),
                None => None::<u64>,
            },
    {
        match id {
            999 => Some(24192),
            1 => Some(3200),
            2 => Some(285),
            3 => Some(180),
            4 => Some(150),
            5 => Some(75),
            24 => Some(160),
            _ => {
                if userid.is_empty() {
                    return None;
                }
                match find_id(templates, id) {
                    Some(at) => Some(templates[at].cost),
                    None => None,
                }
            },
        }
    }

    /// The built-in catalog as a new ledger lists it: one new instance of
    /// each entry, in the order of `catalog`.
    pub fn get_templates() -> (all: Vec<Self>)
        ensures
            all@.len() == catalog().len(),
            forall|i: int| 0 <= i < all@.len() ==> #[trigger] all@[i].is_grant_of(catalog()[i]),
    {
        let mut all: Vec<Self> = Vec::new();
        all.push(Self::off_day());
        all.push(Self::gaming());
        all.push(Self::slip_gacha());
        all.push(Self::coffee());
        all.push(Self::coffee_standard());
        all.push(Self::japanese());
        all.push(Self::mythic_week());
        all
    }

    /// A new catalog entry with the contents that the client asked for.
    pub fn from_req_voucher(voucher: ReqVoucher) -> (v: Self)
        ensures
            v.is_grant_of(
                Listing {
                    id: voucher.id,
                    name: voucher.name@,
                    cost: voucher.cost,
                    description: voucher.description@,
                },
            ),
    {
        Voucher::new(
            voucher.id,
            fresh_uuid(),
            voucher.name,
            voucher.cost,
            true,
            voucher.description,
        )
    }

    /// A new instance of the catalog entry with these contents.
    pub fn grant(id: u64, name: &str, cost: u64, description: &str) -> (v: Self)
        ensures
            v.is_grant_of(Listing { id, name: name@, cost, description: description@ }),
    {
        Voucher::new(id, fresh_uuid(), name.to_owned(), cost, true, description.to_owned())
    }

    /// A new instance of the week off.
    pub fn mythic_week() -> (v: Self)
        ensures
            v.is_grant_of(mythic_week_listing()),
    {
        Self::grant(999, "Mythic Week Off", 24192, "Get a full week off")
    }

    /// A new instance of the day off.
    pub fn off_day() -> (v: Self)
        ensures
            v.is_grant_of(off_day_listing()),
    {
        Self::grant(1, "Full Day Off", 3200, "Get one full day off")
    }

    /// A new instance of the gaming session.
    pub fn gaming() -> (v: Self)
        ensures
            v.is_grant_of(gaming_listing()),
    {
        Self::grant(2, "Gaming Session (2H)", 285, "2 Hour Gaming Session")
    }

    /// A new instance of the slip for work on the machine.
    pub fn slip_gacha() -> (v: Self)
        ensures
            v.is_grant_of(slip_gacha_listing()),
    {
        Self::grant(
            3,
            "Gacha Slip (2H)",
            180,
            "Permission Slip for Working on the Gacha Machine for 2 Hours",
        )
    }

    /// A new instance of the premium coffee.
    pub fn coffee() -> (v: Self)
        ensures
            v.is_grant_of(coffee_listing()),
    {
        Self::grant(4, "Coffee (Premium)", 150, "Get 1 cup of Premium Coffee (250ml)")
    }

    /// A new instance of the standard coffee.
    pub fn coffee_standard() -> (v: Self)
        ensures
            v.is_grant_of(coffee_standard_listing()),
    {
        Self::grant(5, "Coffee (Standard)", 75, "Get 1 cup of Coffee Standard (250ml)")
    }

    /// A new instance of the Japanese studies.
    pub fn japanese() -> (v: Self)
        ensures
            v.is_grant_of(japanese_listing()),
    {
        Self::grant(24, "Japanese Studies (3H)", 160, "Slip to study Japanese for 3 Hours")
    }
}

} // verus!
