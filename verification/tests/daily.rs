use gacha::daily::{cycle_boundary, dailies, dailies_at, Daily};
use gacha::errors::Refusal;
use gacha::ledger::User;

const DAY: i64 = 86_400;
// 2023-11-14T22:13:20Z
const T0: i64 = 1_700_000_000;
// 2023-11-14T04:00:00Z
const CUT: i64 = 1_699_934_400;

#[test]
fn fresh_slots() {
    let slots = Daily::init();
    assert_eq!(slots.len(), 4);
    for (i, slot) in slots.iter().enumerate() {
        assert_eq!(slot.id as usize, i);
        assert_eq!(slot.claimable, i != 3);
        assert!(!slot.claimed);
        assert_eq!(slot.last_claimed, 0);
    }
}

#[test]
fn boundary_is_the_latest_cutoff() {
    assert_eq!(cycle_boundary(T0), CUT);
    assert_eq!(cycle_boundary(CUT), CUT);
    assert_eq!(cycle_boundary(CUT - 1), CUT - DAY);
    assert_eq!(cycle_boundary(CUT + DAY - 1), CUT);
    assert_eq!(cycle_boundary(CUT + DAY), CUT + DAY);
    // 2015-05-15T00:00:00Z lies before that day's cutoff
    assert_eq!(cycle_boundary(1_431_648_000), 1_431_648_000 - 20 * 3600);
    assert_eq!(cycle_boundary(0), -20 * 3600);
    assert_eq!(cycle_boundary(4 * 3600), 4 * 3600);
    assert_eq!(cycle_boundary(-1), -20 * 3600);
    assert_eq!(cycle_boundary(-20 * 3600 - 1), -44 * 3600);
}

#[test]
fn boundary_is_the_same_within_a_window() {
    let midnight = CUT - 4 * 3600;
    for (a, b) in [(0, 1), (1, 4 * 3600 - 1), (100, 14_399)] {
        assert_eq!(cycle_boundary(midnight + a), cycle_boundary(midnight + b));
        assert_eq!(cycle_boundary(midnight + a), CUT - DAY);
    }
    for (a, b) in [(4 * 3600, 4 * 3600 + 1), (14_400, DAY - 1), (50_000, 80_000)] {
        assert_eq!(cycle_boundary(midnight + a), cycle_boundary(midnight + b));
        assert_eq!(cycle_boundary(midnight + a), CUT);
    }
    assert_eq!(cycle_boundary(cycle_boundary(T0)), cycle_boundary(T0));
}

#[test]
fn boundary_at_the_ends_of_the_calendar() {
    let min = -8_334_601_228_800;
    let max = 8_210_266_876_799;
    assert_eq!(cycle_boundary(min), min - 20 * 3600);
    assert_eq!(cycle_boundary(max), max - 86_399 + 4 * 3600);
}

#[test]
fn cycle_by_the_clock() {
    let start = Daily::cycle();
    assert!(start >= CUT);
    assert_eq!((start - 4 * 3600) % DAY, 0);
}

#[test]
fn bonus_slot_needs_the_spending() {
    let mut user = User::seed();
    assert_eq!(user.todays_flux, (0, 0));
    let before = format!("{:?}", user);
    let out = dailies_at(&mut user, false, 3, T0);
    assert_eq!(out.err(), Some(Refusal::Forbidden));
    assert_eq!(format!("{:?}", user), before);

    user.todays_flux.1 = 499;
    assert_eq!(dailies_at(&mut user, false, 3, T0).err(), Some(Refusal::Forbidden));

    user.todays_flux.1 = 500;
    let resp = dailies_at(&mut user, false, 3, T0).unwrap();
    assert_eq!(user.todays_flux, (0, 0));
    assert_eq!((resp.astrum, resp.flux, resp.astrai), (80, 0, 0));
    assert_eq!(user.astrum, 1680);
    assert_eq!(user.dailies[3].last_claimed, T0);
    assert!(user.dailies[3].claimed);
    assert_eq!(format!("{:?}", resp.dailies), format!("{:?}", user.dailies));
}

#[test]
fn bonus_slot_with_more_than_the_threshold() {
    let mut user = User::seed();
    user.todays_flux = (7, 1234);
    let resp = dailies_at(&mut user, false, 3, T0).unwrap();
    assert_eq!(user.todays_flux, (7, 0));
    assert_eq!(resp.astrum, 80);
}

#[test]
fn each_slot_pays_its_reward() {
    let mut user = User::seed();
    let resp = dailies_at(&mut user, false, 0, T0).unwrap();
    assert_eq!((resp.astrum, resp.flux, resp.astrai), (40, 0, 1));
    assert_eq!((user.astrum, user.flux, user.astrai), (1640, 500, 31));
    let resp = dailies_at(&mut user, false, 1, T0 + 1).unwrap();
    assert_eq!((resp.astrum, resp.flux, resp.astrai), (40, 0, 2));
    assert_eq!((user.astrum, user.flux, user.astrai), (1680, 500, 33));
    let resp = dailies_at(&mut user, false, 2, T0 + 2).unwrap();
    assert_eq!((resp.astrum, resp.flux, resp.astrai), (80, 75, 0));
    assert_eq!((user.astrum, user.flux, user.astrai), (1760, 575, 33));
    assert_eq!(user.dailies[1].last_claimed, T0 + 1);
    assert!(!user.dailies[3].claimed);
    assert!(user.is_wf());
}

#[test]
fn the_full_set_pays_a_bonus() {
    let mut user = User::seed();
    user.todays_flux.1 = 500;
    for id in 0..3 {
        dailies_at(&mut user, false, id, T0).unwrap();
    }
    let (astrum, flux, astrai) = (user.astrum, user.flux, user.astrai);
    let resp = dailies_at(&mut user, false, 3, T0).unwrap();
    assert_eq!((resp.astrum, resp.flux, resp.astrai), (180, 100, 2));
    assert_eq!(user.astrum, astrum + 180);
    assert_eq!(user.astrai, astrai + 2);
    assert_eq!(user.flux, flux);
    assert!(user.dailies.iter().all(|d| d.claimed));
}

#[test]
fn marks_of_the_day_before_pay_no_bonus() {
    // 1970-01-02T04:00:00Z and the cutoff one day later
    let (day_one, day_two) = (100_800, 187_200);
    let mut user = User::seed();
    user.todays_flux.1 = 500;
    for id in 0..3 {
        dailies_at(&mut user, false, id, day_one).unwrap();
    }
    assert!(user.dailies[..3].iter().all(|d| d.claimed));
    let (astrum, flux, astrai) = (user.astrum, user.flux, user.astrai);
    assert!(user.claim_in_range(3, day_two));
    let resp = dailies_at(&mut user, false, 3, day_two).unwrap();
    assert_eq!((resp.astrum, resp.flux, resp.astrai), (80, 0, 0));
    assert_eq!((user.astrum, user.flux, user.astrai), (astrum + 80, flux, astrai));
    assert_eq!(user.todays_flux, (0, 0));

    // the other three are claimed again on the second day: the last of them completes the set
    for id in 0..2 {
        let resp = dailies_at(&mut user, false, id, day_two + 1).unwrap();
        assert_eq!(resp.astrum, 40);
    }
    let resp = dailies_at(&mut user, false, 2, day_two + 2).unwrap();
    assert_eq!((resp.astrum, resp.flux, resp.astrai), (180, 175, 2));
}

#[test]
fn the_bonus_goes_by_the_stamps_not_by_the_marks() {
    let mut user = User::seed();
    user.todays_flux.1 = 500;
    for slot in user.dailies.iter_mut() {
        slot.claimed = true;
    }
    let resp = dailies_at(&mut user, false, 0, T0).unwrap();
    assert_eq!((resp.astrum, resp.flux, resp.astrai), (40, 0, 1));

    let mut user = User::seed();
    user.todays_flux.1 = 500;
    for slot in user.dailies.iter_mut().skip(1) {
        slot.last_claimed = CUT;
        slot.claimed = false;
    }
    let resp = dailies_at(&mut user, false, 0, T0).unwrap();
    assert_eq!((resp.astrum, resp.flux, resp.astrai), (140, 100, 3));
    assert_eq!((user.astrum, user.flux, user.astrai), (1740, 500, 33));

    let mut user = User::seed();
    for slot in user.dailies.iter_mut().skip(1) {
        slot.last_claimed = CUT - 1;
    }
    let resp = dailies_at(&mut user, false, 0, T0).unwrap();
    assert_eq!((resp.astrum, resp.flux, resp.astrai), (40, 0, 1));
}

#[test]
fn a_slot_is_claimed_once_per_cycle() {
    let mut user = User::seed();
    dailies_at(&mut user, false, 0, CUT).unwrap();
    let before = format!("{:?}", user);
    assert_eq!(dailies_at(&mut user, false, 0, CUT + 1).err(), Some(Refusal::Forbidden));
    assert_eq!(dailies_at(&mut user, false, 0, CUT + DAY - 1).err(), Some(Refusal::Forbidden));
    assert_eq!(format!("{:?}", user), before);
    let resp = dailies_at(&mut user, false, 0, CUT + DAY).unwrap();
    assert_eq!(resp.astrum, 40);
    assert_eq!(user.dailies[0].last_claimed, CUT + DAY);
}

#[test]
fn a_slot_claimed_just_before_the_cutoff_opens_at_the_cutoff() {
    let mut user = User::seed();
    dailies_at(&mut user, false, 1, CUT - 1).unwrap();
    assert!(dailies_at(&mut user, false, 1, CUT).is_ok());
}

#[test]
fn no_such_slot() {
    let mut user = User::seed();
    let before = format!("{:?}", user);
    for id in [4u8, 5, 200, 255] {
        assert_eq!(dailies_at(&mut user, false, id, T0).err(), Some(Refusal::Forbidden));
    }
    assert_eq!(format!("{:?}", user), before);
}

#[test]
fn a_look_refreshes_the_marks() {
    let mut user = User::seed();
    dailies_at(&mut user, false, 0, T0).unwrap();
    user.dailies[1].claimed = true;
    user.dailies[1].claimable = false;
    let resp = dailies_at(&mut user, true, 200, T0 + 5).unwrap();
    assert_eq!((resp.astrum, resp.flux, resp.astrai), (0, 0, 0));
    let marks: Vec<(bool, bool)> = user.dailies.iter().map(|d| (d.claimable, d.claimed)).collect();
    assert_eq!(marks, vec![(false, true), (true, false), (true, false), (false, false)]);
    assert_eq!(format!("{:?}", resp.dailies), format!("{:?}", user.dailies));
    assert_eq!(user.dailies[0].last_claimed, T0);
    assert_eq!((user.astrum, user.astrai, user.flux), (1640, 31, 500));

    user.todays_flux.1 = 500;
    dailies_at(&mut user, true, 0, T0 + 5).unwrap();
    assert!(user.dailies[3].claimable);
    assert!(!user.dailies[3].claimed);

    dailies_at(&mut user, false, 3, T0 + 6).unwrap();
    user.todays_flux.1 = 900;
    dailies_at(&mut user, true, 3, T0 + 7).unwrap();
    assert!(!user.dailies[3].claimable);
    assert!(user.dailies[3].claimed);

    dailies_at(&mut user, true, 3, T0 + DAY).unwrap();
    let marks: Vec<(bool, bool)> = user.dailies.iter().map(|d| (d.claimable, d.claimed)).collect();
    assert_eq!(marks, vec![(true, false), (true, false), (true, false), (true, false)]);
}

#[test]
fn a_look_does_not_claim() {
    let mut user = User::seed();
    dailies_at(&mut user, true, 0, T0).unwrap();
    assert_eq!(user.dailies[0].last_claimed, 0);
    assert_eq!(user.astrum, 1600);
}

#[test]
fn requests_by_the_clock() {
    let mut user = User::seed();
    let resp = dailies(&mut user, false, 2).unwrap().unwrap();
    assert_eq!((resp.astrum, resp.flux, resp.astrai), (80, 75, 0));
    assert!(user.dailies[2].last_claimed >= T0);
    assert_eq!(dailies(&mut user, false, 2).unwrap().err(), Some(Refusal::Forbidden));
    assert_eq!(dailies(&mut user, false, 3).unwrap().err(), Some(Refusal::Forbidden));
    assert!(dailies(&mut user, true, 9).unwrap().is_ok());
    assert!(user.dailies[2].claimed);
}

#[test]
fn a_credit_that_does_not_fit_is_not_booked() {
    let mut user = User::seed();
    user.astrum = u64::MAX - 39;
    assert!(!user.claim_in_range(0, T0));
    let before = format!("{:?}", user);
    assert!(dailies(&mut user, false, 0).is_none());
    assert_eq!(format!("{:?}", user), before);
    user.astrum = u64::MAX - 40;
    assert!(user.claim_in_range(0, T0));
    assert!(dailies(&mut user, false, 0).unwrap().is_ok());
    assert_eq!(user.astrum, u64::MAX);
    // a claim that is refused anyway needs no room
    assert_eq!(dailies(&mut user, false, 0).unwrap().err(), Some(Refusal::Forbidden));
}

#[test]
fn room_for_the_bonus_is_asked_only_where_it_is_paid() {
    let mut user = User::seed();
    user.astrum = u64::MAX - 100;
    for slot in user.dailies.iter_mut().skip(1) {
        slot.last_claimed = CUT;
    }
    // in the cycle of the stamps the claim completes the set and needs 140
    assert!(!user.claim_in_range(0, T0));
    // a cycle later it pays 40 only
    assert!(user.claim_in_range(0, T0 + DAY));
    user.astrum = u64::MAX - 140;
    assert!(user.claim_in_range(0, T0));
    user.astrai = u64::MAX - 2;
    assert!(!user.claim_in_range(0, T0));
    assert!(user.claim_in_range(0, T0 + DAY));
}
