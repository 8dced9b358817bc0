use gacha::ledger::User;
use gacha::pull::{apply_outcome, apply_outcome_with, draw_rolls, handle_pull, handle_pull_with, Rolls};
use gacha::rarity::{PityCtx, Rarities, SerializedRarity};

const TIERS: [Rarities; 4] = [Rarities::MythicSSS, Rarities::S, Rarities::A, Rarities::B];

fn scenario_ledger() -> User {
    let mut user = User::seed();
    user.astrai = 1;
    user.astrum = 1600;
    user.flux = 500;
    user
}

fn rolls(first: u8, second: u8, third: u8, fourth: u8) -> Rolls {
    Rolls { first, second, third, fourth }
}

fn names(user: &User) -> Vec<String> {
    user.vouchers.iter().map(|v| v.name.clone()).collect()
}

#[test]
fn pull_once_with_one_ticket() {
    for outcome in TIERS {
        let mut user = scenario_ledger();
        assert!(user.applies(outcome));
        let resp = handle_pull(&mut user, outcome);
        assert_eq!(user.total_pulls, 1);
        assert_eq!(user.astrai, 0);
        assert_eq!(user.astrum, 1600);
        let expected = match outcome {
            Rarities::MythicSSS => (0, 1, 1),
            Rarities::S => (1, 0, 1),
            Rarities::A => (1, 1, 0),
            Rarities::B => (1, 1, 1),
        };
        assert_eq!((user.sss_pity, user.s_pity, user.a_pity), expected);
        assert_eq!(resp.vouchers as usize, user.vouchers.len());
        assert_eq!(resp.result, SerializedRarity::try_from(outcome).unwrap());
    }
}

#[test]
fn pity_counters_move_as_the_tier_says() {
    let pity = PityCtx { sss_pity: 7, s_pity: 11, a_pity: 13 };
    assert_eq!(pity.advance(Rarities::MythicSSS), PityCtx { sss_pity: 0, s_pity: 12, a_pity: 14 });
    assert_eq!(pity.advance(Rarities::S), PityCtx { sss_pity: 8, s_pity: 0, a_pity: 14 });
    assert_eq!(pity.advance(Rarities::A), PityCtx { sss_pity: 8, s_pity: 12, a_pity: 0 });
    assert_eq!(pity.advance(Rarities::B), PityCtx { sss_pity: 8, s_pity: 12, a_pity: 14 });
    assert_eq!(pity, PityCtx { sss_pity: 7, s_pity: 11, a_pity: 13 });
}

#[test]
fn a_full_counter_cannot_advance() {
    let pity = PityCtx { sss_pity: u16::MAX, s_pity: 0, a_pity: 0 };
    assert!(pity.advances(Rarities::MythicSSS));
    assert!(!pity.advances(Rarities::S));
    assert!(!pity.advances(Rarities::A));
    assert!(!pity.advances(Rarities::B));
    let mut user = User::seed();
    user.a_pity = u16::MAX;
    assert!(user.applies(Rarities::A));
    assert!(!user.applies(Rarities::B));
}

#[test]
fn pity_of_a_ledger() {
    let mut user = User::seed();
    user.sss_pity = 3;
    user.s_pity = 2;
    user.a_pity = 1;
    assert_eq!(PityCtx::try_from(&user), Ok(PityCtx { sss_pity: 3, s_pity: 2, a_pity: 1 }));
}

#[test]
fn every_tier_has_its_report() {
    assert_eq!(SerializedRarity::try_from(Rarities::MythicSSS), Ok(SerializedRarity::MythicSSS));
    assert_eq!(SerializedRarity::try_from(Rarities::S), Ok(SerializedRarity::S));
    assert_eq!(SerializedRarity::try_from(Rarities::A), Ok(SerializedRarity::A));
    assert_eq!(SerializedRarity::try_from(Rarities::B), Ok(SerializedRarity::B));
}

#[test]
fn total_pulls_counts_every_draw() {
    let mut user = User::seed();
    user.total_pulls = 41;
    let order = [Rarities::B, Rarities::A, Rarities::B, Rarities::S, Rarities::MythicSSS, Rarities::B];
    for (i, outcome) in order.iter().enumerate() {
        assert!(user.applies(*outcome));
        apply_outcome(&mut user, *outcome);
        assert_eq!(user.total_pulls, 41 + i as u128 + 1);
    }
    assert_eq!(user.total_pulls, 47);
}

#[test]
fn a_ticket_is_taken_before_astrum() {
    let mut user = User::seed();
    user.astrai = 2;
    user.astrum = 1000;
    apply_outcome_with(&mut user, Rarities::B, rolls(0, 0, 0, 0));
    assert_eq!((user.astrai, user.astrum), (1, 1000));
    apply_outcome_with(&mut user, Rarities::A, rolls(0, 0, 0, 0));
    assert_eq!((user.astrai, user.astrum), (0, 1000));
    apply_outcome_with(&mut user, Rarities::B, rolls(0, 0, 0, 0));
    assert_eq!((user.astrai, user.astrum), (0, 840));
}

#[test]
fn no_ticket_and_too_little_astrum() {
    let mut user = User::seed();
    user.astrai = 0;
    user.astrum = 159;
    assert!(!user.has_funds());
    assert!(!user.applies(Rarities::B));
    let before = format!("{:?}", user);
    let resp = handle_pull(&mut user, Rarities::S);
    assert_eq!(resp.result, SerializedRarity::NoTickets);
    assert_eq!(resp.vouchers, 0);
    assert_eq!(format!("{:?}", user), before);
    user.astrum = 160;
    assert!(user.has_funds());
    let resp = handle_pull_with(&mut user, Rarities::A, rolls(1, 2, 3, 4));
    assert_eq!(resp.result, SerializedRarity::A);
    assert_eq!(resp.vouchers, 1);
    assert_eq!(user.astrum, 0);
}

#[test]
fn mythic_pays_the_week_on_a_low_roll() {
    let mut user = User::seed();
    let n = apply_outcome_with(&mut user, Rarities::MythicSSS, rolls(127, 0, 0, 0));
    assert_eq!(n, 1);
    assert!(!user.has_slip);
    assert_eq!(user.flux, 2900);
    assert_eq!(user.total_flux_aq, 2400);
    assert_eq!(names(&user), vec!["Mythic Week Off"]);
    let week = &user.vouchers[0];
    assert_eq!((week.id, week.cost, week.new), (999, 24192, true));
    assert_eq!(week.description, "Get a full week off");
}

#[test]
fn mythic_pays_the_bundle_on_a_high_roll_and_sets_the_slip() {
    let mut user = User::seed();
    let n = apply_outcome_with(&mut user, Rarities::MythicSSS, rolls(128, 0, 0, 0));
    assert_eq!(n, 9);
    assert!(user.has_slip);
    let ids: Vec<u64> = user.vouchers.iter().map(|v| v.id).collect();
    assert_eq!(ids, vec![2, 2, 1, 4, 24, 4, 24, 4, 24]);
    let costs: Vec<u64> = user.vouchers.iter().map(|v| v.cost).collect();
    assert_eq!(costs, vec![285, 285, 3200, 150, 160, 150, 160, 150, 160]);
    assert!(user.vouchers.iter().all(|v| v.new));
}

#[test]
fn the_slip_stays_and_opens_the_week() {
    let mut user = User::seed();
    user.has_slip = true;
    let n = apply_outcome_with(&mut user, Rarities::MythicSSS, rolls(255, 0, 0, 0));
    assert_eq!(n, 1);
    assert_eq!(names(&user), vec!["Mythic Week Off"]);
    for outcome in TIERS {
        for first in [0u8, 24, 127, 128, 255] {
            assert!(user.applies(outcome));
            apply_outcome_with(&mut user, outcome, rolls(first, first, first, first));
            assert!(user.has_slip);
        }
    }
}

#[test]
fn s_grants_one_to_four_vouchers() {
    let mut user = User::seed();
    let n = apply_outcome_with(&mut user, Rarities::S, rolls(63, 84, 84, 15));
    assert_eq!(n, 4);
    assert_eq!(names(&user), vec!["Japanese [3H]", "Gacha Slip [2H]", "Coffee (Premium)", "Gaming Session (2H)"]);
    let costs: Vec<u64> = user.vouchers.iter().map(|v| v.cost).collect();
    assert_eq!(costs, vec![150, 180, 150, 285]);
    assert_eq!(user.vouchers[1].id, 9);
    assert_eq!(user.vouchers[0].description, "Study Japanese for 3 Hours");
    assert_eq!(user.vouchers[1].description, "Permission Slip to Work on LifeGacha for 2 Hours");
    assert_eq!(user.flux, 860);
    assert_eq!(user.total_flux_aq, 360);

    let mut user = User::seed();
    let n = apply_outcome_with(&mut user, Rarities::S, rolls(64, 85, 85, 16));
    assert_eq!(n, 1);
    assert_eq!(names(&user), vec!["Japanese [1H]"]);
    assert_eq!((user.vouchers[0].id, user.vouchers[0].cost), (24, 50));
    assert_eq!(user.vouchers[0].description, "Study Japanese for 1 Hour");

    let mut user = User::seed();
    let n = apply_outcome_with(&mut user, Rarities::S, rolls(200, 200, 0, 200));
    assert_eq!(n, 2);
    assert_eq!(names(&user), vec!["Japanese [1H]", "Coffee (Premium)"]);
}

#[test]
fn a_grants_the_break() {
    let mut user = User::seed();
    let n = apply_outcome_with(&mut user, Rarities::A, rolls(24, 0, 0, 0));
    assert_eq!(n, 1);
    let v = &user.vouchers[0];
    assert_eq!((v.id, v.cost, v.new), (0, 35, true));
    assert_eq!(v.name, "15 Minute Break");
    assert_eq!(v.description, "Take a 15 minute breather break");
    assert_eq!(user.flux, 620);
    assert_eq!(user.total_flux_aq, 120);
}

#[test]
fn b_grants_a_voucher_on_one_roll_only() {
    for first in 0..=255u8 {
        let mut user = User::seed();
        let n = apply_outcome_with(&mut user, Rarities::B, rolls(first, 0, 0, 0));
        assert_eq!(user.flux, 510);
        assert_eq!(user.total_flux_aq, 10);
        if first == 24 {
            assert_eq!(n, 1);
            assert_eq!(names(&user), vec!["Gaming Session (2H)"]);
        } else {
            assert_eq!(n, 0);
            assert!(user.vouchers.is_empty());
        }
    }
}

#[test]
fn vouchers_held_before_a_draw_stay_in_front() {
    let mut user = User::seed();
    apply_outcome_with(&mut user, Rarities::A, rolls(0, 0, 0, 0));
    let first = format!("{:?}", user.vouchers[0]);
    apply_outcome_with(&mut user, Rarities::S, rolls(0, 0, 0, 0));
    assert_eq!(user.vouchers.len(), 5);
    assert_eq!(format!("{:?}", user.vouchers[0]), first);
}

#[test]
fn a_draw_leaves_the_rest_of_the_ledger() {
    let mut user = User::seed();
    let before = User::seed();
    apply_outcome(&mut user, Rarities::B);
    assert_eq!(format!("{:?}", user.dailies), format!("{:?}", before.dailies));
    assert_eq!(user.templates.len(), before.templates.len());
    assert_eq!(user.todays_flux, before.todays_flux);
    assert_eq!(user.total_astrum_aq, before.total_astrum_aq);
    assert_eq!(user.active_timer, before.active_timer);
    assert_eq!(user.username, before.username);
}

#[test]
fn rolls_not_read_are_zero() {
    for _ in 0..50 {
        let r = draw_rolls(Rarities::A);
        assert_eq!(r, rolls(0, 0, 0, 0));
        let r = draw_rolls(Rarities::B);
        assert_eq!((r.second, r.third, r.fourth), (0, 0, 0));
        let r = draw_rolls(Rarities::MythicSSS);
        assert_eq!((r.second, r.third, r.fourth), (0, 0, 0));
    }
}

#[test]
fn limits_of_the_totals() {
    let mut user = User::seed();
    user.flux = i128::MAX - 2399;
    assert!(!user.applies(Rarities::MythicSSS));
    assert!(user.applies(Rarities::S));
    user.flux = 0;
    user.total_pulls = u128::MAX;
    assert!(!user.applies(Rarities::B));
    user.total_pulls = 0;
    user.total_flux_aq = u128::MAX - 9;
    assert!(!user.applies(Rarities::B));
    user.total_flux_aq = u128::MAX - 10;
    assert!(user.applies(Rarities::B));
}
