use gacha::errors::Refusal;
use gacha::isrdo::{get_isrdos, isrdo, isrdo_complete};
use gacha::ledger::{User, ISRDO};

fn task(uuid: u128, payout: u16) -> ISRDO {
    ISRDO { uuid, description: format!("task {}", uuid), payout }
}

#[test]
fn set_a_task() {
    let mut user = User::seed();
    let made = isrdo(&mut user, "write the report".to_string(), 72).unwrap();
    assert_eq!(made.description, "write the report");
    assert_eq!(made.payout, 72);
    assert_eq!(user.isrdos.len(), 1);
    assert_eq!(format!("{:?}", user.isrdos[0]), format!("{:?}", made));
    assert_eq!(user.flux, 500);
}

#[test]
fn tasks_that_are_refused() {
    let mut user = User::seed();
    let before = format!("{:?}", user);
    assert_eq!(isrdo(&mut user, String::new(), 10).err(), Some(Refusal::Forbidden));
    user.flux = 79;
    let poor = format!("{:?}", user);
    assert_eq!(isrdo(&mut user, "x".to_string(), 10).err(), Some(Refusal::Forbidden));
    assert_eq!(format!("{:?}", user), poor);
    user.flux = 80;
    for i in 0..8 {
        assert!(isrdo(&mut user, format!("t{}", i), 1).is_ok());
    }
    assert_eq!(user.isrdos.len(), 8);
    assert_eq!(isrdo(&mut user, "ninth".to_string(), 1).err(), Some(Refusal::Forbidden));
    assert_eq!(user.isrdos.len(), 8);
    let _ = before;
}

#[test]
fn list_the_tasks() {
    let mut user = User::seed();
    assert_eq!(get_isrdos(&user).err(), Some(Refusal::NotFound));
    user.isrdos.push(task(1, 5));
    user.isrdos.push(task(2, 6));
    let held = get_isrdos(&user).unwrap();
    assert_eq!(format!("{:?}", held), format!("{:?}", user.isrdos));
}

#[test]
fn complete_a_task() {
    let mut user = User::seed();
    for (uuid, payout) in [(1u128, 5u16), (2, 60), (3, 7), (2, 900)] {
        user.isrdos.push(task(uuid, payout));
    }
    let before = format!("{:?}", user);
    assert_eq!(isrdo_complete(&mut user, 4), Err(Refusal::NotFound));
    assert_eq!(format!("{:?}", user), before);
    assert!(user.task_in_range(2));
    assert_eq!(isrdo_complete(&mut user, 2), Ok(60));
    assert_eq!(user.flux, 560);
    let left: Vec<u128> = user.isrdos.iter().map(|t| t.uuid).collect();
    assert_eq!(left, vec![1, 3]);
    assert_eq!(isrdo_complete(&mut user, 2), Err(Refusal::NotFound));
    assert_eq!(isrdo_complete(&mut user, 3), Ok(7));
    assert_eq!(user.flux, 567);
}

#[test]
fn a_payout_beyond_the_range() {
    let mut user = User::seed();
    user.isrdos.push(task(1, 5));
    user.flux = i128::MAX - 4;
    assert!(!user.task_in_range(1));
    assert!(user.task_in_range(2));
    user.flux = i128::MAX - 5;
    assert!(user.task_in_range(1));
    assert_eq!(isrdo_complete(&mut user, 1), Ok(5));
    assert_eq!(user.flux, i128::MAX);
}
