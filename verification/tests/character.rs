use pocket::models::bet::Bet;
use pocket::models::character::Character;
use pocket::models::meal::Meal;
use pocket::models::pedometer::Pedometer;
use pocket::models::rice_ball::RiceBall;
use pocket::models::shuriken::Shuriken;
use pocket::models::wallet::{find_is_due, FREQUENCY_OF_STEPS};

#[test]
fn test_eat() {
    let mut character = Character { intimacy: 0 };
    let mut meal = Meal { amount: 1 };
    let mut rice_ball = RiceBall {
        amount: 10,
        last_step_count: 100
    };

    Character::intimate(&mut character, meal.amount);
    Character::eat(&mut character, &mut meal, &mut rice_ball);

    assert_eq!(character.intimacy, 1);
    assert_eq!(meal.amount, 0);
    assert_eq!(rice_ball.amount, 9);
}

#[test]
fn test_play() {
    let mut character = Character { intimacy: 0 };
    let mut bet = Bet { amount: 1 };
    let mut shuriken = Shuriken {
        amount: 10,
        last_step_count: 100
    };

    Character::play(&mut character, &mut bet, &mut shuriken);

    assert_eq!(bet.amount, 0);
    assert_eq!(shuriken.amount, 9);
}

#[test]
fn test_intimate() {
    let mut character = Character { intimacy: 0 };
    let intimacy_amount: i32 = 1;

    Character::intimate(&mut character, intimacy_amount);

    assert_eq!(character.intimacy, 1);
}

#[test]
fn test_walk() {
    let mut pedometer = Pedometer {
        sample_count: 0,
        step_count: 0,
        state: false,
        last_state: false
    };
    let mut rice_ball = RiceBall {
        amount: 0,
        last_step_count: 0
    };
    let mut shuriken = Shuriken {
        amount: 0,
        last_step_count: 0
    };

    Character::walk(&pedometer, &mut rice_ball, &mut shuriken);

    assert_eq!(rice_ball.amount, 0);
    assert_eq!(rice_ball.last_step_count, 0);

    pedometer.step_count = 10;

    Character::walk(&pedometer, &mut rice_ball, &mut shuriken);

    assert_eq!(rice_ball.amount, 1);
    assert_eq!(rice_ball.last_step_count, 10);
}

#[test]
fn character_starts_as_a_stranger() {
    assert_eq!(Character::new().intimacy, 0);
    assert_eq!(Character::default().intimacy, 0);
}

#[test]
fn eating_leaves_the_intimacy_alone() {
    let mut character = Character { intimacy: 7 };
    let mut meal = Meal { amount: 3 };
    let mut rice_ball = RiceBall { amount: 5, last_step_count: 40 };

    Character::eat(&mut character, &mut meal, &mut rice_ball);

    assert_eq!(character.intimacy, 7);
    assert_eq!(meal.amount, 0);
    assert_eq!(rice_ball.amount, 2);
    assert_eq!(rice_ball.last_step_count, 40);
}

#[test]
fn eating_more_than_there_is_leaves_a_debt() {
    let mut character = Character::new();
    let mut meal = Meal { amount: 2 };
    let mut rice_ball = RiceBall { amount: 1, last_step_count: 0 };

    Character::eat(&mut character, &mut meal, &mut rice_ball);

    assert_eq!(meal.amount, 0);
    assert_eq!(rice_ball.amount, -1);
}

#[test]
fn playing_leaves_the_intimacy_alone() {
    let mut character = Character { intimacy: 7 };
    let mut bet = Bet { amount: 5 };
    let mut shuriken = Shuriken { amount: 5, last_step_count: 40 };

    Character::play(&mut character, &mut bet, &mut shuriken);

    assert_eq!(character.intimacy, 7);
    assert_eq!(bet.amount, 0);
    assert_eq!(shuriken.amount, 0);
    assert_eq!(shuriken.last_step_count, 40);
}

#[test]
fn intimacy_adds_up() {
    let mut character = Character { intimacy: 3 };

    Character::intimate(&mut character, 4);
    Character::intimate(&mut character, 0);

    assert_eq!(character.intimacy, 7);
}

#[test]
fn walk_without_new_steps_finds_nothing_more() {
    let pedometer = Pedometer { sample_count: 0, step_count: 10, state: false, last_state: false };
    let mut rice_ball = RiceBall::new();
    let mut shuriken = Shuriken::new();

    Character::walk(&pedometer, &mut rice_ball, &mut shuriken);
    assert_eq!(rice_ball.amount, 1);
    assert_eq!(rice_ball.last_step_count, 10);
    assert_eq!(shuriken.amount, 1);
    assert_eq!(shuriken.last_step_count, 10);

    Character::walk(&pedometer, &mut rice_ball, &mut shuriken);
    assert_eq!(rice_ball.amount, 1);
    assert_eq!(rice_ball.last_step_count, 10);
    assert_eq!(shuriken.amount, 1);
    assert_eq!(shuriken.last_step_count, 10);
}

#[test]
fn walk_of_nine_steps_finds_nothing() {
    let pedometer = Pedometer { sample_count: 0, step_count: 19, state: false, last_state: false };
    let mut rice_ball = RiceBall { amount: 1, last_step_count: 10 };
    let mut shuriken = Shuriken { amount: 1, last_step_count: 10 };

    Character::walk(&pedometer, &mut rice_ball, &mut shuriken);

    assert_eq!(rice_ball.amount, 1);
    assert_eq!(rice_ball.last_step_count, 10);
    assert_eq!(shuriken.amount, 1);
    assert_eq!(shuriken.last_step_count, 10);
}

#[test]
fn walk_of_many_steps_finds_one_of_each() {
    let pedometer = Pedometer { sample_count: 0, step_count: 35, state: false, last_state: false };
    let mut rice_ball = RiceBall::new();
    let mut shuriken = Shuriken::new();

    Character::walk(&pedometer, &mut rice_ball, &mut shuriken);

    assert_eq!(rice_ball.amount, 1);
    assert_eq!(rice_ball.last_step_count, 35);
    assert_eq!(shuriken.amount, 1);
    assert_eq!(shuriken.last_step_count, 35);
}

#[test]
fn walk_serves_each_stock_by_its_own_last_find() {
    let pedometer = Pedometer { sample_count: 0, step_count: 25, state: false, last_state: false };
    let mut rice_ball = RiceBall { amount: 2, last_step_count: 20 };
    let mut shuriken = Shuriken { amount: 0, last_step_count: 15 };

    Character::walk(&pedometer, &mut rice_ball, &mut shuriken);

    assert_eq!(rice_ball.amount, 2);
    assert_eq!(rice_ball.last_step_count, 20);
    assert_eq!(shuriken.amount, 1);
    assert_eq!(shuriken.last_step_count, 25);
}

#[test]
fn walk_with_the_smallest_step_count_finds_nothing() {
    let pedometer = Pedometer {
        sample_count: 0,
        step_count: i32::MIN,
        state: false,
        last_state: false,
    };
    let mut rice_ball = RiceBall::new();
    let mut shuriken = Shuriken::new();

    Character::walk(&pedometer, &mut rice_ball, &mut shuriken);

    assert_eq!(rice_ball.amount, 0);
    assert_eq!(shuriken.amount, 0);
}

#[test]
fn stocks_start_empty() {
    assert_eq!(RiceBall::new().amount, 0);
    assert_eq!(RiceBall::new().last_step_count, 0);
    assert_eq!(RiceBall::default().amount, 0);
    assert_eq!(Shuriken::new().amount, 0);
    assert_eq!(Shuriken::new().last_step_count, 0);
    assert_eq!(Shuriken::default().last_step_count, 0);
}

#[test]
fn find_is_due_every_ten_steps() {
    assert_eq!(FREQUENCY_OF_STEPS, 10);
    assert!(!find_is_due(0, 0));
    assert!(!find_is_due(9, 0));
    assert!(find_is_due(10, 0));
    assert!(find_is_due(11, 0));
    assert!(!find_is_due(19, 10));
    assert!(find_is_due(20, 10));
    assert!(!find_is_due(i32::MIN, 0));
    assert!(find_is_due(i32::MAX, i32::MIN));
    assert!(!find_is_due(i32::MIN, i32::MAX));
}
