use pocket::action::Action;
use pocket::controllers::navigation_view_controller::NavigationViewController;
use pocket::controllers::page_controller::PageController;
use pocket::controllers::pages::game_page_controller::GamePageController;
use pocket::controllers::pages::home_page_controller::HomePageController;
use pocket::controllers::pages::meal_page_controller::MealPageController;
use pocket::controllers::pages::play_page_controller::PlayPageController;
use pocket::controllers::pedometer_view_controller::PedometerViewController;
use pocket::models::bet::Bet;
use pocket::models::character::Character;
use pocket::models::meal::Meal;
use pocket::models::navigation::Navigation;
use pocket::models::pedometer::{Pedometer, Reading};
use pocket::models::rice_ball::RiceBall;
use pocket::models::router::{Route, Router};
use pocket::models::shuriken::Shuriken;
use pocket::models::target::{Target, TargetPosition};

#[test]
fn navigation_moves_right_and_commits() {
    let mut navigation = Navigation::new(Route::Home);
    let mut router = Router::new(Route::Home);

    let actions =
        NavigationViewController::watch(true, false, true, &mut navigation, &mut router);

    assert_eq!(navigation.focus, Route::Meal);
    assert_eq!(router.route, Route::Meal);
    assert_eq!(
        actions,
        vec![
            Action::Beep,
            Action::RenderNavigation(Route::Meal),
            Action::Beep,
            Action::RenderMealPage,
        ]
    );
}

#[test]
fn navigation_without_keys_does_nothing() {
    let mut navigation = Navigation::new(Route::Meal);
    let mut router = Router::new(Route::Home);

    let actions =
        NavigationViewController::watch(false, false, false, &mut navigation, &mut router);

    assert_eq!(navigation.focus, Route::Meal);
    assert_eq!(router.route, Route::Home);
    assert_eq!(actions, vec![]);
}

#[test]
fn navigation_move_alone_leaves_the_screen() {
    let mut navigation = Navigation::new(Route::Home);
    let mut router = Router::new(Route::Home);

    let actions =
        NavigationViewController::watch(true, false, false, &mut navigation, &mut router);

    assert_eq!(navigation.focus, Route::Meal);
    assert_eq!(router.route, Route::Home);
    assert_eq!(actions, vec![Action::Beep, Action::RenderNavigation(Route::Meal)]);
}

#[test]
fn navigation_sounds_at_the_end_of_the_bar() {
    let mut navigation = Navigation::new(Route::Home);
    let mut router = Router::new(Route::Home);

    let actions =
        NavigationViewController::watch(false, true, false, &mut navigation, &mut router);

    assert_eq!(navigation.focus, Route::Home);
    assert_eq!(actions, vec![Action::Beep, Action::RenderNavigation(Route::Home)]);
}

#[test]
fn navigation_serves_right_before_left() {
    let mut navigation = Navigation::new(Route::Play);
    let mut router = Router::new(Route::Play);

    let actions =
        NavigationViewController::watch(true, true, false, &mut navigation, &mut router);

    assert_eq!(navigation.focus, Route::Meal);
    assert_eq!(router.route, Route::Play);
    assert_eq!(
        actions,
        vec![
            Action::Beep,
            Action::RenderNavigation(Route::Play),
            Action::Beep,
            Action::RenderNavigation(Route::Meal),
        ]
    );
}

#[test]
fn navigation_commit_on_the_screen_on_display_does_nothing() {
    let mut navigation = Navigation::new(Route::Play);
    let mut router = Router::new(Route::Play);

    let actions =
        NavigationViewController::watch(false, false, true, &mut navigation, &mut router);

    assert_eq!(router.route, Route::Play);
    assert_eq!(actions, vec![]);
}

#[test]
fn navigation_commit_leaves_a_game() {
    let mut navigation = Navigation::new(Route::Play);
    let mut router = Router::new(Route::Game);

    let actions =
        NavigationViewController::watch(false, false, true, &mut navigation, &mut router);

    assert_eq!(router.route, Route::Play);
    assert_eq!(actions, vec![Action::Beep, Action::RenderPlayPage]);
}

#[test]
fn navigation_commit_to_home_draws_home() {
    let mut navigation = Navigation::new(Route::Meal);
    let mut router = Router::new(Route::Meal);

    let actions =
        NavigationViewController::watch(false, true, true, &mut navigation, &mut router);

    assert_eq!(navigation.focus, Route::Home);
    assert_eq!(router.route, Route::Home);
    assert_eq!(
        actions,
        vec![
            Action::Beep,
            Action::RenderNavigation(Route::Home),
            Action::Beep,
            Action::RenderHomePage,
        ]
    );
}

#[test]
fn navigation_never_commits_a_cursor_on_the_game() {
    let mut navigation = Navigation::new(Route::Game);
    let mut router = Router::new(Route::Home);

    let actions =
        NavigationViewController::watch(false, false, true, &mut navigation, &mut router);

    assert_eq!(navigation.focus, Route::Game);
    assert_eq!(router.route, Route::Home);
    assert_eq!(actions, vec![]);
}

#[test]
fn home_page_sounds_on_commit_with_the_cursor_home() {
    let at_home = Navigation::new(Route::Home);
    let at_meal = Navigation::new(Route::Meal);

    assert_eq!(HomePageController::watch(true, &at_home), vec![Action::Beep]);
    assert_eq!(HomePageController::watch(false, &at_home), vec![]);
    assert_eq!(HomePageController::watch(true, &at_meal), vec![]);
}

#[test]
fn meal_page_serves_and_feeds() {
    let mut navigation = Navigation::new(Route::Meal);
    let mut router = Router::new(Route::Meal);
    let mut character = Character { intimacy: 5 };
    let mut meal = Meal { amount: 2 };
    let mut rice_ball = RiceBall { amount: 4, last_step_count: 40 };

    let actions = MealPageController::watch(
        false,
        true,
        true,
        &mut navigation,
        &mut router,
        &mut character,
        &mut meal,
        &mut rice_ball,
    );

    assert_eq!(character.intimacy, 8);
    assert_eq!(meal.amount, 0);
    assert_eq!(rice_ball.amount, 1);
    assert_eq!(rice_ball.last_step_count, 40);
    assert_eq!(navigation.focus, Route::Home);
    assert_eq!(router.route, Route::Home);
    assert_eq!(
        actions,
        vec![
            Action::Beep,
            Action::RenderMealPage,
            Action::Beep,
            Action::RenderEatPage,
            Action::Hold,
            Action::RenderNavigation(Route::Home),
            Action::RenderHomePage,
        ]
    );
}

#[test]
fn meal_page_lowers_before_it_raises() {
    let mut navigation = Navigation::new(Route::Meal);
    let mut router = Router::new(Route::Meal);
    let mut character = Character::new();
    let mut meal = Meal { amount: 3 };
    let mut rice_ball = RiceBall { amount: 3, last_step_count: 30 };

    let actions = MealPageController::watch(
        true,
        true,
        false,
        &mut navigation,
        &mut router,
        &mut character,
        &mut meal,
        &mut rice_ball,
    );

    assert_eq!(meal.amount, 3);
    assert_eq!(rice_ball.amount, 3);
    assert_eq!(character.intimacy, 0);
    assert_eq!(router.route, Route::Meal);
    assert_eq!(
        actions,
        vec![Action::Beep, Action::RenderMealPage, Action::Beep, Action::RenderMealPage]
    );
}

#[test]
fn meal_page_serves_no_more_than_there_is() {
    let mut navigation = Navigation::new(Route::Meal);
    let mut router = Router::new(Route::Meal);
    let mut character = Character::new();
    let mut meal = Meal { amount: 2 };
    let mut rice_ball = RiceBall { amount: 2, last_step_count: 20 };

    MealPageController::watch(
        false,
        true,
        false,
        &mut navigation,
        &mut router,
        &mut character,
        &mut meal,
        &mut rice_ball,
    );

    assert_eq!(meal.amount, 2);
}

#[test]
fn meal_page_does_not_feed_an_empty_plate() {
    let mut navigation = Navigation::new(Route::Meal);
    let mut router = Router::new(Route::Meal);
    let mut character = Character { intimacy: 1 };
    let mut meal = Meal { amount: 1 };
    let mut rice_ball = RiceBall { amount: 4, last_step_count: 40 };

    let actions = MealPageController::watch(
        true,
        false,
        true,
        &mut navigation,
        &mut router,
        &mut character,
        &mut meal,
        &mut rice_ball,
    );

    assert_eq!(meal.amount, 0);
    assert_eq!(rice_ball.amount, 4);
    assert_eq!(character.intimacy, 1);
    assert_eq!(navigation.focus, Route::Meal);
    assert_eq!(router.route, Route::Meal);
    assert_eq!(actions, vec![Action::Beep, Action::RenderMealPage]);
}

#[test]
fn meal_page_does_not_feed_with_the_cursor_elsewhere() {
    let mut navigation = Navigation::new(Route::Play);
    let mut router = Router::new(Route::Meal);
    let mut character = Character::new();
    let mut meal = Meal { amount: 1 };
    let mut rice_ball = RiceBall { amount: 4, last_step_count: 40 };

    let actions = MealPageController::watch(
        false,
        false,
        true,
        &mut navigation,
        &mut router,
        &mut character,
        &mut meal,
        &mut rice_ball,
    );

    assert_eq!(meal.amount, 1);
    assert_eq!(rice_ball.amount, 4);
    assert_eq!(character.intimacy, 0);
    assert_eq!(router.route, Route::Meal);
    assert_eq!(actions, vec![]);
}

#[test]
fn play_page_stakes_and_starts_the_game() {
    let mut navigation = Navigation::new(Route::Play);
    let mut router = Router::new(Route::Play);
    let mut bet = Bet { amount: 0 };
    let mut shuriken = Shuriken { amount: 3, last_step_count: 30 };

    let actions = PlayPageController::watch(
        false,
        true,
        true,
        &mut navigation,
        &mut router,
        &mut bet,
        &mut shuriken,
    );

    assert_eq!(bet.amount, 1);
    assert_eq!(shuriken.amount, 3);
    assert_eq!(navigation.focus, Route::Play);
    assert_eq!(router.route, Route::Game);
    assert_eq!(actions, vec![Action::Beep, Action::RenderPlayPage, Action::Beep]);
}

#[test]
fn play_page_does_not_start_on_an_empty_bet() {
    let mut navigation = Navigation::new(Route::Play);
    let mut router = Router::new(Route::Play);
    let mut bet = Bet { amount: 0 };
    let mut shuriken = Shuriken { amount: 0, last_step_count: 0 };

    let actions = PlayPageController::watch(
        false,
        true,
        true,
        &mut navigation,
        &mut router,
        &mut bet,
        &mut shuriken,
    );

    assert_eq!(bet.amount, 0);
    assert_eq!(router.route, Route::Play);
    assert_eq!(actions, vec![Action::Beep, Action::RenderPlayPage]);
}

#[test]
fn play_page_takes_a_shuriken_back() {
    let mut navigation = Navigation::new(Route::Play);
    let mut router = Router::new(Route::Play);
    let mut bet = Bet { amount: 2 };
    let mut shuriken = Shuriken { amount: 3, last_step_count: 30 };

    let actions = PlayPageController::watch(
        true,
        false,
        false,
        &mut navigation,
        &mut router,
        &mut bet,
        &mut shuriken,
    );

    assert_eq!(bet.amount, 1);
    assert_eq!(router.route, Route::Play);
    assert_eq!(actions, vec![Action::Beep, Action::RenderPlayPage]);
}

#[test]
fn game_win() {
    let mut character = Character { intimacy: 10 };
    let mut bet = Bet { amount: 2 };
    let mut shuriken = Shuriken { amount: 5, last_step_count: 50 };

    let won = GamePageController::resolve(
        TargetPosition::Center,
        &mut character,
        &mut bet,
        &mut shuriken,
    );

    assert!(won);
    assert_eq!(character.intimacy, 14);
    assert_eq!(shuriken.amount, 3);
    assert_eq!(bet.amount, 0);
}

#[test]
fn game_loss() {
    let mut character = Character { intimacy: 10 };
    let mut bet = Bet { amount: 2 };
    let mut shuriken = Shuriken { amount: 5, last_step_count: 50 };

    let won = GamePageController::resolve(
        TargetPosition::Left,
        &mut character,
        &mut bet,
        &mut shuriken,
    );

    assert!(!won);
    assert_eq!(character.intimacy, 10);
    assert_eq!(shuriken.amount, 3);
    assert_eq!(bet.amount, 0);
}

#[test]
fn game_loss_at_the_right() {
    let mut character = Character { intimacy: 0 };
    let mut bet = Bet { amount: 5 };
    let mut shuriken = Shuriken { amount: 5, last_step_count: 50 };

    let won = GamePageController::resolve(
        TargetPosition::Right,
        &mut character,
        &mut bet,
        &mut shuriken,
    );

    assert!(!won);
    assert_eq!(character.intimacy, 0);
    assert_eq!(shuriken.amount, 0);
    assert_eq!(bet.amount, 0);
}

#[test]
fn game_page_sweeps_without_the_commit_key() {
    let mut navigation = Navigation::new(Route::Play);
    let mut router = Router::new(Route::Game);
    let mut character = Character { intimacy: 1 };
    let mut bet = Bet { amount: 2 };
    let mut shuriken = Shuriken { amount: 5, last_step_count: 50 };
    let mut target = Target::new();

    let actions = GamePageController::watch(
        false,
        &mut navigation,
        &mut router,
        &mut character,
        &mut bet,
        &mut shuriken,
        &mut target,
    );

    assert_eq!(target.position, TargetPosition::Center);
    assert_eq!(character.intimacy, 1);
    assert_eq!(bet.amount, 2);
    assert_eq!(shuriken.amount, 5);
    assert_eq!(navigation.focus, Route::Play);
    assert_eq!(router.route, Route::Game);
    assert_eq!(actions, vec![Action::RenderGamePage(TargetPosition::Center)]);
}

#[test]
fn game_page_throws_where_the_shuriken_has_moved_to() {
    let mut navigation = Navigation::new(Route::Play);
    let mut router = Router::new(Route::Game);
    let mut character = Character { intimacy: 1 };
    let mut bet = Bet { amount: 2 };
    let mut shuriken = Shuriken { amount: 5, last_step_count: 50 };
    let mut target = Target { position: TargetPosition::Left };

    let actions = GamePageController::watch(
        true,
        &mut navigation,
        &mut router,
        &mut character,
        &mut bet,
        &mut shuriken,
        &mut target,
    );

    assert_eq!(target.position, TargetPosition::Center);
    assert_eq!(character.intimacy, 5);
    assert_eq!(bet.amount, 0);
    assert_eq!(shuriken.amount, 3);
    assert_eq!(navigation.focus, Route::Home);
    assert_eq!(router.route, Route::Home);
    assert_eq!(
        actions,
        vec![
            Action::RenderGamePage(TargetPosition::Center),
            Action::Beep,
            Action::RenderThrowPage,
            Action::Hold,
            Action::RenderSuccessPage,
            Action::Hold,
            Action::RenderNavigation(Route::Home),
            Action::RenderHomePage,
        ]
    );
}

#[test]
fn game_page_miss_costs_the_bet() {
    let mut navigation = Navigation::new(Route::Meal);
    let mut router = Router::new(Route::Game);
    let mut character = Character { intimacy: 1 };
    let mut bet = Bet { amount: 2 };
    let mut shuriken = Shuriken { amount: 5, last_step_count: 50 };
    let mut target = Target { position: TargetPosition::Center };

    let actions = GamePageController::watch(
        true,
        &mut navigation,
        &mut router,
        &mut character,
        &mut bet,
        &mut shuriken,
        &mut target,
    );

    assert_eq!(target.position, TargetPosition::Right);
    assert_eq!(character.intimacy, 1);
    assert_eq!(bet.amount, 0);
    assert_eq!(shuriken.amount, 3);
    assert_eq!(navigation.focus, Route::Home);
    assert_eq!(router.route, Route::Home);
    assert_eq!(
        actions,
        vec![
            Action::RenderGamePage(TargetPosition::Right),
            Action::Beep,
            Action::RenderThrowPage,
            Action::Hold,
            Action::RenderFailPage,
            Action::Hold,
            Action::RenderNavigation(Route::Home),
            Action::RenderHomePage,
        ]
    );
}

#[test]
fn page_controller_serves_the_screen_on_display() {
    let mut navigation = Navigation::new(Route::Play);
    let mut router = Router::new(Route::Play);
    let mut character = Character { intimacy: 1 };
    let mut bet = Bet { amount: 1 };
    let mut meal = Meal { amount: 1 };
    let mut rice_ball = RiceBall { amount: 2, last_step_count: 20 };
    let mut shuriken = Shuriken { amount: 2, last_step_count: 20 };
    let mut target = Target::new();

    let actions = PageController::watch(
        false,
        true,
        true,
        &mut navigation,
        &mut router,
        &mut character,
        &mut bet,
        &mut meal,
        &mut rice_ball,
        &mut shuriken,
        &mut target,
    );

    assert_eq!(bet.amount, 2);
    assert_eq!(meal.amount, 1);
    assert_eq!(rice_ball.amount, 2);
    assert_eq!(shuriken.amount, 2);
    assert_eq!(character.intimacy, 1);
    assert_eq!(target.position, TargetPosition::Left);
    assert_eq!(router.route, Route::Game);
    assert_eq!(actions, vec![Action::Beep, Action::RenderPlayPage, Action::Beep]);
}

#[test]
fn page_controller_on_home_only_sounds() {
    let mut navigation = Navigation::new(Route::Home);
    let mut router = Router::new(Route::Home);
    let mut character = Character { intimacy: 1 };
    let mut bet = Bet { amount: 1 };
    let mut meal = Meal { amount: 1 };
    let mut rice_ball = RiceBall { amount: 2, last_step_count: 20 };
    let mut shuriken = Shuriken { amount: 2, last_step_count: 20 };
    let mut target = Target::new();

    let actions = PageController::watch(
        true,
        true,
        true,
        &mut navigation,
        &mut router,
        &mut character,
        &mut bet,
        &mut meal,
        &mut rice_ball,
        &mut shuriken,
        &mut target,
    );

    assert_eq!(bet.amount, 1);
    assert_eq!(meal.amount, 1);
    assert_eq!(character.intimacy, 1);
    assert_eq!(target.position, TargetPosition::Left);
    assert_eq!(router.route, Route::Home);
    assert_eq!(actions, vec![Action::Beep]);
}

#[test]
fn page_controller_on_meal_feeds() {
    let mut navigation = Navigation::new(Route::Meal);
    let mut router = Router::new(Route::Meal);
    let mut character = Character { intimacy: 1 };
    let mut bet = Bet { amount: 1 };
    let mut meal = Meal { amount: 2 };
    let mut rice_ball = RiceBall { amount: 2, last_step_count: 20 };
    let mut shuriken = Shuriken { amount: 2, last_step_count: 20 };
    let mut target = Target::new();

    PageController::watch(
        false,
        false,
        true,
        &mut navigation,
        &mut router,
        &mut character,
        &mut bet,
        &mut meal,
        &mut rice_ball,
        &mut shuriken,
        &mut target,
    );

    assert_eq!(meal.amount, 0);
    assert_eq!(rice_ball.amount, 0);
    assert_eq!(character.intimacy, 3);
    assert_eq!(bet.amount, 1);
    assert_eq!(shuriken.amount, 2);
    assert_eq!(router.route, Route::Home);
}

#[test]
fn page_controller_on_the_game_throws() {
    let mut navigation = Navigation::new(Route::Play);
    let mut router = Router::new(Route::Game);
    let mut character = Character { intimacy: 0 };
    let mut bet = Bet { amount: 2 };
    let mut meal = Meal { amount: 1 };
    let mut rice_ball = RiceBall { amount: 2, last_step_count: 20 };
    let mut shuriken = Shuriken { amount: 5, last_step_count: 20 };
    let mut target = Target::new();

    PageController::watch(
        true,
        true,
        true,
        &mut navigation,
        &mut router,
        &mut character,
        &mut bet,
        &mut meal,
        &mut rice_ball,
        &mut shuriken,
        &mut target,
    );

    assert_eq!(target.position, TargetPosition::Center);
    assert_eq!(character.intimacy, 4);
    assert_eq!(bet.amount, 0);
    assert_eq!(shuriken.amount, 3);
    assert_eq!(meal.amount, 1);
    assert_eq!(rice_ball.amount, 2);
    assert_eq!(router.route, Route::Home);
    assert_eq!(navigation.focus, Route::Home);
}

#[test]
fn pedometer_view_counts_and_rewards() {
    let mut pedometer = Pedometer { sample_count: 3, step_count: 9, state: false, last_state: false };
    let mut rice_ball = RiceBall::new();
    let mut shuriken = Shuriken { amount: 1, last_step_count: 5 };

    let actions = PedometerViewController::watch(
        Reading { above: true, below: false },
        &mut pedometer,
        &mut rice_ball,
        &mut shuriken,
    );

    assert_eq!(pedometer.step_count, 10);
    assert_eq!(pedometer.sample_count, 4);
    assert_eq!(rice_ball.amount, 1);
    assert_eq!(rice_ball.last_step_count, 10);
    assert_eq!(shuriken.amount, 1);
    assert_eq!(shuriken.last_step_count, 5);
    assert_eq!(actions, vec![Action::RenderPedometer]);
}
