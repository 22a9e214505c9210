//! The screen on display.
//!
//! Each tick belongs to the screen that is on display when the tick gets to
//! it; a screen that comes on display during its tick is served from the
//! next tick on.

use vstd::prelude::*;
use crate::action::Action;
use crate::controllers::pages::game_page_controller::{game_actions, prize, GamePageController};
use crate::controllers::pages::home_page_controller::{home_actions, HomePageController};
use crate::controllers::pages::meal_page_controller::{eats, meal_actions, MealPageController};
use crate::controllers::pages::play_page_controller::{play_actions, starts, PlayPageController};
use crate::models::bet::Bet;
use crate::models::character::Character;
use crate::models::counter::edited;
use crate::models::meal::Meal;
use crate::models::navigation::{moved, Direction, Navigation};
use crate::models::rice_ball::RiceBall;
use crate::models::router::{Route, Router};
use crate::models::shuriken::Shuriken;
use crate::models::target::Target;

verus! {

/// The rules of whichever screen is on display.
pub struct PageController;

impl PageController {
    /// One tick of the screen on display.
    pub fn watch(
        switch_x: bool,
        switch_u: bool,
        switch_z: bool,
        navigation: &mut Navigation,
        router: &mut Router,
        character: &mut Character,
        bet: &mut Bet,
        meal: &mut Meal,
        rice_ball: &mut RiceBall,
        shuriken: &mut Shuriken,
        target: &mut Target,
    ) -> (actions: Vec<Action>)
        requires
            old(router)@ == Route::Meal ==> {
                let served = edited(old(meal)@, old(rice_ball)@.amount, switch_x, switch_u);
                eats(old(navigation)@, served, switch_z) ==> {
                    &&& old(character)@ + served <= i32::MAX
                    &&& old(rice_ball)@.amount - served >= i32::MIN
                }
            },
            old(router)@ == Route::Game && switch_z ==> {
                let position = old(target)@.next();
                &&& i32::MIN <= prize(old(bet)@, position) <= i32::MAX
                &&& i32::MIN <= old(character)@ + prize(old(bet)@, position) <= i32::MAX
                &&& i32::MIN <= old(shuriken)@.amount - old(bet)@ <= i32::MAX
            },
        ensures
            old(router)@ == Route::Home ==> {
                &&& actions@ == home_actions(old(navigation)@, switch_z)
                &&& final(navigation)@ == old(navigation)@
                &&& final(router)@ == old(router)@
                &&& final(character)@ == old(character)@
                &&& final(bet)@ == old(bet)@
                &&& final(meal)@ == old(meal)@
                &&& final(rice_ball)@ == old(rice_ball)@
                &&& final(shuriken)@ == old(shuriken)@
                &&& final(target)@ == old(target)@
            },
            old(router)@ == Route::Meal ==> {
                let served = edited(old(meal)@, old(rice_ball)@.amount, switch_x, switch_u);
                let eats = eats(old(navigation)@, served, switch_z);
                &&& actions@ == meal_actions(switch_x, switch_u, eats)
                &&& !eats ==> {
                    &&& final(meal)@ == served
                    &&& final(rice_ball)@ == old(rice_ball)@
                    &&& final(character)@ == old(character)@
                    &&& final(navigation)@ == old(navigation)@
                    &&& final(router)@ == old(router)@
                }
                &&& eats ==> {
                    &&& final(meal)@ == 0
                    &&& final(rice_ball)@ == old(rice_ball)@.spent(served)
                    &&& final(character)@ == old(character)@ + served
                    &&& final(navigation)@ == Route::Home
                    &&& final(router)@ == Route::Home
                }
                &&& final(bet)@ == old(bet)@
                &&& final(shuriken)@ == old(shuriken)@
                &&& final(target)@ == old(target)@
            },
            old(router)@ == Route::Play ==> {
                let staked = edited(old(bet)@, old(shuriken)@.amount, switch_x, switch_u);
                let starts = starts(old(navigation)@, staked, switch_z);
                &&& actions@ == play_actions(switch_x, switch_u, starts)
                &&& final(bet)@ == staked
                &&& final(router)@ == if starts {
                    Route::Game
                } else {
                    old(router)@
                }
                &&& final(navigation)@ == old(navigation)@
                &&& final(shuriken)@ == old(shuriken)@
                &&& final(character)@ == old(character)@
                &&& final(meal)@ == old(meal)@
                &&& final(rice_ball)@ == old(rice_ball)@
                &&& final(target)@ == old(target)@
            },
            old(router)@ == Route::Game ==> {
                &&& final(target)@ == old(target)@.next()
                &&& actions@ == game_actions(final(target)@, switch_z)
                &&& !switch_z ==> {
                    &&& final(navigation)@ == old(navigation)@
                    &&& final(router)@ == old(router)@
                    &&& final(character)@ == old(character)@
                    &&& final(bet)@ == old(bet)@
                    &&& final(shuriken)@ == old(shuriken)@
                }
                &&& switch_z ==> {
                    &&& final(navigation)@ == moved(
                        moved(old(navigation)@, Direction::Left),
                        Direction::Left,
                    )
                    &&& final(router)@ == Route::Home
                    &&& final(character)@ == old(character)@ + prize(old(bet)@, final(target)@)
                    &&& final(shuriken)@ == old(shuriken)@.spent(old(bet)@)
                    &&& final(bet)@ == 0
                }
                &&& final(meal)@ == old(meal)@
                &&& final(rice_ball)@ == old(rice_ball)@
            },
    {
        match router.route {
            Route::Home => HomePageController::watch(switch_z, navigation),
            Route::Meal => MealPageController::watch(
                switch_x,
                switch_u,
                switch_z,
                navigation,
                router,
                character,
                meal,
                rice_ball,
            ),
            Route::Play => PlayPageController::watch(
                switch_x,
                switch_u,
                switch_z,
                navigation,
                router,
                bet,
                shuriken,
            ),
            Route::Game => GamePageController::watch(
                switch_z,
                navigation,
                router,
                character,
                bet,
                shuriken,
                target,
            ),
        }
    }
}

} // verus!
