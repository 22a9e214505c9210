//! The meal screen.
//!
//! The player sets how many rice balls to serve, up to what the pet owns.
//! With the cursor on Meal and the plate not empty, the commit key feeds
//! the pet: it grows fonder by one for each rice ball, eats them, and the
//! toy returns to the home screen.

use vstd::prelude::*;
use crate::action::Action;
use crate::models::character::Character;
use crate::models::counter::edited;
use crate::models::meal::Meal;
use crate::models::navigation::{Direction, Navigation};
use crate::models::rice_ball::RiceBall;
use crate::models::router::{Route, Router};

verus! {

/// Whether the commit key feeds the pet a meal of `served` rice balls.
pub open spec fn eats(focus: Route, served: int, commit: bool) -> bool {
    commit && focus == Route::Meal && served > 0
}

/// What the two keys that set an amount ask of the hardware, on a screen
/// drawn by `page`.
pub open spec fn edit_actions(page: Action, lower: bool, raise: bool) -> Seq<Action> {
    (if lower {
        seq![Action::Beep, page]
    } else {
        Seq::empty()
    }) + (if raise {
        seq![Action::Beep, page]
    } else {
        Seq::empty()
    })
}

/// What a tick of the meal screen asks of the hardware.
pub open spec fn meal_actions(lower: bool, raise: bool, eats: bool) -> Seq<Action> {
    edit_actions(Action::RenderMealPage, lower, raise) + if eats {
        seq![
            Action::Beep,
            Action::RenderEatPage,
            Action::Hold,
            Action::RenderNavigation(Route::Home),
            Action::RenderHomePage,
        ]
    } else {
        Seq::empty()
    }
}

/// The rules of the meal screen.
pub struct MealPageController;

impl MealPageController {
    /// One tick of the meal screen: serves the key that takes a rice ball
    /// off the plate, then the key that adds one, then the commit key.
    pub fn watch(
        switch_x: bool,
        switch_u: bool,
        switch_z: bool,
        navigation: &mut Navigation,
        router: &mut Router,
        character: &mut Character,
        meal: &mut Meal,
        rice_ball: &mut RiceBall,
    ) -> (actions: Vec<Action>)
        requires
            ({
                let served = edited(old(meal)@, old(rice_ball)@.amount, switch_x, switch_u);
                eats(old(navigation)@, served, switch_z) ==> {
                    &&& old(character)@ + served <= i32::MAX
                    &&& old(rice_ball)@.amount - served >= i32::MIN
                }
            }),
        ensures
            ({
                let served = edited(old(meal)@, old(rice_ball)@.amount, switch_x, switch_u);
                let eats = eats(old(navigation)@, served, switch_z);
                &&& actions@ == meal_actions(switch_x, switch_u, eats)
                &&& !eats ==> {
                    &&& final(meal)@ == served
                    &&& final(rice_ball)@ == old(rice_ball)@
                    &&& final(character)@ == old(character)@
                    &&& final(navigation)@ == old(navigation)@
                    &&& final(router)@ == old(router)@
                }
                &&& eats ==> {
                    &&& final(meal)@ == 0
                    &&& final(rice_ball)@ == old(rice_ball)@.spent(served)
                    &&& final(character)@ == old(character)@ + served
                    &&& final(navigation)@ == Route::Home
                    &&& final(router)@ == Route::Home
                }
            }),
    {
        let mut actions: Vec<Action> = Vec::new();
        if switch_x {
            actions.push(Action::Beep);
            meal.decrease();
            actions.push(Action::RenderMealPage);
        }
        if switch_u {
            actions.push(Action::Beep);
            meal.increase(rice_ball.amount);
            actions.push(Action::RenderMealPage);
        }
        if switch_z && navigation.focus == Route::Meal && meal.amount > 0 {
            actions.push(Action::Beep);
            character.intimate(meal.amount);
            character.eat(meal, rice_ball);
            actions.push(Action::RenderEatPage);
            actions.push(Action::Hold);
            navigation.update(Direction::Left);
            router.update(Route::Home);
            actions.push(Action::RenderNavigation(Route::Home));
            actions.push(Action::RenderHomePage);
        }
        actions
    }
}

} // verus!
