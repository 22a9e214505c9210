//! The play screen.
//!
//! The player sets how many shuriken to stake, up to what the pet owns.
//! With the cursor on Play and the bet not empty, the commit key starts the
//! game.

use vstd::prelude::*;
use crate::action::Action;
use crate::controllers::pages::meal_page_controller::edit_actions;
use crate::models::bet::Bet;
use crate::models::counter::edited;
use crate::models::navigation::Navigation;
use crate::models::router::{Route, Router};
use crate::models::shuriken::Shuriken;

verus! {

/// Whether the commit key starts a game for `staked` shuriken.
pub open spec fn starts(focus: Route, staked: int, commit: bool) -> bool {
    commit && focus == Route::Play && staked > 0
}

/// What a tick of the play screen asks of the hardware.
pub open spec fn play_actions(lower: bool, raise: bool, starts: bool) -> Seq<Action> {
    edit_actions(Action::RenderPlayPage, lower, raise) + if starts {
        seq![Action::Beep]
    } else {
        Seq::empty()
    }
}

/// The rules of the play screen.
pub struct PlayPageController;

impl PlayPageController {
    /// One tick of the play screen: serves the key that takes a shuriken
    /// out of the bet, then the key that adds one, then the commit key.
    pub fn watch(
        switch_x: bool,
        switch_u: bool,
        switch_z: bool,
        navigation: &mut Navigation,
        router: &mut Router,
        bet: &mut Bet,
        shuriken: &mut Shuriken,
    ) -> (actions: Vec<Action>)
        ensures
            ({
                let staked = edited(old(bet)@, old(shuriken)@.amount, switch_x, switch_u);
                let starts = starts(old(navigation)@, staked, switch_z);
                &&& actions@ == play_actions(switch_x, switch_u, starts)
                &&& final(bet)@ == staked
                &&& final(router)@ == if starts {
                    Route::Game
                } else {
                    old(router)@
                }
                &&& final(navigation)@ == old(navigation)@
                &&& final(shuriken)@ == old(shuriken)@
            }),
    {
        let mut actions: Vec<Action> = Vec::new();
        if switch_x {
            actions.push(Action::Beep);
            bet.decrease();
            actions.push(Action::RenderPlayPage);
        }
        if switch_u {
            actions.push(Action::Beep);
            bet.increase(shuriken.amount);
            actions.push(Action::RenderPlayPage);
        }
        if switch_z && navigation.focus == Route::Play && bet.amount > 0 {
            actions.push(Action::Beep);
            router.update(Route::Game);
        }
        actions
    }
}

} // verus!
