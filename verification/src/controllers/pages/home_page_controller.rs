//! The home screen, where the pet sleeps and the commit key only sounds.

use vstd::prelude::*;
use crate::action::Action;
use crate::models::navigation::Navigation;
use crate::models::router::Route;

verus! {

/// What a tick of the home screen asks of the hardware.
pub open spec fn home_actions(focus: Route, commit: bool) -> Seq<Action> {
    if commit && focus == Route::Home {
        seq![Action::Beep]
    } else {
        Seq::empty()
    }
}

/// The rules of the home screen.
pub struct HomePageController;

impl HomePageController {
    /// One tick of the home screen.
    pub fn watch(switch_z: bool, navigation: &Navigation) -> (actions: Vec<Action>)
        ensures
            actions@ == home_actions(navigation@, switch_z),
    {
        let mut actions: Vec<Action> = Vec::new();
        if switch_z && navigation.focus == Route::Home {
            actions.push(Action::Beep);
        }
        actions
    }
}

} // verus!
