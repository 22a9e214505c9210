//! The navigation bar.
//!
//! Two keys move the cursor along the bar. The commit key brings the route
//! under the cursor on display, if it is not on display already.

use vstd::prelude::*;
use crate::action::Action;
use crate::models::navigation::{in_bar, moved, Direction, Navigation};
use crate::models::router::{Route, Router};

verus! {

/// Where the cursor stands after the key to the right was served, if it
/// was down.
pub open spec fn steered_right(focus: Route, right: bool) -> Route {
    if right {
        moved(focus, Direction::Right)
    } else {
        focus
    }
}

/// Where the cursor stands after both cursor keys were served: the one to
/// the right first, then the one to the left.
pub open spec fn steered(focus: Route, right: bool, left: bool) -> Route {
    if left {
        moved(steered_right(focus, right), Direction::Left)
    } else {
        steered_right(focus, right)
    }
}

/// Whether the commit key brings the route under the cursor on display.
pub open spec fn commits(focus: Route, route: Route, commit: bool) -> bool {
    commit && focus != route && focus != Route::Game
}

/// What drawing the page of a route asks of the hardware. The game draws
/// itself, tick by tick.
pub open spec fn page_actions(route: Route) -> Seq<Action> {
    match route {
        Route::Home => seq![Action::RenderHomePage],
        Route::Meal => seq![Action::RenderMealPage],
        Route::Play => seq![Action::RenderPlayPage],
        Route::Game => Seq::empty(),
    }
}

/// What a tick of the navigation bar asks of the hardware.
pub open spec fn navigation_actions(
    focus: Route,
    route: Route,
    right: bool,
    left: bool,
    commit: bool,
) -> Seq<Action> {
    (if right {
        seq![Action::Beep, Action::RenderNavigation(steered_right(focus, right))]
    } else {
        Seq::empty()
    }) + (if left {
        seq![Action::Beep, Action::RenderNavigation(steered(focus, right, left))]
    } else {
        Seq::empty()
    }) + (if commits(steered(focus, right, left), route, commit) {
        seq![Action::Beep] + page_actions(steered(focus, right, left))
    } else {
        Seq::empty()
    })
}

/// With both cursor keys down the cursor ends where it began, except at the
/// right end of the bar, where the move to the right is lost.
pub proof fn lemma_steered_both_ways(focus: Route)
    ensures
        focus != Route::Play ==> steered(focus, true, true) == focus,
        steered(Route::Play, true, true) == Route::Meal,
{
}

/// The keys never steer the cursor off the bar.
pub proof fn lemma_steered_stays_in_bar(focus: Route, right: bool, left: bool)
    requires
        in_bar(focus),
    ensures
        in_bar(steered(focus, right, left)),
{
}

/// The rules of the navigation bar.
pub struct NavigationViewController;

impl NavigationViewController {
    /// One tick of the navigation bar: serves the key to the right, then the
    /// key to the left, then the commit key.
    pub fn watch(
        switch_y: bool,
        switch_b: bool,
        switch_z: bool,
        navigation: &mut Navigation,
        router: &mut Router,
    ) -> (actions: Vec<Action>)
        ensures
            final(navigation)@ == steered(old(navigation)@, switch_y, switch_b),
            final(router)@ == if commits(final(navigation)@, old(router)@, switch_z) {
                final(navigation)@
            } else {
                old(router)@
            },
            actions@ == navigation_actions(
                old(navigation)@,
                old(router)@,
                switch_y,
                switch_b,
                switch_z,
            ),
            in_bar(old(navigation)@) ==> in_bar(final(navigation)@),
    {
        let mut actions: Vec<Action> = Vec::new();
        if switch_y {
            actions.push(Action::Beep);
            navigation.update(Direction::Right);
            actions.push(Action::RenderNavigation(navigation.focus));
        }
        if switch_b {
            actions.push(Action::Beep);
            navigation.update(Direction::Left);
            actions.push(Action::RenderNavigation(navigation.focus));
        }
        if navigation.focus != router.route && navigation.focus != Route::Game && switch_z {
            actions.push(Action::Beep);
            router.update(navigation.focus);
            match router.route {
                Route::Home => {
                    actions.push(Action::RenderHomePage);
                },
                Route::Meal => {
                    actions.push(Action::RenderMealPage);
                },
                Route::Play => {
                    actions.push(Action::RenderPlayPage);
                },
                Route::Game => {},
            }
        }
        actions
    }
}

} // verus!
