//! The cursor of the navigation bar.
//!
//! The bar shows Home, Meal and Play from left to right. The cursor walks
//! along it and stops at either end; the game screen has no place in the
//! bar and the cursor never gets there.

use vstd::prelude::*;
use crate::models::router::Route;

verus! {

/// A way to move the cursor along the bar.
#[derive(Debug, Clone, Copy, PartialEq, Eq, Structural)]
pub enum Direction {
    Left,
    Right,
}

/// Holds the route under the cursor.
pub struct Navigation {
    pub focus: Route,
}

impl View for Navigation {
    type V = Route;

    open spec fn view(&self) -> Route {
        self.focus
    }
}

/// Whether the navigation bar shows `route`.
pub open spec fn in_bar(route: Route) -> bool {
    route != Route::Game
}

/// The place of a route of the bar, counted from the left.
pub open spec fn slot(route: Route) -> int
    recommends
        in_bar(route),
{
    match route {
        Route::Home => 0,
        Route::Meal => 1,
        Route::Play => 2,
        Route::Game => 3,
    }
}

/// Where the cursor stands after one move from `focus`.
pub open spec fn moved(focus: Route, direction: Direction) -> Route {
    match (focus, direction) {
        (Route::Home, Direction::Right) => Route::Meal,
        (Route::Meal, Direction::Left) => Route::Home,
        (Route::Meal, Direction::Right) => Route::Play,
        (Route::Play, Direction::Left) => Route::Meal,
        _ => focus,
    }
}

/// On the bar a move is one slot to the side, held back at both ends, and
/// it keeps the cursor on the bar.
pub proof fn lemma_moved_steps_along_bar(focus: Route)
    requires
        in_bar(focus),
    ensures
        in_bar(moved(focus, Direction::Left)),
        in_bar(moved(focus, Direction::Right)),
        slot(moved(focus, Direction::Left)) == vstd::math::max(slot(focus) - 1, 0),
        slot(moved(focus, Direction::Right)) == vstd::math::min(slot(focus) + 1, 2),
{
}

/// The cursor stays at Home when sent left and at Play when sent right, and
/// two moves to the right lead from Home over Meal to Play.
pub proof fn lemma_moved_stops_at_ends()
    ensures
        moved(Route::Home, Direction::Left) == Route::Home,
        moved(Route::Play, Direction::Right) == Route::Play,
        moved(Route::Home, Direction::Right) == Route::Meal,
        moved(moved(Route::Home, Direction::Right), Direction::Right) == Route::Play,
{
}

/// No move leads to the game screen, and none leads away from it.
pub proof fn lemma_moved_never_enters_game(focus: Route, direction: Direction)
    ensures
        moved(focus, direction) == Route::Game <==> focus == Route::Game,
{
}

/// Two moves to the left bring the cursor home from anywhere on the bar.
pub proof fn lemma_two_lefts_lead_home(focus: Route)
    requires
        in_bar(focus),
    ensures
        moved(moved(focus, Direction::Left), Direction::Left) == Route::Home,
{
}

impl Navigation {
    pub fn new(focus: Route) -> (navigation: Navigation)
        ensures
            navigation@ == focus,
    {
        Navigation { focus }
    }

    /// Moves the cursor one slot in `direction`, unless it stands at that
    /// end of the bar.
    pub fn update(&mut self, direction: Direction)
        ensures
            final(self)@ == moved(old(self)@, direction),
            in_bar(old(self)@) ==> in_bar(final(self)@),
    {
        match self.focus {
            Route::Home => match direction {
                Direction::Left => {},
                Direction::Right => self.focus = Route::Meal,
            },
            Route::Meal => match direction {
                Direction::Left => self.focus = Route::Home,
                Direction::Right => self.focus = Route::Play,
            },
            Route::Play => match direction {
                Direction::Left => self.focus = Route::Meal,
                Direction::Right => {},
            },
            Route::Game => {},
        }
    }
}

} // verus!
