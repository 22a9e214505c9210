//! The screen that is on display.

use vstd::prelude::*;

verus! {

/// A screen of the toy.
#[derive(Debug, Clone, Copy, PartialEq, Eq, Structural)]
pub enum Route {
    Home,
    Meal,
    Play,
    Game,
}

/// Holds the screen that was last committed.
pub struct Router {
    pub route: Route,
}

impl View for Router {
    type V = Route;

    open spec fn view(&self) -> Route {
        self.route
    }
}

impl Router {
    pub fn new(route: Route) -> (router: Router)
        ensures
            router@ == route,
    {
        Router { route }
    }

    /// Commits `route`, whatever was on display before.
    pub fn update(&mut self, route: Route)
        ensures
            final(self)@ == route,
    {
        self.route = route
    }
}

} // verus!
