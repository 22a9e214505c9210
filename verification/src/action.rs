//! What the game asks of the hardware.
//!
//! The rules decide; buzzer, display and clock are driven by whoever calls
//! them. Each call into the rules returns the actions to perform, in order.
//! A page that shows amounts is drawn from the state as the call left it.

use vstd::prelude::*;
use crate::models::router::Route;
use crate::models::target::TargetPosition;

verus! {

/// One thing for the hardware to do.
#[derive(Debug, Clone, Copy, PartialEq, Eq, Structural)]
pub enum Action {
    /// Sound a short tone.
    Beep,
    /// Keep the display as it is for three seconds.
    Hold,
    /// Draw the navigation bar, with the cursor on the route given.
    RenderNavigation(Route),
    /// Draw the step count.
    RenderPedometer,
    /// Draw the pet asleep.
    RenderHomePage,
    /// Draw the meal and the stock of rice balls.
    RenderMealPage,
    /// Draw the bet and the stock of shuriken.
    RenderPlayPage,
    /// Draw the three targets, with the shuriken at the position given.
    RenderGamePage(TargetPosition),
    /// Draw the pet eating.
    RenderEatPage,
    /// Draw the pet throwing.
    RenderThrowPage,
    /// Draw the pet after a hit.
    RenderSuccessPage,
    /// Draw the pet after a miss.
    RenderFailPage,
}

} // verus!
