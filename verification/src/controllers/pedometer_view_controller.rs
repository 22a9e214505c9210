//! The pedometer and what the pet finds on its walks.

use vstd::prelude::*;
use crate::action::Action;
use crate::models::character::Character;
use crate::models::pedometer::{Pedometer, Reading};
use crate::models::rice_ball::RiceBall;
use crate::models::shuriken::Shuriken;

verus! {

/// The rules of the pedometer.
pub struct PedometerViewController;

impl PedometerViewController {
    /// One sample: the pedometer takes it, the pet looks at the step count
    /// for something to find, and the count is drawn.
    pub fn watch(
        reading: Reading,
        pedometer: &mut Pedometer,
        rice_ball: &mut RiceBall,
        shuriken: &mut Shuriken,
    ) -> (actions: Vec<Action>)
        requires
            old(pedometer)@.leveled(reading).rising() ==> old(pedometer)@.step_count < i32::MAX,
            old(rice_ball)@.earns(old(pedometer)@.updated(reading).step_count) ==> old(
                rice_ball,
            )@.amount < i32::MAX,
            old(shuriken)@.earns(old(pedometer)@.updated(reading).step_count) ==> old(
                shuriken,
            )@.amount < i32::MAX,
        ensures
            final(pedometer)@ == old(pedometer)@.updated(reading),
            final(rice_ball)@ == old(rice_ball)@.walked(final(pedometer)@.step_count),
            final(shuriken)@ == old(shuriken)@.walked(final(pedometer)@.step_count),
            actions@ == seq![Action::RenderPedometer],
    {
        let mut actions: Vec<Action> = Vec::new();
        pedometer.update(reading);
        Character::walk(pedometer, rice_ball, shuriken);
        actions.push(Action::RenderPedometer);
        actions
    }
}

} // verus!
