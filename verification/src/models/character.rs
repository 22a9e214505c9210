//! The pet, and what it does with its belongings.

use vstd::prelude::*;
use crate::models::bet::Bet;
use crate::models::meal::Meal;
use crate::models::pedometer::Pedometer;
use crate::models::rice_ball::RiceBall;
use crate::models::shuriken::Shuriken;
use crate::models::wallet::find_is_due;

verus! {

/// The pet, known by how fond it has grown of its keeper.
pub struct Character {
    pub intimacy: i32,
}

impl View for Character {
    type V = int;

    open spec fn view(&self) -> int {
        self.intimacy as int
    }
}

impl Default for Character {
    fn default() -> (character: Character)
        ensures
            character@ == 0,
    {
        Character::new()
    }
}

impl Character {
    /// A pet that is a stranger still.
    pub fn new() -> (character: Character)
        ensures
            character@ == 0,
    {
        Character { intimacy: 0 }
    }

    /// Eats the meal: the rice balls on the plate leave the stock, and the
    /// plate is empty. The intimacy stays as it is; whoever serves the meal
    /// rewards it with `intimate`.
    pub fn eat(&mut self, meal: &mut Meal, rice_ball: &mut RiceBall)
        requires
            i32::MIN <= old(rice_ball)@.amount - old(meal)@ <= i32::MAX,
        ensures
            final(rice_ball)@ == old(rice_ball)@.spent(old(meal)@),
            final(meal)@ == 0,
            final(self)@ == old(self)@,
            0 <= old(meal)@ <= old(rice_ball)@.amount ==> 0 <= final(rice_ball)@.amount,
    {
        rice_ball.amount -= meal.amount;
        meal.amount = 0;
    }

    /// Throws the shuriken of the bet: they leave the stock, and the bet is
    /// empty. The intimacy stays as it is.
    pub fn play(&mut self, bet: &mut Bet, shuriken: &mut Shuriken)
        requires
            i32::MIN <= old(shuriken)@.amount - old(bet)@ <= i32::MAX,
        ensures
            final(shuriken)@ == old(shuriken)@.spent(old(bet)@),
            final(bet)@ == 0,
            final(self)@ == old(self)@,
            0 <= old(bet)@ <= old(shuriken)@.amount ==> 0 <= final(shuriken)@.amount,
    {
        shuriken.amount -= bet.amount;
        bet.amount = 0;
    }

    /// Grows fonder by `amount`.
    pub fn intimate(&mut self, amount: i32)
        requires
            i32::MIN <= old(self)@ + amount <= i32::MAX,
        ensures
            final(self)@ == old(self)@ + amount,
            old(self)@ >= 0 && amount >= 0 ==> final(self)@ >= old(self)@ >= 0,
    {
        self.intimacy += amount;
    }

    /// Looks at the pedometer, and finds a rice ball and a shuriken if
    /// enough steps were walked since each was last found.
    pub fn walk(pedometer: &Pedometer, rice_ball: &mut RiceBall, shuriken: &mut Shuriken)
        requires
            old(rice_ball)@.earns(pedometer@.step_count) ==> old(rice_ball)@.amount < i32::MAX,
            old(shuriken)@.earns(pedometer@.step_count) ==> old(shuriken)@.amount < i32::MAX,
        ensures
            final(rice_ball)@ == old(rice_ball)@.walked(pedometer@.step_count),
            final(shuriken)@ == old(shuriken)@.walked(pedometer@.step_count),
            final(rice_ball)@.amount >= old(rice_ball)@.amount,
            final(shuriken)@.amount >= old(shuriken)@.amount,
    {
        if find_is_due(pedometer.step_count, rice_ball.last_step_count) {
            rice_ball.last_step_count = pedometer.step_count;
            rice_ball.amount += 1;
        }
        if find_is_due(pedometer.step_count, shuriken.last_step_count) {
            shuriken.last_step_count = pedometer.step_count;
            shuriken.amount += 1;
        }
    }
}

} // verus!
