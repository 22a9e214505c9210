//! The number of rice balls served for the next meal.

use vstd::prelude::*;
use crate::models::counter::{decreased, increased, step_down, step_up};

verus! {

/// The meal, counted in rice balls.
pub struct Meal {
    pub amount: i32,
}

impl View for Meal {
    type V = int;

    open spec fn view(&self) -> int {
        self.amount as int
    }
}

impl Default for Meal {
    fn default() -> (meal: Meal)
        ensures
            meal@ == 0,
    {
        Meal::new()
    }
}

impl Meal {
    /// An empty plate.
    pub fn new() -> (meal: Meal)
        ensures
            meal@ == 0,
    {
        Meal { amount: 0 }
    }

    /// Serves one more rice ball, unless the meal has reached `max`.
    pub fn increase(&mut self, max: i32)
        ensures
            final(self)@ == increased(old(self)@, max as int),
            old(self)@ == max ==> final(self)@ == old(self)@,
            final(self)@ <= max,
            old(self)@ >= 0 && max >= 0 ==> final(self)@ >= 0,
    {
        self.amount = step_up(self.amount, max);
    }

    /// Takes one rice ball back, unless the plate is empty.
    pub fn decrease(&mut self)
        ensures
            final(self)@ == decreased(old(self)@),
            old(self)@ == 0 ==> final(self)@ == old(self)@,
            final(self)@ >= 0,
    {
        self.amount = step_down(self.amount);
    }
}

} // verus!
