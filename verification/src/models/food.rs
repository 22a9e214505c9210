//! A counted helping of food, which may start at any amount.

use vstd::prelude::*;
use crate::models::counter::{decreased, increased, step_down, step_up};

verus! {

/// The helping, counted in pieces.
pub struct Food {
    pub amount: i32,
}

impl View for Food {
    type V = int;

    open spec fn view(&self) -> int {
        self.amount as int
    }
}

impl Food {
    /// A helping of `amount` pieces.
    pub fn new(amount: i32) -> (food: Food)
        ensures
            food@ == amount,
    {
        Food { amount }
    }

    /// Adds one piece, unless the helping has reached `max`.
    pub fn increase(&mut self, max: i32)
        ensures
            final(self)@ == increased(old(self)@, max as int),
            old(self)@ == max ==> final(self)@ == old(self)@,
            final(self)@ <= max,
            old(self)@ >= 0 && max >= 0 ==> final(self)@ >= 0,
    {
        self.amount = step_up(self.amount, max);
    }

    /// Takes one piece away, unless none is left.
    pub fn decrease(&mut self)
        ensures
            final(self)@ == decreased(old(self)@),
            old(self)@ == 0 ==> final(self)@ == old(self)@,
            final(self)@ >= 0,
    {
        self.amount = step_down(self.amount);
    }
}

} // verus!
