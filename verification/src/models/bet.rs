//! The number of shuriken staked on the next throw.

use vstd::prelude::*;
use crate::models::counter::{decreased, increased, step_down, step_up};

verus! {

/// The bet, counted in shuriken.
pub struct Bet {
    pub amount: i32,
}

impl View for Bet {
    type V = int;

    open spec fn view(&self) -> int {
        self.amount as int
    }
}

impl Default for Bet {
    fn default() -> (bet: Bet)
        ensures
            bet@ == 0,
    {
        Bet::new()
    }
}

impl Bet {
    /// An empty bet.
    pub fn new() -> (bet: Bet)
        ensures
            bet@ == 0,
    {
        Bet { amount: 0 }
    }

    /// Stakes one more shuriken, unless the bet has reached `max`.
    pub fn increase(&mut self, max: i32)
        ensures
            final(self)@ == increased(old(self)@, max as int),
            old(self)@ == max ==> final(self)@ == old(self)@,
            final(self)@ <= max,
            old(self)@ >= 0 && max >= 0 ==> final(self)@ >= 0,
    {
        self.amount = step_up(self.amount, max);
    }

    /// Takes one shuriken back, unless the bet is empty.
    pub fn decrease(&mut self)
        ensures
            final(self)@ == decreased(old(self)@),
            old(self)@ == 0 ==> final(self)@ == old(self)@,
            final(self)@ >= 0,
    {
        self.amount = step_down(self.amount);
    }
}

} // verus!
