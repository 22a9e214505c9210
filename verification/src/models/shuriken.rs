//! The shuriken the pet owns.

use vstd::prelude::*;
use crate::models::wallet::Wallet;

verus! {

/// The stock of shuriken, and the step count of the last find.
pub struct Shuriken {
    pub amount: i32,
    pub last_step_count: i32,
}

impl View for Shuriken {
    type V = Wallet;

    open spec fn view(&self) -> Wallet {
        Wallet { amount: self.amount as int, last_step_count: self.last_step_count as int }
    }
}

impl Default for Shuriken {
    fn default() -> (shuriken: Shuriken)
        ensures
            shuriken@ == (Wallet { amount: 0, last_step_count: 0 }),
    {
        Shuriken::new()
    }
}

impl Shuriken {
    /// No shuriken, and none found yet.
    pub fn new() -> (shuriken: Shuriken)
        ensures
            shuriken@ == (Wallet { amount: 0, last_step_count: 0 }),
    {
        Shuriken { amount: 0, last_step_count: 0 }
    }
}

} // verus!
