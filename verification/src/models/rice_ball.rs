//! The rice balls the pet owns.

use vstd::prelude::*;
use crate::models::wallet::Wallet;

verus! {

/// The stock of rice balls, and the step count of the last find.
pub struct RiceBall {
    pub amount: i32,
    pub last_step_count: i32,
}

impl View for RiceBall {
    type V = Wallet;

    open spec fn view(&self) -> Wallet {
        Wallet { amount: self.amount as int, last_step_count: self.last_step_count as int }
    }
}

impl Default for RiceBall {
    fn default() -> (rice_ball: RiceBall)
        ensures
            rice_ball@ == (Wallet { amount: 0, last_step_count: 0 }),
    {
        RiceBall::new()
    }
}

impl RiceBall {
    /// No rice balls, and none found yet.
    pub fn new() -> (rice_ball: RiceBall)
        ensures
            rice_ball@ == (Wallet { amount: 0, last_step_count: 0 }),
    {
        RiceBall { amount: 0, last_step_count: 0 }
    }
}

} // verus!
