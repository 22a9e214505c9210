//! What the pet owns of one kind of thing, and the step count at which it
//! last found one.
//!
//! Rice balls and shuriken are both kept this way. The pet finds one more
//! whenever the step count has grown by ten since the last find. It finds
//! one at a time: a walk of thirty steps between two looks still yields a
//! single find.

use vstd::prelude::*;

verus! {

/// The steps the pet has to walk for each find.
pub const FREQUENCY_OF_STEPS: i32 = 10;

/// Whether enough steps were walked by `step_count` since a find at
/// `last_step_count` for the next find.
pub open spec fn find_due(step_count: int, last_step_count: int) -> bool {
    step_count - FREQUENCY_OF_STEPS >= last_step_count
}

/// A stock with counts that have no upper limit.
pub struct Wallet {
    pub amount: int,
    pub last_step_count: int,
}

impl Wallet {
    /// Whether a find is due at `step_count`.
    pub open spec fn earns(self, step_count: int) -> bool {
        find_due(step_count, self.last_step_count)
    }

    /// The wallet after a find at `step_count`.
    pub open spec fn rewarded(self, step_count: int) -> Wallet {
        Wallet { amount: self.amount + 1, last_step_count: step_count }
    }

    /// The wallet after a look at the pedometer at `step_count`.
    pub open spec fn walked(self, step_count: int) -> Wallet {
        if self.earns(step_count) {
            self.rewarded(step_count)
        } else {
            self
        }
    }

    /// The wallet after `n` pieces were used up. Nothing keeps `n` below the
    /// amount: the caller spends what a bet or a meal holds, and these are
    /// not raised above the amount.
    pub open spec fn spent(self, n: int) -> Wallet {
        Wallet { amount: self.amount - n, last_step_count: self.last_step_count }
    }
}

/// Whether a find is due at `step_count` for a wallet that last found
/// something at `last_step_count`.
pub fn find_is_due(step_count: i32, last_step_count: i32) -> (due: bool)
    ensures
        due == find_due(step_count as int, last_step_count as int),
{
    step_count as i64 - FREQUENCY_OF_STEPS as i64 >= last_step_count as i64
}

/// At a step count where nothing was walked since the last find, a look
/// changes nothing.
pub proof fn lemma_walk_needs_steps(wallet: Wallet)
    ensures
        wallet.walked(wallet.last_step_count) == wallet,
{
}

/// A second look at the same step count changes nothing.
pub proof fn lemma_walk_settles(wallet: Wallet, step_count: int)
    ensures
        wallet.walked(step_count).walked(step_count) == wallet.walked(step_count),
{
}

/// A look yields one find at most, however far the pet has walked, and
/// takes nothing away.
pub proof fn lemma_walk_finds_one_at_most(wallet: Wallet, step_count: int)
    ensures
        wallet.amount <= wallet.walked(step_count).amount <= wallet.amount + 1,
        wallet.walked(step_count).amount == wallet.amount + 1 <==> wallet.earns(step_count),
{
}

/// Spending no more than the wallet holds leaves it at zero or above.
pub proof fn lemma_spent_within_amount(wallet: Wallet, n: int)
    requires
        0 <= n <= wallet.amount,
    ensures
        0 <= wallet.spent(n).amount <= wallet.amount,
{
}

} // verus!
