//! The arithmetic of a counter that saturates at both ends.
//!
//! A bet and a meal are such counters: the player raises them one by one up
//! to what the pet owns and lowers them one by one down to zero. A counter
//! that is found beyond one of its ends is brought back to that end by the
//! step towards it.

use vstd::prelude::*;
use vstd::math::{max, min};

verus! {

/// The amount after one step up, which stops at the ceiling.
pub open spec fn increased(amount: int, ceiling: int) -> int {
    min(amount + 1, ceiling)
}

/// The amount after one step down, which stops at zero.
pub open spec fn decreased(amount: int) -> int {
    max(amount - 1, 0)
}

/// The amount after the two keys of a page were served: the one that lowers
/// first, then the one that raises.
pub open spec fn edited(amount: int, ceiling: int, lower: bool, raise: bool) -> int {
    let lowered = if lower {
        decreased(amount)
    } else {
        amount
    };
    if raise {
        increased(lowered, ceiling)
    } else {
        lowered
    }
}

/// Steps `amount` up by one, but not beyond `ceiling`.
pub fn step_up(amount: i32, ceiling: i32) -> (stepped: i32)
    ensures
        stepped == increased(amount as int, ceiling as int),
{
    if amount < ceiling {
        amount + 1
    } else {
        ceiling
    }
}

/// Steps `amount` down by one, but not below zero.
pub fn step_down(amount: i32) -> (stepped: i32)
    ensures
        stepped == decreased(amount as int),
{
    if amount > 0 {
        amount - 1
    } else {
        0
    }
}

/// A step up at the ceiling and a step down at zero change nothing.
pub proof fn lemma_steps_stop_at_bounds(amount: int, ceiling: int)
    ensures
        amount == ceiling ==> increased(amount, ceiling) == amount,
        amount == 0 ==> decreased(amount) == amount,
{
}

/// Between zero and the ceiling a counter moves by one or stays, and stays
/// between zero and the ceiling.
pub proof fn lemma_steps_stay_in_range(amount: int, ceiling: int)
    requires
        0 <= amount <= ceiling,
    ensures
        increased(amount, ceiling) == if amount < ceiling {
            amount + 1
        } else {
            amount
        },
        decreased(amount) == if amount > 0 {
            amount - 1
        } else {
            amount
        },
        0 <= increased(amount, ceiling) <= ceiling,
        0 <= decreased(amount) <= ceiling,
{
}

/// Serving the keys of a page keeps a counter between zero and the
/// ceiling.
pub proof fn lemma_edited_stays_in_range(amount: int, ceiling: int, lower: bool, raise: bool)
    requires
        0 <= amount <= ceiling,
    ensures
        0 <= edited(amount, ceiling, lower, raise) <= ceiling,
{
}

/// A step down never leaves a counter below zero. A step up leaves none
/// above the ceiling, and none below zero that was not there before, as
/// long as the ceiling itself is not below zero.
pub proof fn lemma_steps_keep_bounds(amount: int, ceiling: int)
    ensures
        0 <= decreased(amount),
        increased(amount, ceiling) <= ceiling,
        0 <= amount && 0 <= ceiling ==> 0 <= increased(amount, ceiling),
{
}

} // verus!
