//! The shuriken that sweeps over the three targets of the game.

use vstd::prelude::*;

verus! {

/// One of the three targets.
#[derive(Debug, Clone, Copy, PartialEq, Eq, Structural)]
pub enum TargetPosition {
    Left,
    Center,
    Right,
}

impl TargetPosition {
    /// The position that follows this one in the sweep.
    pub open spec fn next(self) -> TargetPosition {
        match self {
            TargetPosition::Left => TargetPosition::Center,
            TargetPosition::Center => TargetPosition::Right,
            TargetPosition::Right => TargetPosition::Left,
        }
    }
}

/// The sweep visits all three positions and is back where it began after
/// three steps.
pub proof fn lemma_sweep_has_period_three(position: TargetPosition)
    ensures
        position.next() != position,
        position.next().next() != position,
        position.next().next() != position.next(),
        position.next().next().next() == position,
{
}

/// From the left the sweep goes over the center to the right and back.
pub proof fn lemma_sweep_from_left()
    ensures
        TargetPosition::Left.next() == TargetPosition::Center,
        TargetPosition::Left.next().next() == TargetPosition::Right,
        TargetPosition::Left.next().next().next() == TargetPosition::Left,
{
}

/// Holds the position the shuriken is at.
pub struct Target {
    pub position: TargetPosition,
}

impl View for Target {
    type V = TargetPosition;

    open spec fn view(&self) -> TargetPosition {
        self.position
    }
}

impl Default for Target {
    fn default() -> (target: Target)
        ensures
            target@ == TargetPosition::Left,
    {
        Target::new()
    }
}

impl Target {
    /// A shuriken at the left target.
    pub fn new() -> (target: Target)
        ensures
            target@ == TargetPosition::Left,
    {
        Target { position: TargetPosition::Left }
    }

    /// Moves the shuriken on to the next target.
    pub fn update(&mut self)
        ensures
            final(self)@ == old(self)@.next(),
    {
        match self.position {
            TargetPosition::Left => { self.position = TargetPosition::Center },
            TargetPosition::Center => { self.position = TargetPosition::Right },
            TargetPosition::Right => { self.position = TargetPosition::Left },
        }
    }
}

} // verus!
