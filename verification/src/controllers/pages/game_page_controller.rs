//! The shuriken game.
//!
//! While the game is on display the shuriken sweeps over the targets, one
//! target a tick. The commit key throws. A throw at the center target is a
//! hit and earns twice the bet in intimacy; any other throw is a miss and
//! earns nothing. Either way the shuriken of the bet are gone, and the toy
//! returns to the home screen.

use vstd::prelude::*;
use crate::action::Action;
use crate::models::bet::Bet;
use crate::models::character::Character;
use crate::models::navigation::{moved, Direction, Navigation};
use crate::models::router::{Route, Router};
use crate::models::shuriken::Shuriken;
use crate::models::target::{Target, TargetPosition};

verus! {

/// Whether a throw at `position` hits.
pub open spec fn hits(position: TargetPosition) -> bool {
    position == TargetPosition::Center
}

/// The intimacy that a throw of `bet` shuriken at `position` earns.
pub open spec fn prize(bet: int, position: TargetPosition) -> int {
    if hits(position) {
        2 * bet
    } else {
        0
    }
}

/// What a throw at `position` asks of the hardware.
pub open spec fn throw_actions(position: TargetPosition) -> Seq<Action> {
    seq![
        Action::Beep,
        Action::RenderThrowPage,
        Action::Hold,
        if hits(position) {
            Action::RenderSuccessPage
        } else {
            Action::RenderFailPage
        },
        Action::Hold,
        Action::RenderNavigation(Route::Home),
        Action::RenderHomePage,
    ]
}

/// What a tick of the game asks of the hardware, with the shuriken at
/// `position` after its move.
pub open spec fn game_actions(position: TargetPosition, commit: bool) -> Seq<Action> {
    seq![Action::RenderGamePage(position)] + if commit {
        throw_actions(position)
    } else {
        Seq::empty()
    }
}

/// A miss earns nothing, a hit twice the bet; with a bet of zero or more
/// no throw costs intimacy.
pub proof fn lemma_prize(bet: int, position: TargetPosition)
    ensures
        position != TargetPosition::Center ==> prize(bet, position) == 0,
        position == TargetPosition::Center ==> prize(bet, position) == bet + bet,
        bet >= 0 ==> prize(bet, position) >= 0,
{
}

/// The rules of the shuriken game.
pub struct GamePageController;

impl GamePageController {
    /// Settles a throw at `position`: rewards a hit, and takes the shuriken
    /// of the bet out of the stock. Returns whether the throw has hit.
    pub fn resolve(
        position: TargetPosition,
        character: &mut Character,
        bet: &mut Bet,
        shuriken: &mut Shuriken,
    ) -> (won: bool)
        requires
            i32::MIN <= prize(old(bet)@, position) <= i32::MAX,
            i32::MIN <= old(character)@ + prize(old(bet)@, position) <= i32::MAX,
            i32::MIN <= old(shuriken)@.amount - old(bet)@ <= i32::MAX,
        ensures
            won == hits(position),
            final(character)@ == old(character)@ + prize(old(bet)@, position),
            final(shuriken)@ == old(shuriken)@.spent(old(bet)@),
            final(bet)@ == 0,
            old(character)@ >= 0 && 0 <= old(bet)@ <= old(shuriken)@.amount ==> final(character)@
                >= old(character)@ && final(shuriken)@.amount >= 0,
    {
        match position {
            TargetPosition::Center => {
                character.intimate(bet.amount * 2);
                character.play(bet, shuriken);
                true
            },
            TargetPosition::Left | TargetPosition::Right => {
                character.play(bet, shuriken);
                false
            },
        }
    }

    /// One tick of the game: moves the shuriken on and, if the commit key is
    /// down, throws it where it now is and returns home.
    pub fn watch(
        switch_z: bool,
        navigation: &mut Navigation,
        router: &mut Router,
        character: &mut Character,
        bet: &mut Bet,
        shuriken: &mut Shuriken,
        target: &mut Target,
    ) -> (actions: Vec<Action>)
        requires
            switch_z ==> {
                let position = old(target)@.next();
                &&& i32::MIN <= prize(old(bet)@, position) <= i32::MAX
                &&& i32::MIN <= old(character)@ + prize(old(bet)@, position) <= i32::MAX
                &&& i32::MIN <= old(shuriken)@.amount - old(bet)@ <= i32::MAX
            },
        ensures
            final(target)@ == old(target)@.next(),
            actions@ == game_actions(final(target)@, switch_z),
            !switch_z ==> {
                &&& final(navigation)@ == old(navigation)@
                &&& final(router)@ == old(router)@
                &&& final(character)@ == old(character)@
                &&& final(bet)@ == old(bet)@
                &&& final(shuriken)@ == old(shuriken)@
            },
            switch_z ==> {
                &&& final(navigation)@ == moved(
                    moved(old(navigation)@, Direction::Left),
                    Direction::Left,
                )
                &&& final(router)@ == Route::Home
                &&& final(character)@ == old(character)@ + prize(old(bet)@, final(target)@)
                &&& final(shuriken)@ == old(shuriken)@.spent(old(bet)@)
                &&& final(bet)@ == 0
            },
    {
        let mut actions: Vec<Action> = Vec::new();
        target.update();
        actions.push(Action::RenderGamePage(target.position));
        if switch_z {
            actions.push(Action::Beep);
            actions.push(Action::RenderThrowPage);
            actions.push(Action::Hold);
            let won = Self::resolve(target.position, character, bet, shuriken);
            if won {
                actions.push(Action::RenderSuccessPage);
            } else {
                actions.push(Action::RenderFailPage);
            }
            actions.push(Action::Hold);
            navigation.update(Direction::Left);
            navigation.update(Direction::Left);
            router.update(Route::Home);
            actions.push(Action::RenderNavigation(Route::Home));
            actions.push(Action::RenderHomePage);
        }
        actions
    }
}

} // verus!
