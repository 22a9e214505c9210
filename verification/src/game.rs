//! The whole game, and its tick.
//!
//! A tick takes the keys that are down and, if the sensor has one, a sample
//! of the acceleration. It serves the navigation bar first, then the screen
//! on display, then the pedometer and the pet's walk, and last the shuriken
//! game if that is the screen on display.
//!
//! There is one commit key. While the shuriken game is on display it throws
//! the shuriken, and the navigation bar does not get to see it: the bar
//! would take the game off display before the throw. A game that the play
//! screen starts is served from the next tick on, so the key that starts it
//! throws nothing.

use vstd::prelude::*;
use crate::action::Action;
use crate::controllers::navigation_view_controller::{
    commits,
    navigation_actions,
    steered,
    NavigationViewController,
};
use crate::controllers::page_controller::PageController;
use crate::controllers::pages::game_page_controller::{game_actions, prize};
use crate::controllers::pages::home_page_controller::home_actions;
use crate::controllers::pages::meal_page_controller::{eats, meal_actions};
use crate::controllers::pages::play_page_controller::{play_actions, starts};
use crate::controllers::pedometer_view_controller::PedometerViewController;
use crate::models::bet::Bet;
use crate::models::character::Character;
use crate::models::counter::edited;
use crate::models::meal::Meal;
use crate::models::navigation::{in_bar, moved, Direction, Navigation};
use crate::models::pedometer::{Pedometer, Reading, StepCounter, SAMPLE_COUNT_LIMIT};
use crate::models::rice_ball::RiceBall;
use crate::models::router::{Route, Router};
use crate::models::shuriken::Shuriken;
use crate::models::target::{Target, TargetPosition};
use crate::models::wallet::{Wallet, FREQUENCY_OF_STEPS};

verus! {

/// The keys that are down at a tick.
#[derive(Debug, Clone, Copy, PartialEq, Eq, Structural)]
pub struct InputSnapshot {
    /// Moves the cursor to the left.
    pub cursor_left: bool,
    /// Moves the cursor to the right.
    pub cursor_right: bool,
    /// Takes one off the amount that the screen on display sets.
    pub decrement: bool,
    /// Adds one to the amount that the screen on display sets.
    pub increment: bool,
    /// Commits: to a screen, a meal, a bet or a throw.
    pub commit: bool,
}

/// All that the game keeps between two ticks.
pub struct GameState {
    pub router: Router,
    pub navigation: Navigation,
    pub pedometer: Pedometer,
    pub character: Character,
    pub bet: Bet,
    pub meal: Meal,
    pub rice_ball: RiceBall,
    pub shuriken: Shuriken,
    pub target: Target,
}

/// The game with counts that have no upper limit.
pub struct Game {
    pub route: Route,
    pub focus: Route,
    pub steps: StepCounter,
    pub intimacy: int,
    pub bet: int,
    pub meal: int,
    pub rice_ball: Wallet,
    pub shuriken: Wallet,
    pub aim: TargetPosition,
}

impl Game {
    /// The game as the toy starts it.
    pub open spec fn initial() -> Game {
        Game {
            route: Route::Home,
            focus: Route::Home,
            steps: StepCounter { sample_count: 0, step_count: 0, state: false, last_state: false },
            intimacy: 0,
            bet: 0,
            meal: 0,
            rice_ball: Wallet { amount: 0, last_step_count: 0 },
            shuriken: Wallet { amount: 0, last_step_count: 0 },
            aim: TargetPosition::Left,
        }
    }

    /// What a game has to meet to be played: the cursor is on the bar,
    /// nothing is counted below zero, and no more is served or staked than
    /// the pet owns.
    pub open spec fn wf(self) -> bool {
        &&& in_bar(self.focus)
        &&& 0 <= self.intimacy
        &&& 0 <= self.meal <= self.rice_ball.amount
        &&& 0 <= self.bet <= self.shuriken.amount
        &&& 0 <= self.steps.sample_count
        &&& 0 <= self.steps.step_count
        &&& 0 <= self.rice_ball.last_step_count
        &&& 0 <= self.shuriken.last_step_count
    }

    /// What holds besides of every game that was played from the start: the
    /// batch of samples is no more than full, and each stock has had its
    /// find at every tenth step, the last of them included.
    pub open spec fn settled(self) -> bool {
        &&& self.steps.sample_count <= SAMPLE_COUNT_LIMIT
        &&& self.rice_ball.last_step_count == last_find(self.steps.step_count)
        &&& self.shuriken.last_step_count == last_find(self.steps.step_count)
    }

    /// Whether the counts leave room for a step and for a find of each
    /// kind.
    pub open spec fn room_to_walk(self) -> bool {
        &&& self.steps.step_count < i32::MAX
        &&& self.rice_ball.amount < i32::MAX
        &&& self.shuriken.amount < i32::MAX
    }

    /// Whether the intimacy leaves room for what the screen on display may
    /// add to it: a rice ball's worth for each rice ball in stock, or the
    /// prize of the bet.
    pub open spec fn room_to_serve(self) -> bool {
        match self.route {
            Route::Meal => self.intimacy + self.rice_ball.amount <= i32::MAX,
            Route::Game => self.intimacy + 2 * self.bet <= i32::MAX,
            _ => true,
        }
    }

    /// Whether the counts leave room for whatever a tick may add to them,
    /// on any screen.
    pub open spec fn fits(self) -> bool {
        &&& self.room_to_walk()
        &&& self.intimacy + self.rice_ball.amount <= i32::MAX
        &&& self.intimacy + 2 * self.bet <= i32::MAX
    }

    /// Whether the navigation bar gets to see the commit key: it is down,
    /// and the shuriken game is not on display.
    pub open spec fn bar_commit(self, input: InputSnapshot) -> bool {
        input.commit && self.route != Route::Game
    }

    /// The game after the navigation bar was served.
    pub open spec fn navigated(self, input: InputSnapshot) -> Game {
        let focus = steered(self.focus, input.cursor_right, input.cursor_left);
        Game {
            focus,
            route: if commits(focus, self.route, self.bar_commit(input)) {
                focus
            } else {
                self.route
            },
            ..self
        }
    }

    /// The game after the meal screen was served.
    pub open spec fn dined(self, input: InputSnapshot) -> Game {
        let served = edited(self.meal, self.rice_ball.amount, input.decrement, input.increment);
        if eats(self.focus, served, input.commit) {
            Game {
                focus: Route::Home,
                route: Route::Home,
                intimacy: self.intimacy + served,
                meal: 0,
                rice_ball: self.rice_ball.spent(served),
                ..self
            }
        } else {
            Game { meal: served, ..self }
        }
    }

    /// The game after the play screen was served.
    pub open spec fn staked(self, input: InputSnapshot) -> Game {
        let staked = edited(self.bet, self.shuriken.amount, input.decrement, input.increment);
        Game {
            bet: staked,
            route: if starts(self.focus, staked, input.commit) {
                Route::Game
            } else {
                self.route
            },
            ..self
        }
    }

    /// The game after the shuriken has moved on and, with the commit key
    /// down, was thrown.
    pub open spec fn thrown(self, input: InputSnapshot) -> Game {
        let aim = self.aim.next();
        if input.commit {
            Game {
                aim,
                focus: moved(moved(self.focus, Direction::Left), Direction::Left),
                route: Route::Home,
                intimacy: self.intimacy + prize(self.bet, aim),
                bet: 0,
                shuriken: self.shuriken.spent(self.bet),
                ..self
            }
        } else {
            Game { aim, ..self }
        }
    }

    /// The game after the screen on display was served.
    pub open spec fn paged(self, input: InputSnapshot) -> Game {
        match self.route {
            Route::Home => self,
            Route::Meal => self.dined(input),
            Route::Play => self.staked(input),
            Route::Game => self.thrown(input),
        }
    }

    /// The game after the pedometer took the sample, if there is one, and
    /// the pet looked at the step count.
    pub open spec fn sensed(self, reading: Option<Reading>) -> Game {
        let steps = match reading {
            Some(reading) => self.steps.updated(reading),
            None => self.steps,
        };
        Game {
            steps,
            rice_ball: self.rice_ball.walked(steps.step_count),
            shuriken: self.shuriken.walked(steps.step_count),
            ..self
        }
    }

    /// The game after one tick: the screen on display is served before the
    /// pedometer, the shuriken game after it.
    pub open spec fn ticked(self, input: InputSnapshot, reading: Option<Reading>) -> Game {
        let navigated = self.navigated(input);
        if navigated.route == Route::Game {
            navigated.sensed(reading).paged(input)
        } else {
            navigated.paged(input).sensed(reading)
        }
    }

    /// The game after a run of ticks, each with its keys and its sample.
    pub open spec fn played(self, ticks: Seq<(InputSnapshot, Option<Reading>)>) -> Game
        decreases ticks.len(),
    {
        if ticks.len() == 0 {
            self
        } else {
            self.played(ticks.drop_last()).ticked(ticks.last().0, ticks.last().1)
        }
    }

    /// What serving the navigation bar asks of the hardware.
    pub open spec fn bar_actions(self, input: InputSnapshot) -> Seq<Action> {
        navigation_actions(
            self.focus,
            self.route,
            input.cursor_right,
            input.cursor_left,
            self.bar_commit(input),
        )
    }

    /// What serving the screen on display asks of the hardware.
    pub open spec fn page_actions(self, input: InputSnapshot) -> Seq<Action> {
        match self.route {
            Route::Home => home_actions(self.focus, input.commit),
            Route::Meal => meal_actions(
                input.decrement,
                input.increment,
                eats(
                    self.focus,
                    edited(self.meal, self.rice_ball.amount, input.decrement, input.increment),
                    input.commit,
                ),
            ),
            Route::Play => play_actions(
                input.decrement,
                input.increment,
                starts(
                    self.focus,
                    edited(self.bet, self.shuriken.amount, input.decrement, input.increment),
                    input.commit,
                ),
            ),
            Route::Game => game_actions(self.aim.next(), input.commit),
        }
    }

    /// What a tick asks of the hardware, in order.
    pub open spec fn tick_actions(self, input: InputSnapshot, reading: Option<Reading>) -> Seq<
        Action,
    > {
        let navigated = self.navigated(input);
        self.bar_actions(input) + if navigated.route == Route::Game {
            sense_actions(reading) + navigated.sensed(reading).page_actions(input)
        } else {
            navigated.page_actions(input) + sense_actions(reading)
        }
    }
}

/// The step count of the latest find, for a pet that looks at the step
/// count after every step.
pub open spec fn last_find(step_count: int) -> int {
    step_count - step_count % (FREQUENCY_OF_STEPS as int)
}

/// What taking a sample asks of the hardware.
pub open spec fn sense_actions(reading: Option<Reading>) -> Seq<Action> {
    if reading is Some {
        seq![Action::RenderPedometer]
    } else {
        Seq::empty()
    }
}

/// Serving the navigation bar keeps a well-formed game well formed, and
/// leaves the counts alone.
pub proof fn lemma_navigated_keeps_well_formed(game: Game, input: InputSnapshot)
    requires
        game.wf(),
    ensures
        game.navigated(input).wf(),
        game.navigated(input) == (Game {
            focus: game.navigated(input).focus,
            route: game.navigated(input).route,
            ..game
        }),
{
}

/// Serving the screen on display keeps a well-formed game well formed, and
/// leaves steps and finds alone.
pub proof fn lemma_paged_keeps_well_formed(game: Game, input: InputSnapshot)
    requires
        game.wf(),
    ensures
        game.paged(input).wf(),
        game.paged(input).steps == game.steps,
        game.paged(input).rice_ball.amount <= game.rice_ball.amount,
        game.paged(input).shuriken.amount <= game.shuriken.amount,
{
}

/// Taking a sample keeps a well-formed game well formed, and leaves the
/// screen, the bet, the meal and the intimacy alone.
pub proof fn lemma_sensed_keeps_well_formed(game: Game, reading: Option<Reading>)
    requires
        game.wf(),
    ensures
        game.sensed(reading).wf(),
        game.sensed(reading).route == game.route,
        game.sensed(reading).bet == game.bet,
        game.sensed(reading).meal == game.meal,
        game.sensed(reading).intimacy == game.intimacy,
{
}

/// A tick keeps a well-formed game well formed.
pub proof fn lemma_tick_keeps_well_formed(
    game: Game,
    input: InputSnapshot,
    reading: Option<Reading>,
)
    requires
        game.wf(),
    ensures
        game.ticked(input, reading).wf(),
{
    let navigated = game.navigated(input);
    lemma_navigated_keeps_well_formed(game, input);
    if navigated.route == Route::Game {
        lemma_sensed_keeps_well_formed(navigated, reading);
        lemma_paged_keeps_well_formed(navigated.sensed(reading), input);
    } else {
        lemma_paged_keeps_well_formed(navigated, input);
        lemma_sensed_keeps_well_formed(navigated.paged(input), reading);
    }
}

/// In a settled game no find is due, and none lies ahead of the step
/// count.
pub proof fn lemma_settled_has_no_find_due(game: Game)
    requires
        game.settled(),
    ensures
        !game.rice_ball.earns(game.steps.step_count),
        !game.shuriken.earns(game.steps.step_count),
        game.rice_ball.last_step_count <= game.steps.step_count,
        game.shuriken.last_step_count <= game.steps.step_count,
{
}

/// A tick leaves a settled game settled: as a tick takes one step at most,
/// no find is lost between two ticks.
pub proof fn lemma_tick_keeps_settled(game: Game, input: InputSnapshot, reading: Option<Reading>)
    requires
        game.settled(),
    ensures
        game.ticked(input, reading).settled(),
{
}

/// A tick with no key down and no sample changes nothing in a settled
/// game, but that the shuriken moves on while its game is on display.
pub proof fn lemma_idle_tick(game: Game, input: InputSnapshot)
    requires
        game.settled(),
        !input.cursor_left,
        !input.cursor_right,
        !input.decrement,
        !input.increment,
        !input.commit,
    ensures
        game.route != Route::Game ==> game.ticked(input, None) == game,
        game.route == Route::Game ==> game.ticked(input, None) == (Game {
            aim: game.aim.next(),
            ..game
        }),
        game.tick_actions(input, None) =~= if game.route == Route::Game {
            seq![Action::RenderGamePage(game.aim.next())]
        } else {
            Seq::empty()
        },
{
}

/// However the game is played from the start, it stays well formed and
/// settled. Nothing is ever counted below zero: not the bet, the meal, the
/// rice balls, the shuriken or the intimacy; and the cursor never leaves
/// the bar.
pub proof fn lemma_counts_never_negative(ticks: Seq<(InputSnapshot, Option<Reading>)>)
    ensures
        Game::initial().played(ticks).wf(),
        Game::initial().played(ticks).settled(),
        Game::initial().played(ticks).bet >= 0,
        Game::initial().played(ticks).meal >= 0,
        Game::initial().played(ticks).rice_ball.amount >= 0,
        Game::initial().played(ticks).shuriken.amount >= 0,
        Game::initial().played(ticks).intimacy >= 0,
        Game::initial().played(ticks).steps.step_count >= 0,
        Game::initial().played(ticks).focus != Route::Game,
    decreases ticks.len(),
{
    if ticks.len() > 0 {
        lemma_counts_never_negative(ticks.drop_last());
        lemma_tick_keeps_well_formed(
            Game::initial().played(ticks.drop_last()),
            ticks.last().0,
            ticks.last().1,
        );
        lemma_tick_keeps_settled(
            Game::initial().played(ticks.drop_last()),
            ticks.last().0,
            ticks.last().1,
        );
    }
}

/// A tick never takes a step back, and in a well-formed game it never costs
/// intimacy.
pub proof fn lemma_tick_only_adds(game: Game, input: InputSnapshot, reading: Option<Reading>)
    ensures
        game.ticked(input, reading).steps.step_count >= game.steps.step_count,
        game.wf() ==> game.ticked(input, reading).intimacy >= game.intimacy,
{
}

/// The screen on display changes with the commit key down, and at no other
/// time.
pub proof fn lemma_route_needs_commit(game: Game, input: InputSnapshot, reading: Option<Reading>)
    requires
        !input.commit,
    ensures
        game.ticked(input, reading).route == game.route,
{
}

/// The stocks change by finds and by what a committed meal or throw uses
/// up, and by nothing else: without the commit key a tick takes nothing out
/// of a stock, adds one piece at most, and leaves the intimacy as it is.
pub proof fn lemma_stocks_need_commit(game: Game, input: InputSnapshot, reading: Option<Reading>)
    requires
        !input.commit,
    ensures
        game.rice_ball.amount <= game.ticked(input, reading).rice_ball.amount
            <= game.rice_ball.amount + 1,
        game.shuriken.amount <= game.ticked(input, reading).shuriken.amount
            <= game.shuriken.amount + 1,
        game.ticked(input, reading).intimacy == game.intimacy,
{
}

/// With the shuriken game on display, the commit key throws: the game is
/// settled in that tick and the toy is back at home, wherever the cursor
/// stood on the bar.
pub proof fn lemma_commit_throws(game: Game, input: InputSnapshot, reading: Option<Reading>)
    requires
        game.route == Route::Game,
        in_bar(game.focus),
        input.commit,
    ensures
        game.ticked(input, reading).route == Route::Home,
        game.ticked(input, reading).focus == Route::Home,
        game.ticked(input, reading).aim == game.aim.next(),
        game.ticked(input, reading).intimacy == game.intimacy + prize(game.bet, game.aim.next()),
        game.ticked(input, reading).bet == 0,
        game.ticked(input, reading).shuriken.amount == game.sensed(reading).shuriken.amount
            - game.bet,
{
}

/// A game that the play screen starts is not thrown in the tick that
/// starts it: the shuriken stays where it is, and so does the bet.
pub proof fn lemma_start_throws_nothing(game: Game, input: InputSnapshot, reading: Option<Reading>)
    requires
        game.route != Route::Game,
        game.ticked(input, reading).route == Route::Game,
    ensures
        game.ticked(input, reading).aim == game.aim,
        game.ticked(input, reading).bet > 0,
        game.ticked(input, reading).intimacy == game.intimacy,
{
}

/// The pet's walk and a tick of the shuriken game do not get in each
/// other's way: either order leaves the same game.
pub proof fn lemma_walk_and_throw_commute(
    game: Game,
    input: InputSnapshot,
    reading: Option<Reading>,
)
    ensures
        game.sensed(reading).thrown(input) == game.thrown(input).sensed(reading),
{
}

impl View for GameState {
    type V = Game;

    open spec fn view(&self) -> Game {
        Game {
            route: self.router@,
            focus: self.navigation@,
            steps: self.pedometer@,
            intimacy: self.character@,
            bet: self.bet@,
            meal: self.meal@,
            rice_ball: self.rice_ball@,
            shuriken: self.shuriken@,
            aim: self.target@,
        }
    }
}

impl GameState {
    /// The game as the toy starts it.
    pub fn new() -> (state: GameState)
        ensures
            state@ == Game::initial(),
            state@.wf(),
            state@.fits(),
    {
        GameState {
            router: Router::new(Route::Home),
            navigation: Navigation::new(Route::Home),
            pedometer: Pedometer::new(),
            character: Character::new(),
            bet: Bet::new(),
            meal: Meal::new(),
            rice_ball: RiceBall::new(),
            shuriken: Shuriken::new(),
            target: Target::new(),
        }
    }

    /// Whether the game can take a tick: it is well formed, and its counts
    /// leave room.
    pub fn can_tick(&self) -> (ok: bool)
        ensures
            ok == (self@.wf() && self@.fits()),
    {
        let wf = self.navigation.focus != Route::Game && 0 <= self.character.intimacy && 0
            <= self.meal.amount && self.meal.amount <= self.rice_ball.amount && 0
            <= self.bet.amount && self.bet.amount <= self.shuriken.amount && 0
            <= self.pedometer.sample_count && 0 <= self.pedometer.step_count && 0
            <= self.rice_ball.last_step_count && 0 <= self.shuriken.last_step_count;
        let fits = self.pedometer.step_count < i32::MAX && self.rice_ball.amount < i32::MAX
            && self.shuriken.amount < i32::MAX && self.character.intimacy as i64
            + self.rice_ball.amount as i64 <= i32::MAX as i64 && self.character.intimacy as i64 + 2
            * (self.bet.amount as i64) <= i32::MAX as i64;
        wf && fits
    }

    /// Serves the navigation bar.
    fn navigate(&mut self, input: InputSnapshot) -> (actions: Vec<Action>)
        ensures
            final(self)@ == old(self)@.navigated(input),
            actions@ == old(self)@.bar_actions(input),
    {
        let bar_commit = input.commit && self.router.route != Route::Game;
        NavigationViewController::watch(
            input.cursor_right,
            input.cursor_left,
            bar_commit,
            &mut self.navigation,
            &mut self.router,
        )
    }

    /// Serves the screen on display.
    fn serve(&mut self, input: InputSnapshot) -> (actions: Vec<Action>)
        requires
            old(self)@.wf(),
            old(self)@.room_to_serve(),
        ensures
            final(self)@ == old(self)@.paged(input),
            actions@ == old(self)@.page_actions(input),
    {
        PageController::watch(
            input.decrement,
            input.increment,
            input.commit,
            &mut self.navigation,
            &mut self.router,
            &mut self.character,
            &mut self.bet,
            &mut self.meal,
            &mut self.rice_ball,
            &mut self.shuriken,
            &mut self.target,
        )
    }

    /// Hands the pedometer the sample, if there is one, and lets the pet
    /// look at the step count.
    fn sense(&mut self, reading: Option<Reading>) -> (actions: Vec<Action>)
        requires
            old(self)@.room_to_walk(),
        ensures
            final(self)@ == old(self)@.sensed(reading),
            actions@ == sense_actions(reading),
    {
        match reading {
            Some(reading) => PedometerViewController::watch(
                reading,
                &mut self.pedometer,
                &mut self.rice_ball,
                &mut self.shuriken,
            ),
            None => {
                Character::walk(&self.pedometer, &mut self.rice_ball, &mut self.shuriken);
                Vec::new()
            },
        }
    }

    /// One tick of the game.
    pub fn tick(&mut self, input: InputSnapshot, reading: Option<Reading>) -> (actions: Vec<
        Action,
    >)
        requires
            old(self)@.wf(),
            old(self)@.fits(),
        ensures
            final(self)@ == old(self)@.ticked(input, reading),
            actions@ == old(self)@.tick_actions(input, reading),
            final(self)@.wf(),
    {
        proof {
            lemma_navigated_keeps_well_formed(old(self)@, input);
            lemma_tick_keeps_well_formed(old(self)@, input, reading);
        }
        let mut actions = self.navigate(input);
        if self.router.route == Route::Game {
            proof {
                lemma_sensed_keeps_well_formed(self@, reading);
            }
            let mut sensed = self.sense(reading);
            let mut served = self.serve(input);
            actions.append(&mut sensed);
            actions.append(&mut served);
        } else {
            proof {
                lemma_paged_keeps_well_formed(self@, input);
            }
            let mut served = self.serve(input);
            let mut sensed = self.sense(reading);
            actions.append(&mut served);
            actions.append(&mut sensed);
        }
        actions
    }
}

} // verus!
