//! The frame driver's decisions: what one tick does to the game, and how
//! long to rest before the next one.

use vstd::prelude::*;
use crate::board::{Direction, HEIGHT};
use crate::game::Game;
use crate::input::Intent;
use crate::model::{lemma_update_valid, GameView};

verus! {

/// Length of one tick, in nanoseconds: a fifth of a second.
pub const TICK_NANOS: u64 = 200_000_000;

impl GameView {
    /// The game after the player's intent has been applied: a hop moves the
    /// frog, anything else leaves the game as it is.
    pub open spec fn steer(self, intent: Intent) -> GameView {
        match intent {
            Intent::Move(direction) => self.move_frog(direction),
            _ => self,
        }
    }

    /// The game after one tick. Quitting changes nothing, and neither does
    /// anything once the game is over; otherwise the intent is applied and
    /// the simulation advances by one step.
    pub open spec fn tick(self, intent: Intent) -> GameView {
        if intent == Intent::Quit || self.game_over {
            self
        } else {
            self.steer(intent).update()
        }
    }

    /// Whether the score still fits in 32 bits after this tick.
    pub open spec fn tick_fits(self, intent: Intent) -> bool {
        self.tick(intent).score <= u32::MAX
    }
}

impl Game {
    /// Whether [`Game::tick`] may be called with `intent`: it may unless the
    /// tick would take the score past what 32 bits hold.
    pub fn tick_fits(&self, intent: Intent) -> (fits: bool)
        ensures
            fits == self@.tick_fits(intent),
    {
        let y = self.frog_y();
        let row = match intent {
            Intent::Move(Direction::Up) => if y > 0 {
                y - 1
            } else {
                y
            },
            Intent::Move(Direction::Down) => if y < HEIGHT - 1 {
                y + 1
            } else {
                y
            },
            _ => y,
        };
        self.score() < u32::MAX || self.game_over() || intent == Intent::Quit || row != 0
    }

    /// Plays one tick of the loop and says whether the loop goes on. A quit
    /// intent ends the loop and leaves the game untouched. Otherwise, while
    /// the game is on, a hop is applied and the simulation advances; once it
    /// is over the game stays frozen, ready to be drawn again.
    pub fn tick(&mut self, intent: Intent) -> (running: bool)
        requires
            old(self)@.tick_fits(intent),
        ensures
            running == (intent != Intent::Quit),
            final(self)@ == old(self)@.tick(intent),
            final(self)@.valid(),
    {
        proof {
            use_type_invariant(&*self);
            self.lemma_inv_valid();
        }
        match intent {
            Intent::Quit => {
                return false;
            },
            Intent::Move(direction) => {
                if !self.game_over() {
                    self.move_frog(direction);
                }
            },
            Intent::Idle => {},
        }
        if !self.game_over() {
            self.update();
        }
        true
    }
}

/// How long to rest at the end of a frame that took `elapsed_nanos`
/// nanoseconds: the remainder of the tick, or nothing when the frame used
/// the whole tick or more.
pub open spec fn rest_of_tick(elapsed_nanos: nat) -> Option<nat> {
    if elapsed_nanos < TICK_NANOS {
        Some((TICK_NANOS - elapsed_nanos) as nat)
    } else {
        None
    }
}

/// Computes the rest at the end of a frame, in nanoseconds.
pub fn frame_rest(elapsed_nanos: u128) -> (rest: Option<u64>)
    ensures
        match rest {
            Some(nanos) => rest_of_tick(elapsed_nanos as nat) == Some(nanos as nat),
            None => rest_of_tick(elapsed_nanos as nat) is None,
        },
{
    if elapsed_nanos < TICK_NANOS as u128 {
        Some(TICK_NANOS - elapsed_nanos as u64)
    } else {
        None
    }
}

/// A quit intent leaves the game as it is, and so does any tick once the
/// game is over: frog, cars and score are frozen.
pub proof fn lemma_tick_frozen(game: GameView, intent: Intent)
    ensures
        intent == Intent::Quit ==> game.tick(intent) == game,
        game.game_over ==> game.tick(intent) == game,
{
}

/// A tick keeps the frog on the board and every car in a column of the board.
pub proof fn lemma_tick_valid(game: GameView, intent: Intent)
    requires
        game.valid(),
    ensures
        game.tick(intent).valid(),
{
    lemma_update_valid(game.steer(intent));
}

} // verus!
