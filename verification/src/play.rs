//! Whole plays: what holds of a game however long it is played.

use vstd::prelude::*;
use crate::board::Direction;
use crate::driver::lemma_tick_valid;
use crate::input::Intent;
use crate::model::{lemma_move_frog_valid, lemma_update_valid, GameView};

verus! {

/// One call on a game.
pub enum Call {
    /// A step of the simulation.
    Update,
    /// A hop of the frog.
    MoveFrog(Direction),
    /// A tick of the frame loop.
    Tick(Intent),
}

impl GameView {
    /// The game after one call.
    pub open spec fn after(self, call: Call) -> GameView {
        match call {
            Call::Update => self.update(),
            Call::MoveFrog(direction) => self.move_frog(direction),
            Call::Tick(intent) => self.tick(intent),
        }
    }

    /// The game after a sequence of calls, made in order.
    pub open spec fn after_all(self, calls: Seq<Call>) -> GameView
        decreases calls.len(),
    {
        if calls.len() == 0 {
            self
        } else {
            self.after_all(calls.drop_last()).after(calls.last())
        }
    }
}

/// Whatever is called on a game, in whatever order, the frog stays on the
/// board and every car stays in a column of the board.
pub proof fn lemma_play_valid(game: GameView, calls: Seq<Call>)
    requires
        game.valid(),
    ensures
        game.after_all(calls).valid(),
    decreases calls.len(),
{
    if calls.len() > 0 {
        lemma_play_valid(game, calls.drop_last());
        let so_far = game.after_all(calls.drop_last());
        match calls.last() {
            Call::Update => lemma_update_valid(so_far),
            Call::MoveFrog(direction) => lemma_move_frog_valid(so_far, direction),
            Call::Tick(intent) => lemma_tick_valid(so_far, intent),
        }
    }
}

/// Every state that a game can reach from its start is valid.
pub proof fn lemma_reachable_valid(calls: Seq<Call>)
    ensures
        GameView::initial().after_all(calls).valid(),
{
    lemma_play_valid(GameView::initial(), calls);
}

/// Whatever is called on a game, the cars stay as many as they were and
/// each stays in its row.
pub proof fn lemma_play_keeps_rows(game: GameView, calls: Seq<Call>)
    ensures
        game.after_all(calls).cars.len() == game.cars.len(),
        forall|i: int|
            0 <= i < game.cars.len() ==> (#[trigger] game.after_all(calls).cars[i]).1
                == game.cars[i].1,
    decreases calls.len(),
{
    if calls.len() > 0 {
        lemma_play_keeps_rows(game, calls.drop_last());
    }
}

/// The score never goes down, whatever is called on the game.
pub proof fn lemma_play_score_monotonic(game: GameView, calls: Seq<Call>)
    ensures
        game.after_all(calls).score >= game.score,
    decreases calls.len(),
{
    if calls.len() > 0 {
        lemma_play_score_monotonic(game, calls.drop_last());
    }
}

/// Once a game is over it stays over, whatever is called on it.
pub proof fn lemma_play_game_over_final(game: GameView, calls: Seq<Call>)
    requires
        game.game_over,
    ensures
        game.after_all(calls).game_over,
    decreases calls.len(),
{
    if calls.len() > 0 {
        lemma_play_game_over_final(game, calls.drop_last());
    }
}

/// Once a game is over, ticks of the frame loop change nothing: frog, cars
/// and score stay frozen however many follow.
pub proof fn lemma_ticks_frozen(game: GameView, intents: Seq<Intent>)
    requires
        game.game_over,
    ensures
        game.after_all(intents.map_values(|intent: Intent| Call::Tick(intent))) == game,
    decreases intents.len(),
{
    let calls = intents.map_values(|intent: Intent| Call::Tick(intent));
    if intents.len() > 0 {
        lemma_ticks_frozen(game, intents.drop_last());
        assert(calls.drop_last() =~= intents.drop_last().map_values(
            |intent: Intent| Call::Tick(intent),
        ));
    }
}

} // verus!
