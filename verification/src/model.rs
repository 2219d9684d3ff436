//! The mathematical model of a game in progress, and of what each operation
//! does to it.

use vstd::prelude::*;
use crate::board::{on_board, Direction, HEIGHT, START_X, START_Y, WIDTH};
use crate::input::Intent;

verus! {

/// A game as a value: where the frog and the cars are, the score, and whether
/// the frog has been run over.
#[verifier::ext_equal]
pub struct GameView {
    pub frog_x: int,
    pub frog_y: int,
    /// The cars as `(x, y)` cells, in creation order.
    pub cars: Seq<(int, int)>,
    pub score: nat,
    pub game_over: bool,
}

impl GameView {
    /// The cell the frog sits on.
    pub open spec fn frog(self) -> (int, int) {
        (self.frog_x, self.frog_y)
    }

    /// The frog is on the board and every car is in one of its columns.
    pub open spec fn valid(self) -> bool {
        &&& on_board(self.frog_x, self.frog_y)
        &&& forall|i: int| 0 <= i < self.cars.len() ==> 0 <= (#[trigger] self.cars[i]).0 < WIDTH
    }

    /// The game as it starts: the frog at the bottom centre, three cars, no
    /// points, nobody hurt.
    pub open spec fn initial() -> GameView {
        GameView {
            frog_x: START_X as int,
            frog_y: START_Y as int,
            cars: seq![(0int, 2int), (5int, 4int), (10int, 6int)],
            score: 0,
            game_over: false,
        }
    }

    /// The cars after one step to the right, wrapping at the right edge.
    pub open spec fn shifted_cars(self) -> Seq<(int, int)> {
        Seq::new(self.cars.len(), |i: int| ((self.cars[i].0 + 1) % (WIDTH as int), self.cars[i].1))
    }

    /// Whether some car, after its step, sits on the frog.
    pub open spec fn run_over(self) -> bool {
        self.shifted_cars().contains(self.frog())
    }

    /// One step of the simulation. Every car moves first; then a car on the
    /// frog's cell ends the game; then a frog in the top row scores and goes
    /// back to the start, whether or not it was just run over.
    pub open spec fn update(self) -> GameView {
        let home = self.frog_y == 0;
        GameView {
            frog_x: if home { START_X as int } else { self.frog_x },
            frog_y: if home { START_Y as int } else { self.frog_y },
            cars: self.shifted_cars(),
            score: if home { self.score + 1 } else { self.score },
            game_over: self.game_over || self.run_over(),
        }
    }

    /// One hop of the frog; a hop that would leave the board does nothing.
    pub open spec fn move_frog(self, direction: Direction) -> GameView {
        match direction {
            Direction::Up => if self.frog_y > 0 {
                GameView { frog_y: self.frog_y - 1, ..self }
            } else {
                self
            },
            Direction::Down => if self.frog_y < HEIGHT - 1 {
                GameView { frog_y: self.frog_y + 1, ..self }
            } else {
                self
            },
            Direction::Left => if self.frog_x > 0 {
                GameView { frog_x: self.frog_x - 1, ..self }
            } else {
                self
            },
            Direction::Right => if self.frog_x < WIDTH - 1 {
                GameView { frog_x: self.frog_x + 1, ..self }
            } else {
                self
            },
        }
    }
}

/// The game starts in a valid state.
pub proof fn lemma_initial_valid()
    ensures
        GameView::initial().valid(),
{
}

/// A step of the simulation keeps the frog on the board and every car in a
/// column of the board.
pub proof fn lemma_update_valid(game: GameView)
    requires
        game.valid(),
    ensures
        game.update().valid(),
{
}

/// A step of the simulation moves every car one column to the right,
/// wrapping at the right edge, and leaves it in its row; no car appears or
/// disappears.
pub proof fn lemma_update_moves_cars(game: GameView)
    ensures
        game.update().cars.len() == game.cars.len(),
        forall|i: int|
            0 <= i < game.cars.len() ==> {
                &&& (#[trigger] game.update().cars[i]).0 == (game.cars[i].0 + 1) % (WIDTH as int)
                &&& game.update().cars[i].1 == game.cars[i].1
            },
{
}

/// A step of the simulation that finds the frog in the top row adds exactly
/// one point and sends the frog back to the start; any other step leaves
/// score and frog alone.
pub proof fn lemma_update_scores_in_top_row(game: GameView)
    ensures
        game.frog_y == 0 ==> game.update().score == game.score + 1 && game.update().frog() == (
            START_X as int,
            START_Y as int,
        ),
        game.frog_y != 0 ==> game.update().score == game.score && game.update().frog()
            == game.frog(),
{
}

/// A step of the simulation ends the game exactly when a car, after moving,
/// sits on the cell the frog was on; a game that is over stays over.
pub proof fn lemma_update_detects_collision(game: GameView)
    ensures
        game.update().game_over <==> game.game_over || exists|i: int|
            0 <= i < game.cars.len() && (game.cars[i].0 + 1) % (WIDTH as int) == game.frog_x
                && game.cars[i].1 == game.frog_y,
{
    let moved = game.shifted_cars();
    if game.run_over() {
        let i = choose|i: int| 0 <= i < moved.len() && moved[i] == game.frog();
        assert((game.cars[i].0 + 1) % (WIDTH as int) == game.frog_x && game.cars[i].1
            == game.frog_y);
    }
    if exists|i: int|
        0 <= i < game.cars.len() && (game.cars[i].0 + 1) % (WIDTH as int) == game.frog_x
            && game.cars[i].1 == game.frog_y {
        let i = choose|i: int|
            0 <= i < game.cars.len() && (game.cars[i].0 + 1) % (WIDTH as int) == game.frog_x
                && game.cars[i].1 == game.frog_y;
        assert(moved[i] == game.frog());
    }
}

/// A hop keeps the frog on the board and touches nothing but the frog.
pub proof fn lemma_move_frog_valid(game: GameView, direction: Direction)
    requires
        game.valid(),
    ensures
        game.move_frog(direction).valid(),
        game.move_frog(direction).cars == game.cars,
        game.move_frog(direction).score == game.score,
        game.move_frog(direction).game_over == game.game_over,
{
}

/// A hop towards an edge the frog already touches changes nothing.
pub proof fn lemma_move_frog_at_edge(game: GameView)
    ensures
        game.frog_y == 0 ==> game.move_frog(Direction::Up) == game,
        game.frog_y == HEIGHT - 1 ==> game.move_frog(Direction::Down) == game,
        game.frog_x == 0 ==> game.move_frog(Direction::Left) == game,
        game.frog_x == WIDTH - 1 ==> game.move_frog(Direction::Right) == game,
{
}

} // verus!
