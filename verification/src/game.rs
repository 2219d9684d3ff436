//! The game state and the operations that change it.

use vstd::prelude::*;
use crate::board::{Direction, HEIGHT, START_X, START_Y, WIDTH};
use crate::model::GameView;

verus! {

/// The cells that a vector of car positions stands for.
pub open spec fn cells(cars: Seq<(usize, usize)>) -> Seq<(int, int)> {
    Seq::new(cars.len(), |i: int| (cars[i].0 as int, cars[i].1 as int))
}

/// A game in progress.
pub struct Game {
    frog_x: usize,
    frog_y: usize,
    cars: Vec<(usize, usize)>,
    score: u32,
    game_over: bool,
}

impl View for Game {
    type V = GameView;

    closed spec fn view(&self) -> GameView {
        GameView {
            frog_x: self.frog_x as int,
            frog_y: self.frog_y as int,
            cars: cells(self.cars@),
            score: self.score as nat,
            game_over: self.game_over,
        }
    }
}

impl Game {
    /// What holds of every `Game`: the frog is on the board and every car
    /// is in one of its columns.
    #[verifier::type_invariant]
    pub closed spec fn inv(&self) -> bool {
        &&& self.frog_x < WIDTH
        &&& self.frog_y < HEIGHT
        &&& forall|i: int| 0 <= i < self.cars.len() ==> (#[trigger] self.cars[i]).0 < WIDTH
    }

    /// What holds of every `Game` makes its view valid.
    pub proof fn lemma_inv_valid(&self)
        requires
            self.inv(),
        ensures
            self@.valid(),
    {
        assert forall|i: int| 0 <= i < self@.cars.len() implies 0 <= (#[trigger] self@.cars[i]).0
            < WIDTH by {
            assert(self.cars[i].0 < WIDTH);
        }
    }

    /// Starts a game.
    pub fn new() -> (game: Game)
        ensures
            game@ == GameView::initial(),
            game@.valid(),
    {
        Game {
            frog_x: START_X,
            frog_y: START_Y,
            cars: vec![(0, 2), (5, 4), (10, 6)],
            score: 0,
            game_over: false,
        }
    }

    /// Advances the simulation by one step: every car moves one column to
    /// the right and wraps at the edge; a car that then sits on the frog ends
    /// the game; and a frog in the top row scores a point and starts over,
    /// also when it was run over in the same step. The score has to fit when
    /// a point is due.
    pub fn update(&mut self)
        requires
            old(self)@.frog_y == 0 ==> old(self)@.score < u32::MAX,
        ensures
            final(self)@ == old(self)@.update(),
            final(self)@.valid(),
    {
        proof {
            use_type_invariant(&*self);
        }
        let ghost before = self@;
        let mut cars: Vec<(usize, usize)> = Vec::new();
        std::mem::swap(&mut self.cars, &mut cars);
        let ghost parked = cars@;

        let mut i: usize = 0;
        while i < cars.len()
            invariant
                i <= cars.len(),
                cars.len() == parked.len(),
                forall|j: int| 0 <= j < parked.len() ==> (#[trigger] parked[j]).0 < WIDTH,
                forall|j: int|
                    0 <= j < i ==> #[trigger] cars[j] == (
                        ((parked[j].0 + 1) % (WIDTH as int)) as usize,
                        parked[j].1,
                    ),
                forall|j: int| i <= j < cars.len() ==> #[trigger] cars[j] == parked[j],
            decreases cars.len() - i,
        {
            let x = cars[i].0;
            cars[i].0 = (x + 1) % WIDTH;
            i += 1;
        }
        assert(cells(cars@) =~= before.shifted_cars());

        let mut hit = false;
        let mut k: usize = 0;
        while k < cars.len()
            invariant
                k <= cars.len(),
                self.frog_x == before.frog_x,
                self.frog_y == before.frog_y,
                hit == cells(cars@).take(k as int).contains(before.frog()),
            decreases cars.len() - k,
        {
            let (x, y) = cars[k];
            assert(cells(cars@).take(k + 1) =~= cells(cars@).take(k as int).push(
                (x as int, y as int),
            ));
            if x == self.frog_x && y == self.frog_y {
                hit = true;
                assert(cells(cars@).take(k + 1)[k as int] == before.frog());
            }
            k += 1;
        }
        assert(cells(cars@).take(cars.len() as int) =~= cells(cars@));

        self.cars = cars;
        if hit {
            self.game_over = true;
        }
        if self.frog_y == 0 {
            self.score += 1;
            self.frog_x = START_X;
            self.frog_y = START_Y;
        }
        proof {
            self.lemma_inv_valid();
        }
    }

    /// Hops one cell in `direction`, unless that would take the frog off the
    /// board: then nothing changes.
    pub fn move_frog(&mut self, direction: Direction)
        ensures
            final(self)@ == old(self)@.move_frog(direction),
            final(self)@.valid(),
    {
        proof {
            use_type_invariant(&*self);
            self.lemma_inv_valid();
        }
        match direction {
            Direction::Up => {
                if self.frog_y > 0 {
                    self.frog_y -= 1;
                }
            },
            Direction::Down => {
                if self.frog_y < HEIGHT - 1 {
                    self.frog_y += 1;
                }
            },
            Direction::Left => {
                if self.frog_x > 0 {
                    self.frog_x -= 1;
                }
            },
            Direction::Right => {
                if self.frog_x < WIDTH - 1 {
                    self.frog_x += 1;
                }
            },
        }
    }

    /// Column of the frog.
    pub fn frog_x(&self) -> (x: usize)
        ensures
            x == self@.frog_x,
            x < WIDTH,
    {
        proof {
            use_type_invariant(self);
        }
        self.frog_x
    }

    /// Row of the frog.
    pub fn frog_y(&self) -> (y: usize)
        ensures
            y == self@.frog_y,
            y < HEIGHT,
    {
        proof {
            use_type_invariant(self);
        }
        self.frog_y
    }

    /// The cars as `(x, y)` cells, in creation order.
    pub fn cars(&self) -> (cars: &Vec<(usize, usize)>)
        ensures
            cells(cars@) == self@.cars,
            forall|i: int| 0 <= i < cars.len() ==> (#[trigger] cars[i]).0 < WIDTH,
    {
        proof {
            use_type_invariant(self);
        }
        &self.cars
    }

    /// Crossings completed so far.
    pub fn score(&self) -> (score: u32)
        ensures
            score == self@.score,
    {
        self.score
    }

    /// Whether the frog has been run over.
    pub fn game_over(&self) -> (over: bool)
        ensures
            over == self@.game_over,
    {
        self.game_over
    }
}

} // verus!
