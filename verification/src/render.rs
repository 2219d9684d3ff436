//! Drawing: the list of terminal operations that paints one frame.

use vstd::prelude::*;
use vstd::string::StringExecFns;
use crate::board::{
    background, on_board, CAR_CHAR, FROG_CHAR, HEIGHT, ROAD_CHAR, WATER_CHAR, WIDTH,
};
use crate::game::{cells, Game};
use crate::model::GameView;

verus! {

/// Caption of the score line.
pub const SCORE_LABEL: &'static str = "Score: ";

/// Message shown below the score once the frog has been run over.
pub const GAME_OVER_TEXT: &'static str = "GAME OVER! Press 'q' to quit.";

/// One operation on the terminal.
#[derive(Debug, PartialEq, Eq)]
pub enum DrawOp {
    /// Put the cursor at a column and row, both counted from zero.
    MoveTo { column: u16, row: u16 },
    /// Print one character at the cursor.
    Glyph(char),
    /// Print a line of text at the cursor.
    Text(String),
    /// Print in red from here on.
    ForegroundRed,
    /// Print in the terminal's own colours from here on.
    ResetColor,
}

/// A [`DrawOp`] as a value.
pub enum DrawOpView {
    MoveTo { column: int, row: int },
    Glyph(char),
    Text(Seq<char>),
    ForegroundRed,
    ResetColor,
}

impl View for DrawOp {
    type V = DrawOpView;

    open spec fn view(&self) -> DrawOpView {
        match *self {
            DrawOp::MoveTo { column, row } => DrawOpView::MoveTo {
                column: column as int,
                row: row as int,
            },
            DrawOp::Glyph(glyph) => DrawOpView::Glyph(glyph),
            DrawOp::Text(text) => DrawOpView::Text(text@),
            DrawOp::ForegroundRed => DrawOpView::ForegroundRed,
            DrawOp::ResetColor => DrawOpView::ResetColor,
        }
    }
}

/// The values of a list of operations.
pub open spec fn views(ops: Seq<DrawOp>) -> Seq<DrawOpView> {
    Seq::new(ops.len(), |i: int| ops[i]@)
}

/// The ten decimal digits, in order.
pub open spec fn digits() -> Seq<char> {
    seq!['0', '1', '2', '3', '4', '5', '6', '7', '8', '9']
}

/// The decimal numeral of `n`, without leading zeros.
pub open spec fn decimal(n: nat) -> Seq<char>
    decreases n,
{
    if n < 10 {
        seq![digits()[n as int]]
    } else {
        decimal(n / 10).push(digits()[(n % 10) as int])
    }
}

/// The text of the score line.
pub open spec fn score_text(score: nat) -> Seq<char> {
    SCORE_LABEL@ + decimal(score)
}

impl GameView {
    /// The glyph shown in cell `(x, y)`: the frog where the frog is, else a
    /// car where a car is, else the background of the row.
    pub open spec fn glyph_at(self, x: int, y: int) -> char {
        if self.frog() == (x, y) {
            FROG_CHAR
        } else if self.cars.contains((x, y)) {
            CAR_CHAR
        } else {
            background(y)
        }
    }

    /// The operations that paint the board, cell by cell and row by row: for
    /// each cell a cursor move and then its glyph.
    pub open spec fn board_ops(self) -> Seq<DrawOpView> {
        Seq::new(
            (2 * WIDTH * HEIGHT) as nat,
            |k: int|
                {
                    let x = (k / 2) % (WIDTH as int);
                    let y = (k / 2) / (WIDTH as int);
                    if k % 2 == 0 {
                        DrawOpView::MoveTo { column: x, row: y }
                    } else {
                        DrawOpView::Glyph(self.glyph_at(x, y))
                    }
                },
        )
    }

    /// The operations that print the score on the line below the board.
    pub open spec fn score_ops(self) -> Seq<DrawOpView> {
        seq![
            DrawOpView::MoveTo { column: 0, row: HEIGHT as int },
            DrawOpView::Text(score_text(self.score)),
        ]
    }

    /// The operations that print the game-over message, in red, on the line
    /// below the score; none while the game is on.
    pub open spec fn banner_ops(self) -> Seq<DrawOpView> {
        if self.game_over {
            seq![
                DrawOpView::MoveTo { column: 0, row: HEIGHT + 1 },
                DrawOpView::ForegroundRed,
                DrawOpView::Text(GAME_OVER_TEXT@),
                DrawOpView::ResetColor,
            ]
        } else {
            Seq::empty()
        }
    }

    /// The operations that paint one frame: the cursor goes to the top left
    /// corner, then comes the whole board, then the score, then, once the
    /// game is over, the message that says so.
    pub open spec fn render(self) -> Seq<DrawOpView> {
        seq![DrawOpView::MoveTo { column: 0, row: 0 }] + self.board_ops() + self.score_ops()
            + self.banner_ops()
    }
}

/// The one-character string of a decimal digit.
fn digit_str(d: u32) -> (s: &'static str)
    requires
        d < 10,
    ensures
        s@ == seq![digits()[d as int]],
{
    proof {
        reveal_strlit("0");
        reveal_strlit("1");
        reveal_strlit("2");
        reveal_strlit("3");
        reveal_strlit("4");
        reveal_strlit("5");
        reveal_strlit("6");
        reveal_strlit("7");
        reveal_strlit("8");
        reveal_strlit("9");
    }
    match d {
        0 => "0",
        1 => "1",
        2 => "2",
        3 => "3",
        4 => "4",
        5 => "5",
        6 => "6",
        7 => "7",
        8 => "8",
        _ => "9",
    }
}

/// Appends the decimal numeral of `n` to `out`.
fn push_decimal(out: &mut String, n: u32)
    ensures
        final(out)@ == old(out)@ + decimal(n as nat),
    decreases n,
{
    if n >= 10 {
        push_decimal(out, n / 10);
    }
    out.append(digit_str(n % 10));
}

/// The score line: the caption followed by the score in decimal.
pub fn score_line(score: u32) -> (line: String)
    ensures
        line@ == score_text(score as nat),
{
    let mut line = String::from_str(SCORE_LABEL);
    push_decimal(&mut line, score);
    line
}

impl Game {
    /// The glyph shown in cell `(x, y)`.
    pub fn glyph_at(&self, x: usize, y: usize) -> (glyph: char)
        ensures
            glyph == self@.glyph_at(x as int, y as int),
    {
        if x == self.frog_x() && y == self.frog_y() {
            return FROG_CHAR;
        }
        let cars = self.cars();
        let mut i: usize = 0;
        while i < cars.len()
            invariant
                i <= cars.len(),
                cells(cars@) == self@.cars,
                self@.frog() != (x as int, y as int),
                forall|j: int| 0 <= j < i ==> self@.cars[j] != (x as int, y as int),
            decreases cars.len() - i,
        {
            if cars[i].0 == x && cars[i].1 == y {
                assert(self@.cars[i as int] == (x as int, y as int));
                return CAR_CHAR;
            }
            i += 1;
        }
        if y < HEIGHT / 2 {
            WATER_CHAR
        } else {
            ROAD_CHAR
        }
    }

    /// Lists the operations that paint the current frame, in the order in
    /// which they are to be carried out.
    pub fn render(&self) -> (ops: Vec<DrawOp>)
        ensures
            views(ops@) == self@.render(),
    {
        let mut ops: Vec<DrawOp> = Vec::new();
        ops.push(DrawOp::MoveTo { column: 0, row: 0 });
        let ghost home = seq![DrawOpView::MoveTo { column: 0, row: 0 }];
        let mut y: usize = 0;
        while y < HEIGHT
            invariant
                y <= HEIGHT,
                views(ops@) == home + self@.board_ops().take(2 * (WIDTH * y)),
            decreases HEIGHT - y,
        {
            let mut x: usize = 0;
            while x < WIDTH
                invariant
                    y < HEIGHT,
                    x <= WIDTH,
                    views(ops@) == home + self@.board_ops().take(2 * (WIDTH * y + x)),
                decreases WIDTH - x,
            {
                let glyph = self.glyph_at(x, y);
                let ghost before = views(ops@);
                ops.push(DrawOp::MoveTo { column: x as u16, row: y as u16 });
                ops.push(DrawOp::Glyph(glyph));
                proof {
                    let k = 2 * (WIDTH * y + x);
                    assert(views(ops@) =~= before.push(self@.board_ops()[k]).push(
                        self@.board_ops()[k + 1],
                    ));
                    assert(views(ops@) =~= home + self@.board_ops().take(k + 2));
                }
                x += 1;
            }
            y += 1;
        }
        let ghost board = views(ops@);
        ops.push(DrawOp::MoveTo { column: 0, row: HEIGHT as u16 });
        ops.push(DrawOp::Text(score_line(self.score())));
        if self.game_over() {
            ops.push(DrawOp::MoveTo { column: 0, row: HEIGHT as u16 + 1 });
            ops.push(DrawOp::ForegroundRed);
            ops.push(DrawOp::Text(String::from_str(GAME_OVER_TEXT)));
            ops.push(DrawOp::ResetColor);
        }
        assert(views(ops@) =~= board + self@.score_ops() + self@.banner_ops());
        ops
    }
}

/// A frame holds one cursor move to the top left corner, two operations for
/// each cell of the board, two for the score and, once the game is over,
/// four for the message.
pub proof fn lemma_render_len(game: GameView)
    ensures
        game.render().len() == 1 + 2 * WIDTH * HEIGHT + 2 + if game.game_over {
            4int
        } else {
            0int
        },
{
}

/// A frame paints every cell of the board where it lies: the operations of
/// cell `(x, y)` move the cursor to column `x` of row `y` and print the
/// glyph of that cell.
pub proof fn lemma_render_paints_cell(game: GameView, x: int, y: int)
    requires
        on_board(x, y),
    ensures
        game.render()[1 + 2 * (WIDTH * y + x)] == (DrawOpView::MoveTo { column: x, row: y }),
        game.render()[2 + 2 * (WIDTH * y + x)] == DrawOpView::Glyph(game.glyph_at(x, y)),
{
}

} // verus!
