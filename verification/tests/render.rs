use frogger::board::{Direction, CAR_CHAR, FROG_CHAR, HEIGHT, ROAD_CHAR, WATER_CHAR, WIDTH};
use frogger::game::Game;
use frogger::render::{score_line, DrawOp, GAME_OVER_TEXT, SCORE_LABEL};

fn run_over(game: &mut Game) {
    for _ in 0..9 {
        game.move_frog(Direction::Left);
    }
    for _ in 0..7 {
        game.move_frog(Direction::Up);
    }
    game.update();
    assert!(game.game_over());
}

#[test]
fn glyphs_are_the_usual_ones() {
    assert_eq!(FROG_CHAR, '@');
    assert_eq!(CAR_CHAR, '>');
    assert_eq!(ROAD_CHAR, '-');
    assert_eq!(WATER_CHAR, '~');
}

#[test]
fn texts_are_the_usual_ones() {
    assert_eq!(SCORE_LABEL, "Score: ");
    assert_eq!(GAME_OVER_TEXT, "GAME OVER! Press 'q' to quit.");
}

#[test]
fn glyph_of_a_fresh_board() {
    let game = Game::new();
    for y in 0..HEIGHT {
        for x in 0..WIDTH {
            let expected = match (x, y) {
                (10, 9) => '@',
                (0, 2) | (5, 4) | (10, 6) => '>',
                (_, 0..=4) => '~',
                _ => '-',
            };
            assert_eq!(game.glyph_at(x, y), expected, "cell ({x}, {y})");
        }
    }
}

#[test]
fn glyph_outside_the_board_is_background() {
    let game = Game::new();
    assert_eq!(game.glyph_at(25, 3), '~');
    assert_eq!(game.glyph_at(25, 12), '-');
}

#[test]
fn frog_is_drawn_over_a_car() {
    let mut game = Game::new();
    run_over(&mut game);
    assert_eq!(game.cars()[0], (1, 2));
    assert_eq!((game.frog_x(), game.frog_y()), (1, 2));
    assert_eq!(game.glyph_at(1, 2), '@');
}

#[test]
fn score_line_is_label_and_decimal_score() {
    assert_eq!(score_line(0), "Score: 0");
    assert_eq!(score_line(7), "Score: 7");
    assert_eq!(score_line(10), "Score: 10");
    assert_eq!(score_line(42), "Score: 42");
    assert_eq!(score_line(100), "Score: 100");
    assert_eq!(score_line(90_210), "Score: 90210");
    assert_eq!(score_line(u32::MAX), "Score: 4294967295");
}

#[test]
fn score_line_agrees_with_std_formatting() {
    let mut score: u32 = 1;
    for _ in 0..40 {
        assert_eq!(score_line(score), format!("Score: {}", score));
        assert_eq!(score_line(score - 1), format!("Score: {}", score - 1));
        score = score.wrapping_mul(7).wrapping_add(3);
    }
}

#[test]
fn frame_of_a_fresh_game() {
    let game = Game::new();
    let ops = game.render();
    assert_eq!(ops.len(), 1 + 2 * WIDTH * HEIGHT + 2);
    assert_eq!(ops[0], DrawOp::MoveTo { column: 0, row: 0 });
    for y in 0..HEIGHT {
        for x in 0..WIDTH {
            let at = 1 + 2 * (y * WIDTH + x);
            assert_eq!(ops[at], DrawOp::MoveTo { column: x as u16, row: y as u16 });
            assert_eq!(ops[at + 1], DrawOp::Glyph(game.glyph_at(x, y)));
        }
    }
    assert_eq!(ops[1 + 2 * (9 * WIDTH + 10) + 1], DrawOp::Glyph('@'));
    assert_eq!(ops[1 + 2 * (4 * WIDTH + 5) + 1], DrawOp::Glyph('>'));
    assert_eq!(ops[2], DrawOp::Glyph('~'));
    assert_eq!(ops[1 + 2 * (5 * WIDTH) + 1], DrawOp::Glyph('-'));
    assert_eq!(ops[401], DrawOp::MoveTo { column: 0, row: 10 });
    assert_eq!(ops[402], DrawOp::Text(String::from("Score: 0")));
}

#[test]
fn frame_shows_the_score() {
    let mut game = Game::new();
    for _ in 0..3 {
        for _ in 0..9 {
            game.move_frog(Direction::Up);
        }
        game.update();
    }
    let ops = game.render();
    assert_eq!(ops.len(), 403);
    assert_eq!(ops[402], DrawOp::Text(String::from("Score: 3")));
}

#[test]
fn frame_of_a_lost_game_ends_with_the_banner() {
    let mut game = Game::new();
    run_over(&mut game);
    let ops = game.render();
    assert_eq!(ops.len(), 1 + 2 * WIDTH * HEIGHT + 2 + 4);
    assert_eq!(ops[401], DrawOp::MoveTo { column: 0, row: 10 });
    assert_eq!(ops[402], DrawOp::Text(String::from("Score: 0")));
    assert_eq!(ops[403], DrawOp::MoveTo { column: 0, row: 11 });
    assert_eq!(ops[404], DrawOp::ForegroundRed);
    assert_eq!(ops[405], DrawOp::Text(String::from("GAME OVER! Press 'q' to quit.")));
    assert_eq!(ops[406], DrawOp::ResetColor);
    assert_eq!(ops[1 + 2 * (2 * WIDTH + 1) + 1], DrawOp::Glyph('@'));
}

#[test]
fn frame_follows_the_cars() {
    let mut game = Game::new();
    game.update();
    let ops = game.render();
    assert_eq!(ops[1 + 2 * (2 * WIDTH) + 1], DrawOp::Glyph('~'));
    assert_eq!(ops[1 + 2 * (2 * WIDTH + 1) + 1], DrawOp::Glyph('>'));
    assert_eq!(ops[1 + 2 * (6 * WIDTH + 11) + 1], DrawOp::Glyph('>'));
}
