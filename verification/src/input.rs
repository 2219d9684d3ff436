//! Keyboard sampling: what a key press asks the game to do.

use vstd::prelude::*;
use crate::board::Direction;

verus! {

/// The key that quits the game.
pub const QUIT_KEY: char = 'q';

/// A key press, reduced to what the game tells apart.
#[derive(Clone, Copy, Debug, PartialEq, Eq, Structural)]
pub enum Key {
    /// A printable character.
    Char(char),
    Up,
    Down,
    Left,
    Right,
    /// Any other key.
    Other,
}

/// What the player asked for during one frame.
#[derive(Clone, Copy, Debug, PartialEq, Eq, Structural)]
pub enum Intent {
    /// Nothing was asked for.
    Idle,
    /// Leave the game.
    Quit,
    /// Hop one cell.
    Move(Direction),
}

/// The intent that a sampled key stands for; `None` is a frame in which no
/// key press was pending.
pub open spec fn intent_of(sample: Option<Key>) -> Intent {
    match sample {
        Some(Key::Char(c)) => if c == QUIT_KEY {
            Intent::Quit
        } else {
            Intent::Idle
        },
        Some(Key::Up) => Intent::Move(Direction::Up),
        Some(Key::Down) => Intent::Move(Direction::Down),
        Some(Key::Left) => Intent::Move(Direction::Left),
        Some(Key::Right) => Intent::Move(Direction::Right),
        Some(Key::Other) => Intent::Idle,
        None => Intent::Idle,
    }
}

/// Maps the key sampled in a frame to the player's intent: the quit key
/// quits, an arrow key hops, and anything else, like no key at all, asks for
/// nothing.
pub fn interpret(sample: Option<Key>) -> (intent: Intent)
    ensures
        intent == intent_of(sample),
        sample is None ==> intent == Intent::Idle,
{
    match sample {
        Some(Key::Char(c)) => {
            if c == QUIT_KEY {
                Intent::Quit
            } else {
                Intent::Idle
            }
        },
        Some(Key::Up) => Intent::Move(Direction::Up),
        Some(Key::Down) => Intent::Move(Direction::Down),
        Some(Key::Left) => Intent::Move(Direction::Left),
        Some(Key::Right) => Intent::Move(Direction::Right),
        Some(Key::Other) => Intent::Idle,
        None => Intent::Idle,
    }
}

} // verus!
