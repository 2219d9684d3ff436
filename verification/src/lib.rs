//! A grid-crossing arcade game: a frog hops across a board on which cars
//! drive by, and scores each time it reaches the far edge.
//!
//! The crate holds the rules of the game and leaves the terminal to its
//! caller. A caller samples the keyboard, hands the key to
//! [`input::interpret`], plays one [`game::Game::tick`] with the intent it
//! gets back, carries out the operations that [`game::Game::render`] lists,
//! and rests for as long as [`driver::frame_rest`] says.
//!
//! Every operation is specified over [`model::GameView`], the game as a
//! mathematical value, and proved to do what the model says.

pub mod board;
pub mod driver;
pub mod game;
pub mod input;
pub mod model;
pub mod play;
pub mod render;
