use frogger::board::Direction;
use frogger::input::{interpret, Intent, Key, QUIT_KEY};

#[test]
fn no_pending_key_asks_for_nothing() {
    assert_eq!(interpret(None), Intent::Idle);
}

#[test]
fn quit_key_quits() {
    assert_eq!(QUIT_KEY, 'q');
    assert_eq!(interpret(Some(Key::Char('q'))), Intent::Quit);
}

#[test]
fn arrow_keys_hop() {
    assert_eq!(interpret(Some(Key::Up)), Intent::Move(Direction::Up));
    assert_eq!(interpret(Some(Key::Down)), Intent::Move(Direction::Down));
    assert_eq!(interpret(Some(Key::Left)), Intent::Move(Direction::Left));
    assert_eq!(interpret(Some(Key::Right)), Intent::Move(Direction::Right));
}

#[test]
fn other_keys_ask_for_nothing() {
    assert_eq!(interpret(Some(Key::Other)), Intent::Idle);
    assert_eq!(interpret(Some(Key::Char('Q'))), Intent::Idle);
    assert_eq!(interpret(Some(Key::Char('x'))), Intent::Idle);
    assert_eq!(interpret(Some(Key::Char(' '))), Intent::Idle);
}
