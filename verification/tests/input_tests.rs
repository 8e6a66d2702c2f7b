use roguelike::color::Color;
use roguelike::input::{handle_keys, Action, Key, KeyCode};
use roguelike::map::Game;
use roguelike::object::RogueObject;

fn press(code: KeyCode, alt: bool, player: &mut RogueObject) -> Action {
    let game = Game::new();
    handle_keys(Key { code, alt }, &game, player)
}

fn player() -> RogueObject {
    RogueObject::new(20, 12, '@', Color::white())
}

#[test]
fn arrow_up_moves_up() {
    let mut p = player();
    assert_eq!(press(KeyCode::Up, false, &mut p), Action::Continue);
    assert_eq!((p.x, p.y), (20, 11));
}

#[test]
fn arrow_down_moves_down() {
    let mut p = player();
    assert_eq!(press(KeyCode::Down, false, &mut p), Action::Continue);
    assert_eq!((p.x, p.y), (20, 13));
}

#[test]
fn arrow_left_moves_left() {
    let mut p = player();
    assert_eq!(press(KeyCode::Left, false, &mut p), Action::Continue);
    assert_eq!((p.x, p.y), (19, 12));
}

#[test]
fn arrow_right_moves_right() {
    let mut p = player();
    assert_eq!(press(KeyCode::Right, false, &mut p), Action::Continue);
    assert_eq!((p.x, p.y), (21, 12));
}

#[test]
fn arrow_with_alt_still_moves() {
    let mut p = player();
    assert_eq!(press(KeyCode::Up, true, &mut p), Action::Continue);
    assert_eq!((p.x, p.y), (20, 11));
}

#[test]
fn arrow_into_a_wall_goes_on_without_moving() {
    let mut p = RogueObject::new(13, 12, '@', Color::white());
    assert_eq!(press(KeyCode::Left, false, &mut p), Action::Continue);
    assert_eq!((p.x, p.y), (13, 12));
}

#[test]
fn alt_enter_toggles_fullscreen() {
    let mut p = player();
    assert_eq!(press(KeyCode::Enter, true, &mut p), Action::ToggleFullscreen);
    assert_eq!(p, player());
}

#[test]
fn plain_enter_does_nothing() {
    let mut p = player();
    assert_eq!(press(KeyCode::Enter, false, &mut p), Action::Continue);
    assert_eq!(p, player());
}

#[test]
fn escape_exits() {
    let mut p = player();
    assert_eq!(press(KeyCode::Escape, false, &mut p), Action::Exit);
    assert_eq!(p, player());
    assert_eq!(press(KeyCode::Escape, true, &mut p), Action::Exit);
    assert_eq!(p, player());
}

#[test]
fn other_keys_do_nothing() {
    let mut p = player();
    assert_eq!(press(KeyCode::Other, false, &mut p), Action::Continue);
    assert_eq!(press(KeyCode::Other, true, &mut p), Action::Continue);
    assert_eq!(p, player());
}
