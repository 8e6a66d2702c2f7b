use vstd::prelude::*;
use crate::map::Game;
use crate::object::RogueObject;

verus! {

/// The keys that the game tells apart.
#[derive(Clone, Copy, Debug, PartialEq, Eq, Structural)]
pub enum KeyCode {
    Up,
    Down,
    Left,
    Right,
    Enter,
    Escape,
    /// Any other key.
    Other,
}

/// One key press: the key and whether Alt was held with it.
#[derive(Clone, Copy, Debug, PartialEq, Eq, Structural)]
pub struct Key {
    pub code: KeyCode,
    pub alt: bool,
}

/// What the caller has to do once a key has been handled.
#[derive(Clone, Copy, Debug, PartialEq, Eq, Structural)]
pub enum Action {
    /// Nothing; the game goes on.
    Continue,
    /// Switch the display between windowed and fullscreen.
    ToggleFullscreen,
    /// Leave the game.
    Exit,
}

/// The step that a key asks of the player: one cell in the direction of an
/// arrow key, with `y` growing downwards. Other keys ask for none.
pub open spec fn key_step(key: Key) -> Option<(int, int)> {
    match key.code {
        KeyCode::Up => Some((0, -1)),
        KeyCode::Down => Some((0, 1)),
        KeyCode::Left => Some((-1, 0)),
        KeyCode::Right => Some((1, 0)),
        _ => None,
    }
}

/// What a key asks of the caller: Escape leaves the game, Enter with Alt
/// toggles fullscreen, every other key goes on.
pub open spec fn key_action(key: Key) -> Action {
    match key.code {
        KeyCode::Escape => Action::Exit,
        KeyCode::Enter if key.alt => Action::ToggleFullscreen,
        _ => Action::Continue,
    }
}

/// The player after `key`: moved by the key's step as far as `game` lets it,
/// untouched by a key that asks for no step.
pub open spec fn player_after_key(player: RogueObject, key: Key, game: Game) -> RogueObject {
    match key_step(key) {
        Some((dx, dy)) => player.moved_by(dx, dy, game),
        None => player,
    }
}

/// Applies one key press: arrow keys move the player, and the result says
/// what is left for the caller to do.
pub fn handle_keys(key: Key, game: &Game, player: &mut RogueObject) -> (action: Action)
    ensures
        action == key_action(key),
        *final(player) == player_after_key(*old(player), key, *game),
{
    match key {
        Key { code: KeyCode::Up, .. } => player.move_by(0, -1, game),
        Key { code: KeyCode::Down, .. } => player.move_by(0, 1, game),
        Key { code: KeyCode::Left, .. } => player.move_by(-1, 0, game),
        Key { code: KeyCode::Right, .. } => player.move_by(1, 0, game),
        Key { code: KeyCode::Enter, alt: true } => {
            return Action::ToggleFullscreen;
        },
        Key { code: KeyCode::Escape, .. } => {
            return Action::Exit;
        },
        _ => {},
    }
    Action::Continue
}

} // verus!
