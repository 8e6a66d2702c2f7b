use vstd::prelude::*;
use crate::color::Color;
use crate::console::DrawCommand;
use crate::input::{handle_keys, key_action, player_after_key, Action, Key};
use crate::map::Game;
use crate::object::RogueObject;
use crate::render::{frame_commands, render_all};

verus! {

/// Width of the window, in character cells.
pub const SCREEN_WIDTH: i32 = 40;

/// Height of the window, in character cells.
pub const SCREEN_HEIGHT: i32 = 25;

/// Upper limit of frames per second.
pub const LIMIT_FPS: i32 = 20;

/// Where the game loop stands.
#[derive(Clone, Copy, Debug, PartialEq, Eq, Structural)]
pub enum LoopState {
    Running,
    Exiting,
}

/// What the display reports to the game loop.
#[derive(Clone, Copy, Debug, PartialEq, Eq, Structural)]
pub enum Event {
    /// The user asked for the window to be closed.
    WindowClosed,
    /// A key was pressed.
    KeyPress(Key),
}

/// One session of the game: the map, the player, the other objects and the
/// state of the loop.
pub struct Session {
    pub game: Game,
    pub player: RogueObject,
    pub npcs: Vec<RogueObject>,
    pub state: LoopState,
}

impl Session {
    /// All objects in drawing order: the player first, then the others.
    pub open spec fn objects(self) -> Seq<RogueObject> {
        seq![self.player] + self.npcs@
    }

    /// The session that follows `self` on `event`.
    ///
    /// A session that is exiting stays as it is. A running one starts to
    /// exit when the window is closed or the key asks for it; any other key
    /// is applied to the player.
    pub open spec fn after(self, event: Event) -> Session {
        match (self.state, event) {
            (LoopState::Exiting, _) => self,
            (LoopState::Running, Event::WindowClosed) => Session {
                state: LoopState::Exiting,
                ..self
            },
            (LoopState::Running, Event::KeyPress(key)) => Session {
                player: player_after_key(self.player, key, self.game),
                state: if key_action(key) == Action::Exit {
                    LoopState::Exiting
                } else {
                    LoopState::Running
                },
                ..self
            },
        }
    }

    /// Whether every object stands on a cell of the map that is open to
    /// movement.
    pub open spec fn objects_on_open_cells(self) -> bool {
        forall|i: int|
            0 <= i < self.objects().len() ==> !self.game.blocked_at(
                (#[trigger] self.objects()[i]).x as int,
                self.objects()[i].y as int,
            )
    }

    /// What is left for the caller to do after `event`.
    pub open spec fn action_on(self, event: Event) -> Action {
        match (self.state, event) {
            (LoopState::Running, Event::KeyPress(key)) => key_action(key),
            _ => Action::Exit,
        }
    }

    /// A fresh session: the fixed map, a white `@` for the player in the
    /// middle of the window at `(20, 12)`, a yellow `@` one cell down and to
    /// the right of it, and the loop running.
    pub fn new() -> (session: Session)
        ensures
            session.game.is_fixed_map(),
            session.player == (RogueObject { x: 20, y: 12, char: '@', color: Color::white() }),
            session.npcs@ == seq![
                RogueObject { x: 21, y: 13, char: '@', color: Color::yellow() },
            ],
            session.state == LoopState::Running,
            session.objects_on_open_cells(),
    {
        let player = RogueObject::new(SCREEN_WIDTH / 2, SCREEN_HEIGHT / 2, '@', Color::white());
        let npc = RogueObject::new(
            SCREEN_WIDTH / 2 + 1,
            SCREEN_HEIGHT / 2 + 1,
            '@',
            Color::yellow(),
        );
        Session { game: Game::new(), player, npcs: vec![npc], state: LoopState::Running }
    }

    /// Takes one event from the display and says what the caller has to do.
    pub fn step(&mut self, event: Event) -> (action: Action)
        ensures
            *final(self) == old(self).after(event),
            action == old(self).action_on(event),
            final(self).state == LoopState::Running <==> action != Action::Exit,
            old(self).objects_on_open_cells() ==> final(self).objects_on_open_cells(),
    {
        let action = match self.state {
            LoopState::Exiting => Action::Exit,
            LoopState::Running => match event {
                Event::WindowClosed => {
                    self.state = LoopState::Exiting;
                    Action::Exit
                },
                Event::KeyPress(key) => {
                    let action = handle_keys(key, &self.game, &mut self.player);
                    if action == Action::Exit {
                        self.state = LoopState::Exiting;
                    }
                    action
                },
            },
        };
        proof {
            if old(self).objects_on_open_cells() {
                lemma_objects_stay_on_open_cells(*old(self), event);
            }
        }
        action
    }

    /// Draws the frame of this session onto `con`.
    pub fn render(&self, con: &mut Vec<DrawCommand>)
        ensures
            final(con)@ == old(con)@ + frame_commands(self.game, self.objects()),
    {
        let mut objects: Vec<RogueObject> = Vec::new();
        objects.push(self.player);
        for i in 0..self.npcs.len()
            invariant
                objects@ == seq![self.player] + self.npcs@.take(i as int),
        {
            objects.push(self.npcs[i]);
        }
        proof {
            assert(self.npcs@.take(self.npcs@.len() as int) == self.npcs@);
        }
        render_all(con, &self.game, objects.as_slice());
    }
}

/// No event takes an object onto a blocked cell or off the map: if every
/// object stands on an open cell, the same holds after the event.
pub proof fn lemma_objects_stay_on_open_cells(session: Session, event: Event)
    requires
        session.objects_on_open_cells(),
    ensures
        session.after(event).objects_on_open_cells(),
{
    let next = session.after(event);
    assert forall|i: int| 0 <= i < next.objects().len() implies !next.game.blocked_at(
        (#[trigger] next.objects()[i]).x as int,
        next.objects()[i].y as int,
    ) by {
        let before = session.objects()[i];
        assert(!session.game.blocked_at(before.x as int, before.y as int));
    }
}

} // verus!
