use vstd::prelude::*;
use crate::game::GameScene;
use crate::physics::Vec2;
use crate::title::TitleScene;

verus! {

/// The input the host polls once per tick and hands to the simulation:
/// pointer position, whether the button is held, and the cancel key.
#[derive(Clone, Copy, PartialEq, Eq, Structural, Debug)]
pub struct InputState {
    pub mouse_down: bool,
    pub mouse_position: Vec2,
    pub escape_pressed: bool,
}

/// The cues a tick emits, for the host to play sounds on: a flap, a score,
/// a pipe hit, a ground hit.
#[derive(Clone, Copy, PartialEq, Eq, Structural, Debug)]
pub struct TickEvents {
    pub flap: bool,
    pub scored: bool,
    pub pipe_hit: bool,
    pub ground_hit: bool,
}

impl TickEvents {
    /// A tick that emitted no cue.
    pub open spec fn silent_spec() -> TickEvents {
        TickEvents { flap: false, scored: false, pipe_hit: false, ground_hit: false }
    }

    pub fn silent() -> (e: TickEvents)
        ensures
            e == TickEvents::silent_spec(),
    {
        TickEvents { flap: false, scored: false, pipe_hit: false, ground_hit: false }
    }
}

/// One top-level interactive mode, driven from the top of the scene stack.
pub enum Scene {
    Title(TitleScene),
    Game(GameScene),
}

impl Scene {
    pub open spec fn wf(self) -> bool {
        match self {
            Scene::Title(t) => t.wf(),
            Scene::Game(g) => g@.wf(),
        }
    }
}

/// What a scene's tick asks of the scene stack: stay as is, push a new
/// scene on top, or pop the current one.
pub enum Transition {
    Stay,
    Push(Scene),
    Pop,
}

} // verus!
