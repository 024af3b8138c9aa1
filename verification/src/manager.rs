use vstd::prelude::*;
use crate::config::Config;
use crate::game::GameView;
use crate::scene::{InputState, Scene, TickEvents, Transition};
use crate::title::TitleScene;
use crate::units::{in_range, COORD_LIMIT};

verus! {

/// What one tick of the scene stack reports to the host: whether the stack
/// has emptied (the quit signal), and the sound cues of the tick.
#[derive(Clone, Copy, PartialEq, Eq, Structural, Debug)]
pub struct TickOutcome {
    pub quit: bool,
    pub events: TickEvents,
}

/// How a tick transforms the stack when a title screen `t` is on top: the
/// prefix is untouched; the button going down on the start button
/// (edge-triggered, never while held) replaces the top with the ticked
/// title and pushes a fresh game above it; the cancel key pops the title;
/// otherwise only the title is ticked.  A title tick emits no sound cue.
pub open spec fn title_outcome(
    pre: Seq<Scene>,
    post: Seq<Scene>,
    t: TitleScene,
    input: InputState,
    o: TickOutcome,
) -> bool {
    let n = pre.len() as int;
    &&& !o.quit
    &&& o.events == TickEvents::silent_spec()
    &&& (forall|j: int| 0 <= j < n - 1 ==> post[j] == pre[j])
    &&& if t.start_pressed_spec(input) {
        &&& post.len() == n + 1
        &&& post[n - 1] matches Scene::Title(t2) && t2 == t.step_scene_spec(input)
        &&& post[n] matches Scene::Game(g) && g@ == GameView::fresh(
            t.cfg,
            t.button.rect.width,
            t.button.rect.height,
        )
    } else if input.escape_pressed {
        post.len() == n - 1
    } else {
        &&& post.len() == n
        &&& post[n - 1] matches Scene::Title(t2) && t2 == t.step_scene_spec(input)
    }
}

/// How a tick transforms the stack when a game with view `gv` is on top,
/// with spawn offset `y`: the prefix is untouched; the game's own tick
/// decides between staying (its state replaced by the ticked one) and
/// popping; its sound cues are passed through.
pub open spec fn game_outcome(
    pre: Seq<Scene>,
    post: Seq<Scene>,
    gv: GameView,
    input: InputState,
    y: i64,
    o: TickOutcome,
) -> bool {
    let n = pre.len() as int;
    let stepped = gv.step_spec(input, y);
    &&& !o.quit
    &&& o.events == stepped.2
    &&& (forall|j: int| 0 <= j < n - 1 ==> post[j] == pre[j])
    &&& if stepped.1 == Transition::Pop {
        post.len() == n - 1
    } else {
        &&& post.len() == n
        &&& post[n - 1] matches Scene::Game(g2) && g2@ == stepped.0
    }
}

/// The scene stack: the top scene is driven once per tick; pushes and pops
/// take effect between ticks; an empty stack tells the host to quit.
pub struct SceneManager {
    pub scenes: Vec<Scene>,
}

impl SceneManager {
    pub open spec fn wf(self) -> bool {
        forall|i: int| 0 <= i < self.scenes@.len() ==> (#[trigger] self.scenes@[i]).wf()
    }

    /// A fresh stack holding the title screen.
    pub fn new(cfg: Config, button_width: i64, button_height: i64) -> (m: SceneManager)
        requires
            cfg.wf(),
            0 <= button_width <= COORD_LIMIT,
            0 <= button_height <= COORD_LIMIT,
        ensures
            m.scenes@.len() == 1,
            m.scenes@[0] matches Scene::Title(t) && t == TitleScene::new_spec(
                cfg,
                button_width,
                button_height,
            ),
            m.wf(),
    {
        let title = TitleScene::new(cfg, button_width, button_height);
        let mut scenes: Vec<Scene> = Vec::new();
        scenes.push(Scene::Title(title));
        SceneManager { scenes }
    }

    /// Drive the top scene one deterministic tick and apply its transition.
    /// An empty stack only reports the quit signal.  `spawn_y` is the
    /// vertical offset a pipe spawned this tick would use.
    pub fn step(&mut self, input: &InputState, spawn_y: i64) -> (o: TickOutcome)
        requires
            old(self).wf(),
            in_range(spawn_y),
        ensures
            final(self).wf(),
            old(self).scenes@.len() == 0 ==> o.quit && *final(self) == *old(self) && o.events
                == TickEvents::silent_spec(),
            old(self).scenes@.len() > 0 ==> match old(self).scenes@[old(self).scenes@.len() - 1] {
                Scene::Title(t) => title_outcome(
                    old(self).scenes@,
                    final(self).scenes@,
                    t,
                    *input,
                    o,
                ),
                Scene::Game(g) => game_outcome(
                    old(self).scenes@,
                    final(self).scenes@,
                    g@,
                    *input,
                    spawn_y,
                    o,
                ),
            },
    {
        if self.scenes.len() == 0 {
            return TickOutcome { quit: true, events: TickEvents::silent() };
        }
        let idx = self.scenes.len() - 1;
        let scene = &mut self.scenes[idx];
        let (tr, events): (Transition, TickEvents) = match scene {
            Scene::Title(t) => (t.update(input), TickEvents::silent()),
            Scene::Game(g) => g.step(input, spawn_y),
        };
        match tr {
            Transition::Stay => {},
            Transition::Push(s) => {
                self.scenes.push(s);
            },
            Transition::Pop => {
                let _ = self.scenes.pop();
            },
        }
        TickOutcome { quit: false, events }
    }

    /// Drive the top scene one tick, drawing a game's spawn offset from its
    /// configured range; everything else is the deterministic `step`.
    #[verifier::rlimit(60)]
    pub fn update(&mut self, input: &InputState) -> (o: TickOutcome)
        requires
            old(self).wf(),
        ensures
            final(self).wf(),
            old(self).scenes@.len() == 0 ==> o.quit && *final(self) == *old(self) && o.events
                == TickEvents::silent_spec(),
            old(self).scenes@.len() > 0 ==> match old(self).scenes@[old(self).scenes@.len() - 1] {
                Scene::Title(t) => title_outcome(
                    old(self).scenes@,
                    final(self).scenes@,
                    t,
                    *input,
                    o,
                ),
                Scene::Game(g) => exists|y: i64|
                    g@.cfg.spawn_offset_min <= y < g@.cfg.spawn_offset_max && #[trigger] game_outcome(
                        old(self).scenes@,
                        final(self).scenes@,
                        g@,
                        *input,
                        y,
                        o,
                    ),
            },
    {
        if self.scenes.len() == 0 {
            return TickOutcome { quit: true, events: TickEvents::silent() };
        }
        let ghost pre = self.scenes@;
        let idx = self.scenes.len() - 1;
        let scene = &mut self.scenes[idx];
        let (tr, events): (Transition, TickEvents) = match scene {
            Scene::Title(t) => (t.update(input), TickEvents::silent()),
            Scene::Game(g) => g.update(input),
        };
        let ghost mid = self.scenes@;
        match tr {
            Transition::Stay => {},
            Transition::Push(s) => {
                self.scenes.push(s);
            },
            Transition::Pop => {
                let _ = self.scenes.pop();
            },
        }
        let o = TickOutcome { quit: false, events };
        proof {
            let n = pre.len() as int;
            if pre[n - 1] is Game {
                let gv = pre[n - 1]->Game_0@;
                let y = choose|y: i64|
                    gv.cfg.spawn_offset_min <= y < gv.cfg.spawn_offset_max && (mid[n - 1] matches
                        Scene::Game(g2)
                        && g2@ == #[trigger] gv.step_spec(*input, y).0
                        && tr == gv.step_spec(*input, y).1
                        && events == gv.step_spec(*input, y).2);
                assert(game_outcome(pre, self.scenes@, gv, *input, y, o));
            }
        }
        o
    }
}

} // verus!
