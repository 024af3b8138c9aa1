use vstd::prelude::*;
use crate::background::Background;
use crate::button::Button;
use crate::config::{Config, BUTTON_CENTER_Y};
use crate::game::{GameScene, GameView};
use crate::ground::Ground;
use crate::physics::Vec2;
use crate::scene::{InputState, Scene, Transition};
use crate::units::COORD_LIMIT;

verus! {

/// The title screen: the scrolling field and the start button.
pub struct TitleScene {
    pub cfg: Config,
    pub background: Background,
    pub ground: Ground,
    pub button: Button,
    /// Latches the held button, so the start click is edge-triggered: the
    /// game launches only on the down-transition, never while held.
    pub is_mouse_down: bool,
}

impl TitleScene {
    pub open spec fn wf(self) -> bool {
        &&& self.cfg.wf()
        &&& self.background.wf()
        &&& self.background.cfg == self.cfg
        &&& self.ground.wf()
        &&& self.ground.cfg == self.cfg
        &&& self.button.wf()
        &&& 0 <= self.button.rect.width
        &&& 0 <= self.button.rect.height
    }

    /// The value `new` returns: a fresh field, the start button centered
    /// horizontally at the fixed button height.
    pub open spec fn new_spec(cfg: Config, button_width: i64, button_height: i64) -> TitleScene {
        TitleScene {
            cfg,
            background: Background::new_spec(cfg),
            ground: Ground::new_spec(cfg),
            button: Button::new_spec(
                Vec2 { x: (cfg.screen_width as int / 2) as i64, y: BUTTON_CENTER_Y },
                button_width,
                button_height,
            ),
            is_mouse_down: true,
        }
    }

    /// The scene after one tick: the field scrolled, the button latch
    /// following the held state.
    pub open spec fn step_scene_spec(self, input: InputState) -> TitleScene {
        TitleScene {
            background: self.background.update_spec(),
            ground: self.ground.update_spec(),
            is_mouse_down: input.mouse_down,
            ..self
        }
    }

    /// Whether this tick's input starts the game: the button goes down on
    /// this very tick (it was up before), with the pointer on the start
    /// button.
    pub open spec fn start_pressed_spec(self, input: InputState) -> bool {
        input.mouse_down && !self.is_mouse_down && self.button.contains_spec(input.mouse_position)
    }

    /// A fresh title screen.  The start button's sprite size comes from the
    /// host, which knows the texture.
    pub fn new(cfg: Config, button_width: i64, button_height: i64) -> (t: TitleScene)
        requires
            cfg.wf(),
            0 <= button_width <= COORD_LIMIT,
            0 <= button_height <= COORD_LIMIT,
        ensures
            t == TitleScene::new_spec(cfg, button_width, button_height),
            t.wf(),
    {
        proof {
            vstd::arithmetic::div_mod::lemma_div_pos_is_pos(cfg.screen_width as int, 2);
            vstd::arithmetic::div_mod::lemma_div_nonincreasing(cfg.screen_width as int, 2);
        }
        TitleScene {
            cfg,
            background: Background::new(cfg),
            ground: Ground::new(cfg),
            button: Button::new(
                Vec2::new(cfg.screen_width / 2, BUTTON_CENTER_Y),
                button_width,
                button_height,
            ),
            is_mouse_down: true,
        }
    }

    /// One tick of the title screen: the field scrolls; the button going
    /// down over the start button (edge-triggered: only on the
    /// down-transition, never while held) pushes a fresh game, whose
    /// restart button reuses this button's sprite size; otherwise the
    /// cancel key pops the scene.
    pub fn update(&mut self, input: &InputState) -> (tr: Transition)
        requires
            old(self).wf(),
        ensures
            *final(self) == old(self).step_scene_spec(*input),
            final(self).wf(),
            ({
                let pressed = old(self).start_pressed_spec(*input);
                &&& pressed ==> (tr matches Transition::Push(s) && (s matches Scene::Game(g)
                    && g@ == GameView::fresh(
                    old(self).cfg,
                    old(self).button.rect.width,
                    old(self).button.rect.height,
                )))
                &&& !pressed && input.escape_pressed ==> tr == Transition::Pop
                &&& !pressed && !input.escape_pressed ==> tr == Transition::Stay
            }),
    {
        self.background.update();
        self.ground.update();
        let pressed = input.mouse_down && !self.is_mouse_down && self.button.contains(
            input.mouse_position,
        );
        self.is_mouse_down = input.mouse_down;
        if pressed {
            let game = GameScene::new(self.cfg, self.button.rect.width, self.button.rect.height);
            Transition::Push(Scene::Game(game))
        } else if input.escape_pressed {
            Transition::Pop
        } else {
            Transition::Stay
        }
    }
}

} // verus!
