use vstd::prelude::*;
use crate::button::Button;
use crate::config::{Config, BUTTON_CENTER_Y, MEDAL_ONE_SCORE, MEDAL_TWO_SCORE};
use crate::physics::Vec2;
use crate::units::{COORD_LIMIT};

verus! {

/// Which medal (if any) the game-over board shows for a score.
pub open spec fn medal_tier_spec(score: i64) -> int {
    if score >= MEDAL_TWO_SCORE {
        2
    } else if score >= MEDAL_ONE_SCORE {
        1
    } else {
        0
    }
}

/// The game-over board: the final and best score it shows, and the restart
/// button.
#[derive(Clone, Copy, PartialEq, Eq, Structural, Debug)]
pub struct Scoreboard {
    pub cfg: Config,
    pub score: i64,
    pub highscore: i64,
    pub button: Button,
}

impl Scoreboard {
    pub open spec fn wf(self) -> bool {
        &&& self.cfg.wf()
        &&& 0 <= self.score <= COORD_LIMIT
        &&& 0 <= self.highscore <= COORD_LIMIT
        &&& self.button.wf()
    }

    /// The value `new` returns: zero scores, the restart button centered
    /// horizontally at the fixed button height.
    pub open spec fn new_spec(cfg: Config, button_width: i64, button_height: i64) -> Scoreboard {
        Scoreboard {
            cfg,
            score: 0,
            highscore: 0,
            button: Button::new_spec(
                Vec2 { x: (cfg.screen_width as int / 2) as i64, y: BUTTON_CENTER_Y },
                button_width,
                button_height,
            ),
        }
    }

    pub fn new(cfg: Config, button_width: i64, button_height: i64) -> (s: Scoreboard)
        requires
            cfg.wf(),
            0 <= button_width <= COORD_LIMIT,
            0 <= button_height <= COORD_LIMIT,
        ensures
            s == Scoreboard::new_spec(cfg, button_width, button_height),
            s.wf(),
    {
        proof {
            vstd::arithmetic::div_mod::lemma_div_pos_is_pos(cfg.screen_width as int, 2);
            vstd::arithmetic::div_mod::lemma_div_nonincreasing(cfg.screen_width as int, 2);
        }
        Scoreboard {
            cfg,
            score: 0,
            highscore: 0,
            button: Button::new(
                Vec2::new(cfg.screen_width / 2, BUTTON_CENTER_Y),
                button_width,
                button_height,
            ),
        }
    }

    /// Record the run's final score and the best score to show.
    pub fn set_score(&mut self, score: i64, highscore: i64)
        requires
            old(self).wf(),
            0 <= score <= COORD_LIMIT,
            0 <= highscore <= COORD_LIMIT,
        ensures
            *final(self) == (Scoreboard { score, highscore, ..*old(self) }),
            final(self).wf(),
    {
        self.score = score;
        self.highscore = highscore;
    }

    /// Which medal the board shows: none below the first threshold, the
    /// first medal from there, the second from the higher threshold on.
    pub fn medal_tier(&self) -> (t: i64)
        ensures
            t == medal_tier_spec(self.score),
    {
        if self.score >= MEDAL_TWO_SCORE {
            2
        } else if self.score >= MEDAL_ONE_SCORE {
            1
        } else {
            0
        }
    }
}

} // verus!
