use vstd::prelude::*;
use vstd::arithmetic::div_mod::{lemma_div_is_ordered, lemma_div_multiples_vanish};
use crate::config::{Config, CITYSCAPE_TILE_WIDTH, CLOUD_TILE_WIDTH, FOREST_TILE_WIDTH};
use crate::scroll::ScrollLayer;

verus! {

/// The three parallax background layers.  Farther layers scroll slower:
/// the forest at three quarters of the field's scroll speed, the cityscape
/// at half, the clouds at a quarter.
#[derive(Clone, Copy, PartialEq, Eq, Structural, Debug)]
pub struct Background {
    pub cfg: Config,
    pub forest: ScrollLayer,
    pub cityscape: ScrollLayer,
    pub cloud: ScrollLayer,
    /// While false (after a pipe hit or at game over) the layers freeze.
    pub scroll: bool,
}

/// Speed of the forest layer: three quarters of the scroll speed.
pub open spec fn forest_speed(cfg: Config) -> int {
    (cfg.scroll_speed * 3) as int / 4
}

/// Speed of the cityscape layer: half the scroll speed.
pub open spec fn cityscape_speed(cfg: Config) -> int {
    cfg.scroll_speed as int / 2
}

/// Speed of the cloud layer: a quarter of the scroll speed.
pub open spec fn cloud_speed(cfg: Config) -> int {
    cfg.scroll_speed as int / 4
}

impl Background {
    /// The value `new` returns.
    pub open spec fn new_spec(cfg: Config) -> Background {
        Background {
            cfg,
            forest: ScrollLayer {
                offset: 0,
                speed: forest_speed(cfg) as i64,
                width: FOREST_TILE_WIDTH,
            },
            cityscape: ScrollLayer {
                offset: 0,
                speed: cityscape_speed(cfg) as i64,
                width: CITYSCAPE_TILE_WIDTH,
            },
            cloud: ScrollLayer {
                offset: 0,
                speed: cloud_speed(cfg) as i64,
                width: CLOUD_TILE_WIDTH,
            },
            scroll: true,
        }
    }

    pub open spec fn wf(self) -> bool {
        &&& self.cfg.wf()
        &&& self.forest.wf()
        &&& self.cityscape.wf()
        &&& self.cloud.wf()
        &&& self.forest.speed == forest_speed(self.cfg)
        &&& self.forest.width == FOREST_TILE_WIDTH
        &&& self.cityscape.speed == cityscape_speed(self.cfg)
        &&& self.cityscape.width == CITYSCAPE_TILE_WIDTH
        &&& self.cloud.speed == cloud_speed(self.cfg)
        &&& self.cloud.width == CLOUD_TILE_WIDTH
    }

    /// The background after one update: while scrolling, each layer steps at
    /// its own speed; frozen otherwise.
    pub open spec fn update_spec(self) -> Background {
        if self.scroll {
            Background {
                forest: self.forest.stepped(),
                cityscape: self.cityscape.stepped(),
                cloud: self.cloud.stepped(),
                ..self
            }
        } else {
            self
        }
    }

    /// A fresh background: all offsets zero, scrolling.
    pub fn new(cfg: Config) -> (b: Background)
        requires
            cfg.wf(),
        ensures
            b == Background::new_spec(cfg),
            b.wf(),
    {
        proof {
            let s = cfg.scroll_speed as int;
            lemma_div_is_ordered(s * 3, s * 4, 4);
            lemma_div_multiples_vanish(s, 4);
            assert(s * 4 == 4 * s) by (nonlinear_arith);
            lemma_div_is_ordered(s, s * 2, 2);
            lemma_div_multiples_vanish(s, 2);
            assert(s * 2 == 2 * s) by (nonlinear_arith);
            lemma_div_is_ordered(s, s * 4, 4);
        }
        let scroll_speed_x3: i64 = cfg.scroll_speed * 3;
        Background {
            cfg,
            forest: ScrollLayer::new(scroll_speed_x3 / 4, FOREST_TILE_WIDTH),
            cityscape: ScrollLayer::new(cfg.scroll_speed / 2, CITYSCAPE_TILE_WIDTH),
            cloud: ScrollLayer::new(cfg.scroll_speed / 4, CLOUD_TILE_WIDTH),
            scroll: true,
        }
    }

    /// Advance the layers one tick, unless frozen.
    pub fn update(&mut self)
        requires
            old(self).wf(),
        ensures
            *final(self) == old(self).update_spec(),
            final(self).wf(),
    {
        if self.scroll {
            self.forest.update();
            self.cityscape.update();
            self.cloud.update();
        }
    }
}

} // verus!
