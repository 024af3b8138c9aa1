use vstd::prelude::*;
use crate::config::{Config, GROUND_HEIGHT, GROUND_TILE_WIDTH, GROUND_TOP_Y};
use crate::physics::{check_collision, rects_overlap, PhysicsBody, Rectangle};
use crate::scroll::ScrollLayer;

verus! {

/// The ground strip at the bottom of the play field: a scrolling tile at the
/// full field speed, and a fixed collision box spanning the screen.
#[derive(Clone, Copy, PartialEq, Eq, Structural, Debug)]
pub struct Ground {
    pub cfg: Config,
    pub layer: ScrollLayer,
    /// While false (after a pipe hit or at game over) the ground freezes.
    pub scroll: bool,
}

impl Ground {
    /// The value `new` returns.
    pub open spec fn new_spec(cfg: Config) -> Ground {
        Ground {
            cfg,
            layer: ScrollLayer { offset: 0, speed: cfg.scroll_speed, width: GROUND_TILE_WIDTH },
            scroll: true,
        }
    }

    pub open spec fn wf(self) -> bool {
        &&& self.cfg.wf()
        &&& self.layer.wf()
        &&& self.layer.speed == self.cfg.scroll_speed
        &&& self.layer.width == GROUND_TILE_WIDTH
    }

    /// The ground's collision box: the full screen width below the play
    /// field.
    pub open spec fn rect_spec(self) -> Rectangle {
        Rectangle { x: 0, y: GROUND_TOP_Y, width: self.cfg.screen_width, height: GROUND_HEIGHT }
    }

    /// The ground after one update: stepped while scrolling, else frozen.
    pub open spec fn update_spec(self) -> Ground {
        if self.scroll {
            Ground { layer: self.layer.stepped(), ..self }
        } else {
            self
        }
    }

    /// A fresh ground: offset zero, scrolling.
    pub fn new(cfg: Config) -> (g: Ground)
        requires
            cfg.wf(),
        ensures
            g == Ground::new_spec(cfg),
            g.wf(),
    {
        Ground { cfg, layer: ScrollLayer::new(cfg.scroll_speed, GROUND_TILE_WIDTH), scroll: true }
    }

    /// Advance the ground one tick, unless frozen.
    pub fn update(&mut self)
        requires
            old(self).wf(),
        ensures
            *final(self) == old(self).update_spec(),
            final(self).wf(),
    {
        if self.scroll {
            self.layer.update();
        }
    }
}

impl PhysicsBody for Ground {
    open spec fn body_wf(&self) -> bool {
        self.wf()
    }

    open spec fn collision_rect_spec(&self) -> Rectangle {
        self.rect_spec()
    }

    open spec fn hits_spec(&self, obj: Rectangle) -> bool {
        rects_overlap(self.rect_spec(), obj)
    }

    fn get_collision_rect(&mut self) -> (r: Rectangle) {
        Rectangle::new(0, GROUND_TOP_Y, self.cfg.screen_width, GROUND_HEIGHT)
    }

    fn collides_with(&mut self, obj: &Rectangle) -> (r: bool) {
        let rect = self.get_collision_rect();
        check_collision(&rect, obj)
    }
}

} // verus!
