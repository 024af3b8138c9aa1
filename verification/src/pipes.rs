use vstd::prelude::*;
use vstd::arithmetic::div_mod::{lemma_mod_division_less_than_divisor, lemma_mod_self_0, lemma_small_mod};
use crate::config::{
    Config, BOTTOM_PIPE_OFFSET_Y, PIPE_COLLIDE_BIAS_Y, PIPE_GAP_BIAS_Y, PIPE_HALF_WIDTH,
    PIPE_HEIGHT, PIPE_RETIRE_X, PIPE_WIDTH,
};
use crate::physics::{check_collision, rects_overlap, PhysicsBody, Rectangle, Vec2};
use crate::units::{clamped, in_range, sub_clamped};

verus! {

/// One pipe sprite of an obstacle, at a fixed offset in the group's local
/// frame.
#[derive(Clone, Copy, PartialEq, Eq, Structural, Debug)]
pub struct Pipe {
    pub position: Vec2,
}

impl Pipe {
    /// The pipe's collision box in its own frame.
    pub open spec fn rect_spec(self) -> Rectangle {
        Rectangle { x: self.position.x, y: self.position.y, width: PIPE_WIDTH, height: PIPE_HEIGHT }
    }
}

impl PhysicsBody for Pipe {
    open spec fn body_wf(&self) -> bool {
        self.position.in_range()
    }

    open spec fn collision_rect_spec(&self) -> Rectangle {
        self.rect_spec()
    }

    open spec fn hits_spec(&self, obj: Rectangle) -> bool {
        rects_overlap(self.rect_spec(), obj)
    }

    fn get_collision_rect(&mut self) -> (r: Rectangle) {
        Rectangle::new(self.position.x, self.position.y, PIPE_WIDTH, PIPE_HEIGHT)
    }

    fn collides_with(&mut self, obj: &Rectangle) -> (r: bool) {
        let rect = self.get_collision_rect();
        check_collision(&rect, obj)
    }
}

/// A pipe obstacle: a top and a bottom pipe at fixed offsets from a moving
/// anchor, plus the pool and scoring flags.
#[derive(Clone, Copy, PartialEq, Eq, Structural, Debug)]
pub struct PipeGroup {
    pub cfg: Config,
    pub top_pipe: Pipe,
    pub bottom_pipe: Pipe,
    /// The anchor; x decreases as the field scrolls.
    pub position: Vec2,
    /// Whether this pool slot is occupied; cleared once fully off screen.
    pub alive: bool,
    /// Whether the obstacle scrolls; cleared when the field freezes.
    pub enabled: bool,
    /// Latched once the bird has passed the midline, so an obstacle scores
    /// at most once.
    pub has_scored: bool,
}

impl PipeGroup {
    pub open spec fn wf(self) -> bool {
        &&& self.cfg.wf()
        &&& self.position.in_range()
        &&& self.top_pipe.position == (Vec2 { x: 0i64, y: 0i64 })
        &&& self.bottom_pipe.position == (Vec2 { x: 0i64, y: BOTTOM_PIPE_OFFSET_Y })
    }

    /// The group after one tick: while alive and enabled the anchor scrolls
    /// left; an anchor past the retirement threshold clears both flags.
    pub open spec fn update_spec(self) -> PipeGroup {
        let moved: int = if self.alive && self.enabled {
            clamped(self.position.x - self.cfg.scroll_speed)
        } else {
            self.position.x as int
        };
        let retired = moved < PIPE_RETIRE_X;
        PipeGroup {
            position: Vec2 { x: moved as i64, y: self.position.y },
            alive: !retired && self.alive,
            enabled: !retired && self.enabled,
            ..self
        }
    }

    /// The group after a reset at `(x, y)`: anchored at `y` minus the gap
    /// bias, occupying its slot, scrolling, not yet scored.
    pub open spec fn reset_spec(self, x: i64, y: i64) -> PipeGroup {
        PipeGroup {
            position: Vec2 { x, y: clamped(y - PIPE_GAP_BIAS_Y) as i64 },
            alive: true,
            enabled: true,
            has_scored: false,
            ..self
        }
    }

    /// The bird's box translated into the group's local collision frame.
    pub open spec fn relative_rect(self, obj: Rectangle) -> Rectangle {
        Rectangle {
            x: (obj.x - self.position.x - PIPE_HALF_WIDTH) as i64,
            y: (obj.y - self.position.y - PIPE_COLLIDE_BIAS_Y) as i64,
            width: obj.width,
            height: obj.height,
        }
    }

    /// The value `new` returns.
    pub open spec fn new_spec(cfg: Config) -> PipeGroup {
        PipeGroup {
            cfg,
            top_pipe: Pipe { position: Vec2 { x: 0, y: 0 } },
            bottom_pipe: Pipe { position: Vec2 { x: 0, y: BOTTOM_PIPE_OFFSET_Y } },
            position: Vec2 { x: 0, y: 0 },
            alive: false,
            enabled: false,
            has_scored: false,
        }
    }

    /// A free (not alive) obstacle, ready for the pool.
    pub fn new(cfg: Config) -> (p: PipeGroup)
        requires
            cfg.wf(),
        ensures
            p == PipeGroup::new_spec(cfg),
            p.wf(),
    {
        PipeGroup {
            cfg,
            top_pipe: Pipe { position: Vec2 { x: 0, y: 0 } },
            bottom_pipe: Pipe { position: Vec2 { x: 0, y: BOTTOM_PIPE_OFFSET_Y } },
            position: Vec2 { x: 0, y: 0 },
            alive: false,
            enabled: false,
            has_scored: false,
        }
    }

    /// Advance the obstacle one tick.  Afterwards either the slot is free,
    /// or the obstacle is still on screen: an anchor past the retirement
    /// threshold never stays alive.
    pub fn update(&mut self)
        requires
            old(self).wf(),
        ensures
            *final(self) == old(self).update_spec(),
            final(self).alive ==> final(self).position.x >= PIPE_RETIRE_X,
            final(self).wf(),
    {
        if self.alive && self.enabled {
            self.position.x = sub_clamped(self.position.x, self.cfg.scroll_speed);
        }
        if self.position.x < PIPE_RETIRE_X {
            self.alive = false;
            self.enabled = false;
        }
    }

    /// Recycle the obstacle at `(x, y)`: the gap centers around `y`.
    pub fn reset(&mut self, x: i64, y: i64)
        requires
            old(self).wf(),
            in_range(x),
            in_range(y),
        ensures
            *final(self) == old(self).reset_spec(x, y),
            final(self).wf(),
    {
        self.position.x = x;
        self.position.y = sub_clamped(y, PIPE_GAP_BIAS_Y);
        self.alive = true;
        self.enabled = true;
        self.has_scored = false;
    }
}

/// Whether a box, translated into the group's local frame, overlaps either
/// of the group's pipes.
pub fn group_hits(group: &PipeGroup, obj: &Rectangle) -> (r: bool)
    requires
        group.wf(),
        obj.in_range(),
    ensures
        r == group.hits_spec(*obj),
{
    let relative = Rectangle::new(
        obj.x - group.position.x - PIPE_HALF_WIDTH,
        obj.y - group.position.y - PIPE_COLLIDE_BIAS_Y,
        obj.width,
        obj.height,
    );
    let top_rect = Rectangle::new(
        group.top_pipe.position.x,
        group.top_pipe.position.y,
        PIPE_WIDTH,
        PIPE_HEIGHT,
    );
    let bottom_rect = Rectangle::new(
        group.bottom_pipe.position.x,
        group.bottom_pipe.position.y,
        PIPE_WIDTH,
        PIPE_HEIGHT,
    );
    check_collision(&top_rect, &relative) || check_collision(&bottom_rect, &relative)
}

impl PhysicsBody for PipeGroup {
    open spec fn body_wf(&self) -> bool {
        self.wf()
    }

    /// The group itself reports no box of its own (the sub-pipes carry the
    /// real geometry).
    open spec fn collision_rect_spec(&self) -> Rectangle {
        Rectangle { x: 0, y: 0, width: 0, height: 0 }
    }

    /// A box hits the obstacle when, translated into the group's local
    /// frame, it overlaps either pipe.
    open spec fn hits_spec(&self, obj: Rectangle) -> bool {
        ||| rects_overlap(self.top_pipe.rect_spec(), self.relative_rect(obj))
        ||| rects_overlap(self.bottom_pipe.rect_spec(), self.relative_rect(obj))
    }

    fn get_collision_rect(&mut self) -> (r: Rectangle) {
        Rectangle::new(0, 0, 0, 0)
    }

    fn collides_with(&mut self, obj: &Rectangle) -> (r: bool) {
        group_hits(self, obj)
    }
}

/// The state an obstacle reaches after `n` updates.
pub open spec fn group_after(p: PipeGroup, n: nat) -> PipeGroup
    decreases n,
{
    if n == 0 {
        p
    } else {
        group_after(p, (n - 1) as nat).update_spec()
    }
}

/// Law (self-retirement): an obstacle reset on screen at `(x, y)` scrolls
/// left by the scroll speed once per update and remains alive and enabled
/// exactly while its anchor has not crossed the retirement threshold; the
/// update that carries it past the threshold clears both flags, and they
/// stay clear from then on.
pub proof fn lemma_pipe_group_retires(p: PipeGroup, x: i64, y: i64, n: nat)
    requires
        p.wf(),
        in_range(x),
        in_range(y),
        x >= PIPE_RETIRE_X,
    ensures
        ({
            let q = group_after(p.reset_spec(x, y), n);
            &&& q.cfg == p.cfg
            &&& q.position.y == clamped(y - PIPE_GAP_BIAS_Y)
            &&& if x - n * p.cfg.scroll_speed >= PIPE_RETIRE_X {
                q.alive && q.enabled && q.position.x == x - n * p.cfg.scroll_speed
            } else {
                !q.alive && !q.enabled
            }
        }),
    decreases n,
{
    let s = p.cfg.scroll_speed as int;
    if n == 0 {
        assert(group_after(p.reset_spec(x, y), 0) == p.reset_spec(x, y));
        assert(n * s == 0) by (nonlinear_arith)
            requires
                n == 0,
        ;
    } else {
        lemma_pipe_group_retires(p, x, y, (n - 1) as nat);
        assert(x - (n - 1) * s - s == x - n * s) by (nonlinear_arith)
            requires
                n >= 1,
        ;
        assert((n - 1) * s <= n * s) by (nonlinear_arith)
            requires
                n >= 1 && s >= 0,
        ;
        assert(0 <= (n - 1) * s) by (nonlinear_arith)
            requires
                n >= 1 && s >= 0,
        ;
        assert(0 <= n * s) by (nonlinear_arith)
            requires
                s >= 0,
        ;
        assert(group_after(p.reset_spec(x, y), n) == group_after(
            p.reset_spec(x, y),
            (n - 1) as nat,
        ).update_spec());
    }
}

/// The fixed-interval spawn timer: counts calls while running and signals
/// once per interval.
#[derive(Clone, Copy, PartialEq, Eq, Structural, Debug)]
pub struct PipeGenerator {
    pub cfg: Config,
    /// Calls since the last signal; always in `[0, spawn_interval)`.
    pub counter: i64,
    /// While false the counter neither advances nor signals.
    pub enabled: bool,
}

impl PipeGenerator {
    pub open spec fn wf(self) -> bool {
        &&& self.cfg.wf()
        &&& 0 <= self.counter < self.cfg.spawn_interval
    }

    /// State and signal of one `should_spawn_pipe` call.
    pub open spec fn step_spec(self) -> (PipeGenerator, bool) {
        if self.enabled {
            if self.counter + 1 >= self.cfg.spawn_interval {
                (PipeGenerator { counter: 0, ..self }, true)
            } else {
                (PipeGenerator { counter: (self.counter + 1) as i64, ..self }, false)
            }
        } else {
            (self, false)
        }
    }

    /// The value `new` returns.
    pub open spec fn new_spec(cfg: Config) -> PipeGenerator {
        PipeGenerator { cfg, counter: 0, enabled: false }
    }

    /// A fresh timer: stopped, at zero.
    pub fn new(cfg: Config) -> (g: PipeGenerator)
        requires
            cfg.wf(),
        ensures
            g == PipeGenerator::new_spec(cfg),
            g.wf(),
    {
        PipeGenerator { cfg, counter: 0, enabled: false }
    }

    /// Start counting.  The counter is not reset: it resumes where it
    /// stopped.
    pub fn start(&mut self)
        requires
            old(self).wf(),
        ensures
            *final(self) == (PipeGenerator { enabled: true, ..*old(self) }),
            final(self).wf(),
    {
        self.enabled = true;
    }

    /// Stop counting.
    pub fn stop(&mut self)
        requires
            old(self).wf(),
        ensures
            *final(self) == (PipeGenerator { enabled: false, ..*old(self) }),
            final(self).wf(),
    {
        self.enabled = false;
    }

    /// While running, advance the counter and signal (resetting it) once it
    /// reaches the interval; while stopped, do nothing and never signal.
    pub fn should_spawn_pipe(&mut self) -> (r: bool)
        requires
            old(self).wf(),
        ensures
            *final(self) == old(self).step_spec().0,
            r == old(self).step_spec().1,
            final(self).wf(),
    {
        if self.enabled {
            self.counter = self.counter + 1;
            if self.counter >= self.cfg.spawn_interval {
                self.counter = 0;
                return true;
            }
        }
        false
    }
}

/// The timer's state after `n` calls of `should_spawn_pipe`.
pub open spec fn generator_after(g: PipeGenerator, n: nat) -> PipeGenerator
    decreases n,
{
    if n == 0 {
        g
    } else {
        generator_after(g, (n - 1) as nat).step_spec().0
    }
}

/// What the `n`-th call of `should_spawn_pipe` returns (`n >= 1`).
pub open spec fn generator_fires(g: PipeGenerator, n: nat) -> bool {
    generator_after(g, (n - 1) as nat).step_spec().1
}

/// Law (spawn cadence): running from a fresh start, `should_spawn_pipe`
/// returns true on exactly every `spawn_interval`-th call.
pub proof fn lemma_generator_cadence(g: PipeGenerator, n: nat)
    requires
        g.wf(),
        g.enabled,
        g.counter == 0,
        n >= 1,
    ensures
        generator_after(g, n).cfg == g.cfg,
        generator_after(g, n).enabled,
        generator_after(g, n).counter == (n as int) % (g.cfg.spawn_interval as int),
        generator_fires(g, n) == ((n as int) % (g.cfg.spawn_interval as int) == 0),
    decreases n,
{
    let interval = g.cfg.spawn_interval as int;
    if n == 1 {
        assert(generator_after(g, 0) == g);
        assert(generator_after(g, 1) == g.step_spec().0);
        if interval == 1 {
            lemma_mod_self_0(interval);
        } else {
            lemma_small_mod(1nat, interval as nat);
        }
    } else {
        lemma_generator_cadence(g, (n - 1) as nat);
        lemma_mod_division_less_than_divisor((n - 1) as int, interval);
        let before = (n - 1) as int % interval;
        let ghost prev = generator_after(g, (n - 1) as nat);
        assert(generator_after(g, n) == prev.step_spec().0);
        assert(generator_fires(g, n) == prev.step_spec().1);
        assert((n as int) % interval == (before + 1) % interval) by {
            lemma_mod_mod_step(n as int, interval);
        };
        if before + 1 == interval {
            lemma_mod_self_0(interval);
        } else {
            lemma_small_mod((before + 1) as nat, interval as nat);
        }
    }
}

/// `(x % m + 1) % m == x % m` shifted by one: the step a counter modulo `m`
/// takes.
proof fn lemma_mod_mod_step(n: int, m: int)
    requires
        0 < m,
        n >= 1,
    ensures
        n % m == ((n - 1) % m + 1) % m,
{
    vstd::arithmetic::div_mod::lemma_add_mod_noop(n - 1, 1, m);
    if m == 1 {
        lemma_mod_self_0(m);
    } else {
        lemma_small_mod(1nat, m as nat);
    }
}

/// Law (stopped timer): while stopped, `should_spawn_pipe` neither advances
/// the counter nor ever signals, whatever the call sequence.
pub proof fn lemma_generator_stopped(g: PipeGenerator, n: nat)
    requires
        !g.enabled,
    ensures
        generator_after(g, n) == g,
        n >= 1 ==> !generator_fires(g, n),
    decreases n,
{
    if n > 0 {
        lemma_generator_stopped(g, (n - 1) as nat);
    }
}

} // verus!
