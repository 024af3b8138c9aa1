use vstd::prelude::*;
use vstd::arithmetic::div_mod::{
    lemma_div_nonincreasing, lemma_div_pos_is_pos, lemma_fundamental_div_mod,
    lemma_mod_division_less_than_divisor,
};
use vstd::math::abs;
use crate::config::{
    Config, BIRD_HEIGHT, BIRD_SPAWN_X, BIRD_WIDTH, CEILING_Y, FLAP_IMPULSE, FLAP_TICKS,
    GRAVITY_DIVISOR, ROTATION_DRIFT, ROTATION_MAX, ROTATION_TARGET,
};
use crate::physics::{check_collision, rects_overlap, PhysicsBody, Rectangle, Vec2};
use crate::units::{add_clamped, clamped, in_range, sub_clamped, COORD_LIMIT};

verus! {

/// The bird: position and velocity integrated under constant gravity, a flap
/// impulse, a bounded rotation tween driven by the flap, and the
/// alive / gravity-enabled flags.  Rotation is cosmetic only: the collision
/// box ignores it.
#[derive(Clone, Copy, PartialEq, Eq, Structural, Debug)]
pub struct Bird {
    pub cfg: Config,
    pub position: Vec2,
    pub velocity: Vec2,
    /// Current tilt; negative is looking up.
    pub rotation: i64,
    /// Ticks remaining of the flap's rotation tween.
    pub flap_counter: i64,
    /// Per-tick rotation decrement while the tween runs.
    pub flap_delta: i64,
    /// Gravity integration gate: false until the game starts, and again
    /// after the bird comes to rest on the ground.
    pub allow_gravity: bool,
    /// False after a fatal collision.
    pub alive: bool,
}

/// The tween rate that drives `rotation` to `ROTATION_TARGET` over `counter`
/// ticks.
pub open spec fn tween_delta(rotation: i64, counter: i64) -> int {
    abs(ROTATION_TARGET - rotation) as int / counter as int
}

impl Bird {
    pub open spec fn wf(self) -> bool {
        &&& self.cfg.wf()
        &&& self.position.in_range()
        &&& self.velocity.in_range()
        &&& in_range(self.rotation)
        &&& 0 <= self.flap_counter <= FLAP_TICKS
        &&& 0 <= self.flap_delta <= COORD_LIMIT
    }

    /// Where the bird spawns: a fixed x, vertically centered.
    pub open spec fn spawn_position(cfg: Config) -> Vec2 {
        Vec2 { x: BIRD_SPAWN_X, y: (cfg.screen_height as int / 2) as i64 }
    }

    /// The bird after `tween_rotation`: the tween rate recomputed from the
    /// current rotation and countdown.
    pub open spec fn tween_spec(self) -> Bird {
        Bird { flap_delta: clamped(tween_delta(self.rotation, self.flap_counter)) as i64, ..self }
    }

    /// The bird after a flap: a no-op unless alive; otherwise the vertical
    /// speed becomes the fixed impulse, the tween countdown restarts, and
    /// the tween rate is recomputed.
    pub open spec fn flap_spec(self) -> Bird {
        if self.alive {
            Bird {
                velocity: Vec2 { x: self.velocity.x, y: FLAP_IMPULSE },
                flap_counter: FLAP_TICKS,
                ..self
            }.tween_spec()
        } else {
            self
        }
    }

    /// The bird after a kill: upward motion is cut to zero at the moment of
    /// death (no continued rise), and the bird is no longer alive.
    pub open spec fn kill_spec(self) -> Bird {
        Bird {
            velocity: Vec2 {
                x: self.velocity.x,
                y: if self.alive && self.velocity.y < 0 {
                    0 as i64
                } else {
                    self.velocity.y
                },
            },
            alive: false,
            ..self
        }
    }

    /// The bird after a reset: at rest at the spawn point, level, alive.
    pub open spec fn reset_spec(self) -> Bird {
        Bird {
            velocity: Vec2 { x: 0, y: 0 },
            position: Bird::spawn_position(self.cfg),
            rotation: 0,
            flap_delta: 0,
            alive: true,
            ..self
        }
    }

    /// The bird after one tick: frozen while the gravity gate is closed;
    /// otherwise speed gains one gravity increment, the position integrates
    /// the new speed and is pinned at the ceiling (cutting the speed there),
    /// the flap tween turns the bird up while its countdown runs, and the
    /// nose-dive drift turns it down while under the limit.
    pub open spec fn update_spec(self) -> Bird {
        if !self.allow_gravity {
            self
        } else {
            let vy1 = clamped(self.velocity.y + self.cfg.gravity_per_tick());
            let y1 = clamped(self.position.y + vy1);
            let vy2: int = if y1 <= CEILING_Y { 0 } else { vy1 };
            let y2: int = if y1 <= CEILING_Y { CEILING_Y as int } else { y1 };
            let rot1: int = if self.flap_counter > 0 {
                clamped(self.rotation - self.flap_delta)
            } else {
                self.rotation as int
            };
            let fc1: int = if self.flap_counter > 0 {
                self.flap_counter - 1
            } else {
                self.flap_counter as int
            };
            let rot2: int = if rot1 < ROTATION_MAX {
                rot1 + ROTATION_DRIFT
            } else {
                rot1
            };
            Bird {
                position: Vec2 { x: self.position.x, y: y2 as i64 },
                velocity: Vec2 { x: self.velocity.x, y: vy2 as i64 },
                rotation: rot2 as i64,
                flap_counter: fc1 as i64,
                ..self
            }
        }
    }

    /// The value `new` returns.
    pub open spec fn new_spec(cfg: Config) -> Bird {
        Bird {
            cfg,
            position: Bird::spawn_position(cfg),
            velocity: Vec2 { x: 0, y: 0 },
            rotation: 0,
            flap_counter: 0,
            flap_delta: 0,
            allow_gravity: false,
            alive: false,
        }
    }

    /// A fresh bird: at the spawn point, level, gravity gated off, not yet
    /// alive (a game scene resets it on creation).
    pub fn new(cfg: Config) -> (b: Bird)
        requires
            cfg.wf(),
        ensures
            b == Bird::new_spec(cfg),
            b.wf(),
    {
        proof {
            lemma_div_pos_is_pos(cfg.screen_height as int, 2);
            lemma_div_nonincreasing(cfg.screen_height as int, 2);
        }
        Bird {
            cfg,
            position: Vec2 { x: BIRD_SPAWN_X, y: cfg.screen_height / 2 },
            velocity: Vec2 { x: 0, y: 0 },
            rotation: 0,
            flap_counter: 0,
            flap_delta: 0,
            allow_gravity: false,
            alive: false,
        }
    }

    /// Recompute the tween rate: the remaining distance to the rotation
    /// target spread evenly over the remaining countdown ticks.
    pub fn tween_rotation(&mut self)
        requires
            old(self).wf(),
            old(self).flap_counter > 0,
        ensures
            *final(self) == old(self).tween_spec(),
            final(self).wf(),
    {
        let distance: i64 = ROTATION_TARGET - self.rotation;
        let magnitude: i64 = if distance < 0 {
            -distance
        } else {
            distance
        };
        proof {
            lemma_div_pos_is_pos(magnitude as int, self.flap_counter as int);
            lemma_div_nonincreasing(magnitude as int, self.flap_counter as int);
        }
        let rate: i64 = magnitude / self.flap_counter;
        self.flap_delta = if rate > COORD_LIMIT {
            COORD_LIMIT
        } else {
            rate
        };
    }

    /// Flap: a no-op unless alive.  Sets the upward impulse, restarts the
    /// tween countdown, and recomputes the tween rate.
    pub fn flap(&mut self)
        requires
            old(self).wf(),
        ensures
            *final(self) == old(self).flap_spec(),
            final(self).wf(),
    {
        if self.alive {
            self.velocity.y = FLAP_IMPULSE;
            self.flap_counter = FLAP_TICKS;
            self.tween_rotation();
        }
    }

    /// Kill the bird: cut any upward motion and clear the alive flag.
    /// Gravity keeps integrating afterwards (it is gated separately), so a
    /// dead bird still falls.
    pub fn kill(&mut self)
        requires
            old(self).wf(),
        ensures
            *final(self) == old(self).kill_spec(),
            final(self).wf(),
    {
        if self.alive && self.velocity.y < 0 {
            self.velocity.y = 0;
        }
        self.alive = false;
    }

    /// Re-center the bird at the spawn point, at rest, level and alive.
    pub fn reset(&mut self)
        requires
            old(self).wf(),
        ensures
            *final(self) == old(self).reset_spec(),
            final(self).wf(),
    {
        proof {
            lemma_div_pos_is_pos(self.cfg.screen_height as int, 2);
            lemma_div_nonincreasing(self.cfg.screen_height as int, 2);
        }
        self.velocity = Vec2::new(0, 0);
        self.position = Vec2::new(BIRD_SPAWN_X, self.cfg.screen_height / 2);
        self.rotation = 0;
        self.flap_delta = 0;
        self.alive = true;
    }

    /// Advance the bird one tick.
    pub fn update(&mut self)
        requires
            old(self).wf(),
        ensures
            *final(self) == old(self).update_spec(),
            final(self).wf(),
    {
        if self.allow_gravity {
            proof {
                lemma_div_pos_is_pos(self.cfg.gravity as int, GRAVITY_DIVISOR as int);
                lemma_div_nonincreasing(self.cfg.gravity as int, GRAVITY_DIVISOR as int);
            }
            let g: i64 = self.cfg.gravity / GRAVITY_DIVISOR;
            self.velocity.y = add_clamped(self.velocity.y, g);
            self.position.y = add_clamped(self.position.y, self.velocity.y);
            if self.position.y <= CEILING_Y {
                self.position.y = CEILING_Y;
                self.velocity.y = 0;
            }
            if self.flap_counter > 0 {
                self.rotation = sub_clamped(self.rotation, self.flap_delta);
                self.flap_counter = self.flap_counter - 1;
            }
            if self.rotation < ROTATION_MAX {
                self.rotation = self.rotation + ROTATION_DRIFT;
            }
        }
    }
}

impl PhysicsBody for Bird {
    open spec fn body_wf(&self) -> bool {
        self.wf()
    }

    open spec fn collision_rect_spec(&self) -> Rectangle {
        Rectangle {
            x: self.position.x,
            y: self.position.y,
            width: BIRD_WIDTH,
            height: BIRD_HEIGHT,
        }
    }

    open spec fn hits_spec(&self, obj: Rectangle) -> bool {
        rects_overlap(self.collision_rect_spec(), obj)
    }

    fn get_collision_rect(&mut self) -> (r: Rectangle) {
        Rectangle::new(self.position.x, self.position.y, BIRD_WIDTH, BIRD_HEIGHT)
    }

    fn collides_with(&mut self, obj: &Rectangle) -> (r: bool) {
        let rect = self.get_collision_rect();
        check_collision(&rect, obj)
    }
}

/// Law (flap tween accuracy): right after a flap on a live bird, the tween
/// rate times the tween tick count reproduces the distance from the rotation
/// before the flap to the rotation target, to within one tick of integer
/// rounding (at most `FLAP_TICKS - 1` sub-units short).
pub proof fn lemma_flap_tween(b: Bird)
    requires
        b.wf(),
        b.alive,
    ensures
        b.flap_spec().velocity.y == FLAP_IMPULSE,
        b.flap_spec().flap_counter == FLAP_TICKS,
        b.flap_spec().flap_delta * FLAP_TICKS <= abs(ROTATION_TARGET - b.rotation),
        abs(ROTATION_TARGET - b.rotation) < b.flap_spec().flap_delta * FLAP_TICKS + FLAP_TICKS,
{
    let dist = abs(ROTATION_TARGET - b.rotation) as int;
    lemma_fundamental_div_mod(dist, FLAP_TICKS as int);
    lemma_mod_division_less_than_divisor(dist, FLAP_TICKS as int);
    lemma_div_pos_is_pos(dist, FLAP_TICKS as int);
    lemma_div_nonincreasing(dist, FLAP_TICKS as int);
}

/// Law (kill): killing a bird that was still rising leaves it dead with
/// exactly zero vertical speed, and a second kill changes nothing.
pub proof fn lemma_kill_idempotent(b: Bird)
    ensures
        b.kill_spec().kill_spec() == b.kill_spec(),
        b.alive && b.velocity.y < 0 ==> b.kill_spec().velocity.y == 0 && !b.kill_spec().alive,
{
}

/// The bird's state after `n` ticks.
pub open spec fn bird_after(b: Bird, n: nat) -> Bird
    decreases n,
{
    if n == 0 {
        b
    } else {
        bird_after(b, (n - 1) as nat).update_spec()
    }
}

/// `1 + 2 + ... + n`.
pub open spec fn sum_to(n: nat) -> int
    decreases n,
{
    if n == 0 {
        0
    } else {
        n + sum_to((n - 1) as nat)
    }
}

/// The discrete sum has the familiar closed form `n * (n + 1) / 2`.
pub proof fn lemma_sum_to_closed_form(n: nat)
    ensures
        sum_to(n) == (n as int) * (n as int + 1) / 2,
    decreases n,
{
    if n == 0 {
        assert((n as int) * (n as int + 1) / 2 == 0) by (nonlinear_arith)
            requires
                n == 0,
        ;
    } else {
        lemma_sum_to_closed_form((n - 1) as nat);
        assert((n as int - 1) * (n as int) / 2 + n == (n as int) * (n as int + 1) / 2)
            by (nonlinear_arith);
    }
}

/// Law (uniform acceleration): with the gravity gate open, no flap tween
/// running, and the bird level or falling below the ceiling, `n` ticks of
/// free fall follow the closed form for uniformly accelerated motion:
/// velocity.y grows by exactly one gravity increment per tick, and
/// position.y integrates it, so both increase monotonically.  The bound
/// hypotheses keep every intermediate value inside the storage band, where
/// the clamped arithmetic is exact.
pub proof fn lemma_free_fall(b: Bird, n: nat)
    requires
        b.wf(),
        b.allow_gravity,
        b.flap_counter == 0,
        b.velocity.y >= 0,
        b.position.y > CEILING_Y,
        b.velocity.y + n * b.cfg.gravity_per_tick() <= COORD_LIMIT,
        b.position.y + n * b.velocity.y + sum_to(n) * b.cfg.gravity_per_tick() <= COORD_LIMIT,
    ensures
        bird_after(b, n).cfg == b.cfg,
        bird_after(b, n).allow_gravity,
        bird_after(b, n).flap_counter == 0,
        bird_after(b, n).velocity.y == b.velocity.y + n * b.cfg.gravity_per_tick(),
        bird_after(b, n).position.y == b.position.y + n * b.velocity.y + sum_to(n)
            * b.cfg.gravity_per_tick(),
        bird_after(b, n).position.y >= b.position.y,
    decreases n,
{
    let g = b.cfg.gravity_per_tick();
    let vy0 = b.velocity.y as int;
    let y0 = b.position.y as int;
    lemma_div_pos_is_pos(b.cfg.gravity as int, GRAVITY_DIVISOR as int);
    lemma_div_nonincreasing(b.cfg.gravity as int, GRAVITY_DIVISOR as int);
    if n == 0 {
        assert(n * g == 0 && n * vy0 == 0) by (nonlinear_arith)
            requires
                n == 0,
        ;
    }
    if n > 0 {
        let m = (n - 1) as nat;
        assert(m * g <= n * g && 0 <= m * g) by (nonlinear_arith)
            requires
                m <= n && g >= 0,
        ;
        assert(m * vy0 <= n * vy0 && 0 <= m * vy0) by (nonlinear_arith)
            requires
                m <= n && vy0 >= 0,
        ;
        lemma_sum_to_nonneg_monotone(m, n);
        assert(sum_to(m) * g <= sum_to(n) * g && 0 <= sum_to(m) * g) by (nonlinear_arith)
            requires
                0 <= sum_to(m) <= sum_to(n) && g >= 0,
        ;
        lemma_free_fall(b, m);
        let s = bird_after(b, m);
        assert(bird_after(b, n) == s.update_spec());
        assert(m * g + g == n * g) by (nonlinear_arith)
            requires
                n >= 1 && m == n - 1,
        ;
        assert(m * vy0 + vy0 == n * vy0) by (nonlinear_arith)
            requires
                n >= 1 && m == n - 1,
        ;
        assert(sum_to(n) == sum_to(m) + n);
        assert(sum_to(m) * g + n * g == sum_to(n) * g) by (nonlinear_arith)
            requires
                sum_to(n) == sum_to(m) + n,
        ;
        let vy1 = clamped(s.velocity.y + g);
        assert(vy1 == vy0 + n * g);
        let ynew = s.position.y + vy1;
        assert(ynew == y0 + n * vy0 + sum_to(n) * g);
        assert(ynew <= COORD_LIMIT);
        assert(ynew > CEILING_Y);
        assert(clamped(ynew) == ynew);
        assert(bird_after(b, n).position.y == ynew);
    }
}

/// `sum_to` is non-negative and monotone.
proof fn lemma_sum_to_nonneg_monotone(m: nat, n: nat)
    requires
        m <= n,
    ensures
        0 <= sum_to(m) <= sum_to(n),
    decreases n,
{
    if m < n {
        lemma_sum_to_nonneg_monotone(m, (n - 1) as nat);
    } else if n > 0 {
        lemma_sum_to_nonneg_monotone((m - 1) as nat, (n - 1) as nat);
    }
}

} // verus!
