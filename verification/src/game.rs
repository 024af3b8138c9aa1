use vstd::prelude::*;
use crate::background::Background;
use crate::bird::Bird;
use crate::config::{Config, PIPE_HALF_WIDTH};
use crate::ground::Ground;
use crate::physics::{rects_overlap, PhysicsBody, Rectangle};
use crate::pipes::{group_hits, PipeGenerator, PipeGroup};
use crate::scene::{InputState, TickEvents, Transition};
use crate::scoreboard::Scoreboard;
use crate::units::{add_clamped, clamped, in_range, COORD_LIMIT};

verus! {

/// The running game: the scrolling field, the bird, the obstacle pool, the
/// spawn timer, the scores and the game-over board.
pub struct GameScene {
    pub cfg: Config,
    pub background: Background,
    pub ground: Ground,
    pub bird: Bird,
    pub score: i64,
    pub highscore: i64,
    /// Latches the held button, so clicks are edge-triggered.
    pub is_mouse_down: bool,
    /// True until the first click starts the run.
    pub instructions_visible: bool,
    /// The obstacle pool: grown on demand, never shrunk; dead slots are
    /// recycled before a new one is appended.
    pub pipes: Vec<PipeGroup>,
    pub game_over: bool,
    pub pipe_generator: PipeGenerator,
    pub scoreboard: Scoreboard,
}

/// The game's state with the obstacle pool as a sequence: what the
/// contracts speak of.
#[verifier::ext_equal]
pub ghost struct GameView {
    pub cfg: Config,
    pub background: Background,
    pub ground: Ground,
    pub bird: Bird,
    pub score: i64,
    pub highscore: i64,
    pub is_mouse_down: bool,
    pub instructions_visible: bool,
    pub pipes: Seq<PipeGroup>,
    pub game_over: bool,
    pub pipe_generator: PipeGenerator,
    pub scoreboard: Scoreboard,
}

impl View for GameScene {
    type V = GameView;

    open spec fn view(&self) -> GameView {
        GameView {
            cfg: self.cfg,
            background: self.background,
            ground: self.ground,
            bird: self.bird,
            score: self.score,
            highscore: self.highscore,
            is_mouse_down: self.is_mouse_down,
            instructions_visible: self.instructions_visible,
            pipes: self.pipes@,
            game_over: self.game_over,
            pipe_generator: self.pipe_generator,
            scoreboard: self.scoreboard,
        }
    }
}

/// The scoring step for one obstacle: an unscored obstacle whose midline
/// the bird has passed latches its flag and raises the score by one.
pub open spec fn score_one(p: PipeGroup, bird_x: i64, score: i64) -> (PipeGroup, i64, bool) {
    if !p.has_scored && p.position.x + PIPE_HALF_WIDTH <= bird_x {
        (PipeGroup { has_scored: true, ..p }, clamped(score + 1) as i64, true)
    } else {
        (p, score, false)
    }
}

/// The scoring-and-motion pass from slot `i` on: each obstacle in order is
/// scored if newly passed, then advanced one tick.
pub open spec fn pass_from(pipes: Seq<PipeGroup>, bird_x: i64, score: i64, i: int) -> (
    Seq<PipeGroup>,
    i64,
    bool,
)
    decreases pipes.len() - i,
{
    if i < 0 || i >= pipes.len() {
        (pipes, score, false)
    } else {
        let (scored_p, score1, newly) = score_one(pipes[i], bird_x, score);
        let pipes1 = pipes.update(i, scored_p.update_spec());
        let (pipes2, score2, rest) = pass_from(pipes1, bird_x, score1, i + 1);
        (pipes2, score2, newly || rest)
    }
}

/// Whether any obstacle in the pool is hit by the given box.
pub open spec fn any_pipe_hits(pipes: Seq<PipeGroup>, obj: Rectangle) -> bool {
    exists|j: int| 0 <= j < pipes.len() && (#[trigger] pipes[j]).hits_spec(obj)
}

/// Every obstacle with its scrolling turned off (the field freezes).
pub open spec fn disable_all(pipes: Seq<PipeGroup>) -> Seq<PipeGroup> {
    pipes.map_values(|p: PipeGroup| PipeGroup { enabled: false, ..p })
}

/// The first free pool slot at or after `i`, or the pool size if none.
pub open spec fn first_dead(pipes: Seq<PipeGroup>, i: int) -> int
    decreases pipes.len() - i,
{
    if i < 0 || i >= pipes.len() {
        pipes.len() as int
    } else if !pipes[i].alive {
        i
    } else {
        first_dead(pipes, i + 1)
    }
}

impl GameView {
    pub open spec fn wf(self) -> bool {
        &&& self.cfg.wf()
        &&& self.background.wf()
        &&& self.background.cfg == self.cfg
        &&& self.ground.wf()
        &&& self.ground.cfg == self.cfg
        &&& self.bird.wf()
        &&& self.bird.cfg == self.cfg
        &&& 0 <= self.score <= COORD_LIMIT
        &&& 0 <= self.highscore <= COORD_LIMIT
        &&& forall|j: int|
            0 <= j < self.pipes.len() ==> (#[trigger] self.pipes[j]).wf() && self.pipes[j].cfg
                == self.cfg
        &&& self.pipe_generator.wf()
        &&& self.pipe_generator.cfg == self.cfg
        &&& self.scoreboard.wf()
        &&& self.scoreboard.cfg == self.cfg
    }

    /// A fresh game: everything reset, instructions up, nothing spawned.
    pub open spec fn fresh(cfg: Config, button_width: i64, button_height: i64) -> GameView {
        GameView {
            cfg,
            background: Background::new_spec(cfg),
            ground: Ground::new_spec(cfg),
            bird: Bird::new_spec(cfg).reset_spec(),
            score: 0,
            highscore: 0,
            is_mouse_down: true,
            instructions_visible: true,
            pipes: Seq::empty(),
            game_over: false,
            pipe_generator: PipeGenerator::new_spec(cfg),
            scoreboard: Scoreboard::new_spec(cfg, button_width, button_height),
        }
    }

    /// Starting the run: the instructions go away, gravity starts pulling,
    /// the spawn timer runs.
    pub open spec fn start_game_spec(self) -> GameView {
        GameView {
            instructions_visible: false,
            bird: Bird { allow_gravity: true, ..self.bird },
            pipe_generator: PipeGenerator { enabled: true, ..self.pipe_generator },
            ..self
        }
    }

    /// Back to a fresh run: instructions up, pool emptied, field scrolling,
    /// bird re-centered, score cleared.  The high score survives.
    pub open spec fn reset_spec(self) -> GameView {
        GameView {
            instructions_visible: true,
            pipes: Seq::empty(),
            background: Background { scroll: true, ..self.background },
            ground: Ground { scroll: true, ..self.ground },
            bird: self.bird.reset_spec(),
            score: 0,
            game_over: false,
            ..self
        }
    }

    /// The click handling of one tick, edge-triggered on the button going
    /// down: the first click starts the run, a click on the game-over
    /// board's button restarts, and a click during a run flaps (the
    /// starting click flaps too).  Returns the state and whether a flap
    /// cue fired.
    pub open spec fn mouse_spec(self, input: InputState) -> (GameView, bool) {
        if input.mouse_down {
            if !self.is_mouse_down {
                let v1 = if self.instructions_visible {
                    self.start_game_spec()
                } else if self.game_over && self.scoreboard.button.contains_spec(
                    input.mouse_position,
                ) {
                    self.reset_spec()
                } else {
                    self
                };
                let flap = v1.bird.alive && !v1.instructions_visible;
                let v2 = if flap {
                    GameView { bird: v1.bird.flap_spec(), ..v1 }
                } else {
                    v1
                };
                (GameView { is_mouse_down: true, ..v2 }, flap)
            } else {
                (self, false)
            }
        } else {
            (GameView { is_mouse_down: false, ..self }, false)
        }
    }

    /// The first collision stage: a live bird hitting any obstacle dies,
    /// the spawn timer stops and the whole field freezes — but the run is
    /// not yet over (the bird keeps falling).
    pub open spec fn pipe_hit_stage(self) -> (GameView, bool) {
        let bird_rect = self.bird.collision_rect_spec();
        let died = self.bird.alive && any_pipe_hits(self.pipes, bird_rect);
        let v1 = if died {
            GameView {
                bird: self.bird.kill_spec(),
                pipe_generator: PipeGenerator { enabled: false, ..self.pipe_generator },
                background: Background { scroll: false, ..self.background },
                ground: Ground { scroll: false, ..self.ground },
                pipes: disable_all(self.pipes),
                ..self
            }
        } else {
            self
        };
        (v1, died)
    }

    /// The second collision stage: if the run is not already over and the
    /// bird overlaps the ground, the run ends — gravity gate closed, field
    /// frozen, board set, high score raised if matched or beaten.
    pub open spec fn ground_hit_stage(self) -> (GameView, bool) {
        let grounded = !self.game_over && rects_overlap(
            self.bird.collision_rect_spec(),
            self.ground.rect_spec(),
        );
        let new_high: i64 = if self.score >= self.highscore {
            self.score
        } else {
            self.highscore
        };
        let v2 = if grounded {
            GameView {
                bird: Bird { allow_gravity: false, ..self.bird },
                background: Background { scroll: false, ..self.background },
                ground: Ground { scroll: false, ..self.ground },
                game_over: true,
                pipe_generator: PipeGenerator { enabled: false, ..self.pipe_generator },
                highscore: new_high,
                scoreboard: Scoreboard {
                    score: self.score,
                    highscore: new_high,
                    ..self.scoreboard
                },
                pipes: disable_all(self.pipes),
                ..self
            }
        } else {
            self
        };
        (v2, grounded)
    }

    /// The collision pass: the pipe stage, then the ground stage on its
    /// result.  Ordering matters: a pipe hit freezes the field while the
    /// bird keeps falling, and only a later ground hit ends the run.
    pub open spec fn collisions_spec(self) -> (GameView, bool, bool) {
        let first = self.pipe_hit_stage();
        let second = first.0.ground_hit_stage();
        (second.0, first.1, second.1)
    }

    /// The spawn step: the timer advances; on its signal the first free
    /// pool slot is recycled (which ends the tick at once),
    /// or a new obstacle is appended if every slot is live.
    pub open spec fn spawn_spec(self, y: i64) -> (GameView, bool) {
        let stepped = self.pipe_generator.step_spec();
        let v1 = GameView { pipe_generator: stepped.0, ..self };
        if stepped.1 {
            let slot = first_dead(v1.pipes, 0);
            if slot < v1.pipes.len() {
                (
                    GameView {
                        pipes: v1.pipes.update(
                            slot,
                            v1.pipes[slot].reset_spec(v1.cfg.screen_width, y),
                        ),
                        ..v1
                    },
                    true,
                )
            } else {
                (
                    GameView {
                        pipes: v1.pipes.push(
                            PipeGroup::new_spec(v1.cfg).reset_spec(v1.cfg.screen_width, y),
                        ),
                        ..v1
                    },
                    false,
                )
            }
        } else {
            (v1, false)
        }
    }

    /// One whole tick, always in the same fixed order: bird kinematics,
    /// click handling, then (while the run is not over) the scoring pass,
    /// obstacle motion, layer scrolling, the collision pass and the spawn
    /// step; finally the cancel key asks to pop the scene — except on the
    /// tick that recycled a pool slot, which returns at once.
    pub open spec fn step_spec(self, input: InputState, spawn_y: i64) -> (
        GameView,
        Transition,
        TickEvents,
    ) {
        let v1 = GameView { bird: self.bird.update_spec(), ..self };
        let mouse = v1.mouse_spec(input);
        let v2 = mouse.0;
        if !v2.game_over {
            let passed = pass_from(v2.pipes, v2.bird.position.x, v2.score, 0);
            let v3 = GameView { pipes: passed.0, score: passed.1, ..v2 };
            let v4 = GameView {
                background: v3.background.update_spec(),
                ground: v3.ground.update_spec(),
                ..v3
            };
            let collided = v4.collisions_spec();
            let v5 = collided.0;
            let spawned = v5.spawn_spec(spawn_y);
            let v6 = spawned.0;
            let events = TickEvents {
                flap: mouse.1,
                scored: passed.2,
                pipe_hit: collided.1,
                ground_hit: collided.2,
            };
            if spawned.1 {
                (v6, Transition::Stay, events)
            } else if input.escape_pressed {
                (v6, Transition::Pop, events)
            } else {
                (v6, Transition::Stay, events)
            }
        } else {
            let events = TickEvents {
                flap: mouse.1,
                scored: false,
                pipe_hit: false,
                ground_hit: false,
            };
            if input.escape_pressed {
                (v2, Transition::Pop, events)
            } else {
                (v2, Transition::Stay, events)
            }
        }
    }
}

impl GameScene {
    /// A fresh game scene.  The restart button's sprite size comes from the
    /// host, which knows the texture.
    pub fn new(cfg: Config, button_width: i64, button_height: i64) -> (g: GameScene)
        requires
            cfg.wf(),
            0 <= button_width <= COORD_LIMIT,
            0 <= button_height <= COORD_LIMIT,
        ensures
            g@ == GameView::fresh(cfg, button_width, button_height),
            g@.wf(),
    {
        let mut bird = Bird::new(cfg);
        bird.reset();
        GameScene {
            cfg,
            background: Background::new(cfg),
            ground: Ground::new(cfg),
            bird,
            score: 0,
            highscore: 0,
            is_mouse_down: true,
            instructions_visible: true,
            pipes: Vec::new(),
            game_over: false,
            pipe_generator: PipeGenerator::new(cfg),
            scoreboard: Scoreboard::new(cfg, button_width, button_height),
        }
    }

    /// Start the run: drop the instructions, open the gravity gate, run the
    /// spawn timer.
    pub fn start_game(&mut self)
        requires
            old(self)@.wf(),
        ensures
            final(self)@ == old(self)@.start_game_spec(),
            final(self)@.wf(),
    {
        let ghost v0 = self@;
        if self.instructions_visible {
            self.instructions_visible = false;
        }
        self.bird.allow_gravity = true;
        self.pipe_generator.start();
        proof {
            assert(self@ =~= v0.start_game_spec());
            assert(self@.wf());
        }
    }

    /// Restart after a game over: empty the pool, thaw the field, re-center
    /// the bird, clear the score.  The high score survives.
    pub fn reset(&mut self)
        requires
            old(self)@.wf(),
        ensures
            final(self)@ == old(self)@.reset_spec(),
            final(self)@.wf(),
    {
        self.instructions_visible = true;
        self.pipes.clear();
        self.background.scroll = true;
        self.ground.scroll = true;
        self.bird.reset();
        self.score = 0;
        self.game_over = false;
    }

    /// The edge-triggered click handling of one tick.
    fn handle_mouse(&mut self, input: &InputState) -> (flapped: bool)
        requires
            old(self)@.wf(),
        ensures
            final(self)@ == old(self)@.mouse_spec(*input).0,
            flapped == old(self)@.mouse_spec(*input).1,
            final(self)@.wf(),
    {
        if input.mouse_down {
            if !self.is_mouse_down {
                if self.instructions_visible {
                    self.start_game();
                } else {
                    if self.game_over && self.scoreboard.button.contains(input.mouse_position) {
                        self.reset();
                    }
                }
                let mut flapped: bool = false;
                if self.bird.alive && !self.instructions_visible {
                    self.bird.flap();
                    flapped = true;
                }
                self.is_mouse_down = true;
                flapped
            } else {
                false
            }
        } else {
            self.is_mouse_down = false;
            false
        }
    }

    /// The scoring-and-motion pass over the pool, in slot order.
    fn score_and_move_pipes(&mut self) -> (scored_any: bool)
        requires
            old(self)@.wf(),
        ensures
            final(self)@ == (GameView {
                pipes: pass_from(old(self)@.pipes, old(self)@.bird.position.x, old(self)@.score, 0).0,
                score: pass_from(old(self)@.pipes, old(self)@.bird.position.x, old(self)@.score, 0).1,
                ..old(self)@
            }),
            scored_any == pass_from(
                old(self)@.pipes,
                old(self)@.bird.position.x,
                old(self)@.score,
                0,
            ).2,
            final(self)@.wf(),
    {
        let ghost v0 = self@;
        let bird_x = self.bird.position.x;
        let mut scored_any: bool = false;
        let mut i: usize = 0;
        while i < self.pipes.len()
            invariant
                i <= self.pipes@.len(),
                self@ == (GameView { pipes: self@.pipes, score: self@.score, ..v0 }),
                0 <= self.score <= COORD_LIMIT,
                bird_x == v0.bird.position.x,
                in_range(bird_x),
                forall|j: int|
                    0 <= j < self.pipes@.len() ==> (#[trigger] self.pipes@[j]).wf()
                        && self.pipes@[j].cfg == v0.cfg,
                pass_from(v0.pipes, bird_x, v0.score, 0).0 == pass_from(
                    self@.pipes,
                    bird_x,
                    self.score,
                    i as int,
                ).0,
                pass_from(v0.pipes, bird_x, v0.score, 0).1 == pass_from(
                    self@.pipes,
                    bird_x,
                    self.score,
                    i as int,
                ).1,
                pass_from(v0.pipes, bird_x, v0.score, 0).2 == (scored_any || pass_from(
                    self@.pipes,
                    bird_x,
                    self.score,
                    i as int,
                ).2),
            decreases self.pipes@.len() - i,
        {
            let mut p = self.pipes[i];
            let mut newly: bool = false;
            if !p.has_scored && p.position.x + PIPE_HALF_WIDTH <= bird_x {
                p.has_scored = true;
                newly = true;
                self.score = add_clamped(self.score, 1);
            }
            p.update();
            self.pipes[i] = p;
            scored_any = scored_any || newly;
            i = i + 1;
        }
        scored_any
    }

    /// Freeze every obstacle in the pool.
    fn disable_pipes(&mut self)
        ensures
            final(self)@ == (GameView { pipes: disable_all(old(self)@.pipes), ..old(self)@ }),
    {
        let ghost v0 = self@;
        let mut i: usize = 0;
        while i < self.pipes.len()
            invariant
                i <= self.pipes@.len(),
                self.pipes@.len() == v0.pipes.len(),
                self@ == (GameView { pipes: self@.pipes, ..v0 }),
                forall|j: int|
                    0 <= j < i ==> self.pipes@[j] == (PipeGroup {
                        enabled: false,
                        ..v0.pipes[j]
                    }),
                forall|j: int| i <= j < v0.pipes.len() ==> self.pipes@[j] == v0.pipes[j],
            decreases self.pipes@.len() - i,
        {
            let mut p = self.pipes[i];
            p.enabled = false;
            self.pipes[i] = p;
            i = i + 1;
        }
        proof {
            assert(self.pipes@ =~= disable_all(v0.pipes));
        }
    }

    /// The collision pass of one tick; returns the pipe-hit and ground-hit
    /// cues.
    #[verifier::rlimit(60)]
    fn check_for_collisions(&mut self) -> (hits: (bool, bool))
        requires
            old(self)@.wf(),
        ensures
            final(self)@ == old(self)@.collisions_spec().0,
            hits.0 == old(self)@.collisions_spec().1,
            hits.1 == old(self)@.collisions_spec().2,
            final(self)@.wf(),
    {
        let ghost v0 = self@;
        let bird_rect = self.bird.get_collision_rect();
        let mut bird_died: bool = false;
        if self.bird.alive {
            let mut i: usize = 0;
            while i < self.pipes.len()
                invariant
                    i <= self.pipes@.len(),
                    self@ == v0,
                    v0.wf(),
                    bird_rect == v0.bird.collision_rect_spec(),
                    bird_rect.in_range(),
                    bird_died == exists|j: int|
                        0 <= j < i && (#[trigger] v0.pipes[j]).hits_spec(bird_rect),
                decreases self.pipes@.len() - i,
            {
                proof {
                    assert(self.pipes@ == v0.pipes);
                    assert(v0.pipes[i as int].wf() && v0.pipes[i as int].cfg == v0.cfg);
                }
                let hit_here = group_hits(&self.pipes[i], &bird_rect);
                proof {
                    if hit_here {
                        assert(v0.pipes[i as int].hits_spec(bird_rect));
                    }
                }
                bird_died = bird_died || hit_here;
                i = i + 1;
            }
        }
        proof {
            assert(bird_died == v0.pipe_hit_stage().1);
        }
        if bird_died {
            self.bird.kill();
            self.pipe_generator.stop();
            self.background.scroll = false;
            self.ground.scroll = false;
            self.disable_pipes();
        }
        let ghost v1 = v0.pipe_hit_stage().0;
        proof {
            assert(self@ =~= v1);
            assert(self@.wf());
        }
        let ground_rect = self.ground.get_collision_rect();
        let on_ground = self.bird.collides_with(&ground_rect);
        let grounded = !self.game_over && on_ground;
        if grounded {
            self.bird.allow_gravity = false;
            self.background.scroll = false;
            self.ground.scroll = false;
            self.game_over = true;
            self.pipe_generator.stop();
            if self.score >= self.highscore {
                self.highscore = self.score;
            }
            self.scoreboard.set_score(self.score, self.highscore);
            self.disable_pipes();
        }
        proof {
            assert(grounded == v1.ground_hit_stage().1);
            assert(self@ =~= v1.ground_hit_stage().0);
            assert(self@.wf());
        }
        (bird_died, grounded)
    }

    /// The spawn step of one tick: on the timer's signal, recycle the first
    /// free slot (returning true: the tick ends early) or append a new
    /// obstacle.
    #[verifier::rlimit(40)]
    #[verifier::loop_isolation(false)]
    fn spawn_pipe(&mut self, y: i64) -> (recycled: bool)
        requires
            old(self)@.wf(),
            in_range(y),
        ensures
            final(self)@ == old(self)@.spawn_spec(y).0,
            recycled == old(self)@.spawn_spec(y).1,
            final(self)@.wf(),
    {
        let ghost v0 = self@;
        let fired = self.pipe_generator.should_spawn_pipe();
        let ghost v1 = GameView { pipe_generator: v0.pipe_generator.step_spec().0, ..v0 };
        if fired {
            let mut i: usize = 0;
            while i < self.pipes.len()
                invariant
                    i <= self.pipes@.len(),
                    self@ == v1,
                    v1.wf(),
                    in_range(y),
                    forall|j: int| 0 <= j < i ==> (#[trigger] self.pipes@[j]).alive,
                    first_dead(v1.pipes, 0) == first_dead(v1.pipes, i as int),
                decreases self.pipes@.len() - i,
            {
                if !self.pipes[i].alive {
                    proof {
                        assert(self.pipes@ == v1.pipes);
                        assert(v1.pipes[i as int].wf() && v1.pipes[i as int].cfg == v1.cfg);
                        assert(first_dead(v1.pipes, i as int) == i);
                        assert(first_dead(v1.pipes, 0) == i);
                    }
                    let mut p = self.pipes[i];
                    p.reset(self.cfg.screen_width, y);
                    self.pipes[i] = p;
                    proof {
                        assert(self@ =~= v0.spawn_spec(y).0);
                        assert(self@.wf());
                    }
                    return true;
                }
                i = i + 1;
            }
            proof {
                assert(first_dead(v1.pipes, 0) == v1.pipes.len());
            }
            let mut p = PipeGroup::new(self.cfg);
            p.reset(self.cfg.screen_width, y);
            self.pipes.push(p);
            proof {
                assert(self@ =~= v0.spawn_spec(y).0);
                assert(self@.wf());
            }
            return false;
        }
        proof {
            assert(self@ =~= v0.spawn_spec(y).0);
        }
        false
    }

    /// One deterministic tick, with the spawn offset handed in.
    #[verifier::rlimit(80)]
    pub fn step(&mut self, input: &InputState, spawn_y: i64) -> (r: (Transition, TickEvents))
        requires
            old(self)@.wf(),
            in_range(spawn_y),
        ensures
            final(self)@ == old(self)@.step_spec(*input, spawn_y).0,
            r.0 == old(self)@.step_spec(*input, spawn_y).1,
            r.1 == old(self)@.step_spec(*input, spawn_y).2,
            final(self)@.wf(),
    {
        let ghost v0 = self@;
        self.bird.update();
        proof {
            assert(self@ =~= (GameView { bird: v0.bird.update_spec(), ..v0 }));
        }
        let ghost s1 = GameView { bird: v0.bird.update_spec(), ..v0 };
        let flapped = self.handle_mouse(input);
        let ghost s2 = s1.mouse_spec(*input).0;
        proof {
            assert(self@ == s2);
        }
        let mut scored: bool = false;
        let mut pipe_hit: bool = false;
        let mut ground_hit: bool = false;
        let mut recycled: bool = false;
        if !self.game_over {
            scored = self.score_and_move_pipes();
            let ghost s3 = GameView {
                pipes: pass_from(s2.pipes, s2.bird.position.x, s2.score, 0).0,
                score: pass_from(s2.pipes, s2.bird.position.x, s2.score, 0).1,
                ..s2
            };
            proof {
                assert(self@ =~= s3);
            }
            self.background.update();
            self.ground.update();
            let ghost s4 = GameView {
                background: s3.background.update_spec(),
                ground: s3.ground.update_spec(),
                ..s3
            };
            proof {
                assert(self@ =~= s4);
            }
            let hits = self.check_for_collisions();
            pipe_hit = hits.0;
            ground_hit = hits.1;
            let ghost s5 = s4.collisions_spec().0;
            proof {
                assert(self@ == s5);
            }
            recycled = self.spawn_pipe(spawn_y);
            proof {
                assert(self@ == s5.spawn_spec(spawn_y).0);
                assert(recycled == s5.spawn_spec(spawn_y).1);
            }
        }
        let events = TickEvents { flap: flapped, scored, pipe_hit, ground_hit };
        let tr = if recycled {
            Transition::Stay
        } else if input.escape_pressed {
            Transition::Pop
        } else {
            Transition::Stay
        };
        proof {
            let stepped = v0.step_spec(*input, spawn_y);
            assert(self@ =~= stepped.0);
            assert(events == stepped.2);
        }
        (tr, events)
    }

    /// One tick with the spawn offset drawn uniformly from the configured
    /// range; everything else is the deterministic `step`.
    pub fn update(&mut self, input: &InputState) -> (r: (Transition, TickEvents))
        requires
            old(self)@.wf(),
        ensures
            final(self)@.wf(),
            exists|y: i64|
                {
                    &&& old(self)@.cfg.spawn_offset_min <= y < old(self)@.cfg.spawn_offset_max
                    &&& final(self)@ == #[trigger] old(self)@.step_spec(*input, y).0
                    &&& r.0 == old(self)@.step_spec(*input, y).1
                    &&& r.1 == old(self)@.step_spec(*input, y).2
                },
    {
        let y = random_between(self.cfg.spawn_offset_min, self.cfg.spawn_offset_max);
        let r = self.step(input, y);
        proof {
            let ghost v0 = old(self)@;
            assert(v0.cfg.spawn_offset_min <= y < v0.cfg.spawn_offset_max);
            assert(self@ == v0.step_spec(*input, y).0);
        }
        r
    }
}

/// Law (two-stage death, first stage): when a live bird overlaps any
/// obstacle, the pipe stage kills the bird and freezes the whole field —
/// the spawn timer stops, the layers and every obstacle stop scrolling —
/// while the run goes on: `game_over` is untouched, gravity stays gated as
/// it was (the bird keeps falling), and the scores do not move.
pub proof fn lemma_pipe_hit_freezes_field(v: GameView)
    requires
        v.bird.alive,
        any_pipe_hits(v.pipes, v.bird.collision_rect_spec()),
    ensures
        ({
            let (v1, died) = v.pipe_hit_stage();
            &&& died
            &&& !v1.bird.alive
            &&& v1.bird.position == v.bird.position
            &&& v1.bird.allow_gravity == v.bird.allow_gravity
            &&& !v1.pipe_generator.enabled
            &&& !v1.background.scroll
            &&& !v1.ground.scroll
            &&& v1.pipes.len() == v.pipes.len()
            &&& forall|i: int| 0 <= i < v1.pipes.len() ==> !(#[trigger] v1.pipes[i]).enabled
            &&& v1.score == v.score
            &&& v1.highscore == v.highscore
            &&& v1.game_over == v.game_over
        }),
{
}

/// Law (two-stage death, second stage): when the run is not yet over and
/// the bird overlaps the ground, the ground stage finalizes the game over:
/// the gravity gate closes (final resting pose), the field freezes, the
/// spawn timer stops, the board shows the run's score, and the high score
/// becomes the run's score exactly when it matched or beat the old one.
pub proof fn lemma_ground_hit_finalizes(v: GameView)
    requires
        !v.game_over,
        rects_overlap(v.bird.collision_rect_spec(), v.ground.rect_spec()),
    ensures
        ({
            let (v2, grounded) = v.ground_hit_stage();
            &&& grounded
            &&& v2.game_over
            &&& !v2.bird.allow_gravity
            &&& !v2.pipe_generator.enabled
            &&& !v2.background.scroll
            &&& !v2.ground.scroll
            &&& v2.pipes.len() == v.pipes.len()
            &&& forall|i: int| 0 <= i < v2.pipes.len() ==> !(#[trigger] v2.pipes[i]).enabled
            &&& v2.score == v.score
            &&& v2.highscore == (if v.score >= v.highscore {
                v.score
            } else {
                v.highscore
            })
            &&& v2.scoreboard.score == v.score
            &&& v2.scoreboard.highscore == v2.highscore
        }),
{
}

/// Law (high score): the collision pass never lowers the high score, and
/// changes it only on the tick that finalizes the game over with a run
/// score at or above the old maximum — in which case the new high score is
/// the run's score.
pub proof fn lemma_collision_pass_highscore(v: GameView)
    ensures
        ({
            let (v2, _, grounded) = v.collisions_spec();
            &&& v2.highscore == (if grounded && v.score >= v.highscore {
                v.score
            } else {
                v.highscore
            })
            &&& v2.highscore >= v.highscore
        }),
{
}

/// Relies on rand::random_range: a uniform draw from the half-open range,
/// which panics only on an empty range.
#[verifier::external_body]
fn random_between(lo: i64, hi: i64) -> (r: i64)
    requires
        lo < hi,
    ensures
        lo <= r < hi,
{
    rand::random_range(lo..hi)
}

} // verus!
