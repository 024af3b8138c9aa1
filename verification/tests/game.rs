use flappy::config::Config;
use flappy::game::GameScene;
use flappy::physics::Vec2;
use flappy::pipes::PipeGroup;
use flappy::scene::{InputState, Transition};

fn no_input() -> InputState {
    InputState { mouse_down: false, mouse_position: Vec2::new(0, 0), escape_pressed: false }
}

fn click_at(x: i64, y: i64) -> InputState {
    InputState { mouse_down: true, mouse_position: Vec2::new(x, y), escape_pressed: false }
}

fn escape() -> InputState {
    InputState { mouse_down: false, mouse_position: Vec2::new(0, 0), escape_pressed: true }
}

#[test]
fn fresh_scene_shows_instructions_with_live_bird() {
    let cfg = Config::standard();
    let g = GameScene::new(cfg, 100, 50);
    assert!(g.instructions_visible);
    assert!(!g.game_over);
    assert!(g.bird.alive);
    assert!(!g.bird.allow_gravity);
    assert_eq!(g.score, 0);
    assert_eq!(g.pipes.len(), 0);
}

#[test]
fn first_click_starts_run_and_flaps() {
    let cfg = Config::standard();
    let mut g = GameScene::new(cfg, 100, 50);
    // The scene starts with the button latched down; release it first.
    g.step(&no_input(), 0);
    let (_, events) = g.step(&click_at(0, 0), 0);
    assert!(!g.instructions_visible);
    assert!(g.bird.allow_gravity);
    assert!(g.pipe_generator.enabled);
    assert!(events.flap);
    assert_eq!(g.bird.velocity.y, -1950); // the starting click flaps too
}

#[test]
fn held_button_does_not_retrigger() {
    let cfg = Config::standard();
    let mut g = GameScene::new(cfg, 100, 50);
    g.step(&no_input(), 0);
    g.step(&click_at(0, 0), 0);
    let vy = g.bird.velocity.y;
    // Holding the button: no new flap; gravity keeps acting.
    let (_, events) = g.step(&click_at(0, 0), 0);
    assert!(!events.flap);
    assert_eq!(g.bird.velocity.y, vy + 91);
}

#[test]
fn escape_pops_the_scene() {
    let cfg = Config::standard();
    let mut g = GameScene::new(cfg, 100, 50);
    let (tr, _) = g.step(&escape(), 0);
    assert!(matches!(tr, Transition::Pop));
}

#[test]
fn spawn_reuses_dead_slot_before_growing() {
    let cfg = Config::standard();
    let mut g = GameScene::new(cfg, 100, 50);
    g.start_game();
    // One dead slot sits in the pool.
    g.pipes.push(PipeGroup::new(cfg));
    assert!(!g.pipes[0].alive);
    // The next timer signal must recycle it in place.
    g.pipe_generator.counter = 79;
    let (tr, _) = g.step(&no_input(), -6000);
    assert_eq!(g.pipes.len(), 1); // pool size unchanged
    assert!(g.pipes[0].alive);
    assert_eq!(g.pipes[0].position.x, 86400); // reset at the right edge
    assert_eq!(g.pipes[0].position.y, -6000 - 48000);
    // The recycling tick returns at once (no transition).
    assert!(matches!(tr, Transition::Stay));
}

#[test]
fn spawn_appends_when_every_slot_is_live() {
    let cfg = Config::standard();
    let mut g = GameScene::new(cfg, 100, 50);
    g.start_game();
    let mut live = PipeGroup::new(cfg);
    live.reset(50000, 0);
    g.pipes.push(live);
    g.pipe_generator.counter = 79;
    g.step(&no_input(), 12000);
    assert_eq!(g.pipes.len(), 2);
    assert!(g.pipes[1].alive);
    assert_eq!(g.pipes[1].position.x, 86400);
    assert_eq!(g.pipes[1].position.y, 12000 - 48000);
}

#[test]
fn scoring_latches_once_per_obstacle() {
    let cfg = Config::standard();
    let mut g = GameScene::new(cfg, 100, 50);
    g.start_game();
    // A pipe group just left of the bird's midline threshold, high up so
    // nothing collides.
    let mut pg = PipeGroup::new(cfg);
    pg.reset(21000, 0);
    pg.position.y = -200000;
    g.pipes.push(pg);
    let (_, events) = g.step(&no_input(), 0);
    assert!(events.scored);
    assert_eq!(g.score, 1);
    assert!(g.pipes[0].has_scored);
    let (_, events2) = g.step(&no_input(), 0);
    assert!(!events2.scored);
    assert_eq!(g.score, 1); // the latch guards double-scoring
}

#[test]
fn pipe_hit_freezes_field_but_game_continues() {
    let cfg = Config::standard();
    let mut g = GameScene::new(cfg, 100, 50);
    g.start_game();
    // A pipe group overlapping the bird's column.
    let mut pg = PipeGroup::new(cfg);
    pg.reset(21900, 48000); // anchor lands at (21900, 0): top pipe in the way
    g.pipes.push(pg);
    let (_, events) = g.step(&no_input(), 0);
    assert!(events.pipe_hit);
    assert!(!events.ground_hit);
    // Two-stage death: the field freezes but the run is not over.
    assert!(!g.game_over);
    assert!(!g.bird.alive);
    assert!(g.bird.allow_gravity); // the bird keeps falling
    assert!(!g.pipe_generator.enabled);
    assert!(!g.background.scroll);
    assert!(!g.ground.scroll);
    assert!(!g.pipes[0].enabled);
    // The bird falls on, and a later tick finalizes the game over.
    let mut falls: i64 = 0;
    let mut last_y = g.bird.position.y;
    while !g.game_over {
        let (_, ev) = g.step(&no_input(), 0);
        if !g.game_over {
            assert!(g.bird.position.y > last_y);
            assert!(!ev.ground_hit);
        } else {
            assert!(ev.ground_hit);
        }
        last_y = g.bird.position.y;
        falls += 1;
        assert!(falls < 100);
    }
    assert!(!g.bird.allow_gravity); // final resting pose
    assert_eq!(g.highscore, g.score); // 1 >= 0: new maximum recorded
    assert_eq!(g.scoreboard.highscore, g.highscore);
}

#[test]
fn ground_hit_keeps_higher_previous_highscore() {
    let cfg = Config::standard();
    let mut g = GameScene::new(cfg, 100, 50);
    g.start_game();
    g.highscore = 5;
    // Put the bird just above the ground, falling.
    g.bird.position.y = 112000;
    g.bird.velocity.y = 1000;
    let (_, events) = g.step(&no_input(), 0);
    assert!(events.ground_hit);
    assert!(g.game_over);
    assert_eq!(g.score, 0);
    assert_eq!(g.highscore, 5); // 0 < 5: the old maximum stands
    assert_eq!(g.scoreboard.score, 0);
    assert_eq!(g.scoreboard.highscore, 5);
}

#[test]
fn restart_click_resets_run_and_keeps_highscore() {
    let cfg = Config::standard();
    let mut g = GameScene::new(cfg, 100, 50);
    g.start_game();
    g.score = 3;
    g.highscore = 7;
    g.game_over = true;
    g.is_mouse_down = false;
    let mut pg = PipeGroup::new(cfg);
    pg.reset(50000, 0);
    g.pipes.push(pg);
    // The scoreboard's restart button is centered at (43200, 90000).
    let (_, events) = g.step(&click_at(43200, 90000), 0);
    assert!(!g.game_over);
    assert!(g.instructions_visible);
    assert_eq!(g.score, 0);
    assert_eq!(g.highscore, 7);
    assert_eq!(g.pipes.len(), 0);
    assert!(g.bird.alive);
    assert!(!events.flap); // the restart click does not flap
    assert_eq!(g.bird.velocity.y, 0);
}

#[test]
fn random_spawn_offsets_stay_in_configured_range() {
    let cfg = Config::standard();
    let mut g = GameScene::new(cfg, 100, 50);
    g.start_game();
    for _ in 0..6 {
        g.pipe_generator.counter = 79;
        g.pipe_generator.enabled = true;
        g.update(&no_input());
        let spawned = g.pipes[g.pipes.len() - 1];
        // reset(x, y) with y drawn from [-30000, 30000) anchors the group
        // at y - 48000.
        assert!(spawned.position.y >= -30000 - 48000);
        assert!(spawned.position.y < 30000 - 48000);
        g.pipes.clear();
    }
}
