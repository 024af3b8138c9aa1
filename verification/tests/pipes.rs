use flappy::config::Config;
use flappy::physics::{PhysicsBody, Rectangle};
use flappy::pipes::{PipeGenerator, PipeGroup};

#[test]
fn reset_places_anchor_with_gap_bias() {
    let cfg = Config::standard();
    let mut pg = PipeGroup::new(cfg);
    assert!(!pg.alive);
    pg.reset(86400, 0);
    assert_eq!(pg.position.x, 86400);
    assert_eq!(pg.position.y, -48000); // 0 minus the 160-unit bias
    assert!(pg.alive);
    assert!(pg.enabled);
    assert!(!pg.has_scored);
}

#[test]
fn group_scrolls_left_and_retires_off_screen() {
    let cfg = Config::standard();
    let mut pg = PipeGroup::new(cfg);
    pg.reset(1800, 0);
    let mut updates: i64 = 0;
    while pg.alive {
        assert!(pg.position.x >= -16200); // alive only on screen
        assert!(pg.enabled);
        pg.update();
        updates += 1;
        assert!(updates < 1000);
    }
    // 1800 - 900 * k < -16200 first at k = 21.
    assert_eq!(updates, 21);
    assert_eq!(pg.position.x, 1800 - 21 * 900);
    assert!(!pg.alive);
    assert!(!pg.enabled);
    // A retired group stays retired and stops moving.
    let resting = pg.position;
    pg.update();
    assert!(!pg.alive && !pg.enabled);
    assert_eq!(pg.position, resting);
}

#[test]
fn disabled_group_does_not_move() {
    let cfg = Config::standard();
    let mut pg = PipeGroup::new(cfg);
    pg.reset(86400, 0);
    pg.enabled = false;
    pg.update();
    assert_eq!(pg.position.x, 86400);
}

#[test]
fn bird_box_hits_top_pipe() {
    let cfg = Config::standard();
    let mut pg = PipeGroup::new(cfg);
    pg.reset(21900, 48000); // anchor lands at (21900, 0)
    // The bird's box at its spawn x, level with the top pipe.
    let bird_box = Rectangle::new(30000, 75750, 10200, 7200);
    assert!(pg.collides_with(&bird_box));
}

#[test]
fn bird_box_passes_through_gap() {
    let cfg = Config::standard();
    let mut pg = PipeGroup::new(cfg);
    pg.reset(21900, 48000); // anchor lands at (21900, 0)
    // Locally the gap spans rows 96000..132000; a box whose relative y sits
    // inside it (with its height) touches neither pipe.
    let bird_box = Rectangle::new(30000, 113600, 10200, 7200);
    assert!(!pg.collides_with(&bird_box));
}

#[test]
fn bird_box_misses_distant_group() {
    let cfg = Config::standard();
    let mut pg = PipeGroup::new(cfg);
    pg.reset(86400, 0);
    let bird_box = Rectangle::new(30000, 75750, 10200, 7200);
    assert!(!pg.collides_with(&bird_box));
}

#[test]
fn generator_signals_every_eightieth_call() {
    let cfg = Config::standard();
    let mut gen = PipeGenerator::new(cfg);
    gen.start();
    for round in 0..3 {
        for call in 1..=80 {
            let fired = gen.should_spawn_pipe();
            assert_eq!(fired, call == 80, "round {} call {}", round, call);
        }
    }
}

#[test]
fn generator_never_signals_while_stopped() {
    let cfg = Config::standard();
    let mut gen = PipeGenerator::new(cfg);
    for _ in 0..200 {
        assert!(!gen.should_spawn_pipe());
    }
    assert_eq!(gen.counter, 0);
    // Stopping mid-count freezes the counter; restarting resumes it.
    gen.start();
    for _ in 0..30 {
        gen.should_spawn_pipe();
    }
    gen.stop();
    for _ in 0..100 {
        assert!(!gen.should_spawn_pipe());
    }
    assert_eq!(gen.counter, 30);
    gen.start();
    for call in 31..=80 {
        let fired = gen.should_spawn_pipe();
        assert_eq!(fired, call == 80);
    }
}
