use flappy::bird::Bird;
use flappy::config::Config;

#[test]
fn new_bird_spawns_centered_and_inert() {
    let cfg = Config::standard();
    let bird = Bird::new(cfg);
    assert_eq!(bird.position.x, 30000); // 100 units
    assert_eq!(bird.position.y, 75750); // half of 505 units
    assert_eq!(bird.velocity.y, 0);
    assert!(!bird.allow_gravity);
    assert!(!bird.alive);
}

#[test]
fn flap_sets_exact_impulse_and_tween() {
    let cfg = Config::standard();
    let mut bird = Bird::new(cfg);
    bird.reset();
    bird.flap();
    assert_eq!(bird.velocity.y, -1950); // -6.5 units
    assert_eq!(bird.flap_counter, 6);
    // Rotation was 0, target is -300: distance 300 spread over 6 ticks.
    assert_eq!(bird.flap_delta, 50);
    // The tween rate times the countdown reproduces the distance exactly
    // here (300 divides evenly by 6).
    assert_eq!(bird.flap_delta * 6, 300);
}

#[test]
fn flap_on_dead_bird_is_a_no_op() {
    let cfg = Config::standard();
    let mut bird = Bird::new(cfg);
    bird.reset();
    bird.kill();
    let before = bird;
    bird.flap();
    assert_eq!(bird, before);
}

#[test]
fn kill_zeroes_upward_velocity_and_is_idempotent() {
    let cfg = Config::standard();
    let mut bird = Bird::new(cfg);
    bird.reset();
    bird.flap();
    assert!(bird.velocity.y < 0);
    bird.kill();
    assert_eq!(bird.velocity.y, 0);
    assert!(!bird.alive);
    let after_first = bird;
    bird.kill();
    assert_eq!(bird, after_first);
}

#[test]
fn kill_keeps_downward_velocity() {
    let cfg = Config::standard();
    let mut bird = Bird::new(cfg);
    bird.reset();
    bird.velocity.y = 400;
    bird.kill();
    assert_eq!(bird.velocity.y, 400);
    assert!(!bird.alive);
}

#[test]
fn gravity_gate_holds_bird_still() {
    let cfg = Config::standard();
    let mut bird = Bird::new(cfg);
    bird.reset();
    assert!(!bird.allow_gravity);
    let before = bird.position;
    for _ in 0..100 {
        bird.update();
    }
    assert_eq!(bird.position, before);
    assert_eq!(bird.velocity.y, 0);
}

#[test]
fn free_fall_matches_uniform_acceleration() {
    let cfg = Config::standard();
    let mut bird = Bird::new(cfg);
    bird.reset();
    bird.allow_gravity = true;
    let mut last_vy = bird.velocity.y;
    let mut last_y = bird.position.y;
    for _ in 0..30 {
        bird.update();
        // Velocity grows by exactly one gravity increment per tick.
        assert_eq!(bird.velocity.y, last_vy + 91); // 2730 / 30
        // Position integrates the velocity, so it strictly increases.
        assert!(bird.position.y > last_y);
        assert_eq!(bird.position.y, last_y + bird.velocity.y);
        last_vy = bird.velocity.y;
        last_y = bird.position.y;
    }
    // Closed form: y = y0 + (1 + 2 + ... + 30) * g.
    assert_eq!(bird.velocity.y, 30 * 91);
    assert_eq!(bird.position.y, 75750 + 465 * 91);
}

#[test]
fn ceiling_pins_bird_and_cuts_velocity() {
    let cfg = Config::standard();
    let mut bird = Bird::new(cfg);
    bird.reset();
    bird.allow_gravity = true;
    bird.position.y = 3700; // just under the 12-unit ceiling line
    bird.velocity.y = -1950; // rising fast
    bird.update();
    assert_eq!(bird.position.y, 3600); // pinned at 12 units
    assert_eq!(bird.velocity.y, 0);
}

#[test]
fn nose_dive_drift_raises_rotation() {
    let cfg = Config::standard();
    let mut bird = Bird::new(cfg);
    bird.reset();
    bird.allow_gravity = true;
    assert_eq!(bird.rotation, 0);
    bird.update();
    // No tween is running, so only the drift acts.
    assert_eq!(bird.rotation, 15); // 0.05 units
    // The drift stops at the nose-down limit.
    bird.rotation = 450;
    bird.update();
    assert_eq!(bird.rotation, 450);
}

#[test]
fn flap_tween_turns_bird_up_then_drift_resumes() {
    let cfg = Config::standard();
    let mut bird = Bird::new(cfg);
    bird.reset();
    bird.allow_gravity = true;
    bird.flap();
    // One tick: tween pulls rotation down by 50, drift adds 15 back.
    bird.update();
    assert_eq!(bird.rotation, -35);
    assert_eq!(bird.flap_counter, 5);
}
