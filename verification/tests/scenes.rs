use flappy::button::Button;
use flappy::config::Config;
use flappy::manager::SceneManager;
use flappy::physics::Vec2;
use flappy::scene::{InputState, Scene, Transition};
use flappy::scoreboard::Scoreboard;
use flappy::title::TitleScene;

fn no_input() -> InputState {
    InputState { mouse_down: false, mouse_position: Vec2::new(0, 0), escape_pressed: false }
}

fn click_at(x: i64, y: i64) -> InputState {
    InputState { mouse_down: true, mouse_position: Vec2::new(x, y), escape_pressed: false }
}

fn escape() -> InputState {
    InputState { mouse_down: false, mouse_position: Vec2::new(0, 0), escape_pressed: true }
}

#[test]
fn button_contains_is_edge_inclusive() {
    let b = Button::new(Vec2::new(1000, 2000), 200, 100);
    // Centered: the rectangle spans x 900..=1100, y 1950..=2050.
    assert!(b.contains(Vec2::new(900, 1950)));
    assert!(b.contains(Vec2::new(1100, 2050)));
    assert!(b.contains(Vec2::new(1000, 2000)));
    assert!(!b.contains(Vec2::new(899, 2000)));
    assert!(!b.contains(Vec2::new(1101, 2000)));
    assert!(!b.contains(Vec2::new(1000, 1949)));
    assert!(!b.contains(Vec2::new(1000, 2051)));
}

#[test]
fn scoreboard_medal_tiers() {
    let cfg = Config::standard();
    let mut board = Scoreboard::new(cfg, 100, 50);
    board.set_score(5, 5);
    assert_eq!(board.medal_tier(), 0);
    board.set_score(10, 10);
    assert_eq!(board.medal_tier(), 1);
    board.set_score(19, 19);
    assert_eq!(board.medal_tier(), 1);
    board.set_score(20, 20);
    assert_eq!(board.medal_tier(), 2);
}

#[test]
fn manager_starts_on_title() {
    let cfg = Config::standard();
    let m = SceneManager::new(cfg, 100, 50);
    assert_eq!(m.scenes.len(), 1);
    assert!(matches!(m.scenes.last(), Some(Scene::Title(_))));
}

#[test]
fn start_button_pushes_game_scene() {
    let cfg = Config::standard();
    let mut m = SceneManager::new(cfg, 100, 50);
    // The button starts latched down; release it, then click.  The start
    // button is centered at (43200, 90000).
    m.step(&no_input(), 0);
    let outcome = m.step(&click_at(43200, 90000), 0);
    assert!(!outcome.quit);
    assert_eq!(m.scenes.len(), 2);
    assert!(matches!(m.scenes.last(), Some(Scene::Game(_))));
}

#[test]
fn title_start_is_edge_triggered() {
    let cfg = Config::standard();
    let mut t = TitleScene::new(cfg, 100, 50);
    // The scene starts with the button latched down: a click already in
    // progress does not start the game.
    let tr = t.update(&click_at(43200, 90000));
    assert!(matches!(tr, Transition::Stay));
    // Release, then press again: only the down-transition starts it.
    let tr = t.update(&no_input());
    assert!(matches!(tr, Transition::Stay));
    let tr = t.update(&click_at(43200, 90000));
    assert!(matches!(tr, Transition::Push(_)));
    // Holding the button does not start a second game.
    let tr = t.update(&click_at(43200, 90000));
    assert!(matches!(tr, Transition::Stay));
}

#[test]
fn held_button_does_not_relaunch_after_pop() {
    let cfg = Config::standard();
    let mut m = SceneManager::new(cfg, 100, 50);
    m.step(&no_input(), 0);
    m.step(&click_at(43200, 90000), 0);
    assert_eq!(m.scenes.len(), 2);
    // Escape pops the game while the button is still held over the start
    // button: the title must not relaunch until a fresh down-transition.
    let held_escape = InputState {
        mouse_down: true,
        mouse_position: Vec2::new(43200, 90000),
        escape_pressed: true,
    };
    m.step(&held_escape, 0);
    assert_eq!(m.scenes.len(), 1);
    m.step(&click_at(43200, 90000), 0);
    assert_eq!(m.scenes.len(), 1); // still held: no push
    m.step(&no_input(), 0);
    m.step(&click_at(43200, 90000), 0);
    assert_eq!(m.scenes.len(), 2); // a new click starts a new game
}

#[test]
fn click_off_button_stays_on_title() {
    let cfg = Config::standard();
    let mut m = SceneManager::new(cfg, 100, 50);
    m.step(&no_input(), 0);
    m.step(&click_at(0, 0), 0);
    assert_eq!(m.scenes.len(), 1);
    assert!(matches!(m.scenes.last(), Some(Scene::Title(_))));
}

#[test]
fn escape_unwinds_stack_to_quit() {
    let cfg = Config::standard();
    let mut m = SceneManager::new(cfg, 100, 50);
    m.step(&no_input(), 0);
    m.step(&click_at(43200, 90000), 0);
    assert_eq!(m.scenes.len(), 2);
    // A quiet tick on the game scene changes nothing structural.
    let outcome = m.step(&no_input(), 0);
    assert!(!outcome.quit);
    assert_eq!(m.scenes.len(), 2);
    // Escape pops the game, then the title, then the stack reports quit.
    m.step(&escape(), 0);
    assert_eq!(m.scenes.len(), 1);
    assert!(matches!(m.scenes.last(), Some(Scene::Title(_))));
    m.step(&escape(), 0);
    assert_eq!(m.scenes.len(), 0);
    let last = m.step(&no_input(), 0);
    assert!(last.quit);
    assert_eq!(m.scenes.len(), 0);
}

#[test]
fn game_events_flow_through_manager() {
    let cfg = Config::standard();
    let mut m = SceneManager::new(cfg, 100, 50);
    m.step(&no_input(), 0);
    m.step(&click_at(43200, 90000), 0);
    // Release, then click: the game starts and the flap cue comes back
    // through the manager.
    m.step(&no_input(), 0);
    let outcome = m.step(&click_at(0, 0), 0);
    assert!(outcome.events.flap);
}
