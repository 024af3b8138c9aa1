use flappy::background::Background;
use flappy::config::Config;
use flappy::ground::Ground;
use flappy::scroll::ScrollLayer;

#[test]
fn layer_single_update_wraps() {
    // The forest layer of the standard game: speed 675, tile width 100500.
    let mut layer = ScrollLayer::new(675, 100500);
    layer.update();
    assert_eq!(layer.offset, 99825); // (0 - 675) mod 100500
}

#[test]
fn layer_offset_matches_closed_form() {
    let mut layer = ScrollLayer::new(675, 100500);
    let n: i64 = 149;
    for _ in 0..n {
        layer.update();
    }
    let expected = ((0 - n * 675) % 100500 + 100500) % 100500;
    assert_eq!(layer.offset, expected);
    assert_eq!(layer.offset, 100425);
}

#[test]
fn layer_offset_always_in_range() {
    let mut layer = ScrollLayer::new(900, 100500);
    for _ in 0..500 {
        layer.update();
        assert!(0 <= layer.offset && layer.offset < layer.width);
    }
}

#[test]
fn background_parallax_speeds() {
    let cfg = Config::standard();
    let bg = Background::new(cfg);
    assert_eq!(bg.forest.speed, 675); // three quarters of 900
    assert_eq!(bg.cityscape.speed, 450); // half
    assert_eq!(bg.cloud.speed, 225); // a quarter
    assert_eq!(bg.forest.width, 100500);
    assert_eq!(bg.cityscape.width, 90000);
    assert_eq!(bg.cloud.width, 105600);
}

#[test]
fn background_freezes_when_scroll_off() {
    let cfg = Config::standard();
    let mut bg = Background::new(cfg);
    bg.update();
    let after_one = (bg.forest.offset, bg.cityscape.offset, bg.cloud.offset);
    bg.scroll = false;
    bg.update();
    bg.update();
    assert_eq!((bg.forest.offset, bg.cityscape.offset, bg.cloud.offset), after_one);
}

#[test]
fn ground_scrolls_at_field_speed() {
    let cfg = Config::standard();
    let mut ground = Ground::new(cfg);
    ground.update();
    assert_eq!(ground.layer.offset, 99600); // (0 - 900) mod 100500
    ground.scroll = false;
    ground.update();
    assert_eq!(ground.layer.offset, 99600);
}
