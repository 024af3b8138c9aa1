use flappy::physics::{check_collision, Rectangle};

#[test]
fn overlap_basic() {
    let a = Rectangle::new(0, 0, 3000, 3000);
    let b = Rectangle::new(1500, 1500, 3000, 3000);
    assert!(check_collision(&a, &b));
    assert!(check_collision(&b, &a));
}

#[test]
fn overlap_symmetry_on_disjoint_boxes() {
    let a = Rectangle::new(0, 0, 3000, 3000);
    let b = Rectangle::new(9000, 9000, 3000, 3000);
    assert_eq!(check_collision(&a, &b), check_collision(&b, &a));
    assert!(!check_collision(&a, &b));
}

#[test]
fn overlap_self_non_degenerate() {
    let a = Rectangle::new(-500, 700, 10, 10);
    assert!(check_collision(&a, &a));
}

#[test]
fn touching_edges_do_not_overlap() {
    let a = Rectangle::new(0, 0, 1000, 1000);
    let right = Rectangle::new(1000, 0, 1000, 1000);
    let below = Rectangle::new(0, 1000, 1000, 1000);
    assert!(!check_collision(&a, &right));
    assert!(!check_collision(&right, &a));
    assert!(!check_collision(&a, &below));
    assert!(!check_collision(&below, &a));
}

#[test]
fn degenerate_box_overlaps_nothing_at_its_corner() {
    let point = Rectangle::new(500, 500, 0, 0);
    let a = Rectangle::new(0, 0, 1000, 1000);
    // A zero-size box strictly inside still satisfies the strict
    // inequalities against a fat box.
    assert!(check_collision(&point, &a));
    // But it never overlaps itself.
    assert!(!check_collision(&point, &point));
}
