use region_capture::arena::{Arena, ConfigError, WallLocation, SUBUNITS};
use region_capture::geometry::Vec2;

#[test]
fn arena_is_a_square_about_the_origin() {
    let a = Arena::new(20, 30, 40).unwrap();
    assert_eq!(a.left, -300_000_000);
    assert_eq!(a.right, 300_000_000);
    assert_eq!(a.bottom, -300_000_000);
    assert_eq!(a.top, 300_000_000);
    assert_eq!(a.wall_thickness, 40_000_000);
    assert_eq!(a.width(), 600_000_000);
    assert_eq!(a.height(), 600_000_000);
}

#[test]
fn odd_grid_count_is_halved_downwards() {
    let a = Arena::new(20, 5, 40).unwrap();
    assert_eq!(a.left, -40 * SUBUNITS);
    assert_eq!(a.right, 40 * SUBUNITS);
}

#[test]
fn smallest_arena_has_a_positive_span() {
    let a = Arena::new(1, 2, 0).unwrap();
    assert_eq!(a.left, -1_000_000);
    assert_eq!(a.right, 1_000_000);
    assert_eq!(a.wall_thickness, 0);
    assert!(a.width() > 0);
}

#[test]
fn largest_arena_is_accepted() {
    let a = Arena::new(u16::MAX, u16::MAX, u16::MAX).unwrap();
    assert_eq!(a.right, 32767 * 65535 * 1_000_000);
    assert_eq!(a.left, -a.right);
    assert_eq!(a.wall_thickness, 65535 * 1_000_000);
}

#[test]
fn grid_count_of_one_has_no_span() {
    assert_eq!(Arena::new(20, 1, 40), Err(ConfigError::DegenerateSpan));
}

#[test]
fn grid_count_of_zero_has_no_span() {
    assert_eq!(Arena::new(20, 0, 40), Err(ConfigError::DegenerateSpan));
}

#[test]
fn brick_width_of_zero_has_no_span() {
    assert_eq!(Arena::new(0, 30, 40), Err(ConfigError::DegenerateSpan));
}

#[test]
fn walls_stand_on_the_midpoints_of_the_edges() {
    let a = Arena::new(20, 30, 40).unwrap();
    assert_eq!(WallLocation::Left.position(&a), Vec2 { x: -300_000_000, y: 0 });
    assert_eq!(WallLocation::Right.position(&a), Vec2 { x: 300_000_000, y: 0 });
    assert_eq!(WallLocation::Bottom.position(&a), Vec2 { x: 0, y: -300_000_000 });
    assert_eq!(WallLocation::Top.position(&a), Vec2 { x: 0, y: 300_000_000 });
}

#[test]
fn walls_are_lengthened_by_their_thickness() {
    let a = Arena::new(20, 30, 40).unwrap();
    assert_eq!(WallLocation::Left.size(&a), Vec2 { x: 40_000_000, y: 640_000_000 });
    assert_eq!(WallLocation::Right.size(&a), Vec2 { x: 40_000_000, y: 640_000_000 });
    assert_eq!(WallLocation::Bottom.size(&a), Vec2 { x: 640_000_000, y: 40_000_000 });
    assert_eq!(WallLocation::Top.size(&a), Vec2 { x: 640_000_000, y: 40_000_000 });
}

#[test]
fn wall_boxes_overlap_at_the_corners() {
    let a = Arena::new(20, 4, 40).unwrap();
    let left = WallLocation::Left.bounding_box(&a);
    let bottom = WallLocation::Bottom.bounding_box(&a);
    assert_eq!(left.min, Vec2 { x: -60_000_000, y: -60_000_000 });
    assert_eq!(left.max, Vec2 { x: -20_000_000, y: 60_000_000 });
    assert_eq!(bottom.min, Vec2 { x: -60_000_000, y: -60_000_000 });
    assert_eq!(bottom.max, Vec2 { x: 60_000_000, y: -20_000_000 });
    let right = WallLocation::Right.bounding_box(&a);
    let top = WallLocation::Top.bounding_box(&a);
    assert_eq!(right.min, Vec2 { x: 20_000_000, y: -60_000_000 });
    assert_eq!(right.max, Vec2 { x: 60_000_000, y: 60_000_000 });
    assert_eq!(top.min, Vec2 { x: -60_000_000, y: 20_000_000 });
    assert_eq!(top.max, Vec2 { x: 60_000_000, y: 60_000_000 });
}

#[test]
fn wall_without_thickness_is_a_line() {
    let a = Arena::new(20, 4, 0).unwrap();
    let left = WallLocation::Left.bounding_box(&a);
    assert_eq!(left.min, Vec2 { x: -40_000_000, y: -40_000_000 });
    assert_eq!(left.max, Vec2 { x: -40_000_000, y: 40_000_000 });
}
