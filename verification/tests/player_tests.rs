use region_capture::geometry::{Collision, Vec2};
use region_capture::grid::BrickColor;
use region_capture::player::{handle_move, Player, PLAYER_RADIUS, PLAYER_SPEED};

#[test]
fn red_starts_a_quarter_of_the_grid_from_the_left_wall() {
    let p = Player::new(BrickColor::Red, 20, 30);
    assert_eq!(p.color, BrickColor::Red);
    assert_eq!(p.position, Vec2 { x: -160_000_000, y: 0 });
    assert_eq!(p.heading, Vec2 { x: 100, y: 100 });
    assert_eq!(p.radius, 10_000_000);
}

#[test]
fn blue_starts_mirrored_about_the_center() {
    let p = Player::new(BrickColor::Blue, 20, 30);
    assert_eq!(p.color, BrickColor::Blue);
    assert_eq!(p.position, Vec2 { x: 160_000_000, y: 0 });
    assert_eq!(p.heading, Vec2 { x: -100, y: -100 });
    assert_eq!(p.radius, PLAYER_RADIUS);
}

#[test]
fn start_on_a_small_grid() {
    assert_eq!(Player::new(BrickColor::Red, 20, 4).position, Vec2 { x: -20_000_000, y: 0 });
    assert_eq!(Player::new(BrickColor::Blue, 20, 4).position, Vec2 { x: 20_000_000, y: 0 });
    assert_eq!(Player::new(BrickColor::Red, 20, 1).position, Vec2 { x: 0, y: 0 });
    assert_eq!(PLAYER_SPEED, 100);
}

#[test]
fn move_adds_heading_times_duration() {
    let mut p = Player::new(BrickColor::Red, 20, 30);
    assert!(p.can_advance(15_625));
    handle_move(&mut p, 15_625);
    assert_eq!(p.position, Vec2 { x: -158_437_500, y: 1_562_500 });
    assert_eq!(p.heading, Vec2 { x: 100, y: 100 });
    assert_eq!(p.radius, 10_000_000);
    assert_eq!(p.color, BrickColor::Red);
}

#[test]
fn move_of_no_duration_changes_nothing() {
    let mut p = Player::new(BrickColor::Blue, 20, 30);
    let before = p;
    handle_move(&mut p, 0);
    assert_eq!(p, before);
}

#[test]
fn move_follows_each_component_by_its_own_sign() {
    let mut p = Player {
        color: BrickColor::Blue,
        position: Vec2 { x: 5, y: -7 },
        heading: Vec2 { x: -3, y: 2 },
        radius: 1,
    };
    handle_move(&mut p, 1_000);
    assert_eq!(p.position, Vec2 { x: -2_995, y: 1_993 });
}

#[test]
fn one_second_at_full_speed_is_a_hundred_units() {
    let mut p = Player::new(BrickColor::Red, 20, 30);
    handle_move(&mut p, 1_000_000);
    assert_eq!(p.position, Vec2 { x: -60_000_000, y: 100_000_000 });
}

#[test]
fn cannot_advance_out_of_the_range() {
    let p = Player {
        color: BrickColor::Red,
        position: Vec2 { x: i64::MAX - 10, y: 0 },
        heading: Vec2 { x: 1, y: 0 },
        radius: 1,
    };
    assert!(p.can_advance(10));
    assert!(!p.can_advance(11));
    let q = Player {
        color: BrickColor::Red,
        position: Vec2 { x: 0, y: i64::MIN + 5 },
        heading: Vec2 { x: 0, y: -1 },
        radius: 1,
    };
    assert!(q.can_advance(5));
    assert!(!q.can_advance(6));
    let r = Player {
        color: BrickColor::Red,
        position: Vec2 { x: 0, y: 0 },
        heading: Vec2 { x: i64::MAX, y: i64::MIN + 1 },
        radius: 1,
    };
    assert!(r.can_advance(1));
    assert!(!r.can_advance(u32::MAX));
}

#[test]
fn advance_to_the_very_edge_of_the_range() {
    let mut p = Player {
        color: BrickColor::Red,
        position: Vec2 { x: i64::MAX - 10, y: i64::MIN + 20 },
        heading: Vec2 { x: 1, y: -2 },
        radius: 1,
    };
    handle_move(&mut p, 10);
    assert_eq!(p.position, Vec2 { x: i64::MAX, y: i64::MIN });
}

#[test]
fn hit_on_left_or_right_negates_the_horizontal_heading_only() {
    let mut p = Player::new(BrickColor::Red, 20, 30);
    p.reflect(Collision::Left);
    assert_eq!(p.heading, Vec2 { x: -100, y: 100 });
    p.reflect(Collision::Right);
    assert_eq!(p.heading, Vec2 { x: 100, y: 100 });
    assert_eq!(p.position, Vec2 { x: -160_000_000, y: 0 });
}

#[test]
fn hit_on_top_or_bottom_negates_the_vertical_heading_only() {
    let mut p = Player::new(BrickColor::Blue, 20, 30);
    p.reflect(Collision::Top);
    assert_eq!(p.heading, Vec2 { x: -100, y: 100 });
    p.reflect(Collision::Bottom);
    assert_eq!(p.heading, Vec2 { x: -100, y: -100 });
}

#[test]
fn well_formed_players_have_a_radius_and_a_heading_that_can_turn() {
    let good = Player::new(BrickColor::Red, 20, 30);
    assert!(good.is_well_formed());
    let negative = Player { radius: -1, ..good };
    assert!(!negative.is_well_formed());
    let stuck = Player { heading: Vec2 { x: i64::MIN, y: 0 }, ..good };
    assert!(!stuck.is_well_formed());
    let stuck_up = Player { heading: Vec2 { x: 0, y: i64::MIN }, ..good };
    assert!(!stuck_up.is_well_formed());
    let still = Player { heading: Vec2 { x: 0, y: 0 }, radius: 0, ..good };
    assert!(still.is_well_formed());
}

#[test]
fn bounding_circle_is_the_position_and_radius() {
    let p = Player::new(BrickColor::Red, 20, 30);
    let c = p.bounding_circle();
    assert_eq!(c.center, Vec2 { x: -160_000_000, y: 0 });
    assert_eq!(c.radius, 10_000_000);
}
