use region_capture::game::handle_score_update;
use region_capture::geometry::Vec2;
use region_capture::grid::{BrickColor, Grid};

#[test]
fn grid_has_one_more_cell_to_a_side_than_its_count() {
    let g = Grid::new(20, 4);
    assert_eq!(g.side(), 5);
    assert_eq!(g.len(), 25);
    assert_eq!(g.brick_width(), 20);
    assert_eq!(g.grid_count(), 4);
    let big = Grid::new(20, 30);
    assert_eq!(big.side(), 31);
    assert_eq!(big.len(), 961);
}

#[test]
fn grid_of_count_zero_has_one_cell() {
    let g = Grid::new(20, 0);
    assert_eq!(g.len(), 1);
    assert_eq!(g.owner(0), BrickColor::Red);
    assert_eq!(g.cell_center(0), Vec2 { x: 0, y: 0 });
}

#[test]
fn cells_right_of_the_center_column_start_blue() {
    let g = Grid::new(20, 4);
    for row in 0..5u16 {
        assert_eq!(g.owner(g.index_of(0, row)), BrickColor::Red);
        assert_eq!(g.owner(g.index_of(1, row)), BrickColor::Red);
        assert_eq!(g.owner(g.index_of(2, row)), BrickColor::Red);
        assert_eq!(g.owner(g.index_of(3, row)), BrickColor::Blue);
        assert_eq!(g.owner(g.index_of(4, row)), BrickColor::Blue);
    }
}

#[test]
fn initial_scores_follow_the_column_split() {
    let g = Grid::new(20, 4);
    assert_eq!(g.score(BrickColor::Red), 15);
    assert_eq!(g.score(BrickColor::Blue), 10);
    let big = Grid::new(20, 30);
    assert_eq!(big.score(BrickColor::Red), 496);
    assert_eq!(big.score(BrickColor::Blue), 465);
}

#[test]
fn grid_of_zero_width_bricks_is_all_red() {
    let g = Grid::new(0, 4);
    assert_eq!(g.score(BrickColor::Red), 25);
    assert_eq!(g.score(BrickColor::Blue), 0);
}

#[test]
fn cells_are_numbered_row_by_row() {
    let g = Grid::new(20, 4);
    assert_eq!(g.index_of(0, 0), 0);
    assert_eq!(g.index_of(4, 0), 4);
    assert_eq!(g.index_of(0, 1), 5);
    assert_eq!(g.index_of(3, 2), 13);
    assert_eq!(g.index_of(4, 4), 24);
}

#[test]
fn cell_centers_are_spaced_by_the_brick_width() {
    let g = Grid::new(20, 4);
    assert_eq!(g.cell_center(0), Vec2 { x: -40_000_000, y: -40_000_000 });
    assert_eq!(g.cell_center(7), Vec2 { x: 0, y: -20_000_000 });
    assert_eq!(g.cell_center(12), Vec2 { x: 0, y: 0 });
    assert_eq!(g.cell_center(13), Vec2 { x: 20_000_000, y: 0 });
    assert_eq!(g.cell_center(24), Vec2 { x: 40_000_000, y: 40_000_000 });
}

#[test]
fn odd_count_puts_the_extra_column_on_the_right() {
    let g = Grid::new(20, 5);
    assert_eq!(g.len(), 36);
    assert_eq!(g.cell_center(0), Vec2 { x: -40_000_000, y: -40_000_000 });
    assert_eq!(g.cell_center(35), Vec2 { x: 60_000_000, y: 60_000_000 });
    assert_eq!(g.score(BrickColor::Red), 18);
    assert_eq!(g.score(BrickColor::Blue), 18);
}

#[test]
fn cell_box_reaches_half_a_brick_to_each_side() {
    let g = Grid::new(20, 4);
    let b = g.cell_box(13);
    assert_eq!(b.min, Vec2 { x: 10_000_000, y: -10_000_000 });
    assert_eq!(b.max, Vec2 { x: 30_000_000, y: 10_000_000 });
}

#[test]
fn cell_box_of_an_odd_brick_width_is_exact() {
    let g = Grid::new(3, 2);
    let b = g.cell_box(8);
    assert_eq!(g.cell_center(8), Vec2 { x: 3_000_000, y: 3_000_000 });
    assert_eq!(b.min, Vec2 { x: 1_500_000, y: 1_500_000 });
    assert_eq!(b.max, Vec2 { x: 4_500_000, y: 4_500_000 });
}

#[test]
fn set_owner_changes_one_cell_only() {
    let mut g = Grid::new(20, 4);
    g.set_owner(13, BrickColor::Red);
    assert_eq!(g.owner(13), BrickColor::Red);
    assert_eq!(g.len(), 25);
    assert_eq!(g.score(BrickColor::Red), 16);
    assert_eq!(g.score(BrickColor::Blue), 9);
    for i in 0..25usize {
        if i != 13 {
            let expected = if i % 5 > 2 { BrickColor::Blue } else { BrickColor::Red };
            assert_eq!(g.owner(i), expected);
        }
    }
}

#[test]
fn set_owner_to_the_same_colour_changes_no_score() {
    let mut g = Grid::new(20, 4);
    g.set_owner(0, BrickColor::Red);
    assert_eq!(g.score(BrickColor::Red), 15);
    assert_eq!(g.score(BrickColor::Blue), 10);
}

#[test]
fn scores_add_up_to_the_number_of_cells() {
    let mut g = Grid::new(20, 6);
    g.set_owner(0, BrickColor::Blue);
    g.set_owner(48, BrickColor::Red);
    g.set_owner(20, BrickColor::Blue);
    let (red, blue) = handle_score_update(&g);
    assert_eq!(red + blue, 49);
    assert_eq!(red, g.score(BrickColor::Red));
    assert_eq!(blue, g.score(BrickColor::Blue));
    // 28 red and 21 blue at the start; one red cell lost, one blue cell lost,
    // and one blue cell given to blue again
    assert_eq!((red, blue), (28, 21));
}

#[test]
fn change_turns_a_colour_into_the_other() {
    let mut c = BrickColor::Red;
    c.change();
    assert_eq!(c, BrickColor::Blue);
    c.change();
    assert_eq!(c, BrickColor::Red);
    assert_eq!(BrickColor::Red.other(), BrickColor::Blue);
    assert_eq!(BrickColor::Blue.other(), BrickColor::Red);
}
