use pockettanks::{Direction, DrawRect, KeyCode, Position, CELL_SIZE};

#[test]
fn inverse_swaps_up_and_down() {
    assert_eq!(Direction::Up.inverse(), Direction::Down);
    assert_eq!(Direction::Down.inverse(), Direction::Up);
}

#[test]
fn inverse_swaps_left_and_right() {
    assert_eq!(Direction::Left.inverse(), Direction::Right);
    assert_eq!(Direction::Right.inverse(), Direction::Left);
}

#[test]
fn inverse_twice_is_identity() {
    for d in [Direction::Up, Direction::Down, Direction::Left, Direction::Right] {
        assert_eq!(d.inverse().inverse(), d);
        assert_ne!(d.inverse(), d);
    }
}

#[test]
fn from_keycode_maps_arrow_keys() {
    assert_eq!(Direction::from_keycode(KeyCode::Up), Some(Direction::Up));
    assert_eq!(Direction::from_keycode(KeyCode::Down), Some(Direction::Down));
    assert_eq!(Direction::from_keycode(KeyCode::Left), Some(Direction::Left));
    assert_eq!(Direction::from_keycode(KeyCode::Right), Some(Direction::Right));
}

#[test]
fn from_keycode_rejects_other_keys() {
    assert_eq!(Direction::from_keycode(KeyCode::Other), None);
}

#[test]
fn position_new_keeps_coordinates() {
    let p = Position::new(-3, 7);
    assert_eq!(p.x, -3);
    assert_eq!(p.y, 7);
    assert_eq!(p, Position { x: -3, y: 7 });
}

#[test]
fn new_move_right_is_diagonal() {
    assert_eq!(
        Position::new_move(Position::new(10, 10), Direction::Right),
        Position { x: 11, y: 11 }
    );
}

#[test]
fn new_move_up_changes_y_only() {
    assert_eq!(
        Position::new_move(Position::new(10, 10), Direction::Up),
        Position { x: 10, y: 9 }
    );
}

#[test]
fn new_move_down_changes_x_only() {
    assert_eq!(
        Position::new_move(Position::new(10, 10), Direction::Down),
        Position { x: 9, y: 10 }
    );
}

#[test]
fn new_move_left_is_diagonal() {
    assert_eq!(
        Position::new_move(Position::new(10, 10), Direction::Left),
        Position { x: 9, y: 9 }
    );
}

#[test]
fn new_move_is_deterministic() {
    let p = Position::new(-4, 25);
    for d in [Direction::Up, Direction::Down, Direction::Left, Direction::Right] {
        assert_eq!(Position::new_move(p, d), Position::new_move(p, d));
    }
}

#[test]
fn new_move_reaches_the_smallest_coordinate() {
    let p = Position::new(isize::MIN + 1, isize::MIN + 1);
    assert!(Position::can_move(p, Direction::Left));
    assert_eq!(
        Position::new_move(p, Direction::Left),
        Position { x: isize::MIN, y: isize::MIN }
    );
}

#[test]
fn can_move_at_the_smallest_coordinates() {
    let p = Position::new(isize::MIN, isize::MIN);
    assert!(!Position::can_move(p, Direction::Up));
    assert!(!Position::can_move(p, Direction::Down));
    assert!(!Position::can_move(p, Direction::Left));
    assert!(Position::can_move(p, Direction::Right));
}

#[test]
fn can_move_at_the_largest_coordinates() {
    let p = Position::new(isize::MAX, isize::MAX);
    assert!(Position::can_move(p, Direction::Up));
    assert!(Position::can_move(p, Direction::Down));
    assert!(Position::can_move(p, Direction::Left));
    assert!(!Position::can_move(p, Direction::Right));
}

#[test]
fn can_move_looks_at_the_axis_that_moves() {
    assert!(Position::can_move(Position::new(isize::MIN, 0), Direction::Up));
    assert!(!Position::can_move(Position::new(isize::MIN, 0), Direction::Down));
    assert!(Position::can_move(Position::new(0, isize::MIN), Direction::Down));
    assert!(!Position::can_move(Position::new(0, isize::MIN), Direction::Up));
    assert!(!Position::can_move(Position::new(0, isize::MIN), Direction::Left));
    assert!(!Position::can_move(Position::new(isize::MAX, 0), Direction::Right));
    assert!(!Position::can_move(Position::new(0, isize::MAX), Direction::Right));
}

#[test]
fn draw_rect_of_cell_ten_ten() {
    let r = Position::new(10, 10).to_draw_rect();
    assert_eq!(r, DrawRect { x: 100, y: 100, w: 10, h: 10 });
}

#[test]
fn draw_rect_scales_negative_cells() {
    let r = Position::new(-3, 0).to_draw_rect();
    assert_eq!(r, DrawRect { x: -30, y: 0, w: CELL_SIZE, h: CELL_SIZE });
}

#[test]
fn draw_rect_wraps_beyond_thirty_two_bits() {
    let p = Position::new(300_000_000, 1);
    if p.x.checked_mul(10).map_or(false, |v| i32::try_from(v).is_err()) {
        let r = p.to_draw_rect();
        assert_eq!(r, DrawRect { x: -1_294_967_296, y: 10, w: 10, h: 10 });
    }
}

#[test]
fn can_draw_bounds() {
    assert!(Position::new(10, 10).can_draw());
    assert!(Position::new(isize::MAX / 10, isize::MIN / 10).can_draw());
    assert!(!Position::new(isize::MAX / 10 + 1, 0).can_draw());
    assert!(!Position::new(0, isize::MIN / 10 - 1).can_draw());
    assert!(!Position::new(isize::MAX, isize::MAX).can_draw());
}
