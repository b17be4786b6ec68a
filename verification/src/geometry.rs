//! Grid coordinates, headings, and the pure functions between them.

use vstd::prelude::*;

verus! {

/// Edge length, in pixels, of the square drawn for one grid cell.
pub const CELL_SIZE: i32 = 10;

/// One of the four headings a unit can face.
#[derive(Clone, Copy, Debug, PartialEq, Eq, Structural)]
pub enum Direction {
    Up,
    Down,
    Left,
    Right,
}

/// A key press as the movement logic sees it: one of the four arrow keys, or
/// any other key.
#[derive(Clone, Copy, Debug, PartialEq, Eq, Structural)]
pub enum KeyCode {
    Up,
    Down,
    Left,
    Right,
    Other,
}

/// A grid coordinate over the unbounded integers: the mathematical value of
/// a [`Position`].
pub struct Point {
    pub x: int,
    pub y: int,
}

/// A grid coordinate (cells, not pixels).
#[derive(Clone, Copy, Debug, PartialEq, Eq, Structural)]
pub struct Position {
    pub x: isize,
    pub y: isize,
}

/// An axis-aligned rectangle in pixel space, given by its top-left corner
/// and its size.
#[derive(Clone, Copy, Debug, PartialEq, Eq, Structural)]
pub struct DrawRect {
    pub x: i32,
    pub y: i32,
    pub w: i32,
    pub h: i32,
}

/// The colour a rectangle is filled with.
#[derive(Clone, Copy, Debug, PartialEq, Eq, Structural)]
pub enum Paint {
    /// The accent colour, used for the body of a unit.
    Accent,
    /// The renderer's default colour.
    Plain,
}

/// One command for the renderer: fill `rect` with `paint`.
#[derive(Clone, Copy, Debug, PartialEq, Eq, Structural)]
pub struct FillCommand {
    pub rect: DrawRect,
    pub paint: Paint,
}

impl Direction {
    /// The heading turned by 180 degrees.
    pub open spec fn spec_inverse(self) -> Direction {
        match self {
            Direction::Up => Direction::Down,
            Direction::Down => Direction::Up,
            Direction::Left => Direction::Right,
            Direction::Right => Direction::Left,
        }
    }

    /// The heading an arrow key stands for; `None` for every other key.
    pub open spec fn spec_from_keycode(key: KeyCode) -> Option<Direction> {
        match key {
            KeyCode::Up => Some(Direction::Up),
            KeyCode::Down => Some(Direction::Down),
            KeyCode::Left => Some(Direction::Left),
            KeyCode::Right => Some(Direction::Right),
            KeyCode::Other => None,
        }
    }

    /// Returns the opposite heading: up and down swap, left and right swap.
    pub fn inverse(&self) -> (r: Direction)
        ensures
            r == self.spec_inverse(),
    {
        match *self {
            Direction::Up => Direction::Down,
            Direction::Down => Direction::Up,
            Direction::Left => Direction::Right,
            Direction::Right => Direction::Left,
        }
    }

    /// Resolves a key to the heading it requests, if it is an arrow key.
    pub fn from_keycode(key: KeyCode) -> (r: Option<Direction>)
        ensures
            r == Self::spec_from_keycode(key),
            r is None <==> key == KeyCode::Other,
    {
        match key {
            KeyCode::Up => Some(Direction::Up),
            KeyCode::Down => Some(Direction::Down),
            KeyCode::Left => Some(Direction::Left),
            KeyCode::Right => Some(Direction::Right),
            _ => None,
        }
    }
}

impl Point {
    /// The point one step from `self` along `d`. The offsets are not
    /// symmetric: up moves along y only, down along x only, left and right
    /// move diagonally.
    pub open spec fn step(self, d: Direction) -> Point {
        match d {
            Direction::Up => Point { x: self.x, y: self.y - 1 },
            Direction::Down => Point { x: self.x - 1, y: self.y },
            Direction::Left => Point { x: self.x - 1, y: self.y - 1 },
            Direction::Right => Point { x: self.x + 1, y: self.y + 1 },
        }
    }

    /// Whether both coordinates can be held by a [`Position`].
    pub open spec fn fits(self) -> bool {
        &&& isize::MIN <= self.x <= isize::MAX
        &&& isize::MIN <= self.y <= isize::MAX
    }

    /// Whether the pixel origin of this cell can be computed in machine
    /// integers.
    pub open spec fn drawable(self) -> bool {
        &&& isize::MIN <= self.x * 10 <= isize::MAX
        &&& isize::MIN <= self.y * 10 <= isize::MAX
    }

    /// The square that fills this grid cell on screen. Its origin is the
    /// point scaled by the cell size, reduced to 32 bits; its sides are one
    /// cell long.
    pub open spec fn draw_rect(self) -> DrawRect {
        DrawRect {
            x: (self.x * 10) as i32,
            y: (self.y * 10) as i32,
            w: CELL_SIZE,
            h: CELL_SIZE,
        }
    }
}

impl View for Position {
    type V = Point;

    open spec fn view(&self) -> Point {
        Point { x: self.x as int, y: self.y as int }
    }
}

/// The mathematical value of a position that may be absent.
pub open spec fn view_opt(p: Option<Position>) -> Option<Point> {
    match p {
        Some(q) => Some(q@),
        None => None,
    }
}

impl Position {
    pub fn new(x: isize, y: isize) -> (r: Position)
        ensures
            r == (Position { x, y }),
    {
        Position { x, y }
    }

    /// Whether a step from `pos` along `direction` stays within the
    /// coordinates a `Position` can hold.
    pub fn can_move(pos: Position, direction: Direction) -> (ok: bool)
        ensures
            ok == pos@.step(direction).fits(),
    {
        match direction {
            Direction::Up => pos.y > isize::MIN,
            Direction::Down => pos.x > isize::MIN,
            Direction::Left => pos.x > isize::MIN && pos.y > isize::MIN,
            Direction::Right => pos.x < isize::MAX && pos.y < isize::MAX,
        }
    }

    /// The position one step from `pos` along `direction`.
    pub fn new_move(pos: Position, direction: Direction) -> (r: Position)
        requires
            pos@.step(direction).fits(),
        ensures
            r@ == pos@.step(direction),
    {
        match direction {
            Direction::Up => Position::new(pos.x, pos.y - 1),
            Direction::Down => Position::new(pos.x - 1, pos.y),
            Direction::Left => Position::new(pos.x - 1, pos.y - 1),
            Direction::Right => Position::new(pos.x + 1, pos.y + 1),
        }
    }

    /// Whether [`Position::to_draw_rect`] may be called on this position.
    pub fn can_draw(self) -> (ok: bool)
        ensures
            ok == self@.drawable(),
    {
        self.x >= isize::MIN / 10 && self.x <= isize::MAX / 10 && self.y >= isize::MIN / 10
            && self.y <= isize::MAX / 10
    }

    /// The square that fills this grid cell on screen: its origin is the
    /// position scaled by the cell size, its sides are one cell long. An
    /// origin beyond the range of `i32` wraps around.
    pub fn to_draw_rect(self) -> (r: DrawRect)
        requires
            self@.drawable(),
        ensures
            r == self@.draw_rect(),
            i32::MIN <= self.x * 10 <= i32::MAX ==> r.x == self.x * 10,
            i32::MIN <= self.y * 10 <= i32::MAX ==> r.y == self.y * 10,
            r.w == 10,
            r.h == 10,
    {
        let px: isize = self.x * 10;
        let py: isize = self.y * 10;
        DrawRect {
            x: #[verifier::truncate] (px as i32),
            y: #[verifier::truncate] (py as i32),
            w: CELL_SIZE,
            h: CELL_SIZE,
        }
    }
}

} // verus!
