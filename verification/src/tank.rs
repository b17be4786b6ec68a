//! The tank and its direction-buffering state machine.
//!
//! Key presses arrive between ticks, possibly several per tick. A request is
//! checked against the heading last seen at a tick boundary, so that the tank
//! never turns back on itself, and at most one further request is held back
//! for the tick after.

use vstd::prelude::*;
use crate::geometry::{view_opt, Direction, FillCommand, KeyCode, Paint, Point, Position};

verus! {

/// The single controllable unit.
#[derive(Debug, PartialEq, Eq)]
pub struct Tank {
    /// Current position.
    pub pos: Position,
    /// Position staged by the previous tick's projection.
    pub next_pos: Option<Position>,
    /// `pos` as it was seen at an earlier tick boundary.
    pub last_known_position: Option<Position>,
    /// Current heading.
    pub direction: Direction,
    /// `direction` as it was seen at an earlier tick boundary.
    pub last_known_direction: Option<Direction>,
    /// A requested heading that has not taken effect yet.
    pub next_direction: Option<Direction>,
}

/// The mathematical value of a [`Tank`]: the same fields over unbounded
/// coordinates.
pub struct TankModel {
    pub pos: Point,
    pub next_pos: Option<Point>,
    pub last_known_position: Option<Point>,
    pub direction: Direction,
    pub last_known_direction: Option<Direction>,
    pub next_direction: Option<Direction>,
}

impl View for Tank {
    type V = TankModel;

    open spec fn view(&self) -> TankModel {
        TankModel {
            pos: self.pos@,
            next_pos: view_opt(self.next_pos),
            last_known_position: view_opt(self.last_known_position),
            direction: self.direction,
            last_known_direction: self.last_known_direction,
            next_direction: self.next_direction,
        }
    }
}

impl TankModel {
    /// A tank as constructed: nothing staged, no snapshot taken.
    pub open spec fn initial(pos: Point, direction: Direction) -> TankModel {
        TankModel {
            pos,
            next_pos: None,
            last_known_position: None,
            direction,
            last_known_direction: None,
            next_direction: None,
        }
    }

    /// The position has not changed since its snapshot and a projection is
    /// staged: the next tick commits that projection.
    pub open spec fn commits_staged_position(self) -> bool {
        self.last_known_position == Some(self.pos) && self.next_pos is Some
    }

    /// The heading has not changed since its snapshot and a request is
    /// staged: the next tick commits that request.
    pub open spec fn commits_staged_direction(self) -> bool {
        self.last_known_direction == Some(self.direction) && self.next_direction is Some
    }

    /// The position a tick settles on before it moves the tank forward.
    pub open spec fn committed_position(self, candidate: Point) -> Point {
        if self.last_known_position is None {
            self.pos
        } else if self.commits_staged_position() {
            self.next_pos->0
        } else {
            candidate
        }
    }

    /// The heading after a tick: a staged request takes effect if it is
    /// committed, or else if it does not reverse the current heading.
    pub open spec fn next_heading(self) -> Direction {
        match self.next_direction {
            Some(n) if self.commits_staged_direction() || n.spec_inverse() != self.direction => n,
            _ => self.direction,
        }
    }

    /// The state after one tick with the given candidate position.
    pub open spec fn advance(self, candidate: Point) -> TankModel {
        TankModel {
            pos: self.committed_position(candidate).step(self.next_heading()),
            next_pos: Some(candidate.step(self.direction)),
            last_known_position: if self.last_known_position is None
                || self.commits_staged_position() {
                self.last_known_position
            } else {
                Some(self.pos)
            },
            direction: self.next_heading(),
            last_known_direction: if self.last_known_direction is None
                || self.commits_staged_direction() {
                self.last_known_direction
            } else {
                Some(self.direction)
            },
            next_direction: None,
        }
    }

    /// Whether a tick with this candidate stays within machine coordinates.
    pub open spec fn can_advance(self, candidate: Point) -> bool {
        &&& candidate.step(self.direction).fits()
        &&& self.advance(candidate).pos.fits()
    }

    /// The state after a request for heading `dir`.
    pub open spec fn request(self, dir: Direction) -> TankModel {
        match self.last_known_direction {
            None => self,
            Some(seen) => if self.direction != seen && dir.spec_inverse() != self.direction {
                TankModel { next_direction: Some(dir), ..self }
            } else if dir.spec_inverse() != seen {
                TankModel { direction: dir, ..self }
            } else {
                self
            },
        }
    }

    /// The state after a key press.
    pub open spec fn press(self, key: KeyCode) -> TankModel {
        match Direction::spec_from_keycode(key) {
            Some(dir) => self.request(dir),
            None => self,
        }
    }

    /// The heading is not the reverse of the heading last seen at a tick
    /// boundary.
    pub open spec fn no_reversal(self) -> bool {
        match self.last_known_direction {
            Some(seen) => self.direction != seen.spec_inverse(),
            None => true,
        }
    }

    /// The invariant of the state machine: the heading does not reverse the
    /// one last seen, and a request is staged only while the heading already
    /// differs from the one last seen.
    pub open spec fn well_formed(self) -> bool {
        match self.last_known_direction {
            Some(seen) => {
                &&& self.direction != seen.spec_inverse()
                &&& self.next_direction is Some ==> self.direction != seen
            },
            None => true,
        }
    }
}

impl Tank {
    /// A tank at `pos` heading `direction`, with nothing staged and no
    /// snapshot taken.
    pub fn new(pos: Position, direction: Direction) -> (r: Tank)
        ensures
            r@ == TankModel::initial(pos@, direction),
            r.pos == pos,
            r@.well_formed(),
    {
        Tank {
            pos,
            last_known_position: None,
            next_direction: None,
            direction,
            last_known_direction: None,
            next_pos: None,
        }
    }

    /// What the renderer is to draw for this tank, in order: the body and
    /// then the turret, both filling the tank's grid cell.
    pub fn draw(&self) -> (r: (FillCommand, FillCommand))
        requires
            self.pos@.drawable(),
        ensures
            r.0 == (FillCommand { rect: self.pos@.draw_rect(), paint: Paint::Accent }),
            r.1 == (FillCommand { rect: self.pos@.draw_rect(), paint: Paint::Plain }),
            i32::MIN <= self.pos.x * 10 <= i32::MAX ==> r.0.rect.x == self.pos.x * 10,
            i32::MIN <= self.pos.y * 10 <= i32::MAX ==> r.0.rect.y == self.pos.y * 10,
    {
        let body = FillCommand { rect: self.pos.to_draw_rect(), paint: Paint::Accent };
        let turret = FillCommand { rect: self.pos.to_draw_rect(), paint: Paint::Plain };
        (body, turret)
    }

    /// Handles a key press. A key that is no arrow key changes nothing, and
    /// neither does any key before a heading snapshot exists. An arrow key
    /// is staged if a change of heading is already in flight and the request
    /// does not reverse the current heading; else it takes effect at once
    /// unless it reverses the heading last seen; else it is dropped.
    pub fn request_direction(&mut self, key: KeyCode)
        ensures
            final(self)@ == old(self)@.press(key),
            Direction::spec_from_keycode(key) is None ==> *final(self) == *old(self),
            old(self).last_known_direction is None ==> *final(self) == *old(self),
            final(self).pos == old(self).pos,
            final(self).next_pos == old(self).next_pos,
            final(self).last_known_position == old(self).last_known_position,
            final(self).last_known_direction == old(self).last_known_direction,
            old(self)@.well_formed() ==> final(self)@.well_formed(),
    {
        if let Some(dir) = Direction::from_keycode(key) {
            if let Some(seen) = self.last_known_direction {
                if self.direction != seen && dir.inverse() != self.direction {
                    self.next_direction = Some(dir);
                } else if dir.inverse() != seen {
                    self.direction = dir;
                }
            }
        }
    }

    /// Whether [`Tank::update`] may be called with `new_pos`: whether every
    /// position it computes can be held.
    pub fn can_update(&self, new_pos: Position) -> (ok: bool)
        ensures
            ok == self@.can_advance(new_pos@),
    {
        let committed = match self.last_known_position {
            Some(seen) => match self.next_pos {
                Some(staged) if seen == self.pos => staged,
                _ => new_pos,
            },
            None => self.pos,
        };
        let heading = match self.next_direction {
            Some(n) => {
                let commits = match self.last_known_direction {
                    Some(seen) => seen == self.direction,
                    None => false,
                };
                if commits || n.inverse() != self.direction {
                    n
                } else {
                    self.direction
                }
            },
            None => self.direction,
        };
        Position::can_move(new_pos, self.direction) && Position::can_move(committed, heading)
    }

    /// Advances the tank by one tick. The candidate position is supplied by
    /// the caller; the tank settles its position and heading from what was
    /// staged, stages the candidate's projection for the tick after, drops
    /// any pending request, and moves one step along its heading.
    pub fn update(&mut self, new_pos: Position)
        requires
            old(self)@.can_advance(new_pos@),
        ensures
            final(self)@ == old(self)@.advance(new_pos@),
            final(self).next_direction is None,
            old(self)@.well_formed() ==> final(self)@.well_formed(),
            old(self)@.well_formed() ==> final(self).direction != old(self).direction.spec_inverse(),
    {
        if let Some(seen) = self.last_known_position {
            match self.next_pos {
                Some(staged) if seen == self.pos => {
                    self.pos = staged;
                    self.next_pos = None;
                },
                _ => {
                    self.last_known_position = Some(self.pos);
                    self.pos = new_pos;
                },
            }
        }
        let projected = Position::new_move(new_pos, self.direction);

        self.next_pos = Some(projected);

        if let Some(seen) = self.last_known_direction {
            match self.next_direction {
                Some(staged) if seen == self.direction => {
                    self.direction = staged;
                    self.next_direction = None;
                },
                _ => {
                    self.last_known_direction = Some(self.direction);
                },
            }
        }

        if let Some(next_dir) = self.next_direction {
            if next_dir.inverse() != self.direction {
                self.direction = next_dir;
            }
        }

        self.next_direction = None;

        self.pos = Position::new_move(self.pos, self.direction);
    }
}

} // verus!
