//! A game session: one tank, driven by ticks and key presses.

use vstd::prelude::*;
use crate::geometry::{Direction, KeyCode, Point, Position};
use crate::tank::{Tank, TankModel};

verus! {

/// Width and height of the playing field, in pixels.
pub const SCREEN_SIZE: (usize, usize) = (480, 480);

/// The state of one session. It owns the only tank.
#[derive(Debug, PartialEq, Eq)]
pub struct GameState {
    pub tank: Tank,
}

impl GameState {
    /// Whether the tank is still driven: both of its coordinates lie below
    /// the size of the playing field.
    pub open spec fn driven(self) -> bool {
        self.tank.pos.x < 480 && self.tank.pos.y < 480
    }

    /// The candidate position a tick hands to the tank: ten cells further
    /// along both axes.
    pub open spec fn candidate(self) -> Point {
        Point { x: self.tank.pos.x + 10, y: self.tank.pos.y + 10 }
    }

    /// The tank after one tick of the session: advanced if it is driven,
    /// untouched if not.
    pub open spec fn after_tick(self) -> TankModel {
        if self.driven() {
            self.tank@.advance(self.candidate())
        } else {
            self.tank@
        }
    }

    /// The tank after a key event: a press that carries a key code is a
    /// request to the tank, one without is nothing.
    pub open spec fn after_key(self, keycode: Option<KeyCode>) -> TankModel {
        match keycode {
            Some(key) => self.tank@.press(key),
            None => self.tank@,
        }
    }

    /// Whether a tick of the session stays within machine coordinates.
    pub open spec fn tick_fits(self) -> bool {
        self.driven() ==> self.tank@.can_advance(self.candidate())
    }

    /// What holds of a session from its start on: the tank has taken no
    /// snapshot and holds no request, it heads right, and it sits on the
    /// diagonal between its starting cell and the edge of the field.
    pub open spec fn on_course(self) -> bool {
        &&& self.tank.last_known_position is None
        &&& self.tank.last_known_direction is None
        &&& self.tank.next_direction is None
        &&& self.tank.direction == Direction::Right
        &&& self.tank.pos.x == self.tank.pos.y
        &&& 10 <= self.tank.pos.x <= 480
    }

    /// Such a session can always tick, and its tank can always be drawn.
    pub proof fn lemma_on_course_can_tick(self)
        requires
            self.on_course(),
        ensures
            self.tick_fits(),
            self.tank.pos@.drawable(),
    {
    }

    /// A session with its tank at cell (10, 10), heading right.
    pub fn new() -> (r: GameState)
        ensures
            r.tank@ == TankModel::initial((Point { x: 10, y: 10 }), Direction::Right),
            r.on_course(),
    {
        let pos = Position::new(10, 10);
        let tank = Tank::new(pos, Direction::Right);
        GameState { tank }
    }

    /// Whether [`GameState::tick`] may be called in this state.
    pub fn can_tick(&self) -> (ok: bool)
        ensures
            ok == self.tick_fits(),
    {
        if self.tank.pos.x < SCREEN_SIZE.0 as isize && self.tank.pos.y < SCREEN_SIZE.1 as isize {
            self.tank.can_update(
                Position { x: self.tank.pos.x + 10, y: self.tank.pos.y + 10 },
            )
        } else {
            true
        }
    }

    /// One tick of the simulation: while the tank is within the playing
    /// field it is advanced, with its own position moved ten cells along
    /// both axes as the candidate; beyond the field it rests.
    pub fn tick(&mut self)
        requires
            old(self).tick_fits(),
        ensures
            final(self).tank@ == old(self).after_tick(),
            !old(self).driven() ==> *final(self) == *old(self),
            old(self).tank@.well_formed() ==> final(self).tank@.well_formed(),
            old(self).on_course() ==> final(self).on_course(),
    {
        if self.tank.pos.x < SCREEN_SIZE.0 as isize && self.tank.pos.y < SCREEN_SIZE.1 as isize {
            let candidate = Position { x: self.tank.pos.x + 10, y: self.tank.pos.y + 10 };
            self.tank.update(candidate);
        }
    }

    /// A key went down. A press that carries no key code is ignored; any
    /// other is handed to the tank as a request for a heading.
    pub fn key_down_event(&mut self, keycode: Option<KeyCode>)
        ensures
            final(self).tank@ == old(self).after_key(keycode),
            keycode is None ==> *final(self) == *old(self),
            old(self).tank@.well_formed() ==> final(self).tank@.well_formed(),
            old(self).on_course() ==> *final(self) == *old(self),
    {
        if let Some(key) = keycode {
            self.tank.request_direction(key);
        }
    }
}

} // verus!
