//! Movement logic of a single tank on a unit grid: grid geometry, the
//! direction-buffering state machine that advances the tank once per tick,
//! and the session that drives it.

pub mod geometry;
pub mod runs;
pub mod session;
pub mod tank;

pub use geometry::{Direction, DrawRect, FillCommand, KeyCode, Paint, Point, Position, CELL_SIZE};
pub use runs::Event;
pub use session::{GameState, SCREEN_SIZE};
pub use tank::{Tank, TankModel};
