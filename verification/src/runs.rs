//! What holds of the state machine over whole runs of key presses and ticks.

use vstd::prelude::*;
use crate::geometry::{Direction, KeyCode, Point};
use crate::tank::TankModel;

verus! {

/// One input to the state machine.
pub enum Event {
    /// A key was pressed.
    Key(KeyCode),
    /// A tick occurred, with this candidate position.
    Tick(Point),
}

impl TankModel {
    /// The state after one event.
    pub open spec fn apply(self, event: Event) -> TankModel {
        match event {
            Event::Key(key) => self.press(key),
            Event::Tick(candidate) => self.advance(candidate),
        }
    }

    /// The state after a run of events, in order.
    pub open spec fn run(self, events: Seq<Event>) -> TankModel
        decreases events.len(),
    {
        if events.len() == 0 {
            self
        } else {
            self.run(events.drop_last()).apply(events.last())
        }
    }

    /// The state after a run of heading requests, in order, with no tick
    /// between them.
    pub open spec fn request_all(self, dirs: Seq<Direction>) -> TankModel
        decreases dirs.len(),
    {
        if dirs.len() == 0 {
            self
        } else {
            self.request_all(dirs.drop_last()).request(dirs.last())
        }
    }
}

/// A freshly constructed tank satisfies the invariant.
pub proof fn lemma_initial_well_formed(pos: Point, direction: Direction)
    ensures
        TankModel::initial(pos, direction).well_formed(),
{
}

/// A well-formed tank never has a heading that reverses the one last seen.
pub proof fn lemma_well_formed_no_reversal(t: TankModel)
    requires
        t.well_formed(),
    ensures
        t.no_reversal(),
{
}

/// A request keeps the invariant, and whatever heading it leaves is not the
/// reverse of the heading last seen.
pub proof fn lemma_request_keeps_invariant(t: TankModel, dir: Direction)
    requires
        t.well_formed(),
    ensures
        t.request(dir).well_formed(),
        t.request(dir).no_reversal(),
        t.request(dir).last_known_direction == t.last_known_direction,
{
}

/// A tick keeps the invariant, and the heading after it is not the reverse
/// of the heading before it.
pub proof fn lemma_advance_keeps_invariant(t: TankModel, candidate: Point)
    requires
        t.well_formed(),
    ensures
        t.advance(candidate).well_formed(),
        t.advance(candidate).no_reversal(),
        t.advance(candidate).direction != t.direction.spec_inverse(),
{
}

/// No run of key presses and ticks, in any order, leads a well-formed tank
/// to a heading that reverses the one last seen at a tick boundary.
pub proof fn lemma_run_no_reversal(t: TankModel, events: Seq<Event>)
    requires
        t.well_formed(),
    ensures
        t.run(events).well_formed(),
        t.run(events).no_reversal(),
    decreases events.len(),
{
    if events.len() > 0 {
        lemma_run_no_reversal(t, events.drop_last());
    }
}

/// Every tick leaves the request slot empty, so a request never outlives
/// the tick that follows it.
pub proof fn lemma_advance_clears_request(t: TankModel, candidate: Point)
    ensures
        t.advance(candidate).next_direction is None,
{
}

/// A tick moves the tank exactly one step, along the heading the tick ends
/// with, from the position it settled on.
pub proof fn lemma_advance_one_step(t: TankModel, candidate: Point)
    ensures
        t.advance(candidate).pos == t.committed_position(candidate).step(
            t.advance(candidate).direction,
        ),
{
}

/// While no change of heading is in flight, requests for the heading the
/// tank already has change nothing.
pub proof fn lemma_requests_for_current_heading(t: TankModel, dirs: Seq<Direction>)
    requires
        t.last_known_direction == Some(t.direction),
        forall|i: int| 0 <= i < dirs.len() ==> dirs[i] == t.direction,
    ensures
        t.request_all(dirs) == t,
    decreases dirs.len(),
{
    if dirs.len() > 0 {
        lemma_requests_for_current_heading(t, dirs.drop_last());
    }
}

/// While a change of heading is in flight, requests that do not reverse the
/// current heading only replace one another in the request slot: the
/// heading stays, and the last request is the one staged.
pub proof fn lemma_requests_in_flight(t: TankModel, dirs: Seq<Direction>)
    requires
        t.last_known_direction is Some,
        t.direction != t.last_known_direction->0,
        dirs.len() >= 1,
        forall|i: int| 0 <= i < dirs.len() ==> #[trigger] dirs[i].spec_inverse() != t.direction,
    ensures
        t.request_all(dirs) == (TankModel { next_direction: Some(dirs.last()), ..t }),
    decreases dirs.len(),
{
    let front = dirs.drop_last();
    if front.len() >= 1 {
        lemma_requests_in_flight(t, front);
    } else {
        assert(t.request_all(front) == t);
    }
}

/// Of two or more requests between two ticks, made while the heading is the
/// one last seen, the first to ask for a turn takes effect at once and the
/// last is staged for the next tick; those between leave no trace. The
/// requests are such that the first asks for a new heading without
/// reversing the current one, and none after it reverses the first.
pub proof fn lemma_single_queued_request(t: TankModel, dirs: Seq<Direction>)
    requires
        t.last_known_direction == Some(t.direction),
        dirs.len() >= 2,
        dirs[0] != t.direction,
        dirs[0] != t.direction.spec_inverse(),
        forall|i: int| 1 <= i < dirs.len() ==> #[trigger] dirs[i].spec_inverse() != dirs[0],
    ensures
        t.request_all(dirs) == (TankModel {
            direction: dirs[0],
            next_direction: Some(dirs.last()),
            ..t
        }),
{
    let first = seq![dirs[0]];
    let rest = dirs.subrange(1, dirs.len() as int);
    let turned = TankModel { direction: dirs[0], ..t };
    assert(first.drop_last() =~= Seq::<Direction>::empty());
    assert(t.request_all(first.drop_last()) == t);
    assert(t.request_all(first) == turned);
    lemma_request_all_split(t, first, rest);
    assert(first + rest =~= dirs);
    assert forall|i: int| 0 <= i < rest.len() implies #[trigger] rest[i].spec_inverse()
        != turned.direction by {
        assert(rest[i] == dirs[i + 1]);
    }
    lemma_requests_in_flight(turned, rest);
}

/// Requests made one after another compose: a run is its front followed by
/// its back.
pub proof fn lemma_request_all_split(t: TankModel, front: Seq<Direction>, back: Seq<Direction>)
    ensures
        t.request_all(front + back) == t.request_all(front).request_all(back),
    decreases back.len(),
{
    if back.len() == 0 {
        assert(front + back =~= front);
    } else {
        lemma_request_all_split(t, front, back.drop_last());
        assert((front + back).drop_last() =~= front + back.drop_last());
        assert((front + back).last() == back.last());
    }
}

/// The first tick after construction moves the tank one step along its
/// initial heading from its initial position, whatever the candidate. The
/// heading stays, and the tank is still without snapshots.
pub proof fn lemma_first_tick(pos: Point, direction: Direction, candidate: Point)
    ensures
        TankModel::initial(pos, direction).advance(candidate) == (TankModel {
            pos: pos.step(direction),
            next_pos: Some(candidate.step(direction)),
            ..TankModel::initial(pos, direction)
        }),
{
}

/// Until a heading snapshot exists, key presses change nothing.
pub proof fn lemma_press_before_snapshot(t: TankModel, key: KeyCode)
    requires
        t.last_known_direction is None,
    ensures
        t.press(key) == t,
{
}

/// A key that is no arrow key changes nothing.
pub proof fn lemma_press_other_key(t: TankModel, key: KeyCode)
    requires
        Direction::spec_from_keycode(key) is None,
    ensures
        t.press(key) == t,
{
}

} // verus!
