//! The last known position of the pointer on the screen.
//!
//! A listener for global input events feeds every event it sees into a
//! [`CursorPosition`]; the window's move handler reads the latest position
//! from it. Only pointer movement changes what is kept.

use vstd::prelude::*;

verus! {

/// What a global input listener reports.
#[derive(Clone, Copy, Debug, PartialEq)]
pub enum PointerEvent<P> {
    /// The pointer moved to this position.
    MouseMove(P),
    /// A key, a button or the wheel: nothing that moves the pointer.
    Other,
}

/// The position that the pointer was last seen at.
#[derive(Clone, Copy, Debug, PartialEq)]
pub struct CursorPosition<P> {
    /// The position reported by the most recent move, or the starting
    /// position while there has been none.
    pub last: P,
}

/// The position kept after `event`, given that `last` was kept before.
pub open spec fn position_after<P>(last: P, event: PointerEvent<P>) -> P {
    match event {
        PointerEvent::MouseMove(position) => position,
        PointerEvent::Other => last,
    }
}

/// The position kept after all of `events`, first to last.
pub open spec fn position_after_all<P>(last: P, events: Seq<PointerEvent<P>>) -> P
    decreases events.len(),
{
    if events.len() == 0 {
        last
    } else {
        position_after(position_after_all(last, events.drop_last()), events.last())
    }
}

impl<P> CursorPosition<P> {
    /// A tracker that starts out at `origin`.
    pub fn new(origin: P) -> (cursor: CursorPosition<P>)
        ensures
            cursor.last == origin,
    {
        CursorPosition { last: origin }
    }

    /// Takes note of one event of the listener.
    pub fn observe(&mut self, event: PointerEvent<P>)
        ensures
            final(self).last == position_after(old(self).last, event),
    {
        match event {
            PointerEvent::MouseMove(position) => {
                self.last = position;
            },
            PointerEvent::Other => {},
        }
    }
}

impl<P: Copy> CursorPosition<P> {
    /// The last known position.
    pub fn latest(&self) -> (position: P)
        ensures
            position == self.last,
    {
        self.last
    }
}

/// After any run of events the tracker holds the position of the last move
/// among them, and the position it started with where none was a move.
pub proof fn lemma_tracks_last_move<P>(start: P, events: Seq<PointerEvent<P>>)
    ensures
        (forall|i: int| 0 <= i < events.len() ==> #[trigger] events[i] is Other)
            ==> position_after_all(start, events) == start,
        forall|i: int|
            #![trigger events[i]]
            0 <= i < events.len() && events[i] is MouseMove && (forall|j: int|
                i < j < events.len() ==> #[trigger] events[j] is Other) ==> position_after_all(
                start,
                events,
            ) == events[i]->MouseMove_0,
    decreases events.len(),
{
    if events.len() > 0 {
        let front = events.drop_last();
        lemma_tracks_last_move(start, front);
        assert forall|i: int|
            #![trigger events[i]]
            0 <= i < events.len() && events[i] is MouseMove && (forall|j: int|
                i < j < events.len() ==> #[trigger] events[j] is Other) implies position_after_all(
            start,
            events,
        ) == events[i]->MouseMove_0 by {
            if i < events.len() - 1 {
                assert(events[events.len() - 1] is Other);
                assert(front[i] == events[i]);
                assert forall|j: int| i < j < front.len() implies #[trigger] front[j] is Other by {
                    assert(front[j] == events[j]);
                }
            }
        }
        if forall|i: int| 0 <= i < events.len() ==> #[trigger] events[i] is Other {
            assert forall|i: int| 0 <= i < front.len() implies #[trigger] front[i] is Other by {
                assert(front[i] == events[i]);
            }
            assert(events[events.len() - 1] is Other);
        }
    }
}

} // verus!
