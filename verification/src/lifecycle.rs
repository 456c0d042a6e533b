//! The life of a handle: not yet constructed, live, released. A handle only
//! ever moves forward through these, and through each at most once.

use vstd::prelude::*;

verus! {

/// Where a handle stands in its life.
#[derive(Clone, Copy, Debug, PartialEq, Eq, Structural)]
pub enum HandleState {
    /// Nothing has been constructed yet.
    Uninitialized,
    /// The handle owns a native image.
    Live,
    /// The handle has given its native image up.
    Released,
}

/// What can happen to a handle.
#[derive(Clone, Copy, Debug, PartialEq, Eq, Structural)]
pub enum HandleEvent {
    /// The native side produced an image.
    Constructed,
    /// The native side produced nothing.
    ConstructionFailed,
    /// The owner lets go of the handle.
    Dropped,
}

/// The state after `event`. Only a successful construction leaves
/// `Uninitialized`, only a drop leaves `Live`, and nothing leaves `Released`.
pub open spec fn next_state(state: HandleState, event: HandleEvent) -> HandleState {
    match (state, event) {
        (HandleState::Uninitialized, HandleEvent::Constructed) => HandleState::Live,
        (HandleState::Live, HandleEvent::Dropped) => HandleState::Released,
        _ => state,
    }
}

impl HandleState {
    /// The state after `event`.
    pub fn next(self, event: HandleEvent) -> (after: HandleState)
        ensures
            after == next_state(self, event),
    {
        match (self, event) {
            (HandleState::Uninitialized, HandleEvent::Constructed) => HandleState::Live,
            (HandleState::Live, HandleEvent::Dropped) => HandleState::Released,
            _ => self,
        }
    }
}

/// The state after a run of events.
pub open spec fn run(state: HandleState, events: Seq<HandleEvent>) -> HandleState
    decreases events.len(),
{
    if events.len() == 0 {
        state
    } else {
        next_state(run(state, events.drop_last()), events.last())
    }
}

/// How many times a run of events takes the handle from live to released.
pub open spec fn releases_in(state: HandleState, events: Seq<HandleEvent>) -> nat
    decreases events.len(),
{
    if events.len() == 0 {
        0
    } else {
        releases_in(state, events.drop_last()) + if run(state, events.drop_last()) is Live
            && events.last() is Dropped {
            1nat
        } else {
            0nat
        }
    }
}

/// Nothing leaves `Released`: whatever happens to a released handle, it
/// stays released.
pub proof fn lemma_released_is_final(events: Seq<HandleEvent>)
    ensures
        run(HandleState::Released, events) == HandleState::Released,
    decreases events.len(),
{
    if events.len() > 0 {
        lemma_released_is_final(events.drop_last());
    }
}

/// Whatever happens to a handle, it is released once at most: a run of events
/// takes it from live to released at most one time, and it ends released
/// exactly if it began so or was taken there.
pub proof fn lemma_released_at_most_once(state: HandleState, events: Seq<HandleEvent>)
    ensures
        releases_in(state, events) <= 1,
        run(state, events) is Released <==> state is Released || releases_in(state, events) == 1,
        state is Released ==> releases_in(state, events) == 0,
    decreases events.len(),
{
    if events.len() > 0 {
        lemma_released_at_most_once(state, events.drop_last());
    }
}

} // verus!
