//! What a reactor reads while it reacts to a despawn.

use crate::entity::EntityId;
use crate::error::NotReactingError;
use crate::state::TrackerView;
use crate::tracker::DespawnAccessTracker;
use vstd::prelude::*;

verus! {

/// Read access to the despawn that the running reactor reacts to.
///
/// It borrows the tracker for as long as the reactor's body runs and reads
/// only the running reaction.
pub struct DespawnEvent<'w, H> {
    tracker: &'w DespawnAccessTracker<H>,
}

impl<'w, H> View for DespawnEvent<'w, H> {
    type V = TrackerView<H>;

    /// What the borrowed tracker holds.
    closed spec fn view(&self) -> TrackerView<H> {
        self.tracker@
    }
}

impl<'w, H> DespawnEvent<'w, H> {
    /// Access to the running reaction of `tracker`.
    pub fn new(tracker: &'w DespawnAccessTracker<H>) -> (event: Self)
        ensures
            event@ == tracker@,
    {
        DespawnEvent { tracker }
    }

    /// The entity whose despawn the running reactor reacts to.
    ///
    /// Only for reactors that run in no other way than as a reaction to a
    /// despawn: the caller shows that a reaction is running.
    pub fn entity(&self) -> (entity: EntityId)
        requires
            self@.is_reacting(),
        ensures
            entity == self@.source,
    {
        self.get().unwrap()
    }

    /// The entity whose despawn the running reactor reacts to, or
    /// `NotReactingError` while no despawn reaction runs.
    pub fn get(&self) -> (read: Result<EntityId, NotReactingError>)
        ensures
            read == self@.read(),
    {
        if !self.tracker.is_reacting() {
            return Err(NotReactingError);
        }
        Ok(self.tracker.source())
    }

    /// True when there is nothing to read: exactly when `get` fails.
    pub fn is_empty(&self) -> (empty: bool)
        ensures
            empty == self@.read().is_err(),
            empty == !self@.is_reacting(),
    {
        self.get().is_err()
    }
}

} // verus!
