//! The tracker: the waiting reactions and the one that runs.

use crate::entity::entity_from_raw_u32;
use crate::entity::EntityId;
use crate::entity::ReactorId;
use crate::state::PreparedEntry;
use crate::state::TrackerView;
use vstd::prelude::*;

verus! {

/// The place of the running reaction.
struct ActiveSlot<H> {
    /// True while a reactor is reacting to a despawn.
    currently_reacting: bool,
    /// The source of the most recent reaction.
    reaction_source: EntityId,
    /// The handle of the running reaction. Dropping it lets the reactor be
    /// cleaned up.
    reactor_handle: Option<H>,
}

impl<H> ActiveSlot<H> {
    /// The flag is set exactly while a handle is held.
    #[verifier::type_invariant]
    spec fn flag_matches_handle(self) -> bool {
        self.currently_reacting == self.reactor_handle.is_some()
    }
}

/// Tracks the despawn reactions that wait to start and the one that runs.
///
/// `H` is the handle that keeps a reactor registered. The tracker owns the
/// handle of every waiting entry and of the running reaction, and releases a
/// handle only by dropping it.
pub struct DespawnAccessTracker<H> {
    /// The running reaction, if any.
    active: ActiveSlot<H>,
    /// The reactions that have been scheduled and have not started.
    prepared: Vec<PreparedEntry<H>>,
}

impl<H> View for DespawnAccessTracker<H> {
    type V = TrackerView<H>;

    closed spec fn view(&self) -> TrackerView<H> {
        TrackerView {
            handle: self.active.reactor_handle,
            source: self.active.reaction_source,
            prepared: self.prepared@,
        }
    }
}

impl<H> DespawnAccessTracker<H> {
    /// Registers a scheduled reaction: `reactor` will react to the despawn
    /// of `source`, and `handle` keeps it registered until its reaction ends.
    pub fn prepare(&mut self, reactor: ReactorId, source: EntityId, handle: H)
        ensures
            final(self)@ == old(self)@.prepare(reactor, source, handle),
    {
        self.prepared.push(PreparedEntry { reactor, source, handle });
    }

    /// The position of the first waiting entry of `reactor`.
    fn position(&self, reactor: ReactorId) -> (found: Option<usize>)
        ensures
            match found {
                Some(pos) => self@.first_waiting_at(reactor, pos as int),
                None => !self@.has_waiting(reactor),
            },
    {
        let mut pos: usize = 0;
        while pos < self.prepared.len()
            invariant
                pos <= self.prepared.len(),
                forall|j: int| 0 <= j < pos ==> (#[trigger] self.prepared@[j]).reactor != reactor,
            decreases self.prepared.len() - pos,
        {
            if self.prepared[pos].reactor == reactor {
                return Some(pos);
            }
            pos += 1;
        }
        None
    }

    /// Starts the reaction of `reactor`: its first waiting entry leaves the
    /// waiting entries and becomes the running reaction. Returns whether
    /// there was such an entry; without one nothing changes.
    pub fn start(&mut self, reactor: ReactorId) -> (started: bool)
        ensures
            started == old(self)@.has_waiting(reactor),
            final(self)@ == old(self)@.start(reactor),
            forall|i: int| old(self)@.first_waiting_at(reactor, i) ==> final(self)@ == old(self)@.activate(i),
    {
        proof {
            self@.lemma_first_waiting(reactor);
        }
        match self.position(reactor) {
            None => false,
            Some(pos) => {
                let entry = self.prepared.swap_remove(pos);
                self.active = ActiveSlot {
                    currently_reacting: true,
                    reaction_source: entry.source,
                    reactor_handle: Some(entry.handle),
                };
                true
            },
        }
    }

    /// Ends the running reaction and drops its handle. Does nothing while no
    /// reaction runs.
    pub fn end(&mut self)
        ensures
            final(self)@ == old(self)@.end(),
    {
        self.active = ActiveSlot {
            currently_reacting: false,
            reaction_source: self.active.reaction_source,
            reactor_handle: None,
        };
    }

    /// Whether a reactor is reacting to a despawn.
    pub fn is_reacting(&self) -> (reacting: bool)
        ensures
            reacting == self@.is_reacting(),
    {
        proof {
            use_type_invariant(&self.active);
        }
        self.active.currently_reacting
    }

    /// The source of the most recent reaction. It is the despawned entity
    /// that the running reactor reacts to, while one runs.
    pub fn source(&self) -> (source: EntityId)
        ensures
            source == self@.source,
    {
        self.active.reaction_source
    }
}

impl<H> Default for DespawnAccessTracker<H> {
    /// A tracker in which no reaction runs and none waits.
    fn default() -> (tracker: Self)
        ensures
            tracker@ == TrackerView::<H>::initial(),
    {
        DespawnAccessTracker {
            active: ActiveSlot {
                currently_reacting: false,
                reaction_source: entity_from_raw_u32(0u32).unwrap(),
                reactor_handle: None,
            },
            prepared: Vec::default(),
        }
    }
}

} // verus!
