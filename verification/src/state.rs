//! The tracker as a mathematical value, and what each operation does to it.

use crate::entity::EntityId;
use crate::entity::ReactorId;
use crate::error::NotReactingError;
use vstd::prelude::*;

verus! {

/// A reaction that has been scheduled and has not started yet.
pub struct PreparedEntry<H> {
    /// The reactor that will run.
    pub reactor: ReactorId,
    /// The entity whose despawn the reactor will react to.
    pub source: EntityId,
    /// Keeps the reactor registered; released when the reaction ends.
    pub handle: H,
}

/// What a tracker holds.
///
/// `prepared` lists the waiting entries in the order in which the tracker
/// stores them. The order only decides which of several entries of one
/// reactor starts first.
#[verifier::ext_equal]
pub struct TrackerView<H> {
    /// The handle of the running reaction; `None` while no reaction runs.
    pub handle: Option<H>,
    /// The source of the running reaction. While none runs: the source of the
    /// last one, or the entity of row zero if there has been none.
    pub source: EntityId,
    /// The reactions that wait to start.
    pub prepared: Seq<PreparedEntry<H>>,
}

impl<H> TrackerView<H> {
    /// The tracker before anything has happened.
    pub open spec fn initial() -> Self {
        TrackerView { handle: None, source: EntityId::from_parts(0, 0), prepared: Seq::empty() }
    }

    /// A reaction is running.
    pub open spec fn is_reacting(self) -> bool {
        self.handle.is_some()
    }

    /// Some waiting entry belongs to `reactor`.
    pub open spec fn has_waiting(self, reactor: ReactorId) -> bool {
        exists|i: int| 0 <= i < self.prepared.len() && (#[trigger] self.prepared[i]).reactor == reactor
    }

    /// Entry `i` is the first waiting entry of `reactor`.
    pub open spec fn first_waiting_at(self, reactor: ReactorId, i: int) -> bool {
        &&& 0 <= i < self.prepared.len()
        &&& self.prepared[i].reactor == reactor
        &&& forall|j: int| 0 <= j < i ==> (#[trigger] self.prepared[j]).reactor != reactor
    }

    /// The position of the first waiting entry of `reactor`, if it has one.
    pub open spec fn first_waiting(self, reactor: ReactorId) -> int
        recommends
            self.has_waiting(reactor),
    {
        choose|i: int| self.first_waiting_at(reactor, i)
    }

    /// Every waiting entry of `reactor` names `source`.
    pub open spec fn waiting_agree(self, reactor: ReactorId, source: EntityId) -> bool {
        forall|i: int|
            0 <= i < self.prepared.len() && (#[trigger] self.prepared[i]).reactor == reactor
                ==> self.prepared[i].source == source
    }

    /// After `prepare`: one more entry waits, behind the others.
    pub open spec fn prepare(self, reactor: ReactorId, source: EntityId, handle: H) -> Self {
        TrackerView {
            prepared: self.prepared.push(PreparedEntry { reactor, source, handle }),
            ..self
        }
    }

    /// After entry `i` has left the waiting entries and become the running
    /// reaction. The last entry takes the place of the one that left.
    pub open spec fn activate(self, i: int) -> Self
        recommends
            0 <= i < self.prepared.len(),
    {
        TrackerView {
            handle: Some(self.prepared[i].handle),
            source: self.prepared[i].source,
            prepared: self.prepared.update(i, self.prepared.last()).drop_last(),
        }
    }

    /// After `start`: the first waiting entry of `reactor` runs. Without such
    /// an entry nothing changes.
    pub open spec fn start(self, reactor: ReactorId) -> Self {
        if self.has_waiting(reactor) {
            self.activate(self.first_waiting(reactor))
        } else {
            self
        }
    }

    /// After `end`: no reaction runs and no handle is held.
    pub open spec fn end(self) -> Self {
        TrackerView { handle: None, ..self }
    }

    /// What a reactor reads: the source of the running reaction, or an error
    /// while none runs.
    pub open spec fn read(self) -> Result<EntityId, NotReactingError> {
        if self.is_reacting() {
            Ok(self.source)
        } else {
            Err(NotReactingError)
        }
    }

    /// A reactor has at most one first waiting entry, and has one exactly
    /// when it has a waiting entry at all.
    pub proof fn lemma_first_waiting(self, reactor: ReactorId)
        ensures
            self.has_waiting(reactor) ==> self.first_waiting_at(reactor, self.first_waiting(reactor)),
            forall|i: int| self.first_waiting_at(reactor, i) ==> self.has_waiting(reactor) && i == self.first_waiting(reactor),
    {
        if self.has_waiting(reactor) {
            let k = choose|i: int| 0 <= i < self.prepared.len() && (#[trigger] self.prepared[i]).reactor == reactor;
            self.lemma_first_exists(reactor, k);
        }
        assert forall|i: int| self.first_waiting_at(reactor, i) implies self.has_waiting(reactor) && i == self.first_waiting(reactor) by {
            assert(self.first_waiting_at(reactor, self.first_waiting(reactor)));
        }
    }

    /// Below any entry of `reactor` there is a first one.
    proof fn lemma_first_exists(self, reactor: ReactorId, k: int)
        requires
            0 <= k < self.prepared.len(),
            self.prepared[k].reactor == reactor,
        ensures
            exists|i: int| self.first_waiting_at(reactor, i),
        decreases k,
    {
        if exists|j: int| 0 <= j < k && (#[trigger] self.prepared[j]).reactor == reactor {
            let j = choose|j: int| 0 <= j < k && (#[trigger] self.prepared[j]).reactor == reactor;
            self.lemma_first_exists(reactor, j);
        } else {
            assert(self.first_waiting_at(reactor, k));
        }
    }
}

} // verus!
