//! What holds of every sequence of tracker operations.

use crate::entity::EntityId;
use crate::entity::ReactorId;
use crate::error::NotReactingError;
use crate::state::PreparedEntry;
use crate::state::TrackerView;
use vstd::prelude::*;

verus! {

/// Starting a reactor whose waiting entries all name `source`, and that has
/// one, makes it the running reaction with that source.
pub proof fn lemma_start_runs_waiting<H>(s: TrackerView<H>, reactor: ReactorId, source: EntityId)
    requires
        s.has_waiting(reactor),
        s.waiting_agree(reactor, source),
    ensures
        s.start(reactor).is_reacting(),
        s.start(reactor).source == source,
{
    s.lemma_first_waiting(reactor);
}

/// A reaction that is prepared and then started is the running reaction,
/// and its source is the one it was prepared with. This needs that no entry
/// of the same reactor with another source was waiting.
pub proof fn lemma_prepare_then_start<H>(
    s: TrackerView<H>,
    reactor: ReactorId,
    source: EntityId,
    handle: H,
)
    requires
        s.waiting_agree(reactor, source),
    ensures
        s.prepare(reactor, source, handle).start(reactor).is_reacting(),
        s.prepare(reactor, source, handle).start(reactor).source == source,
        s.prepare(reactor, source, handle).start(reactor).read() == Ok::<EntityId, NotReactingError>(source),
        !s.has_waiting(reactor) ==> s.prepare(reactor, source, handle).start(reactor).handle == Some(handle),
{
    let p = s.prepare(reactor, source, handle);
    let n = s.prepared.len() as int;
    assert(p.prepared[n].reactor == reactor);
    lemma_start_runs_waiting(p, reactor, source);
    if !s.has_waiting(reactor) {
        assert(p.first_waiting_at(reactor, n));
        p.lemma_first_waiting(reactor);
    }
}

/// Until it ends, the running reaction is not disturbed by reactions that
/// are prepared meanwhile.
pub proof fn lemma_prepare_keeps_reaction<H>(
    s: TrackerView<H>,
    reactor: ReactorId,
    source: EntityId,
    handle: H,
)
    ensures
        s.prepare(reactor, source, handle).handle == s.handle,
        s.prepare(reactor, source, handle).source == s.source,
        s.prepare(reactor, source, handle).read() == s.read(),
{
}

/// After `end` no reaction runs, whatever ran before; and while none runs,
/// `end` changes nothing.
pub proof fn lemma_end_stops_reaction<H>(s: TrackerView<H>)
    ensures
        !s.end().is_reacting(),
        !s.is_reacting() ==> s.end() == s,
{
}

/// Ending twice is ending once.
pub proof fn lemma_end_idempotent<H>(s: TrackerView<H>)
    ensures
        s.end().end() == s.end(),
{
}

/// Reading fails exactly while no reaction runs: before the first start,
/// and after every end.
pub proof fn lemma_read_needs_reaction<H>(s: TrackerView<H>)
    ensures
        s.read().is_err() == !s.is_reacting(),
        TrackerView::<H>::initial().read() == Err::<EntityId, NotReactingError>(NotReactingError),
        s.end().read() == Err::<EntityId, NotReactingError>(NotReactingError),
{
}

/// Starting a reactor that has no waiting entry changes nothing. If no
/// reaction ran before, none runs after.
pub proof fn lemma_start_unprepared<H>(s: TrackerView<H>, reactor: ReactorId)
    requires
        !s.has_waiting(reactor),
    ensures
        s.start(reactor) == s,
        !s.is_reacting() ==> !s.start(reactor).is_reacting(),
{
}

/// Preparing a reaction leaves the waiting entries of every reactor in
/// place, and adds one that names `source` to those of `reactor`.
pub proof fn lemma_prepare_keeps_waiting<H>(
    s: TrackerView<H>,
    reactor: ReactorId,
    source: EntityId,
    handle: H,
    other: ReactorId,
    other_source: EntityId,
)
    ensures
        s.prepare(reactor, source, handle).has_waiting(reactor),
        s.has_waiting(other) ==> s.prepare(reactor, source, handle).has_waiting(other),
        s.waiting_agree(other, other_source) && (other != reactor || other_source == source)
            ==> s.prepare(reactor, source, handle).waiting_agree(other, other_source),
{
    let p = s.prepare(reactor, source, handle);
    let n = s.prepared.len() as int;
    assert(p.prepared[n].reactor == reactor);
    if s.has_waiting(other) {
        let k = choose|k: int| 0 <= k < n && (#[trigger] s.prepared[k]).reactor == other;
        assert(p.prepared[k].reactor == other);
    }
    if s.waiting_agree(other, other_source) && (other != reactor || other_source == source) {
        assert forall|i: int| 0 <= i < p.prepared.len() && (#[trigger] p.prepared[i]).reactor == other
            implies p.prepared[i].source == other_source by {
            if i < n {
                assert(p.prepared[i] == s.prepared[i]);
            }
        }
    }
}

/// Starting one reactor takes none of the waiting entries of another.
pub proof fn lemma_start_keeps_waiting<H>(
    s: TrackerView<H>,
    reactor: ReactorId,
    other: ReactorId,
    other_source: EntityId,
)
    requires
        other != reactor,
    ensures
        s.has_waiting(other) ==> s.start(reactor).has_waiting(other),
        s.waiting_agree(other, other_source) ==> s.start(reactor).waiting_agree(other, other_source),
{
    s.lemma_first_waiting(reactor);
    if s.has_waiting(reactor) {
        let i = s.first_waiting(reactor);
        let t = s.start(reactor);
        let last = s.prepared.len() - 1;
        assert forall|j: int| 0 <= j < last implies #[trigger] t.prepared[j] == s.prepared[if j == i { last } else { j }] by {}
        if s.has_waiting(other) {
            let k = choose|k: int| 0 <= k < s.prepared.len() && (#[trigger] s.prepared[k]).reactor == other;
            let moved = if k == last { i } else { k };
            assert(t.prepared[moved].reactor == other);
        }
        if s.waiting_agree(other, other_source) {
            assert forall|j: int| 0 <= j < t.prepared.len() && (#[trigger] t.prepared[j]).reactor == other
                implies t.prepared[j].source == other_source by {
                assert(t.prepared[j] == s.prepared[if j == i { last } else { j }]);
            }
        }
    }
}

/// Preparing adds exactly one entry to the waiting entries, and starting a
/// reactor takes exactly one of them away: the one that runs. Counted
/// without regard to their order, all other entries stay.
pub proof fn lemma_waiting_entries_counted<H>(
    s: TrackerView<H>,
    reactor: ReactorId,
    source: EntityId,
    handle: H,
)
    ensures
        s.prepare(reactor, source, handle).prepared.to_multiset() == s.prepared.to_multiset().insert(
            PreparedEntry { reactor, source, handle },
        ),
        s.has_waiting(reactor) ==> {
            let started = s.prepared[s.first_waiting(reactor)];
            &&& started.reactor == reactor
            &&& s.start(reactor).handle == Some(started.handle)
            &&& s.start(reactor).source == started.source
            &&& s.prepared.to_multiset().count(started) > 0
            &&& s.start(reactor).prepared.to_multiset() == s.prepared.to_multiset().remove(started)
        },
{
    broadcast use vstd::seq_lib::group_to_multiset_ensures;

    s.lemma_first_waiting(reactor);
    if s.has_waiting(reactor) {
        let moved = s.prepared.update(s.first_waiting(reactor), s.prepared.last());
        assert(moved.drop_last() == moved.remove(moved.len() - 1));
    }
}

/// Ending a reaction leaves every waiting entry in place.
pub proof fn lemma_end_keeps_waiting<H>(s: TrackerView<H>)
    ensures
        s.end().prepared == s.prepared,
{
}

/// Two reactions that are prepared together do not disturb each other: the
/// one that starts first runs with its own source, and after it has ended
/// the other one starts and runs with its own. This needs that no entry of
/// either reactor with another source was waiting, and that the two are
/// different reactors or name the same source.
pub proof fn lemma_interleaved_reactions<H>(
    s: TrackerView<H>,
    first: ReactorId,
    first_source: EntityId,
    first_handle: H,
    second: ReactorId,
    second_source: EntityId,
    second_handle: H,
)
    requires
        s.waiting_agree(first, first_source),
        s.waiting_agree(second, second_source),
        first != second || first_source == second_source,
    ensures
        ({
            let both = s.prepare(first, first_source, first_handle).prepare(second, second_source, second_handle);
            let running = both.start(second);
            let next = running.end().start(first);
            &&& running.is_reacting()
            &&& running.source == second_source
            &&& next.is_reacting()
            &&& next.source == first_source
        }),
{
    let one = s.prepare(first, first_source, first_handle);
    let both = one.prepare(second, second_source, second_handle);
    lemma_prepare_keeps_waiting(s, first, first_source, first_handle, first, first_source);
    lemma_prepare_keeps_waiting(s, first, first_source, first_handle, second, second_source);
    lemma_prepare_keeps_waiting(one, second, second_source, second_handle, first, first_source);
    lemma_prepare_keeps_waiting(one, second, second_source, second_handle, second, second_source);
    lemma_start_runs_waiting(both, second, second_source);
    let running = both.start(second);
    let ended = running.end();
    if first != second {
        lemma_start_keeps_waiting(both, second, first, first_source);
    } else {
        // Both new entries belong to the one reactor: the first of its
        // entries has started, so the last of them still waits. Whatever
        // waits came from `both`, where all entries of the reactor agree.
        both.lemma_first_waiting(second);
        let i = both.first_waiting(second);
        let last = both.prepared.len() - 1;
        assert(both.prepared[last].reactor == first);
        assert(running.prepared[last - 1].reactor == first);
        assert forall|j: int| 0 <= j < running.prepared.len() && (#[trigger] running.prepared[j]).reactor == first
            implies running.prepared[j].source == first_source by {
            assert(running.prepared[j] == both.prepared[if j == i { last } else { j }]);
        }
    }
    assert(ended.prepared == running.prepared);
    lemma_start_runs_waiting(ended, first, first_source);
}

} // verus!
