//! Laws of the history subsystem, stated over the specification functions
//! that the executable contracts use and proved once and for all: the
//! recorder never re-records replayed events, every stored record carries
//! the batch's timestamp and slot, replay skips unspawned ghosts, and a run
//! of gap-free ticks replays a sorted store completely, each record exactly
//! once and in store order.

use vstd::prelude::*;
use crate::level_history::data::{
    EventRecord, EventSource, EventSourceMethods, GhostIdentifier, PlayerGhost, SetEntity,
};
use crate::level_history::systems::{due, recorded_records, replayed_events, resolved_entity};

verus! {

/// Record filtering: a batch in which every event is already tagged
/// `Replay` appends nothing to the store, so replayed events are never
/// re-recorded.
pub proof fn lemma_record_filters_replay<E: EventSourceMethods>(
    events: Seq<E>,
    slot: GhostIdentifier,
    timestamp: u64,
)
    requires
        forall|i: int|
            0 <= i < events.len() ==> events[i].spec_source() == EventSource::Replay,
    ensures
        recorded_records(events, slot, timestamp) == Seq::<EventRecord<E>>::empty(),
    decreases events.len(),
{
    if events.len() > 0 {
        assert(events.last().spec_source() == EventSource::Replay);
        assert forall|i: int|
            0 <= i < events.drop_last().len() implies events.drop_last()[i].spec_source()
            == EventSource::Replay by {
            assert(events.drop_last()[i] == events[i]);
        }
        lemma_record_filters_replay(events.drop_last(), slot, timestamp);
    }
}

/// Timestamp and slot assignment: every record one recording pass appends
/// carries exactly the batch's timestamp — the elapsed time minus the
/// attempt start — and the batch's slot, and is stored re-tagged `Replay`.
pub proof fn lemma_recorded_stamps<E: EventSourceMethods>(
    events: Seq<E>,
    slot: GhostIdentifier,
    timestamp: u64,
)
    ensures
        forall|i: int|
            0 <= i < recorded_records(events, slot, timestamp).len() ==> {
                let record = #[trigger] recorded_records(events, slot, timestamp)[i];
                record.timestamp == timestamp && record.ghost_slot == slot
                    && record.event.spec_source() == EventSource::Replay
            },
    decreases events.len(),
{
    if events.len() > 0 {
        lemma_recorded_stamps(events.drop_last(), slot, timestamp);
        if events.last().spec_source() == EventSource::Input {
            events.last().lemma_set_source(EventSource::Replay);
        }
    }
}

/// The feedback loop is closed: recording what the store itself holds — a
/// sequence of already-stored payloads — appends nothing, whatever slot and
/// timestamp the second pass would use.
pub proof fn lemma_record_replay_closed<E: EventSourceMethods>(
    events: Seq<E>,
    slot: GhostIdentifier,
    timestamp: u64,
    second_slot: GhostIdentifier,
    second_timestamp: u64,
)
    ensures
        recorded_records(
            recorded_records(events, slot, timestamp).map(
                |i: int, record: EventRecord<E>| record.event,
            ),
            second_slot,
            second_timestamp,
        ) == Seq::<EventRecord<E>>::empty(),
{
    let stored = recorded_records(events, slot, timestamp);
    let payloads = stored.map(|i: int, record: EventRecord<E>| record.event);
    lemma_recorded_stamps(events, slot, timestamp);
    assert forall|i: int|
        0 <= i < payloads.len() implies payloads[i].spec_source() == EventSource::Replay by {
        assert(payloads[i] == stored[i].event);
    }
    lemma_record_filters_replay(payloads, second_slot, second_timestamp);
}

/// A session whose clock never runs backwards keeps each store in
/// timestamp order: appending a batch stamped at or after every stored
/// timestamp preserves the order, so a full attempt's store satisfies the
/// premise of the completeness law below.
pub proof fn lemma_append_keeps_sorted<E: EventSourceMethods>(
    stored: Seq<EventRecord<E>>,
    events: Seq<E>,
    slot: GhostIdentifier,
    timestamp: u64,
)
    requires
        forall|i: int, j: int|
            0 <= i < j < stored.len() ==> stored[i].timestamp <= stored[j].timestamp,
        forall|i: int| 0 <= i < stored.len() ==> #[trigger] stored[i].timestamp <= timestamp,
    ensures
        forall|i: int, j: int|
            0 <= i < j < (stored + recorded_records(events, slot, timestamp)).len() ==> (stored
                + recorded_records(events, slot, timestamp))[i].timestamp <= (stored
                + recorded_records(events, slot, timestamp))[j].timestamp,
{
    lemma_recorded_stamps(events, slot, timestamp);
    let combined = stored + recorded_records(events, slot, timestamp);
    assert forall|i: int, j: int|
        0 <= i < j < combined.len() implies combined[i].timestamp <= combined[j].timestamp by {
        if j < stored.len() {
        } else if i < stored.len() {
            assert(combined[j] == recorded_records(events, slot, timestamp)[j - stored.len()]);
        } else {
            assert(combined[i] == recorded_records(events, slot, timestamp)[i - stored.len()]);
            assert(combined[j] == recorded_records(events, slot, timestamp)[j - stored.len()]);
        }
    }
}

/// Ghost resolution: when no record's slot resolves to a spawned entity,
/// a replay pass emits nothing — no error, no event.
pub proof fn lemma_replay_skips_unspawned<E: SetEntity>(
    records: Seq<EventRecord<E>>,
    ghosts: Seq<PlayerGhost>,
    end: int,
    delta: int,
)
    requires
        forall|i: int|
            0 <= i < records.len() ==> resolved_entity(ghosts, records[i].ghost_slot) is None,
    ensures
        replayed_events(records, ghosts, end, delta) == Seq::<E>::empty(),
    decreases records.len(),
{
    if records.len() > 0 {
        assert(resolved_entity(ghosts, records.last().ghost_slot) is None);
        assert forall|i: int|
            0 <= i < records.drop_last().len() implies resolved_entity(
            ghosts,
            records.drop_last()[i].ghost_slot,
        ) is None by {
            assert(records.drop_last()[i] == records[i]);
        }
        lemma_replay_skips_unspawned(records.drop_last(), ghosts, end, delta);
    }
}

/// The event a resolvable record is emitted as: its payload, aimed at the
/// entity its slot resolves to.
pub open spec fn emitted_event<E: SetEntity>(ghosts: Seq<PlayerGhost>, record: EventRecord<E>) -> E {
    record.event.spec_set_entity(resolved_entity(ghosts, record.ghost_slot)->0)
}

/// The emissions of the records whose timestamp lies in the window
/// `(lo, hi]`, in store order.
pub open spec fn window_filter<E: SetEntity>(
    records: Seq<EventRecord<E>>,
    ghosts: Seq<PlayerGhost>,
    lo: int,
    hi: int,
) -> Seq<E>
    decreases records.len(),
{
    if records.len() == 0 {
        Seq::empty()
    } else {
        let rest = window_filter(records.drop_last(), ghosts, lo, hi);
        if lo < records.last().timestamp <= hi {
            rest.push(emitted_event(ghosts, records.last()))
        } else {
            rest
        }
    }
}

/// On a store whose every slot is spawned, one replay pass emits exactly
/// the records of its window `(end - delta, end]`.
pub proof fn lemma_replay_is_window_filter<E: SetEntity>(
    records: Seq<EventRecord<E>>,
    ghosts: Seq<PlayerGhost>,
    end: int,
    delta: int,
)
    requires
        forall|i: int|
            0 <= i < records.len() ==> resolved_entity(ghosts, records[i].ghost_slot) is Some,
    ensures
        replayed_events(records, ghosts, end, delta) == window_filter(
            records,
            ghosts,
            end - delta,
            end,
        ),
    decreases records.len(),
{
    if records.len() > 0 {
        assert forall|i: int|
            0 <= i < records.drop_last().len() implies resolved_entity(
            ghosts,
            records.drop_last()[i].ghost_slot,
        ) is Some by {
            assert(records.drop_last()[i] == records[i]);
        }
        lemma_replay_is_window_filter(records.drop_last(), ghosts, end, delta);
        assert(resolved_entity(ghosts, records.last().ghost_slot) is Some);
        assert(due(records.last().timestamp, end, delta) == (end - delta < records.last().timestamp
            <= end));
    }
}

/// A window left of every record catches nothing.
proof fn lemma_window_filter_all_above<E: SetEntity>(
    records: Seq<EventRecord<E>>,
    ghosts: Seq<PlayerGhost>,
    lo: int,
    hi: int,
)
    requires
        forall|i: int| 0 <= i < records.len() ==> #[trigger] records[i].timestamp <= lo,
    ensures
        window_filter(records, ghosts, lo, hi) == Seq::<E>::empty(),
    decreases records.len(),
{
    if records.len() > 0 {
        assert forall|i: int|
            0 <= i < records.drop_last().len() implies records.drop_last()[i].timestamp
            <= lo by {
            assert(records.drop_last()[i] == records[i]);
        }
        lemma_window_filter_all_above(records.drop_last(), ghosts, lo, hi);
        assert(records.last().timestamp <= lo);
    }
}

/// On a store sorted by timestamp, adjacent windows catch adjacent slices:
/// splitting `(lo, hi]` at any point in between splits the emissions.
proof fn lemma_window_filter_split<E: SetEntity>(
    records: Seq<EventRecord<E>>,
    ghosts: Seq<PlayerGhost>,
    lo: int,
    mid: int,
    hi: int,
)
    requires
        lo <= mid <= hi,
        forall|i: int, j: int|
            0 <= i < j < records.len() ==> records[i].timestamp <= records[j].timestamp,
    ensures
        window_filter(records, ghosts, lo, hi) == window_filter(records, ghosts, lo, mid)
            + window_filter(records, ghosts, mid, hi),
    decreases records.len(),
{
    if records.len() == 0 {
        assert(window_filter(records, ghosts, lo, hi) =~= window_filter(records, ghosts, lo, mid)
            + window_filter(records, ghosts, mid, hi));
    } else {
        let rest = records.drop_last();
        assert forall|i: int, j: int|
            0 <= i < j < rest.len() implies rest[i].timestamp <= rest[j].timestamp by {
            assert(rest[i] == records[i] && rest[j] == records[j]);
        }
        lemma_window_filter_split(rest, ghosts, lo, mid, hi);
        let last = records.last();
        if last.timestamp <= mid {
            // everything in the store is at or below `mid`: the upper
            // window is empty, and the lower one decides alone
            assert forall|i: int| 0 <= i < records.len() implies records[i].timestamp <= mid by {
                if i < records.len() - 1 {
                    assert(records[i].timestamp <= records[records.len() - 1].timestamp);
                }
            }
            lemma_window_filter_all_above(records, ghosts, mid, hi);
            assert forall|i: int| 0 <= i < rest.len() implies rest[i].timestamp <= mid by {
                assert(rest[i] == records[i]);
            }
            lemma_window_filter_all_above(rest, ghosts, mid, hi);
            assert(window_filter(records, ghosts, lo, hi) =~= window_filter(
                records,
                ghosts,
                lo,
                mid,
            ) + window_filter(records, ghosts, mid, hi));
        } else {
            // the last record is above `mid`: it belongs to the upper
            // window if anywhere, and pushing it commutes with the split
            assert(window_filter(records, ghosts, lo, mid) == window_filter(
                rest,
                ghosts,
                lo,
                mid,
            ));
            if lo < last.timestamp <= hi {
                assert(window_filter(rest, ghosts, lo, mid) + window_filter(
                    rest,
                    ghosts,
                    mid,
                    hi,
                ).push(emitted_event(ghosts, last)) =~= (window_filter(rest, ghosts, lo, mid)
                    + window_filter(rest, ghosts, mid, hi)).push(emitted_event(ghosts, last)));
            }
        }
    }
}

/// The total time a run of tick deltas spans.
pub open spec fn sum_deltas(deltas: Seq<u64>) -> int
    decreases deltas.len(),
{
    if deltas.len() == 0 {
        0
    } else {
        deltas.first() + sum_deltas(deltas.drop_first())
    }
}

/// Everything a run of consecutive replay ticks emits, in tick order: the
/// first tick's window starts at `base` and extends by the first delta,
/// and each later tick's window starts where the previous one ended.
pub open spec fn replay_run<E: SetEntity>(
    records: Seq<EventRecord<E>>,
    ghosts: Seq<PlayerGhost>,
    deltas: Seq<u64>,
    base: int,
) -> Seq<E>
    decreases deltas.len(),
{
    if deltas.len() == 0 {
        Seq::empty()
    } else {
        replayed_events(records, ghosts, base + deltas.first(), deltas.first() as int)
            + replay_run(records, ghosts, deltas.drop_first(), base + deltas.first())
    }
}

/// A run of gap-free ticks catches exactly the records of its combined
/// window.
proof fn lemma_replay_run_covers<E: SetEntity>(
    records: Seq<EventRecord<E>>,
    ghosts: Seq<PlayerGhost>,
    deltas: Seq<u64>,
    base: int,
)
    requires
        forall|i: int|
            0 <= i < records.len() ==> resolved_entity(ghosts, records[i].ghost_slot) is Some,
        forall|i: int, j: int|
            0 <= i < j < records.len() ==> records[i].timestamp <= records[j].timestamp,
    ensures
        replay_run(records, ghosts, deltas, base) == window_filter(
            records,
            ghosts,
            base,
            base + sum_deltas(deltas),
        ),
    decreases deltas.len(),
{
    if deltas.len() == 0 {
        assert(window_filter(records, ghosts, base, base) =~= Seq::<E>::empty()) by {
            lemma_window_filter_empty_range(records, ghosts, base);
        }
    } else {
        let first = deltas.first() as int;
        lemma_replay_is_window_filter(records, ghosts, base + first, first);
        lemma_replay_run_covers(records, ghosts, deltas.drop_first(), base + first);
        assert(sum_deltas(deltas.drop_first()) >= 0) by {
            lemma_sum_deltas_nonneg(deltas.drop_first());
        }
        lemma_window_filter_split(
            records,
            ghosts,
            base,
            base + first,
            base + sum_deltas(deltas),
        );
    }
}

/// A run's span is never negative.
proof fn lemma_sum_deltas_nonneg(deltas: Seq<u64>)
    ensures
        sum_deltas(deltas) >= 0,
    decreases deltas.len(),
{
    if deltas.len() > 0 {
        lemma_sum_deltas_nonneg(deltas.drop_first());
    }
}

/// An empty window catches nothing.
proof fn lemma_window_filter_empty_range<E: SetEntity>(
    records: Seq<EventRecord<E>>,
    ghosts: Seq<PlayerGhost>,
    at: int,
)
    ensures
        window_filter(records, ghosts, at, at) == Seq::<E>::empty(),
    decreases records.len(),
{
    if records.len() > 0 {
        lemma_window_filter_empty_range(records.drop_last(), ghosts, at);
    }
}

/// A window around every record catches the whole store, in store order.
proof fn lemma_window_filter_all_inside<E: SetEntity>(
    records: Seq<EventRecord<E>>,
    ghosts: Seq<PlayerGhost>,
    lo: int,
    hi: int,
)
    requires
        forall|i: int| 0 <= i < records.len() ==> lo < #[trigger] records[i].timestamp <= hi,
    ensures
        window_filter(records, ghosts, lo, hi) == records.map(
            |i: int, record: EventRecord<E>| emitted_event(ghosts, record),
        ),
    decreases records.len(),
{
    let emit = |i: int, record: EventRecord<E>| emitted_event(ghosts, record);
    if records.len() == 0 {
        assert(window_filter(records, ghosts, lo, hi) =~= records.map(emit));
    } else {
        let rest = records.drop_last();
        assert forall|i: int| 0 <= i < rest.len() implies lo < #[trigger] rest[i].timestamp <= hi by {
            assert(rest[i] == records[i]);
        }
        lemma_window_filter_all_inside(rest, ghosts, lo, hi);
        assert(lo < records.last().timestamp <= hi);
        assert(rest.map(emit).push(emit(records.len() - 1, records.last())) =~= records.map(emit));
    }
}

/// Windowed replay completeness. Take a store sorted by timestamp, with
/// every timestamp positive and every ghost slot spawned, and a run of
/// ticks whose windows cover the store gap-free from the attempt start to
/// at least the last timestamp. The run emits exactly the store: each
/// record exactly once, in store order — which is timestamp order — during
/// the one tick whose window contains its timestamp.
pub proof fn lemma_windowed_replay_complete<E: SetEntity>(
    records: Seq<EventRecord<E>>,
    ghosts: Seq<PlayerGhost>,
    deltas: Seq<u64>,
)
    requires
        forall|i: int, j: int|
            0 <= i < j < records.len() ==> records[i].timestamp <= records[j].timestamp,
        forall|i: int|
            0 <= i < records.len() ==> resolved_entity(ghosts, records[i].ghost_slot) is Some,
        forall|i: int| 0 <= i < records.len() ==> 0 < #[trigger] records[i].timestamp,
        forall|i: int| 0 <= i < records.len() ==> #[trigger] records[i].timestamp <= sum_deltas(deltas),
    ensures
        replay_run(records, ghosts, deltas, 0) == records.map(
            |i: int, record: EventRecord<E>| emitted_event(ghosts, record),
        ),
{
    lemma_replay_run_covers(records, ghosts, deltas, 0);
    lemma_window_filter_all_inside(records, ghosts, 0, sum_deltas(deltas));
}

} // verus!
