//! The cache over time: what holds of whole runs of frames and registrations,
//! stated over the mathematical state of the cache.

use crate::buffs::SingleBuffConfig;
use crate::cache::{displayed, lemma_displayed_entries, shown, CacheState, TICK};
use crate::compat::{AdapterError, MyBoons};
use vstd::prelude::*;

verus! {

/// One thing that happens to a cache.
pub enum Event {
    /// A frame at `now`. `polled` is what the data source gives if it is asked
    /// in this frame.
    Frame { now: u64, polled: Result<Seq<MyBoons>, AdapterError> },
    /// A configuration is registered.
    Watch { config: SingleBuffConfig },
}

impl Event {
    /// Whether the data source is asked when this event meets `state`.
    pub open spec fn polls(self, state: CacheState) -> bool {
        match self {
            Event::Frame { now, polled } => state.due(now),
            Event::Watch { config } => false,
        }
    }

    /// The state that this event leaves behind.
    pub open spec fn after(self, state: CacheState) -> CacheState {
        match self {
            Event::Frame { now, polled } => state.refreshed(now, polled),
            Event::Watch { config } => state.watching(config),
        }
    }

    /// A frame that lies less than one interval after the last poll of
    /// `state`, or a registration.
    pub open spec fn within_interval(self, state: CacheState) -> bool {
        match self {
            Event::Frame { now, polled } => state.elapsed(now) < TICK,
            Event::Watch { config } => true,
        }
    }

    /// A frame in which the data source, if asked, gives `snapshot`.
    pub open spec fn gives(self, snapshot: Seq<MyBoons>) -> bool {
        match self {
            Event::Frame { now, polled } => polled == Ok::<Seq<MyBoons>, AdapterError>(snapshot),
            Event::Watch { config } => false,
        }
    }

    /// The time of a frame; zero for a registration.
    pub open spec fn time(self) -> int {
        match self {
            Event::Frame { now, polled } => now as int,
            Event::Watch { config } => 0,
        }
    }
}

/// The state after all of `events`, in their order.
pub open spec fn run(state: CacheState, events: Seq<Event>) -> CacheState
    decreases events.len(),
{
    if events.len() == 0 {
        state
    } else {
        events.last().after(run(state, events.drop_last()))
    }
}

/// How often the data source is asked in the course of `events`.
pub open spec fn poll_count(state: CacheState, events: Seq<Event>) -> nat
    decreases events.len(),
{
    if events.len() == 0 {
        0
    } else {
        let earlier = poll_count(state, events.drop_last());
        if events.last().polls(run(state, events.drop_last())) {
            earlier + 1
        } else {
            earlier
        }
    }
}

/// Every event is a frame.
pub open spec fn frames_only(events: Seq<Event>) -> bool {
    forall|i: int| 0 <= i < events.len() ==> (#[trigger] events[i]) is Frame
}

/// The first frame lies at least one interval after the last poll of `state`,
/// and every later frame at least one interval after the frame before it.
pub open spec fn spaced_out(state: CacheState, events: Seq<Event>) -> bool {
    &&& events.len() > 0 ==> events[0].time() - state.last_poll >= TICK
    &&& forall|i: int|
        0 < i < events.len() ==> (#[trigger] events[i]).time() - events[i - 1].time() >= TICK
}

/// The list built from the last frame of `events` whose poll gave a snapshot;
/// `fallback` where no frame did.
pub open spec fn latest_decode(
    fallback: Seq<SingleBuffConfig>,
    registry: Map<u32, SingleBuffConfig>,
    events: Seq<Event>,
) -> Seq<SingleBuffConfig>
    decreases events.len(),
{
    if events.len() == 0 {
        fallback
    } else {
        match events.last() {
            Event::Frame { now, polled: Ok(snapshot) } => displayed(registry, snapshot),
            _ => latest_decode(fallback, registry, events.drop_last()),
        }
    }
}

/// Whatever happens to a well-formed state, it stays well-formed.
pub proof fn lemma_run_wf(state: CacheState, events: Seq<Event>)
    requires
        state.wf(),
    ensures
        run(state, events).wf(),
    decreases events.len(),
{
    if events.len() > 0 {
        lemma_run_wf(state, events.drop_last());
        let before = run(state, events.drop_last());
        match events.last() {
            Event::Frame { now, polled } => {
                crate::cache::lemma_refreshed_wf(before, now, polled);
            },
            Event::Watch { config } => {
                crate::cache::lemma_watching_wf(before, config);
            },
        }
    }
}

/// Frames that all lie less than one interval after the last poll never ask
/// the data source, and the displayed list and the time of the last poll stay
/// what they were, through the whole burst and whatever the source would have
/// given. Registrations in between change the registry alone.
pub proof fn lemma_burst_reuses(state: CacheState, events: Seq<Event>)
    requires
        forall|i: int| 0 <= i < events.len() ==> (#[trigger] events[i]).within_interval(state),
    ensures
        poll_count(state, events) == 0,
        run(state, events).output == state.output,
        run(state, events).last_poll == state.last_poll,
        run(state, events).available == state.available,
        frames_only(events) ==> run(state, events) == state,
    decreases events.len(),
{
    if events.len() > 0 {
        let earlier = events.drop_last();
        assert forall|i: int| 0 <= i < earlier.len() implies (#[trigger] earlier[i]).within_interval(
            state,
        ) by {
            assert(earlier[i] == events[i]);
        }
        lemma_burst_reuses(state, earlier);
        let before = run(state, earlier);
        assert(events.last() == events[events.len() - 1]);
        assert(events.last().within_interval(state));
        if frames_only(events) {
            assert forall|i: int| 0 <= i < earlier.len() implies (#[trigger] earlier[i]) is Frame by {
                assert(earlier[i] == events[i]);
            }
        }
    }
}

/// With a source that can be polled, frames that lie at least one interval
/// apart ask the source once each. After them the displayed list is the one
/// built from the last snapshot that a poll gave, or the list from before
/// where every poll failed, and the last poll is the last frame.
pub proof fn lemma_spaced_frames_poll(state: CacheState, events: Seq<Event>)
    requires
        state.available,
        frames_only(events),
        spaced_out(state, events),
    ensures
        poll_count(state, events) == events.len(),
        forall|i: int|
            0 <= i < events.len() ==> (#[trigger] events[i]).polls(run(state, events.take(i))),
        run(state, events).output == latest_decode(state.output, state.registry, events),
        run(state, events).registry == state.registry,
        run(state, events).available,
        events.len() > 0 ==> run(state, events).last_poll == events.last().time(),
    decreases events.len(),
{
    if events.len() > 0 {
        let earlier = events.drop_last();
        let n = events.len() - 1;
        assert forall|i: int| 0 <= i < earlier.len() implies (#[trigger] earlier[i]) is Frame by {
            assert(earlier[i] == events[i]);
        }
        assert(spaced_out(state, earlier)) by {
            if earlier.len() > 0 {
                assert(earlier[0] == events[0]);
            }
            assert forall|i: int| 0 < i < earlier.len() implies (#[trigger] earlier[i]).time()
                - earlier[i - 1].time() >= TICK by {
                assert(earlier[i] == events[i]);
                assert(earlier[i - 1] == events[i - 1]);
                assert(events[i].time() - events[i - 1].time() >= TICK);
            }
        }
        lemma_spaced_frames_poll(state, earlier);
        let before = run(state, earlier);
        assert(events.last() == events[n]);
        assert(events[n] is Frame);
        if n > 0 {
            assert(earlier.last() == events[n - 1]);
            assert(events[n].time() - events[n - 1].time() >= TICK);
        }
        assert(events[n].polls(before));
        assert forall|i: int| 0 <= i < events.len() implies (#[trigger] events[i]).polls(
            run(state, events.take(i)),
        ) by {
            if i < n {
                assert(events.take(i) == earlier.take(i));
                assert(earlier[i] == events[i]);
                assert(earlier[i].polls(run(state, earlier.take(i))));
            } else {
                assert(events.take(i) == earlier);
            }
        }
    }
}

/// With a source that gives the same snapshot whenever it is asked, the
/// displayed list is the one built from that snapshot from the first poll on,
/// however many frames follow and whenever they come.
pub proof fn lemma_same_snapshot_same_list(
    state: CacheState,
    events: Seq<Event>,
    snapshot: Seq<MyBoons>,
)
    requires
        events.len() > 0,
        forall|i: int| 0 <= i < events.len() ==> (#[trigger] events[i]).gives(snapshot),
        events[0].polls(state),
    ensures
        forall|i: int|
            0 < i <= events.len() ==> (#[trigger] run(state, events.take(i))).output == displayed(
                state.registry,
                snapshot,
            ),
        run(state, events).output == displayed(state.registry, snapshot),
        run(state, events).registry == state.registry,
    decreases events.len(),
{
    let earlier = events.drop_last();
    let n = events.len() - 1;
    assert(events.last() == events[n]);
    if n == 0 {
        assert(earlier =~= Seq::<Event>::empty());
        assert(run(state, earlier) == state);
        assert forall|i: int| 0 < i <= events.len() implies (#[trigger] run(
            state,
            events.take(i),
        )).output == displayed(state.registry, snapshot) by {
            assert(events.take(i) == events);
        }
    } else {
        assert forall|i: int| 0 <= i < earlier.len() implies (#[trigger] earlier[i]).gives(
            snapshot,
        ) by {
            assert(earlier[i] == events[i]);
        }
        assert(earlier[0] == events[0]);
        lemma_same_snapshot_same_list(state, earlier, snapshot);
        assert forall|i: int| 0 < i <= events.len() implies (#[trigger] run(
            state,
            events.take(i),
        )).output == displayed(state.registry, snapshot) by {
            if i <= n {
                assert(events.take(i) == earlier.take(i));
            } else {
                assert(events.take(i) == events);
            }
        }
    }
}

/// A record whose identifier is not watched leaves no entry in the displayed
/// list: no displayed entry carries its identifier, and the list is the same
/// as if the record had not been in the snapshot.
pub proof fn lemma_unwatched_dropped(
    registry: Map<u32, SingleBuffConfig>,
    snapshot: Seq<MyBoons>,
    k: int,
)
    requires
        0 <= k < snapshot.len(),
        !registry.contains_key(snapshot[k].id),
        forall|id: u32| #[trigger] registry.contains_key(id) ==> registry[id].buff_id == id,
    ensures
        forall|i: int|
            0 <= i < displayed(registry, snapshot).len() ==> (#[trigger] displayed(
                registry,
                snapshot,
            )[i]).buff_id != snapshot[k].id,
        displayed(registry, snapshot) == displayed(registry, snapshot.remove(k)),
{
    assert forall|i: int| 0 <= i < displayed(registry, snapshot).len() implies (#[trigger] displayed(
        registry,
        snapshot,
    )[i]).buff_id != snapshot[k].id by {
        lemma_displayed_entries(registry, snapshot, i);
    }
    lemma_displayed_remove(registry, snapshot, k);
}

/// The displayed list of two snapshots one after the other is the two
/// displayed lists one after the other: the order of the snapshot is kept.
pub proof fn lemma_displayed_concat(
    registry: Map<u32, SingleBuffConfig>,
    first: Seq<MyBoons>,
    second: Seq<MyBoons>,
)
    ensures
        displayed(registry, first + second) == displayed(registry, first) + displayed(
            registry,
            second,
        ),
    decreases second.len(),
{
    if second.len() == 0 {
        assert(first + second == first);
        assert(displayed(registry, second) == Seq::<SingleBuffConfig>::empty());
        assert(displayed(registry, first) + Seq::<SingleBuffConfig>::empty() == displayed(
            registry,
            first,
        ));
    } else {
        assert((first + second).drop_last() == first + second.drop_last());
        assert((first + second).last() == second.last());
        lemma_displayed_concat(registry, first, second.drop_last());
        match shown(registry)(second.last()) {
            Some(entry) => {
                assert(displayed(registry, first + second) == displayed(
                    registry,
                    first + second.drop_last(),
                ) + seq![entry]);
                assert(displayed(registry, second) == displayed(registry, second.drop_last())
                    + seq![entry]);
                assert((displayed(registry, first) + displayed(registry, second.drop_last()))
                    + seq![entry] == displayed(registry, first) + (displayed(
                    registry,
                    second.drop_last(),
                ) + seq![entry]));
            },
            None => {},
        }
    }
}

/// The displayed list of a single record.
pub proof fn lemma_displayed_one(registry: Map<u32, SingleBuffConfig>, record: MyBoons)
    ensures
        displayed(registry, seq![record]) == if registry.contains_key(record.id) {
            seq![registry[record.id].observed(record.count)]
        } else {
            Seq::<SingleBuffConfig>::empty()
        },
{
    Seq::lemma_filter_map_singleton(record, shown(registry));
}

/// Taking an unwatched record out of a snapshot does not change the displayed
/// list.
proof fn lemma_displayed_remove(registry: Map<u32, SingleBuffConfig>, snapshot: Seq<MyBoons>, k: int)
    requires
        0 <= k < snapshot.len(),
        !registry.contains_key(snapshot[k].id),
    ensures
        displayed(registry, snapshot) == displayed(registry, snapshot.remove(k)),
{
    let front = snapshot.take(k);
    let back = snapshot.skip(k + 1);
    assert(snapshot == front + seq![snapshot[k]] + back);
    assert(snapshot.remove(k) == front + back);
    lemma_displayed_concat(registry, front + seq![snapshot[k]], back);
    lemma_displayed_concat(registry, front, seq![snapshot[k]]);
    lemma_displayed_one(registry, snapshot[k]);
    lemma_displayed_concat(registry, front, back);
    assert(displayed(registry, front) + Seq::<SingleBuffConfig>::empty() == displayed(
        registry,
        front,
    ));
}

/// A cache whose source is unavailable never asks it, however much time
/// passes and whatever is registered, and it displays nothing.
pub proof fn lemma_cold_never_polls(state: CacheState, events: Seq<Event>)
    requires
        !state.available,
        state.wf(),
    ensures
        poll_count(state, events) == 0,
        !run(state, events).available,
        run(state, events).output == Seq::<SingleBuffConfig>::empty(),
        run(state, events).last_poll == state.last_poll,
        forall|i: int|
            0 <= i < events.len() ==> !(#[trigger] events[i]).polls(run(state, events.take(i))),
    decreases events.len(),
{
    assert(state.output =~= Seq::<SingleBuffConfig>::empty());
    if events.len() > 0 {
        let earlier = events.drop_last();
        let n = events.len() - 1;
        lemma_cold_never_polls(state, earlier);
        assert forall|i: int| 0 <= i < events.len() implies !(#[trigger] events[i]).polls(
            run(state, events.take(i)),
        ) by {
            if i < n {
                assert(events.take(i) == earlier.take(i));
                assert(earlier[i] == events[i]);
                assert(!earlier[i].polls(run(state, earlier.take(i))));
            } else {
                assert(events.take(i) == earlier);
            }
        }
    }
}

} // verus!
