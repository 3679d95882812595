//! The poll cache: the registry of watched buffs, the time of the last poll
//! and the list that was built from the last snapshot. Once per frame it
//! decides whether the data source is asked again; between two polls the list
//! of the last one is shown unchanged.

use crate::buffs::SingleBuffConfig;
use crate::compat::{poll_result, snapshot_of, AdapterError, DataSource, MyBoons};
use std::collections::HashMap;
use vstd::prelude::*;

verus! {

/// Milliseconds that pass between two polls of the data source, at least.
pub const TICK: u64 = 100;

/// What is displayed for one record of a snapshot: the watched configuration
/// of its identifier together with the observed count, or nothing where the
/// identifier is not watched.
pub open spec fn shown(registry: Map<u32, SingleBuffConfig>) -> spec_fn(MyBoons) -> Option<
    SingleBuffConfig,
> {
    |entry: MyBoons|
        if registry.contains_key(entry.id) {
            Some(registry[entry.id].observed(entry.count))
        } else {
            None
        }
}

/// The list displayed for a snapshot: one entry for each record whose
/// identifier is watched, in the order of the snapshot.
pub open spec fn displayed(registry: Map<u32, SingleBuffConfig>, snapshot: Seq<MyBoons>) -> Seq<
    SingleBuffConfig,
> {
    snapshot.filter_map(shown(registry))
}

/// The cache as a mathematical value. Times are milliseconds of one
/// monotonic clock.
pub struct CacheState {
    /// Whether the data source can be polled at all.
    pub available: bool,
    /// When the source was last polled, or when the cache was made.
    pub last_poll: u64,
    /// The list built from the last snapshot that was decoded.
    pub output: Seq<SingleBuffConfig>,
    /// The watched configurations by identifier.
    pub registry: Map<u32, SingleBuffConfig>,
}

/// What a call of `refresh_if_due` did.
#[derive(Clone, Copy, Debug, PartialEq, Eq, Structural)]
pub enum Refresh {
    /// No poll was due: the list is the one of the call before.
    Reused,
    /// A poll was due and gave a snapshot: the list was built anew.
    Refreshed,
    /// A poll was due and failed: the list is the one of the call before.
    Failed(AdapterError),
}

impl CacheState {
    /// The state a cache starts in.
    pub open spec fn initial(available: bool, now: u64) -> CacheState {
        CacheState { available, last_poll: now, output: Seq::empty(), registry: Map::empty() }
    }

    /// Every watched configuration is filed under its own identifier, every
    /// displayed entry is watched, and a cache without a source displays
    /// nothing.
    pub open spec fn wf(self) -> bool {
        &&& forall|id: u32| #[trigger]
            self.registry.contains_key(id) ==> self.registry[id].buff_id == id
        &&& forall|i: int|
            0 <= i < self.output.len() ==> self.registry.contains_key(
                (#[trigger] self.output[i]).buff_id,
            )
        &&& !self.available ==> self.output.len() == 0
    }

    /// Milliseconds from the last poll to `now`; zero where `now` lies before
    /// it.
    pub open spec fn elapsed(self, now: u64) -> int {
        if now >= self.last_poll {
            now - self.last_poll
        } else {
            0
        }
    }

    /// Whether a call at `now` polls the data source.
    pub open spec fn due(self, now: u64) -> bool {
        self.available && self.elapsed(now) >= TICK
    }

    /// The state after a call at `now`, where `polled` is what the data source
    /// gives if it is asked.
    pub open spec fn refreshed(self, now: u64, polled: Result<Seq<MyBoons>, AdapterError>) -> CacheState {
        if self.due(now) {
            CacheState {
                last_poll: now,
                output: match polled {
                    Ok(snapshot) => displayed(self.registry, snapshot),
                    Err(_) => self.output,
                },
                ..self
            }
        } else {
            self
        }
    }

    /// What a call at `now` reports.
    pub open spec fn report(self, now: u64, polled: Result<Seq<MyBoons>, AdapterError>) -> Refresh {
        if self.due(now) {
            match polled {
                Ok(_) => Refresh::Refreshed,
                Err(e) => Refresh::Failed(e),
            }
        } else {
            Refresh::Reused
        }
    }

    /// The state after `config` was registered: it stands under its
    /// identifier, in place of what stood there before.
    pub open spec fn watching(self, config: SingleBuffConfig) -> CacheState {
        CacheState { registry: self.registry.insert(config.buff_id, config), ..self }
    }
}

/// Every displayed entry comes from a record of the snapshot whose identifier
/// is watched: it is the watched configuration with the record's count.
pub proof fn lemma_displayed_entries(
    registry: Map<u32, SingleBuffConfig>,
    snapshot: Seq<MyBoons>,
    i: int,
)
    requires
        0 <= i < displayed(registry, snapshot).len(),
    ensures
        exists|j: int|
            0 <= j < snapshot.len() && registry.contains_key((#[trigger] snapshot[j]).id)
                && displayed(registry, snapshot)[i] == registry[snapshot[j].id].observed(
                snapshot[j].count,
            ),
{
    let entry = displayed(registry, snapshot)[i];
    assert(snapshot.filter_map(shown(registry)).contains(entry));
    snapshot.lemma_filter_map_contains(shown(registry), entry);
    let record = choose|t: MyBoons| #[trigger]
        snapshot.contains(t) && shown(registry)(t) == Some(entry);
    let j = choose|j: int| 0 <= j < snapshot.len() && snapshot[j] == record;
    assert(registry.contains_key(snapshot[j].id));
}

/// A cache starts in a well-formed state.
pub proof fn lemma_initial_wf(available: bool, now: u64)
    ensures
        CacheState::initial(available, now).wf(),
{
}

/// A refresh keeps a well-formed state well-formed.
pub proof fn lemma_refreshed_wf(
    state: CacheState,
    now: u64,
    polled: Result<Seq<MyBoons>, AdapterError>,
)
    requires
        state.wf(),
    ensures
        state.refreshed(now, polled).wf(),
{
    let next = state.refreshed(now, polled);
    if state.due(now) {
        if let Ok(snapshot) = polled {
            assert forall|i: int| 0 <= i < next.output.len() implies next.registry.contains_key(
                (#[trigger] next.output[i]).buff_id,
            ) by {
                lemma_displayed_entries(state.registry, snapshot, i);
            }
        }
    }
}

/// Registering a configuration keeps a well-formed state well-formed.
pub proof fn lemma_watching_wf(state: CacheState, config: SingleBuffConfig)
    requires
        state.wf(),
    ensures
        state.watching(config).wf(),
{
}

/// The poll cache.
pub struct PollCache {
    source: DataSource,
    last_poll: u64,
    output: Vec<SingleBuffConfig>,
    registry: HashMap<u32, SingleBuffConfig>,
}

impl View for PollCache {
    type V = CacheState;

    closed spec fn view(&self) -> CacheState {
        CacheState {
            available: self.source.available(),
            last_poll: self.last_poll,
            output: self.output@,
            registry: self.registry@,
        }
    }
}

impl PollCache {
    /// The state of a cache is well-formed at all times.
    #[verifier::type_invariant]
    spec fn well_formed(self) -> bool {
        self@.wf()
    }

    /// A cache that watches nothing and displays nothing. `now` counts as the
    /// time of the last poll: the first poll is due one interval after it.
    pub fn new(source: DataSource, now: u64) -> (cache: Self)
        ensures
            cache@ == CacheState::initial(source.available(), now),
            cache@.wf(),
    {
        PollCache { source, last_poll: now, output: Vec::new(), registry: HashMap::new() }
    }

    /// Nothing but a statement: the state of this cache is well-formed.
    pub fn well_formedness(&self)
        ensures
            self@.wf(),
    {
        proof {
            use_type_invariant(self);
        }
    }

    /// Registers `config` under its identifier, in place of what was
    /// registered there before. The displayed list stays as it is until the
    /// next poll.
    pub fn watch(&mut self, config: SingleBuffConfig)
        ensures
            final(self)@ == old(self)@.watching(config),
            final(self)@.wf(),
    {
        proof {
            use_type_invariant(&*self);
            lemma_watching_wf(self@, config);
        }
        let mut held = PollCache {
            source: self.source,
            last_poll: self.last_poll,
            output: Vec::new(),
            registry: HashMap::new(),
        };
        std::mem::swap(self, &mut held);
        let PollCache { source, last_poll, output, registry } = held;
        let mut registry = registry;
        registry.insert(config.buff_id, config);
        *self = PollCache { source, last_poll, output, registry };
    }

    /// Whether a call of `refresh_if_due` at `now` polls the data source: the
    /// source is available and the interval has passed since the last poll.
    pub fn poll_due(&self, now: u64) -> (due: bool)
        ensures
            due == self@.due(now),
            self@.wf(),
    {
        proof {
            use_type_invariant(self);
        }
        self.source.is_available() && now >= self.last_poll && now - self.last_poll >= TICK
    }

    /// The list that is displayed now. Every entry of it is watched.
    pub fn output(&self) -> (list: &Vec<SingleBuffConfig>)
        ensures
            list@ == self@.output,
            self@.wf(),
    {
        proof {
            use_type_invariant(self);
        }
        &self.output
    }

    /// The configuration watched under `id`, if there is one.
    pub fn watched(&self, id: u32) -> (found: Option<&SingleBuffConfig>)
        ensures
            match found {
                Some(config) => self@.registry.contains_key(id) && *config == self@.registry[id],
                None => !self@.registry.contains_key(id),
            },
            self@.wf(),
    {
        proof {
            use_type_invariant(self);
        }
        self.registry.get(&id)
    }

    /// One call per frame. `polled` is what the data source gave; it is looked
    /// at only where a poll is due at `now`. Then the time of the last poll
    /// becomes `now`, and a snapshot replaces the displayed list as a whole,
    /// while a failure leaves it as it is. Where no poll is due, nothing
    /// changes.
    pub fn refresh_if_due(&mut self, now: u64, polled: Result<Vec<MyBoons>, AdapterError>) -> (r:
        Refresh)
        ensures
            final(self)@ == old(self)@.refreshed(now, snapshot_of(polled)),
            r == old(self)@.report(now, snapshot_of(polled)),
            final(self)@.wf(),
    {
        proof {
            use_type_invariant(&*self);
            lemma_refreshed_wf(self@, now, snapshot_of(polled));
        }
        if !self.poll_due(now) {
            return Refresh::Reused;
        }
        match polled {
            Err(e) => {
                self.last_poll = now;
                Refresh::Failed(e)
            },
            Ok(snapshot) => {
                let fresh = self.build(&snapshot);
                self.output = fresh;
                self.last_poll = now;
                Refresh::Refreshed
            },
        }
    }

    /// One call per frame, on the records that the foreign call returned:
    /// they are decoded and handed to `refresh_if_due`. `response` is looked at
    /// only where a poll is due at `now`.
    pub fn refresh_from(&mut self, now: u64, response: &[MyBoons]) -> (r: Refresh)
        ensures
            final(self)@ == old(self)@.refreshed(
                now,
                poll_result(old(self)@.available, response@),
            ),
            r == old(self)@.report(now, poll_result(old(self)@.available, response@)),
            final(self)@.wf(),
    {
        if !self.poll_due(now) {
            return Refresh::Reused;
        }
        let polled = self.source.poll(response);
        self.refresh_if_due(now, polled)
    }

    /// Whether the data source can be polled at all. This is decided when the
    /// cache is made.
    pub fn is_available(&self) -> (available: bool)
        ensures
            available == self@.available,
            self@.wf(),
    {
        proof {
            use_type_invariant(self);
        }
        self.source.is_available()
    }

    /// Looks every record of the snapshot up in the registry.
    fn build(&self, snapshot: &Vec<MyBoons>) -> (fresh: Vec<SingleBuffConfig>)
        ensures
            fresh@ == displayed(self@.registry, snapshot@),
    {
        let mut fresh: Vec<SingleBuffConfig> = Vec::new();
        let mut i: usize = 0;
        while i < snapshot.len()
            invariant
                i <= snapshot.len(),
                fresh@ == displayed(self@.registry, snapshot@.take(i as int)),
            decreases snapshot.len() - i,
        {
            let entry = snapshot[i];
            proof {
                snapshot@.lemma_filter_map_take_succ(shown(self@.registry), i as int);
            }
            match self.registry.get(&entry.id) {
                Some(config) => {
                    fresh.push(config.with_stacks(entry.count));
                },
                None => {},
            }
            i += 1;
        }
        assert(snapshot@.take(snapshot.len() as int) == snapshot@);
        fresh
    }
}

} // verus!
