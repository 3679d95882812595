//! The handler that a frame callback drives: the poll cache behind the switch
//! that shows or hides the overlay.

use crate::buffs::{validated, SingleBuffConfig};
use crate::cache::{CacheState, PollCache, Refresh};
use crate::compat::{poll_result, DataSource, MyBoons};
use crate::config::{ConfigError, LocalConfigItem};
use vstd::prelude::*;

verus! {

/// The handler as a mathematical value.
pub struct HandlerState {
    /// Whether the overlay is shown.
    pub visible: bool,
    /// The poll cache.
    pub cache: CacheState,
}

impl HandlerState {
    /// The state of the poll cache is well-formed.
    pub open spec fn wf(self) -> bool {
        self.cache.wf()
    }

    /// Whether a frame at `now` needs a response of the data source: the
    /// overlay is shown and a poll is due.
    pub open spec fn wants_poll(self, now: u64) -> bool {
        self.visible && self.cache.due(now)
    }

    /// The state after a frame at `now` in which the foreign call, if it was
    /// made, returned `response`. A hidden overlay changes nothing.
    pub open spec fn updated(self, now: u64, response: Seq<MyBoons>) -> HandlerState {
        if self.visible {
            HandlerState {
                cache: self.cache.refreshed(now, poll_result(self.cache.available, response)),
                ..self
            }
        } else {
            self
        }
    }

    /// What a frame at `now` reports.
    pub open spec fn report(self, now: u64, response: Seq<MyBoons>) -> Refresh {
        if self.visible {
            self.cache.report(now, poll_result(self.cache.available, response))
        } else {
            Refresh::Reused
        }
    }
}

/// Every record of `items` passes validation.
pub open spec fn all_valid(items: Seq<LocalConfigItem>) -> bool {
    forall|i: int| 0 <= i < items.len() ==> validated(#[trigger] items[i]) is Ok
}

/// The cache after every record of `items` was validated and registered, in
/// their order; a record that fails validation is passed over.
pub open spec fn registered(cache: CacheState, items: Seq<LocalConfigItem>) -> CacheState
    decreases items.len(),
{
    if items.len() == 0 {
        cache
    } else {
        let earlier = registered(cache, items.drop_last());
        match validated(items.last()) {
            Ok(config) => earlier.watching(config),
            Err(_) => earlier,
        }
    }
}

/// Registering records changes the registry alone, and a well-formed cache
/// stays well-formed.
pub proof fn lemma_registered(cache: CacheState, items: Seq<LocalConfigItem>)
    ensures
        registered(cache, items).available == cache.available,
        registered(cache, items).last_poll == cache.last_poll,
        registered(cache, items).output == cache.output,
        cache.wf() ==> registered(cache, items).wf(),
    decreases items.len(),
{
    if items.len() > 0 {
        lemma_registered(cache, items.drop_last());
    }
}

/// The poll cache together with the switch that shows or hides the overlay.
pub struct BuffHandler {
    is_visible: bool,
    cache: PollCache,
}

impl View for BuffHandler {
    type V = HandlerState;

    closed spec fn view(&self) -> HandlerState {
        HandlerState { visible: self.is_visible, cache: self.cache@ }
    }
}

impl BuffHandler {
    /// A hidden handler that watches nothing. `now` counts as the time of the
    /// last poll.
    pub fn new(source: DataSource, now: u64) -> (handler: Self)
        ensures
            handler@ == (HandlerState {
                visible: false,
                cache: CacheState::initial(source.available(), now),
            }),
            handler@.wf(),
    {
        BuffHandler { is_visible: false, cache: PollCache::new(source, now) }
    }

    /// Whether the overlay is shown.
    pub fn is_visible(&self) -> (visible: bool)
        ensures
            visible == self@.visible,
            self@.wf(),
    {
        self.cache.well_formedness();
        self.is_visible
    }

    /// Shows or hides the overlay. The cache is left as it is.
    pub fn set_visible(&mut self, visible: bool)
        ensures
            final(self)@ == (HandlerState { visible, ..old(self)@ }),
            final(self)@.wf(),
    {
        self.cache.well_formedness();
        self.is_visible = visible;
    }

    /// Whether the data source can be polled at all.
    pub fn is_available(&self) -> (available: bool)
        ensures
            available == self@.cache.available,
            self@.wf(),
    {
        self.cache.is_available()
    }

    /// Registers `config` under its identifier, in place of what was
    /// registered there before.
    pub fn watch_buff(&mut self, config: SingleBuffConfig)
        ensures
            final(self)@ == (HandlerState {
                cache: old(self)@.cache.watching(config),
                ..old(self)@
            }),
            final(self)@.wf(),
    {
        self.cache.watch(config);
    }

    /// The configuration watched under `id`, if there is one.
    pub fn watched(&self, id: u32) -> (found: Option<&SingleBuffConfig>)
        ensures
            match found {
                Some(config) => self@.cache.registry.contains_key(id) && *config
                    == self@.cache.registry[id],
                None => !self@.cache.registry.contains_key(id),
            },
            self@.wf(),
    {
        self.cache.watched(id)
    }

    /// Validates every record of `items` and then registers them all, in
    /// their order. Where a record fails validation nothing is registered, not
    /// even the records in front of it: the error names the first such record
    /// by its index and the handler stays as it was.
    pub fn watch_all(&mut self, items: &Vec<LocalConfigItem>) -> (r: Result<(), (usize, ConfigError)>)
        ensures
            final(self)@.wf(),
            match r {
                Ok(()) => all_valid(items@) && final(self)@ == (HandlerState {
                    cache: registered(old(self)@.cache, items@),
                    ..old(self)@
                }),
                Err((k, e)) => {
                    &&& k < items.len()
                    &&& all_valid(items@.take(k as int))
                    &&& validated(items[k as int]) == Err::<SingleBuffConfig, ConfigError>(e)
                    &&& final(self)@ == old(self)@
                },
            },
    {
        self.cache.well_formedness();
        let mut configs: Vec<SingleBuffConfig> = Vec::new();
        let mut i: usize = 0;
        while i < items.len()
            invariant
                i <= items.len(),
                configs.len() == i,
                self@ == old(self)@,
                self@.wf(),
                forall|j: int|
                    0 <= j < i ==> validated(#[trigger] items@[j]) == Ok::<
                        SingleBuffConfig,
                        ConfigError,
                    >(configs@[j]),
            decreases items.len() - i,
        {
            match SingleBuffConfig::try_from(&items[i]) {
                Err(e) => {
                    assert(all_valid(items@.take(i as int))) by {
                        assert forall|j: int| 0 <= j < i implies validated(
                            #[trigger] items@.take(i as int)[j],
                        ) is Ok by {
                            assert(items@.take(i as int)[j] == items@[j]);
                        }
                    }
                    return Err((i, e));
                },
                Ok(config) => {
                    configs.push(config);
                },
            }
            i += 1;
        }
        assert(all_valid(items@));
        let mut k: usize = 0;
        while k < configs.len()
            invariant
                k <= configs.len(),
                configs.len() == items.len(),
                forall|j: int|
                    0 <= j < items.len() ==> validated(#[trigger] items@[j]) == Ok::<
                        SingleBuffConfig,
                        ConfigError,
                    >(configs@[j]),
                self@ == (HandlerState {
                    cache: registered(old(self)@.cache, items@.take(k as int)),
                    ..old(self)@
                }),
                self@.wf(),
            decreases configs.len() - k,
        {
            proof {
                assert(items@.take(k + 1).drop_last() == items@.take(k as int));
                assert(items@.take(k + 1).last() == items@[k as int]);
            }
            self.watch_buff(configs[k].clone());
            k += 1;
        }
        assert(items@.take(items.len() as int) == items@);
        Ok(())
    }

    /// Whether a frame at `now` needs a response of the data source. Where it
    /// does not, the foreign call is not to be made.
    pub fn wants_poll(&self, now: u64) -> (wanted: bool)
        ensures
            wanted == self@.wants_poll(now),
            self@.wf(),
    {
        self.cache.well_formedness();
        self.is_visible && self.cache.poll_due(now)
    }

    /// One call per frame. `response` holds the records that the foreign call
    /// returned; it is looked at only where `wants_poll` holds at `now`.
    pub fn update_current_buffs(&mut self, now: u64, response: &[MyBoons]) -> (r: Refresh)
        ensures
            final(self)@ == old(self)@.updated(now, response@),
            r == old(self)@.report(now, response@),
            final(self)@.wf(),
    {
        if !self.is_visible {
            self.cache.well_formedness();
            return Refresh::Reused;
        }
        self.cache.refresh_from(now, response)
    }

    /// The list to draw in this frame: nothing where the overlay is hidden.
    /// Every entry of the list is watched.
    pub fn render_buffs(&self) -> (list: Option<&Vec<SingleBuffConfig>>)
        ensures
            match list {
                Some(buffs) => self@.visible && buffs@ == self@.cache.output,
                None => !self@.visible,
            },
            self@.wf(),
    {
        self.cache.well_formedness();
        if self.is_visible {
            Some(self.cache.output())
        } else {
            None
        }
    }
}

} // verus!
