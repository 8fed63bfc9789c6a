//! The settings store: the authoritative in-memory override cache, the
//! effective defaults, and the write-behind queue, driven as one state
//! machine.
//!
//! The store never performs I/O itself.  The surrounding runtime loads the
//! persisted override document and hands it to `install_user_settings`,
//! drains `take_pending_write` on a single consumer and writes each snapshot
//! to disk, and fans the `(old, new)` pair returned by an update out to the
//! change handlers.  Handing the pair back — instead of calling handlers from
//! inside the store — is what lets the runtime release its lock around the
//! store before any handler runs, so a handler may freely read the store
//! again without deadlocking.

use vstd::prelude::*;

use crate::settings::flush_queue::FlushQueue;
use crate::settings::laws::lemma_compose_empty;
use crate::settings::spec_compose;
use crate::settings::spec_reconcile;
use crate::settings::views::empty_partial;
use crate::settings::views::PartialSettingsView;
use crate::settings::views::SettingsView;
use crate::settings::PartialSettings;
use crate::settings::Settings;

verus! {

/// The store's mathematical model: the effective defaults, the cached
/// override tree (absent until first loaded), the snapshots awaiting their
/// durable write in submission order, and the queue bound.
#[verifier::ext_equal]
pub struct SettingsManagerView {
    pub default_settings: SettingsView,
    pub user_settings_cache: Option<PartialSettingsView>,
    pub pending_writes: Seq<PartialSettingsView>,
    pub flush_capacity: nat,
}

/// The authoritative settings store.
pub struct SettingsManager {
    default_settings: Settings,
    user_settings_cache: Option<PartialSettings>,
    flush_queue: FlushQueue,
}

impl View for SettingsManager {
    type V = SettingsManagerView;

    closed spec fn view(&self) -> SettingsManagerView {
        SettingsManagerView {
            default_settings: self.default_settings@,
            user_settings_cache: self.user_settings_cache.deep_view(),
            pending_writes: self.flush_queue@.items,
            flush_capacity: self.flush_queue@.capacity,
        }
    }
}

impl SettingsManager {
    /// A store over the given effective defaults, with a cold cache and an
    /// empty write queue bounded by `flush_capacity`.
    pub fn new(default_settings: Settings, flush_capacity: usize) -> (r: SettingsManager)
        requires
            flush_capacity >= 1,
        ensures
            r@.default_settings == default_settings@,
            r@.user_settings_cache is None,
            r@.pending_writes == Seq::<PartialSettingsView>::empty(),
            r@.flush_capacity == flush_capacity,
    {
        SettingsManager {
            default_settings,
            user_settings_cache: None,
            flush_queue: FlushQueue::new(flush_capacity),
        }
    }

    /// The effective default baseline: the bundled defaults, with the
    /// development override composed over them when one is present.
    pub fn effective_default_settings(
        bundled_defaults: Settings,
        dev_settings_overrides: Option<PartialSettings>,
    ) -> (r: Settings)
        ensures
            (dev_settings_overrides matches Some(o) ==> r@ == spec_compose(
                o@,
                bundled_defaults@,
            )),
            dev_settings_overrides is None ==> r@ == bundled_defaults@,
    {
        match dev_settings_overrides {
            Some(o) => Settings::from(o, bundled_defaults),
            None => {
                proof {
                    lemma_compose_empty(bundled_defaults@);
                }
                Settings::from(PartialSettings::default(), bundled_defaults)
            },
        }
    }

    /// Whether the persisted override tree has been loaded into the cache.
    pub fn cache_is_loaded(&self) -> (r: bool)
        ensures
            r == (self@.user_settings_cache is Some),
    {
        self.user_settings_cache.is_some()
    }

    /// Install the override tree loaded from durable storage (or the empty
    /// tree when there was none).  Only a cold cache may be populated: a
    /// caller that finds the cache already loaded must not load again, which
    /// keeps a concurrent duplicate load from clobbering later updates.
    pub fn install_user_settings(&mut self, user_settings: PartialSettings)
        requires
            old(self)@.user_settings_cache is None,
        ensures
            final(self)@ == (SettingsManagerView {
                user_settings_cache: Some(user_settings@),
                ..old(self)@
            }),
    {
        self.user_settings_cache = Some(user_settings);
    }

    /// The fully resolved settings a caller sees: the cached override tree
    /// composed over the defaults.  Every leaf of the result holds a value.
    pub fn read_settings(&self) -> (r: Settings)
        requires
            self@.user_settings_cache is Some,
        ensures
            r@ == spec_compose(self@.user_settings_cache.unwrap(), self@.default_settings),
    {
        let user_settings = self.user_settings_cache.as_ref().unwrap().clone();
        Settings::from(user_settings, self.default_settings.clone())
    }

    /// Accept an update: reconcile it into the cached override tree, queue
    /// the new tree for its durable write, and hand back the `(old, new)`
    /// fully resolved pair for the caller to fan out to change handlers after
    /// it has released its lock around the store.
    pub fn update_settings(&mut self, updated_settings: PartialSettings) -> (r: (Settings, Settings))
        requires
            old(self)@.user_settings_cache is Some,
            old(self)@.pending_writes.len() < old(self)@.flush_capacity,
        ensures
            final(self)@.user_settings_cache == Some(
                spec_reconcile(old(self)@.user_settings_cache.unwrap(), updated_settings@),
            ),
            final(self)@.pending_writes == old(self)@.pending_writes.push(
                spec_reconcile(old(self)@.user_settings_cache.unwrap(), updated_settings@),
            ),
            final(self)@.default_settings == old(self)@.default_settings,
            final(self)@.flush_capacity == old(self)@.flush_capacity,
            r.0@ == spec_compose(
                old(self)@.user_settings_cache.unwrap(),
                old(self)@.default_settings,
            ),
            r.1@ == spec_compose(
                spec_reconcile(old(self)@.user_settings_cache.unwrap(), updated_settings@),
                old(self)@.default_settings,
            ),
    {
        self.update_settings_internal(Some(updated_settings))
    }

    /// Discard every customization: replace the cached override tree with the
    /// empty tree wholesale, queue the empty tree for its durable write, and
    /// hand back the `(old, new)` pair.  The new tree a reader sees is
    /// exactly the default baseline.
    pub fn reset_to_default(&mut self) -> (r: (Settings, Settings))
        requires
            old(self)@.user_settings_cache is Some,
            old(self)@.pending_writes.len() < old(self)@.flush_capacity,
        ensures
            final(self)@.user_settings_cache == Some(empty_partial()),
            final(self)@.pending_writes == old(self)@.pending_writes.push(empty_partial()),
            final(self)@.default_settings == old(self)@.default_settings,
            final(self)@.flush_capacity == old(self)@.flush_capacity,
            r.0@ == spec_compose(
                old(self)@.user_settings_cache.unwrap(),
                old(self)@.default_settings,
            ),
            r.1@ == old(self)@.default_settings,
    {
        proof {
            lemma_compose_empty(old(self)@.default_settings);
        }
        self.update_settings_internal(None)
    }

    /// Whether a further update would find the write queue full and so would
    /// have to wait for the persistence consumer to catch up.
    pub fn flush_queue_is_full(&self) -> (r: bool)
        ensures
            r == (self@.pending_writes.len() >= self@.flush_capacity),
    {
        self.flush_queue.is_full()
    }

    /// How many override snapshots are waiting for their durable write.
    pub fn pending_write_count(&self) -> (r: usize)
        ensures
            r == self@.pending_writes.len(),
    {
        self.flush_queue.len()
    }

    /// The persistence consumer's side: take the oldest snapshot awaiting its
    /// durable write.  Snapshots come out in exactly the order updates were
    /// accepted.
    pub fn take_pending_write(&mut self) -> (r: Option<PartialSettings>)
        ensures
            old(self)@.pending_writes.len() == 0 ==> r is None && final(self)@ == old(self)@,
            old(self)@.pending_writes.len() > 0 ==> {
                &&& r matches Some(snapshot) && snapshot@ == old(self)@.pending_writes[0]
                &&& final(self)@ == (SettingsManagerView {
                    pending_writes: old(self)@.pending_writes.drop_first(),
                    ..old(self)@
                })
            },
    {
        self.flush_queue.take_next()
    }

    /// Shared body of `update_settings` and `reset_to_default`: an absent
    /// update means a wholesale reset to the empty override tree.
    fn update_settings_internal(&mut self, updated_settings: Option<PartialSettings>) -> (r: (
        Settings,
        Settings,
    ))
        requires
            old(self)@.user_settings_cache is Some,
            old(self)@.pending_writes.len() < old(self)@.flush_capacity,
        ensures
            ({
                let new_override = match updated_settings {
                    Some(u) => spec_reconcile(old(self)@.user_settings_cache.unwrap(), u@),
                    None => empty_partial(),
                };
                &&& final(self)@.user_settings_cache == Some(new_override)
                &&& final(self)@.pending_writes == old(self)@.pending_writes.push(new_override)
                &&& final(self)@.default_settings == old(self)@.default_settings
                &&& final(self)@.flush_capacity == old(self)@.flush_capacity
                &&& r.0@ == spec_compose(
                    old(self)@.user_settings_cache.unwrap(),
                    old(self)@.default_settings,
                )
                &&& r.1@ == spec_compose(new_override, old(self)@.default_settings)
            }),
    {
        let user_settings = self.user_settings_cache.as_ref().unwrap().clone();
        let old_settings = Settings::from(user_settings.clone(), self.default_settings.clone());

        let updated_user_settings = match updated_settings {
            Some(u) => user_settings.update(u),
            None => PartialSettings::default(),
        };

        // The cache is replaced and the snapshot queued before the pair is
        // handed back, so the caller-visible cache update is synchronous and
        // every accepted update is durably queued before notification.
        self.user_settings_cache = Some(updated_user_settings.clone());
        self.flush_queue.submit(updated_user_settings.clone());

        let new_settings = Settings::from(updated_user_settings, self.default_settings.clone());

        (old_settings, new_settings)
    }
}

} // verus!
