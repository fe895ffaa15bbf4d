//! The session store: the records resident in memory, the settings, the
//! sweep timers and, where there is one, the client of a durable backend.
//!
//! Operations that change the store take it by exclusive reference: while one
//! runs, no other can read or change the same store, so each is a single step
//! for every other caller.

use crate::cache::{lemma_take_then_insert, no_records, replaced_at, staying_at, SessionCache};
use crate::config::SessionConfig;
use crate::record::{SessionData, SessionView};
use crate::timers::{
    is_clock_reading, unix_now, SessionTimers, FIRST_DATABASE_SWEEP, FIRST_MEMORY_SWEEP,
};
use crate::values::option_text;
use vstd::prelude::*;

verus! {

/// The value kept under `key` in the record of `id`; none where the session
/// is not resident or its record has no such key.
pub open spec fn value_at(
    records: Map<Seq<char>, SessionView>,
    id: Seq<char>,
    key: Seq<char>,
) -> Option<Seq<char>> {
    if records.contains_key(id) {
        records[id].value_of(key)
    } else {
        None
    }
}

/// The records with nothing kept under `key` for the session `id`; the
/// records as they are where the session is not resident.
pub open spec fn without_value_at(
    records: Map<Seq<char>, SessionView>,
    id: Seq<char>,
    key: Seq<char>,
) -> Map<Seq<char>, SessionView> {
    replaced_at(records, id, records[id].without_value(key))
}

/// A count of records as the store reports it: the count itself, or the
/// largest number an `i64` holds where the count is larger still.
pub open spec fn reported_count(count: nat) -> i64 {
    if count <= i64::MAX {
        count as i64
    } else {
        i64::MAX
    }
}

/// The records after a lazy sweep of memory was asked for at `now`: swept
/// where a sweep was due, untouched where none was.
pub open spec fn records_after_sweep(
    records: Map<Seq<char>, SessionView>,
    timers: SessionTimers,
    now: i64,
) -> Map<Seq<char>, SessionView> {
    if timers.spec_memory_sweep_due(now) {
        staying_at(records, now as int)
    } else {
        records
    }
}

/// The timers after a lazy sweep of memory was asked for at `now`: moved on
/// by `interval` where a sweep was due, untouched where none was.
pub open spec fn timers_after_sweep(
    timers: SessionTimers,
    now: i64,
    interval: u32,
) -> SessionTimers {
    if timers.spec_memory_sweep_due(now) {
        timers.after_memory_sweep(now, interval)
    } else {
        timers
    }
}

/// The session store.
#[derive(Debug)]
pub struct SessionStore<T> {
    /// The client of the backend, where sessions are kept durably.
    pub client: Option<T>,
    /// The records resident in memory.
    pub inner: SessionCache,
    /// The settings the store was built with.
    pub config: SessionConfig,
    /// The times from which on the next sweeps are due.
    pub timers: SessionTimers,
}

impl<T> SessionStore<T> {
    /// The records resident in memory, each under its session's identifier.
    pub open spec fn resident(&self) -> Map<Seq<char>, SessionView> {
        self.inner@
    }

    /// The store has a backend.
    pub open spec fn spec_is_persistent(&self) -> bool {
        self.client is Some
    }

    /// The time at which the record of `id` was last serviced, going by its
    /// time of removal from memory and the configured memory lifespan.
    pub open spec fn serviced_time(&self, id: Seq<char>) -> int {
        self.resident()[id].autoremove - self.config.memory_lifespan
    }

    /// The time at which memory was last swept, going by the time at which
    /// the next sweep is due and the configured interval.
    pub open spec fn memory_swept_time(&self) -> int {
        self.timers.last_expiry_sweep - self.config.purge_update
    }

    /// The time at which the sweep of the backend was last claimed, going by
    /// the time at which the next one is due and the configured interval.
    pub open spec fn database_swept_time(&self) -> int {
        self.timers.last_database_expiry_sweep - self.config.purge_database_update
    }

    /// A store without any resident record that starts at `now`: its first
    /// sweep of memory is due an hour later, its first sweep of the backend
    /// six hours later.
    pub fn new_at(client: Option<T>, config: SessionConfig, now: i64) -> (store: Self)
        requires
            now + FIRST_DATABASE_SWEEP <= i64::MAX,
        ensures
            store.client == client,
            store.config == config,
            store.resident() == no_records(),
            store.timers.last_expiry_sweep == now + FIRST_MEMORY_SWEEP,
            store.timers.last_database_expiry_sweep == now + FIRST_DATABASE_SWEEP,
    {
        SessionStore {
            client,
            inner: SessionCache::new(),
            config,
            timers: SessionTimers::starting_at(now),
        }
    }

    /// A store without any resident record that starts now, by the wall
    /// clock.
    pub fn new(client: Option<T>, config: SessionConfig) -> (store: Self)
        ensures
            store.client == client,
            store.config == config,
            store.resident() == no_records(),
            is_clock_reading(store.timers.last_expiry_sweep - FIRST_MEMORY_SWEEP),
            store.timers.last_database_expiry_sweep - FIRST_DATABASE_SWEEP
                == store.timers.last_expiry_sweep - FIRST_MEMORY_SWEEP,
    {
        Self::new_at(client, config, unix_now())
    }

    /// Whether the store has a backend.
    #[verifier::when_used_as_spec(spec_is_persistent)]
    pub fn is_persistent(&self) -> (persistent: bool)
        ensures
            persistent == self.spec_is_persistent(),
    {
        self.client.is_some()
    }

    /// Whether the session `id` is resident.
    pub fn is_resident(&self, id: &str) -> (resident: bool)
        ensures
            resident == self.resident().contains_key(id@),
    {
        self.inner.contains(id)
    }

    /// The number of resident records.
    pub fn len(&self) -> (count: usize)
        ensures
            count == self.resident().len(),
    {
        self.inner.len()
    }

    /// Makes `record` the resident record of `id`, in place of any that was
    /// resident, and says whether there was one.
    pub fn insert(&mut self, id: String, record: SessionData) -> (replaced: bool)
        ensures
            replaced == old(self).resident().contains_key(id@),
            final(self).resident() == old(self).resident().insert(id@, record@),
            final(self).timers == old(self).timers,
            final(self).client == old(self).client,
            final(self).config == old(self).config,
    {
        self.inner.insert(id, record)
    }

    /// Drops the resident record of `id` and says whether there was one. The
    /// backend is not touched.
    pub fn remove_session(&mut self, id: &str) -> (existed: bool)
        ensures
            existed == old(self).resident().contains_key(id@),
            final(self).resident() == old(self).resident().remove(id@),
            final(self).timers == old(self).timers,
            final(self).client == old(self).client,
            final(self).config == old(self).config,
    {
        self.inner.remove(id)
    }

    /// Drops every resident record. The backend is not touched.
    pub fn clear(&mut self)
        ensures
            final(self).resident() == no_records(),
            final(self).timers == old(self).timers,
            final(self).client == old(self).client,
            final(self).config == old(self).config,
    {
        self.inner.clear();
    }

    /// Services the session `id` at `now` and says whether it is resident.
    /// A resident record that has expired or is marked as destroyed is
    /// emptied, and in any case it is kept in memory for the configured
    /// memory lifespan from `now`. Nothing changes where the session is not
    /// resident.
    pub fn service_session_data_at(&mut self, id: &str, now: i64) -> (found: bool)
        requires
            now + old(self).config.memory_lifespan <= i64::MAX,
        ensures
            found == old(self).resident().contains_key(id@),
            final(self).resident() == replaced_at(
                old(self).resident(),
                id@,
                old(self).resident()[id@].serviced(
                    now as int,
                    old(self).config.memory_lifespan as int,
                ),
            ),
            final(self).timers == old(self).timers,
            final(self).client == old(self).client,
            final(self).config == old(self).config,
    {
        match self.inner.take(id) {
            Some(entry) => {
                let key = entry.0;
                let mut record = entry.1;
                record.service(now, self.config.memory_lifespan);
                proof {
                    lemma_take_then_insert(old(self).resident(), id@, record@);
                }
                self.inner.insert(key, record);
                true
            },
            None => {
                assert(old(self).resident().remove(id@) =~= old(self).resident());
                false
            },
        }
    }

    /// Services the session `id` now, by the wall clock, and says whether it
    /// is resident. What it does is what `service_session_data_at` does at
    /// the time that the clock showed; that time is the record's new time of
    /// removal from memory less the configured memory lifespan.
    pub fn service_session_data(&mut self, id: &str) -> (found: bool)
        ensures
            found == old(self).resident().contains_key(id@),
            !found ==> final(self).resident() == old(self).resident(),
            found ==> is_clock_reading(final(self).serviced_time(id@)),
            found ==> final(self).resident() == replaced_at(
                old(self).resident(),
                id@,
                old(self).resident()[id@].serviced(
                    final(self).serviced_time(id@),
                    old(self).config.memory_lifespan as int,
                ),
            ),
            final(self).timers == old(self).timers,
            final(self).client == old(self).client,
            final(self).config == old(self).config,
    {
        let now = unix_now();
        self.service_session_data_at(id, now)
    }

    /// Marks the session `id` for a new identifier and says whether it is
    /// resident. Nothing changes where it is not.
    pub fn renew(&mut self, id: &str) -> (found: bool)
        ensures
            found == old(self).resident().contains_key(id@),
            final(self).resident() == replaced_at(
                old(self).resident(),
                id@,
                old(self).resident()[id@].renewed(),
            ),
            final(self).timers == old(self).timers,
            final(self).client == old(self).client,
            final(self).config == old(self).config,
    {
        match self.inner.take(id) {
            Some(entry) => {
                let key = entry.0;
                let mut record = entry.1;
                record.renew();
                proof {
                    lemma_take_then_insert(old(self).resident(), id@, record@);
                }
                self.inner.insert(key, record);
                true
            },
            None => {
                assert(old(self).resident().remove(id@) =~= old(self).resident());
                false
            },
        }
    }

    /// Marks the session `id` as destroyed and says whether it is resident.
    /// Its values stay until it is next serviced. Nothing changes where it
    /// is not resident.
    pub fn destroy(&mut self, id: &str) -> (found: bool)
        ensures
            found == old(self).resident().contains_key(id@),
            final(self).resident() == replaced_at(
                old(self).resident(),
                id@,
                old(self).resident()[id@].destroyed(),
            ),
            final(self).timers == old(self).timers,
            final(self).client == old(self).client,
            final(self).config == old(self).config,
    {
        match self.inner.take(id) {
            Some(entry) => {
                let key = entry.0;
                let mut record = entry.1;
                record.destroy();
                proof {
                    lemma_take_then_insert(old(self).resident(), id@, record@);
                }
                self.inner.insert(key, record);
                true
            },
            None => {
                assert(old(self).resident().remove(id@) =~= old(self).resident());
                false
            },
        }
    }

    /// Sets the long-term flag of the session `id` and says whether it is
    /// resident. Nothing changes where it is not.
    pub fn set_longterm(&mut self, id: &str, longterm: bool) -> (found: bool)
        ensures
            found == old(self).resident().contains_key(id@),
            final(self).resident() == replaced_at(
                old(self).resident(),
                id@,
                old(self).resident()[id@].with_longterm(longterm),
            ),
            final(self).timers == old(self).timers,
            final(self).client == old(self).client,
            final(self).config == old(self).config,
    {
        match self.inner.take(id) {
            Some(entry) => {
                let key = entry.0;
                let mut record = entry.1;
                record.set_longterm(longterm);
                proof {
                    lemma_take_then_insert(old(self).resident(), id@, record@);
                }
                self.inner.insert(key, record);
                true
            },
            None => {
                assert(old(self).resident().remove(id@) =~= old(self).resident());
                false
            },
        }
    }

    /// Sets the storable flag of the session `id` and says whether it is
    /// resident. Nothing changes where it is not.
    pub fn set_store(&mut self, id: &str, storable: bool) -> (found: bool)
        ensures
            found == old(self).resident().contains_key(id@),
            final(self).resident() == replaced_at(
                old(self).resident(),
                id@,
                old(self).resident()[id@].with_store(storable),
            ),
            final(self).timers == old(self).timers,
            final(self).client == old(self).client,
            final(self).config == old(self).config,
    {
        match self.inner.take(id) {
            Some(entry) => {
                let key = entry.0;
                let mut record = entry.1;
                record.set_store(storable);
                proof {
                    lemma_take_then_insert(old(self).resident(), id@, record@);
                }
                self.inner.insert(key, record);
                true
            },
            None => {
                assert(old(self).resident().remove(id@) =~= old(self).resident());
                false
            },
        }
    }

    /// The value kept under `key` for the session `id`; none where the
    /// session is not resident or has no such key. The store stays as it is.
    pub fn get(&mut self, id: &str, key: &str) -> (value: Option<String>)
        ensures
            option_text(value) == value_at(old(self).resident(), id@, key@),
            final(self).resident() == old(self).resident(),
            final(self).timers == old(self).timers,
            final(self).client == old(self).client,
            final(self).config == old(self).config,
    {
        match self.inner.take(id) {
            Some(entry) => {
                let key_of_record = entry.0;
                let record = entry.1;
                let value = record.get(key);
                self.inner.insert(key_of_record, record);
                assert(self.resident() =~= old(self).resident());
                value
            },
            None => {
                assert(old(self).resident().remove(id@) =~= old(self).resident());
                None
            },
        }
    }

    /// Takes the value kept under `key` for the session `id` out of its
    /// record and hands it back; none, and no change, where the session is
    /// not resident or has no such key.
    pub fn get_remove(&mut self, id: &str, key: &str) -> (value: Option<String>)
        ensures
            option_text(value) == value_at(old(self).resident(), id@, key@),
            final(self).resident() == without_value_at(old(self).resident(), id@, key@),
            final(self).timers == old(self).timers,
            final(self).client == old(self).client,
            final(self).config == old(self).config,
    {
        match self.inner.take(id) {
            Some(entry) => {
                let key_of_record = entry.0;
                let mut record = entry.1;
                let value = record.get_remove(key);
                proof {
                    lemma_take_then_insert(old(self).resident(), id@, record@);
                }
                self.inner.insert(key_of_record, record);
                value
            },
            None => {
                assert(old(self).resident().remove(id@) =~= old(self).resident());
                None
            },
        }
    }

    /// Keeps `value` under `key` for the session `id` and says whether the
    /// session is resident. Nothing changes where it is not.
    pub fn set(&mut self, id: &str, key: &str, value: String) -> (found: bool)
        ensures
            found == old(self).resident().contains_key(id@),
            final(self).resident() == replaced_at(
                old(self).resident(),
                id@,
                old(self).resident()[id@].with_value(key@, value@),
            ),
            final(self).timers == old(self).timers,
            final(self).client == old(self).client,
            final(self).config == old(self).config,
    {
        match self.inner.take(id) {
            Some(entry) => {
                let key_of_record = entry.0;
                let mut record = entry.1;
                record.set(key, value);
                proof {
                    lemma_take_then_insert(old(self).resident(), id@, record@);
                }
                self.inner.insert(key_of_record, record);
                true
            },
            None => {
                assert(old(self).resident().remove(id@) =~= old(self).resident());
                false
            },
        }
    }

    /// Takes away what is kept under `key` for the session `id` and says
    /// whether the session is resident. Nothing changes where it is not.
    pub fn remove(&mut self, id: &str, key: &str) -> (found: bool)
        ensures
            found == old(self).resident().contains_key(id@),
            final(self).resident() == without_value_at(old(self).resident(), id@, key@),
            final(self).timers == old(self).timers,
            final(self).client == old(self).client,
            final(self).config == old(self).config,
    {
        match self.inner.take(id) {
            Some(entry) => {
                let key_of_record = entry.0;
                let mut record = entry.1;
                record.remove(key);
                proof {
                    lemma_take_then_insert(old(self).resident(), id@, record@);
                }
                self.inner.insert(key_of_record, record);
                true
            },
            None => {
                assert(old(self).resident().remove(id@) =~= old(self).resident());
                false
            },
        }
    }

    /// Takes all values of the session `id` away and says whether the
    /// session is resident. Its flags and times stay. Nothing changes where
    /// it is not resident.
    pub fn clear_session_data(&mut self, id: &str) -> (found: bool)
        ensures
            found == old(self).resident().contains_key(id@),
            final(self).resident() == replaced_at(
                old(self).resident(),
                id@,
                old(self).resident()[id@].cleared(),
            ),
            final(self).timers == old(self).timers,
            final(self).client == old(self).client,
            final(self).config == old(self).config,
    {
        match self.inner.take(id) {
            Some(entry) => {
                let key = entry.0;
                let mut record = entry.1;
                record.clear();
                proof {
                    lemma_take_then_insert(old(self).resident(), id@, record@);
                }
                self.inner.insert(key, record);
                true
            },
            None => {
                assert(old(self).resident().remove(id@) =~= old(self).resident());
                false
            },
        }
    }

    /// Whether asking for a sweep of memory at `now` comes to `swept` and
    /// leaves the records `records` and the timers `timers`: memory is swept
    /// where a sweep is due at `now`, and nothing changes where none is.
    pub open spec fn sweeps_memory_at(
        &self,
        now: i64,
        swept: bool,
        records: Map<Seq<char>, SessionView>,
        timers: SessionTimers,
    ) -> bool {
        &&& swept == self.timers.spec_memory_sweep_due(now)
        &&& records == records_after_sweep(self.resident(), self.timers, now)
        &&& timers == timers_after_sweep(self.timers, now, self.config.purge_update)
    }

    /// Sweeps memory at `now` if a sweep is due, and says whether it did. A
    /// sweep drops every record whose time of removal from memory is `now`
    /// or earlier, and the next sweep is then due the configured interval
    /// after `now`. Where no sweep is due, nothing changes.
    pub fn sweep_memory_at(&mut self, now: i64) -> (swept: bool)
        requires
            now + old(self).config.purge_update <= i64::MAX,
        ensures
            swept == old(self).timers.spec_memory_sweep_due(now),
            final(self).resident() == records_after_sweep(
                old(self).resident(),
                old(self).timers,
                now,
            ),
            final(self).timers == timers_after_sweep(
                old(self).timers,
                now,
                old(self).config.purge_update,
            ),
            final(self).client == old(self).client,
            final(self).config == old(self).config,
    {
        if self.timers.memory_sweep_due(now) {
            self.inner.evict_expired(now);
            self.timers.memory_swept(now, self.config.purge_update);
            true
        } else {
            false
        }
    }

    /// Sweeps memory now, by the wall clock, if a sweep is due, and says
    /// whether it did: it does what `sweep_memory_at` does at the time that
    /// the clock showed. So a sweep that is due at every time the clock can
    /// show is made; where none was made, nothing changes; and where one
    /// was, the time that the clock showed is the new due time less the
    /// configured interval.
    pub fn sweep_memory(&mut self) -> (swept: bool)
        ensures
            exists|now: i64|
                is_clock_reading(now as int) && #[trigger] old(self).sweeps_memory_at(
                    now,
                    swept,
                    final(self).resident(),
                    final(self).timers,
                ),
            !swept ==> final(self).resident() == old(self).resident(),
            !swept ==> final(self).timers == old(self).timers,
            swept ==> is_clock_reading(final(self).memory_swept_time()),
            swept ==> old(self).timers.last_expiry_sweep <= final(self).memory_swept_time(),
            swept ==> final(self).resident() == staying_at(
                old(self).resident(),
                final(self).memory_swept_time(),
            ),
            final(self).timers.last_database_expiry_sweep
                == old(self).timers.last_database_expiry_sweep,
            final(self).client == old(self).client,
            final(self).config == old(self).config,
    {
        let now = unix_now();
        let swept = self.sweep_memory_at(now);
        assert(old(self).sweeps_memory_at(now, swept, self.resident(), self.timers));
        swept
    }

    /// The number of resident records as an `i64`.
    pub fn resident_count(&self) -> (count: i64)
        ensures
            count == reported_count(self.resident().len()),
    {
        let n: u64 = self.inner.len() as u64;
        if n <= 9_223_372_036_854_775_807u64 {
            n as i64
        } else {
            i64::MAX
        }
    }
}

} // verus!
