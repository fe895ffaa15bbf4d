//! The store's dealings with a durable backend: what it hands over, what it
//! makes of the answers, and when it sweeps.

use crate::backend::{
    answers_count, answers_delete_all, answers_delete_by_expiry, answers_delete_one_by_id,
    answers_initiate, answers_load, answers_store, DatabasePool,
};
use crate::codec::{json_fields_of, json_text_of};
use crate::error::{backend_outcome, passes_on, Answer, SessionError};
use crate::record::SessionData;
use crate::store::{reported_count, SessionStore};
use crate::timers::{is_clock_reading, unix_now, SessionTimers};
use vstd::prelude::*;

verus! {

/// What the store hands to a backend to have a session kept.
#[derive(Debug)]
pub struct StoreRequest<'a> {
    /// The session's identifier.
    pub id: &'a str,
    /// The session's record as text.
    pub payload: String,
    /// The session's expiry, in seconds since the Unix epoch.
    pub expires: i64,
    /// The table to keep it in.
    pub table_name: &'a str,
}

impl<T> SessionStore<T> {
    /// A sweep of the backend is to be made at `now`: the store has a
    /// backend and the sweep is due.
    pub open spec fn database_sweep_is_due(&self, now: i64) -> bool {
        self.is_persistent() && self.timers.spec_database_sweep_due(now)
    }

    /// Whether a sweep of the backend is to be made at `now`.
    #[verifier::when_used_as_spec(database_sweep_is_due)]
    pub fn database_sweep_due(&self, now: i64) -> (due: bool)
        ensures
            due == self.database_sweep_is_due(now),
    {
        self.client.is_some() && self.timers.database_sweep_due(now)
    }

    /// Whether claiming the sweep of the backend at `now` comes to `claimed`
    /// and leaves the timers `timers`: the sweep is claimed where it is to be
    /// made at `now`, the next one is then due the configured interval after
    /// `now`, and the timers stay where it is not claimed.
    pub open spec fn claims_database_sweep_at(
        &self,
        now: i64,
        claimed: bool,
        timers: SessionTimers,
    ) -> bool {
        if self.database_sweep_is_due(now) {
            claimed && timers == self.timers.after_database_sweep(
                now,
                self.config.purge_database_update,
            )
        } else {
            !claimed && timers == self.timers
        }
    }

    /// Claims the sweep of the backend at `now`, in one step: where the store
    /// has a backend and a sweep is due, the next one becomes due the
    /// configured interval after `now`, and the caller is told to sweep.
    /// Otherwise nothing changes.
    pub fn claim_database_sweep_at(&mut self, now: i64) -> (claimed: bool)
        requires
            now + old(self).config.purge_database_update <= i64::MAX,
        ensures
            claimed == old(self).database_sweep_is_due(now),
            claimed ==> final(self).timers == old(self).timers.after_database_sweep(
                now,
                old(self).config.purge_database_update,
            ),
            !claimed ==> final(self).timers == old(self).timers,
            final(self).resident() == old(self).resident(),
            final(self).client == old(self).client,
            final(self).config == old(self).config,
    {
        if self.database_sweep_due(now) {
            self.timers.database_swept(now, self.config.purge_database_update);
            true
        } else {
            false
        }
    }

    /// Claims the sweep of the backend now, by the wall clock: it does what
    /// `claim_database_sweep_at` does at the time that the clock showed. So
    /// without a backend there is nothing to claim; a sweep that is due at
    /// every time the clock can show is claimed; and where the sweep is
    /// claimed, the clock showed a time at which it was due, and the next one
    /// is due the configured interval after that time.
    pub fn claim_database_sweep(&mut self) -> (claimed: bool)
        ensures
            exists|now: i64|
                is_clock_reading(now as int) && #[trigger] old(self).claims_database_sweep_at(
                    now,
                    claimed,
                    final(self).timers,
                ),
            !old(self).is_persistent() ==> !claimed,
            !claimed ==> final(self).timers == old(self).timers,
            claimed ==> is_clock_reading(final(self).database_swept_time()),
            claimed ==> old(self).timers.last_database_expiry_sweep
                <= final(self).database_swept_time(),
            final(self).timers.last_expiry_sweep == old(self).timers.last_expiry_sweep,
            final(self).resident() == old(self).resident(),
            final(self).client == old(self).client,
            final(self).config == old(self).config,
    {
        let now = unix_now();
        let claimed = self.claim_database_sweep_at(now);
        assert(old(self).claims_database_sweep_at(now, claimed, self.timers));
        claimed
    }

    /// What every call to the backend starts from: the client and the
    /// configured table, where the store has a backend.
    pub fn backend(&self) -> (backend: Option<(&T, &str)>)
        ensures
            backend is Some == self.is_persistent(),
            backend matches Some(pair) ==> self.client == Some(*pair.0) && pair.1@
                == self.config.table_name@,
    {
        match &self.client {
            Some(client) => Some((client, self.config.table_name.as_str())),
            None => None,
        }
    }

    /// What is to be handed to the backend to have `session` kept: nothing
    /// where the store has no backend or the session is not storable;
    /// otherwise the session's identifier, its record as text, its expiry
    /// and the configured table. Fails with `Encode` exactly where the
    /// record cannot be written as text.
    pub fn store_request<'a>(
        &'a self,
        session: &'a SessionData,
    ) -> (request: Result<Option<StoreRequest<'a>>, SessionError>)
        ensures
            !(self.is_persistent() && session@.storable) ==> request matches Ok(None),
            self.is_persistent() && session@.storable && json_text_of(session.fields()) is None
                ==> request matches Err(SessionError::Encode(_)),
            self.is_persistent() && session@.storable && json_text_of(session.fields()) is Some
                ==> (request matches Ok(Some(r)) && r.id@ == session@.id && Some(r.payload@)
                == json_text_of(session.fields()) && r.expires == session@.expires
                && r.table_name@ == self.config.table_name@),
    {
        if self.client.is_some() && session.is_storable() {
            match session.to_json() {
                Ok(payload) => Ok(
                    Some(
                        StoreRequest {
                            id: session.id().as_str(),
                            payload,
                            expires: session.expires(),
                            table_name: self.config.table_name.as_str(),
                        },
                    ),
                ),
                Err(failure) => Err(failure),
            }
        } else {
            Ok(None)
        }
    }
}

/// Whether `loaded` is what loading a session comes to when the backend
/// answered `answer`: the backend's failure; no session, where it holds
/// none; the record that the text it holds describes; or `Decode`, where
/// that text describes none.
pub open spec fn is_load_outcome(
    answer: Answer<Option<String>>,
    loaded: Result<Option<SessionData>, SessionError>,
) -> bool {
    match answer {
        Err(failure) => loaded matches Err(SessionError::Backend(passed)) && passed == failure,
        Ok(None) => loaded matches Ok(None),
        Ok(Some(text)) => match json_fields_of(text@) {
            Some(fields) => loaded matches Ok(Some(record)) && record@ == fields.record(),
            None => loaded matches Err(SessionError::Decode(_)),
        },
    }
}

/// What loading a session comes to, given what the backend answered.
pub fn load_outcome(
    answer: Answer<Option<String>>,
) -> (loaded: Result<Option<SessionData>, SessionError>)
    ensures
        is_load_outcome(answer, loaded),
{
    match answer {
        Err(failure) => Err(SessionError::Backend(failure)),
        Ok(None) => Ok(None),
        Ok(Some(text)) => match SessionData::from_json(text.as_str()) {
            Ok(record) => Ok(Some(record)),
            Err(failure) => Err(failure),
        },
    }
}

/// The count for callers that must not fail: the backend's count, or zero
/// where the backend failed.
pub open spec fn counted_or_zero(answer: Answer<i64>) -> i64 {
    match answer {
        Ok(n) => n,
        Err(_) => 0,
    }
}

/// A count that must not fail: the backend's count, or zero where the
/// backend failed.
pub fn count_or_zero(answer: Answer<i64>) -> (count: i64)
    ensures
        count == counted_or_zero(answer),
{
    match answer {
        Ok(n) => n,
        Err(_) => 0,
    }
}

/// Whether `swept` is what a claimed sweep of the backend comes to when the
/// backend answered `answer`: done, or the backend's failure.
pub open spec fn is_sweep_outcome(
    answer: Answer<()>,
    swept: Result<bool, SessionError>,
) -> bool {
    match answer {
        Ok(_) => swept matches Ok(true),
        Err(failure) => swept matches Err(SessionError::Backend(passed)) && passed == failure,
    }
}

impl<T: DatabasePool> SessionStore<T> {
    /// Has the backend create its table, where the store has a backend.
    /// Succeeds without one. With one, the backend is asked to create the
    /// configured table, and its answer is passed on.
    pub fn initiate(&self) -> (done: Result<(), SessionError>)
        ensures
            !self.is_persistent() ==> done is Ok,
            self.is_persistent() ==> exists|answer: Answer<()>|
                answers_initiate(self.client.unwrap(), self.config.table_name@, answer)
                    && #[trigger] passes_on(answer, done),
    {
        match self.backend() {
            Some((client, table)) => {
                let answer = client.initiate(table);
                let done = backend_outcome(answer);
                assert(answers_initiate(*client, self.config.table_name@, answer));
                assert(passes_on(answer, done));
                done
            },
            None => Ok(()),
        }
    }

    /// Has the backend delete the sessions whose expiry has passed, where
    /// the store has a backend. Succeeds without one. With one, the backend
    /// is asked to delete by expiry in the configured table, and its answer
    /// is passed on.
    pub fn cleanup(&self) -> (done: Result<(), SessionError>)
        ensures
            !self.is_persistent() ==> done is Ok,
            self.is_persistent() ==> exists|answer: Answer<()>|
                answers_delete_by_expiry(self.client.unwrap(), self.config.table_name@, answer)
                    && #[trigger] passes_on(answer, done),
    {
        match self.backend() {
            Some((client, table)) => {
                let answer = client.delete_by_expiry(table);
                let done = backend_outcome(answer);
                assert(answers_delete_by_expiry(*client, self.config.table_name@, answer));
                assert(passes_on(answer, done));
                done
            },
            None => Ok(()),
        }
    }

    /// The number of sessions: the number of resident records where the
    /// store has no backend. With one, the backend is asked to count the
    /// configured table, and its answer is passed on.
    pub fn count(&self) -> (count: Result<i64, SessionError>)
        ensures
            !self.is_persistent() ==> (count matches Ok(n) && n == reported_count(
                self.resident().len(),
            )),
            self.is_persistent() ==> exists|answer: Answer<i64>|
                answers_count(self.client.unwrap(), self.config.table_name@, answer)
                    && #[trigger] passes_on(answer, count),
    {
        match self.backend() {
            Some((client, table)) => {
                let answer = client.count(table);
                let count = backend_outcome(answer);
                assert(answers_count(*client, self.config.table_name@, answer));
                assert(passes_on(answer, count));
                count
            },
            None => Ok(self.resident_count()),
        }
    }

    /// The session that the backend holds under `id`. Without a backend
    /// there is none. With one, the backend is asked for what it keeps
    /// under `id` in the configured table, and the result is what
    /// `load_outcome` makes of its answer.
    pub fn load_session(&self, id: &str) -> (loaded: Result<Option<SessionData>, SessionError>)
        ensures
            !self.is_persistent() ==> loaded matches Ok(None),
            self.is_persistent() ==> exists|answer: Answer<Option<String>>|
                answers_load(self.client.unwrap(), id@, self.config.table_name@, answer)
                    && #[trigger] is_load_outcome(answer, loaded),
    {
        match self.backend() {
            Some((client, table)) => {
                let answer = client.load(id, table);
                let loaded = load_outcome(answer);
                assert(answers_load(*client, id@, self.config.table_name@, answer));
                assert(is_load_outcome(answer, loaded));
                loaded
            },
            None => Ok(None),
        }
    }

    /// Has the backend keep `session`. Nothing is handed to the backend, and
    /// the call succeeds, where the store has no backend or the session is
    /// not storable. Otherwise the call fails with `Encode` where the record
    /// cannot be written as text; where it can, the backend is asked to keep
    /// that text under the session's identifier in the configured table,
    /// with the session's expiry, and its answer is passed on.
    pub fn store_session(&self, session: &SessionData) -> (done: Result<(), SessionError>)
        ensures
            !(self.is_persistent() && session@.storable) ==> done is Ok,
            self.is_persistent() && session@.storable && json_text_of(session.fields()) is None
                ==> done matches Err(SessionError::Encode(_)),
            self.is_persistent() && session@.storable && json_text_of(session.fields()) is Some
                ==> exists|answer: Answer<()>|
                answers_store(
                    self.client.unwrap(),
                    session@.id,
                    json_text_of(session.fields()).unwrap(),
                    session.fields().expires,
                    self.config.table_name@,
                    answer,
                ) && #[trigger] passes_on(answer, done),
    {
        proof {
            session.lemma_fields_describe_record();
        }
        match self.backend() {
            Some((client, _)) => match self.store_request(session) {
                Ok(Some(request)) => {
                    let answer = client.store(
                        request.id,
                        request.payload.as_str(),
                        request.expires,
                        request.table_name,
                    );
                    let done = backend_outcome(answer);
                    assert(answers_store(
                        *client,
                        session@.id,
                        json_text_of(session.fields()).unwrap(),
                        session.fields().expires,
                        self.config.table_name@,
                        answer,
                    ));
                    assert(passes_on(answer, done));
                    done
                },
                Ok(None) => Ok(()),
                Err(failure) => Err(failure),
            },
            None => Ok(()),
        }
    }

    /// Has the backend delete the session `id`, where the store has a
    /// backend. Succeeds without one. With one, the backend is asked to
    /// delete what it keeps under `id` in the configured table, and its
    /// answer is passed on. Memory is not touched.
    pub fn destroy_session(&self, id: &str) -> (done: Result<(), SessionError>)
        ensures
            !self.is_persistent() ==> done is Ok,
            self.is_persistent() ==> exists|answer: Answer<()>|
                answers_delete_one_by_id(self.client.unwrap(), id@, self.config.table_name@, answer)
                    && #[trigger] passes_on(answer, done),
    {
        match self.backend() {
            Some((client, table)) => {
                let answer = client.delete_one_by_id(id, table);
                let done = backend_outcome(answer);
                assert(answers_delete_one_by_id(*client, id@, self.config.table_name@, answer));
                assert(passes_on(answer, done));
                done
            },
            None => Ok(()),
        }
    }

    /// Has the backend delete every session, where the store has a backend.
    /// Succeeds without one. With one, the backend is asked to delete all of
    /// the configured table, and its answer is passed on. Memory is not
    /// touched.
    pub fn clear_store(&self) -> (done: Result<(), SessionError>)
        ensures
            !self.is_persistent() ==> done is Ok,
            self.is_persistent() ==> exists|answer: Answer<()>|
                answers_delete_all(self.client.unwrap(), self.config.table_name@, answer)
                    && #[trigger] passes_on(answer, done),
    {
        match self.backend() {
            Some((client, table)) => {
                let answer = client.delete_all(table);
                let done = backend_outcome(answer);
                assert(answers_delete_all(*client, self.config.table_name@, answer));
                assert(passes_on(answer, done));
                done
            },
            None => Ok(()),
        }
    }

    /// The number of sessions, for callers that must not fail: the number
    /// of resident records where the store has no backend. With one, the
    /// backend is asked to count the configured table; the result is its
    /// count, or zero where it failed.
    pub fn count_sessions(&self) -> (count: i64)
        ensures
            !self.is_persistent() ==> count == reported_count(self.resident().len()),
            self.is_persistent() ==> exists|answer: Answer<i64>|
                answers_count(self.client.unwrap(), self.config.table_name@, answer) && count
                    == #[trigger] counted_or_zero(answer),
    {
        match self.backend() {
            Some((client, table)) => {
                let answer = client.count(table);
                let count = count_or_zero(answer);
                assert(answers_count(*client, self.config.table_name@, answer));
                assert(count == counted_or_zero(answer));
                count
            },
            None => self.resident_count(),
        }
    }

    /// Whether sweeping the backend at `now` comes to `swept` and leaves the
    /// timers `timers`. Where no sweep is to be made at `now`, none is made
    /// and the timers stay. Where one is, the next one is due the configured
    /// interval after `now`, the backend is asked to delete by expiry in the
    /// configured table, and `swept` is what its answer comes to.
    pub open spec fn sweeps_database_at(
        &self,
        now: i64,
        swept: Result<bool, SessionError>,
        timers: SessionTimers,
    ) -> bool {
        if self.database_sweep_is_due(now) {
            timers == self.timers.after_database_sweep(now, self.config.purge_database_update)
                && exists|answer: Answer<()>|
                answers_delete_by_expiry(self.client.unwrap(), self.config.table_name@, answer)
                    && #[trigger] is_sweep_outcome(answer, swept)
        } else {
            swept matches Ok(false) && timers == self.timers
        }
    }

    /// Sweeps the backend at `now` if the store has one and a sweep is due,
    /// and says whether it did. The sweep is claimed first, so the next one
    /// is due the configured interval after `now` whether or not the backend
    /// then fails. The backend is then asked to delete by expiry in the
    /// configured table; where it fails, its report is handed back.
    pub fn sweep_database_at(&mut self, now: i64) -> (swept: Result<bool, SessionError>)
        requires
            now + old(self).config.purge_database_update <= i64::MAX,
        ensures
            !old(self).database_sweep_is_due(now) ==> swept matches Ok(false),
            !old(self).database_sweep_is_due(now) ==> final(self).timers == old(self).timers,
            old(self).database_sweep_is_due(now) ==> final(self).timers
                == old(self).timers.after_database_sweep(
                now,
                old(self).config.purge_database_update,
            ),
            old(self).database_sweep_is_due(now) ==> exists|answer: Answer<()>|
                answers_delete_by_expiry(
                    old(self).client.unwrap(),
                    old(self).config.table_name@,
                    answer,
                ) && #[trigger] is_sweep_outcome(answer, swept),
            final(self).resident() == old(self).resident(),
            final(self).client == old(self).client,
            final(self).config == old(self).config,
    {
        if self.claim_database_sweep_at(now) {
            match self.backend() {
                Some((client, table)) => {
                    let answer = client.delete_by_expiry(table);
                    assert(answers_delete_by_expiry(*client, self.config.table_name@, answer));
                    let swept = match answer {
                        Ok(()) => Ok(true),
                        Err(failure) => Err(SessionError::Backend(failure)),
                    };
                    assert(is_sweep_outcome(answer, swept));
                    swept
                },
                None => Ok(false),
            }
        } else {
            Ok(false)
        }
    }

    /// Sweeps the backend now, by the wall clock, if the store has one and a
    /// sweep is due, and says whether it did: it does what
    /// `sweep_database_at` does at the time that the clock showed. So without
    /// a backend it never sweeps; a sweep that is due at every time the
    /// clock can show is made; where no sweep was due, nothing changes; and
    /// where one was, the clock showed a time at which it was due, the next
    /// one is due the configured interval after that time, and the backend
    /// was asked to delete by expiry in the configured table.
    pub fn sweep_database(&mut self) -> (swept: Result<bool, SessionError>)
        ensures
            exists|now: i64|
                is_clock_reading(now as int) && #[trigger] old(self).sweeps_database_at(
                    now,
                    swept,
                    final(self).timers,
                ),
            !old(self).is_persistent() ==> swept matches Ok(false),
            swept matches Ok(false) ==> final(self).timers == old(self).timers,
            !(swept matches Ok(false)) ==> is_clock_reading(final(self).database_swept_time()),
            !(swept matches Ok(false)) ==> old(self).timers.last_database_expiry_sweep
                <= final(self).database_swept_time(),
            !(swept matches Ok(false)) ==> exists|answer: Answer<()>|
                answers_delete_by_expiry(
                    old(self).client.unwrap(),
                    old(self).config.table_name@,
                    answer,
                ) && #[trigger] is_sweep_outcome(answer, swept),
            final(self).timers.last_expiry_sweep == old(self).timers.last_expiry_sweep,
            final(self).resident() == old(self).resident(),
            final(self).client == old(self).client,
            final(self).config == old(self).config,
    {
        let now = unix_now();
        let swept = self.sweep_database_at(now);
        assert(old(self).sweeps_database_at(now, swept, self.timers));
        swept
    }
}

} // verus!
