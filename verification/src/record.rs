//! The record kept for one session, and what each operation does to it.

use crate::config::SessionConfig;
use crate::values::{keys_unique, no_values, option_text, pair_views, pairs_map, KeyValues};
use vstd::prelude::*;

verus! {

/// A session record as mathematical values. Times are seconds since the Unix
/// epoch.
pub struct SessionView {
    /// The session's identifier.
    pub id: Seq<char>,
    /// The values kept for the session, each under its key.
    pub data: Map<Seq<char>, Seq<char>>,
    /// The time from which on the session is no longer valid.
    pub expires: int,
    /// The time from which on the record may leave memory.
    pub autoremove: int,
    /// The session is to be emptied when it is next serviced.
    pub destroy: bool,
    /// The session is to get a new identifier with the next response.
    pub renew: bool,
    /// The session is kept for the long-term span.
    pub longterm: bool,
    /// The session may be written to the backend.
    pub storable: bool,
}

impl SessionView {
    /// The session has not expired at `now`.
    pub open spec fn is_valid(self, now: int) -> bool {
        self.expires > now
    }

    /// Servicing the record at `now` empties it: it has expired or was
    /// marked as destroyed.
    pub open spec fn due_for_reset(self, now: int) -> bool {
        !self.is_valid(now) || self.destroy
    }

    /// The record emptied for a fresh start under the same identifier.
    pub open spec fn reset(self) -> SessionView {
        SessionView { destroy: false, longterm: false, data: Map::empty(), ..self }
    }

    /// The record after it was serviced at `now`: emptied where that was
    /// due, and in any case kept in memory for `memory_lifespan` more seconds.
    pub open spec fn serviced(self, now: int, memory_lifespan: int) -> SessionView {
        let kept = if self.due_for_reset(now) {
            self.reset()
        } else {
            self
        };
        SessionView { autoremove: now + memory_lifespan, ..kept }
    }

    /// The record marked for a new identifier.
    pub open spec fn renewed(self) -> SessionView {
        SessionView { renew: true, ..self }
    }

    /// The record marked as destroyed.
    pub open spec fn destroyed(self) -> SessionView {
        SessionView { destroy: true, ..self }
    }

    /// The record with its long-term flag set to `longterm`.
    pub open spec fn with_longterm(self, longterm: bool) -> SessionView {
        SessionView { longterm, ..self }
    }

    /// The record with its storable flag set to `storable`.
    pub open spec fn with_store(self, storable: bool) -> SessionView {
        SessionView { storable, ..self }
    }

    /// The value kept under `key`, if there is one.
    pub open spec fn value_of(self, key: Seq<char>) -> Option<Seq<char>> {
        if self.data.contains_key(key) {
            Some(self.data[key])
        } else {
            None
        }
    }

    /// The record with `value` kept under `key`.
    pub open spec fn with_value(self, key: Seq<char>, value: Seq<char>) -> SessionView {
        SessionView { data: self.data.insert(key, value), ..self }
    }

    /// The record with nothing kept under `key`.
    pub open spec fn without_value(self, key: Seq<char>) -> SessionView {
        SessionView { data: self.data.remove(key), ..self }
    }

    /// The record with no values at all.
    pub open spec fn cleared(self) -> SessionView {
        SessionView { data: Map::empty(), ..self }
    }

    /// The record is still to be kept in memory at `now`.
    pub open spec fn stays_at(self, now: int) -> bool {
        self.autoremove > now
    }
}

/// A record that is marked as destroyed and then serviced comes out empty,
/// with neither the destroy nor the long-term flag, whatever it held and
/// whenever it is serviced.
pub proof fn lemma_destroy_then_service_resets(record: SessionView, now: int, memory_lifespan: int)
    ensures
        record.destroyed().serviced(now, memory_lifespan).data == no_values(),
        !record.destroyed().serviced(now, memory_lifespan).destroy,
        !record.destroyed().serviced(now, memory_lifespan).longterm,
{
}

/// Expiry and destruction meet in one state: servicing a record that has
/// expired gives what servicing it after marking it as destroyed gives, and
/// that record holds no values.
pub proof fn lemma_expired_service_is_destroyed_service(
    record: SessionView,
    now: int,
    memory_lifespan: int,
)
    requires
        record.expires <= now,
    ensures
        record.serviced(now, memory_lifespan) == record.destroyed().serviced(now, memory_lifespan),
        record.serviced(now, memory_lifespan).data == no_values(),
{
}

/// Servicing sets the time of removal from memory to `now + memory_lifespan`
/// whatever it was before, and so moves it forward whenever it lay before
/// that time.
pub proof fn lemma_service_moves_autoremove(record: SessionView, now: int, memory_lifespan: int)
    requires
        record.autoremove < now + memory_lifespan,
    ensures
        record.serviced(now, memory_lifespan).autoremove == now + memory_lifespan,
        record.serviced(now, memory_lifespan).autoremove > record.autoremove,
{
}

/// Destruction is lazy: marking a record as destroyed takes nothing away,
/// so a read before the next service still finds every value, and marking it
/// twice is marking it once.
pub proof fn lemma_destroy_is_lazy(record: SessionView, key: Seq<char>)
    ensures
        record.destroyed().data == record.data,
        record.destroyed().value_of(key) == record.value_of(key),
        record.destroyed().destroyed() == record.destroyed(),
{
}

/// No operation on a record changes its identifier.
pub proof fn lemma_identifier_is_kept(
    record: SessionView,
    now: int,
    memory_lifespan: int,
    flag: bool,
    key: Seq<char>,
    value: Seq<char>,
)
    ensures
        record.serviced(now, memory_lifespan).id == record.id,
        record.renewed().id == record.id,
        record.destroyed().id == record.id,
        record.with_longterm(flag).id == record.id,
        record.with_store(flag).id == record.id,
        record.with_value(key, value).id == record.id,
        record.without_value(key).id == record.id,
        record.cleared().id == record.id,
{
}

/// A session record as it is written out: like its view, but with the
/// entries in the order in which the record keeps them.
pub struct SessionFields {
    /// The session's identifier.
    pub id: Seq<char>,
    /// The values kept for the session, as pairs of key and value.
    pub entries: Seq<(Seq<char>, Seq<char>)>,
    /// The time from which on the session is no longer valid.
    pub expires: i64,
    /// The time from which on the record may leave memory.
    pub autoremove: i64,
    /// The session is to be emptied when it is next serviced.
    pub destroy: bool,
    /// The session is to get a new identifier with the next response.
    pub renew: bool,
    /// The session is kept for the long-term span.
    pub longterm: bool,
    /// The session may be written to the backend.
    pub storable: bool,
}

impl SessionFields {
    /// The record that these fields describe. Where a key occurs more than
    /// once among the entries, its last entry counts.
    pub open spec fn record(self) -> SessionView {
        SessionView {
            id: self.id,
            data: pairs_map(self.entries),
            expires: self.expires as int,
            autoremove: self.autoremove as int,
            destroy: self.destroy,
            renew: self.renew,
            longterm: self.longterm,
            storable: self.storable,
        }
    }
}

/// The fields of a record, put together.
pub open spec fn session_fields(
    id: Seq<char>,
    entries: Seq<(Seq<char>, Seq<char>)>,
    expires: i64,
    autoremove: i64,
    destroy: bool,
    renew: bool,
    longterm: bool,
    storable: bool,
) -> SessionFields {
    SessionFields { id, entries, expires, autoremove, destroy, renew, longterm, storable }
}

/// The record kept for one session.
#[derive(Debug)]
pub struct SessionData {
    id: String,
    data: KeyValues,
    expires: i64,
    autoremove: i64,
    destroy: bool,
    renew: bool,
    longterm: bool,
    storable: bool,
}

impl View for SessionData {
    type V = SessionView;

    closed spec fn view(&self) -> SessionView {
        SessionView {
            id: self.id@,
            data: self.data@,
            expires: self.expires as int,
            autoremove: self.autoremove as int,
            destroy: self.destroy,
            renew: self.renew,
            longterm: self.longterm,
            storable: self.storable,
        }
    }
}

impl Clone for SessionData {
    /// The same record: the same view, written out the same way.
    fn clone(&self) -> (copy: Self)
        ensures
            copy@ == self@,
            copy.fields() == self.fields(),
    {
        SessionData {
            id: self.id.clone(),
            data: self.data.clone(),
            expires: self.expires,
            autoremove: self.autoremove,
            destroy: self.destroy,
            renew: self.renew,
            longterm: self.longterm,
            storable: self.storable,
        }
    }
}

impl SessionData {
    /// The record as it is written out.
    pub closed spec fn fields(&self) -> SessionFields {
        session_fields(
            self.id@,
            self.data.pairs(),
            self.expires,
            self.autoremove,
            self.destroy,
            self.renew,
            self.longterm,
            self.storable,
        )
    }

    /// What is written out describes the record itself.
    pub proof fn lemma_fields_describe_record(&self)
        ensures
            self.fields().record() == self@,
    {
        self.data.lemma_view();
    }

    /// A fresh record for the session `id`, created at `now`: no values, valid
    /// for the configured lifespan, kept in memory for the configured memory
    /// lifespan.
    pub fn new(id: String, storable: bool, now: i64, config: &SessionConfig) -> (record: Self)
        requires
            now + config.lifespan <= i64::MAX,
            now + config.memory_lifespan <= i64::MAX,
        ensures
            record@ == (SessionView {
                id: id@,
                data: Map::empty(),
                expires: now + config.lifespan,
                autoremove: now + config.memory_lifespan,
                destroy: false,
                renew: false,
                longterm: false,
                storable,
            }),
    {
        SessionData {
            id,
            data: KeyValues::new(),
            expires: now + config.lifespan as i64,
            autoremove: now + config.memory_lifespan as i64,
            destroy: false,
            renew: false,
            longterm: false,
            storable,
        }
    }

    /// The record that the given fields describe. Where a key occurs more
    /// than once among the entries, its last entry counts.
    pub fn from_parts(
        id: String,
        entries: Vec<(String, String)>,
        expires: i64,
        autoremove: i64,
        destroy: bool,
        renew: bool,
        longterm: bool,
        storable: bool,
    ) -> (record: Self)
        ensures
            record@ == session_fields(
                id@,
                pair_views(entries@),
                expires,
                autoremove,
                destroy,
                renew,
                longterm,
                storable,
            ).record(),
    {
        SessionData {
            id,
            data: KeyValues::from_pairs(entries),
            expires,
            autoremove,
            destroy,
            renew,
            longterm,
            storable,
        }
    }

    /// The session's identifier.
    pub fn id(&self) -> (id: &String)
        ensures
            id@ == self@.id,
    {
        &self.id
    }

    /// The time from which on the session is no longer valid.
    pub fn expires(&self) -> (at: i64)
        ensures
            at == self@.expires,
    {
        self.expires
    }

    /// The time from which on the record may leave memory.
    pub fn autoremove(&self) -> (at: i64)
        ensures
            at == self@.autoremove,
    {
        self.autoremove
    }

    /// Whether the session is marked as destroyed.
    pub fn is_destroyed(&self) -> (marked: bool)
        ensures
            marked == self@.destroy,
    {
        self.destroy
    }

    /// Whether the session is marked for a new identifier.
    pub fn is_renewed(&self) -> (marked: bool)
        ensures
            marked == self@.renew,
    {
        self.renew
    }

    /// Whether the session is kept for the long-term span.
    pub fn is_longterm(&self) -> (longterm: bool)
        ensures
            longterm == self@.longterm,
    {
        self.longterm
    }

    /// Whether the session may be written to the backend.
    pub fn is_storable(&self) -> (storable: bool)
        ensures
            storable == self@.storable,
    {
        self.storable
    }

    /// The entries in the order in which the record keeps them.
    pub fn entries(&self) -> (entries: &Vec<(String, String)>)
        ensures
            pair_views(entries@) == self.fields().entries,
            keys_unique(self.fields().entries),
    {
        self.data.as_pairs()
    }

    /// Whether the session is still valid at `now`: it is as long as `now`
    /// lies before its expiry.
    pub fn validate(&self, now: i64) -> (valid: bool)
        ensures
            valid == self@.is_valid(now as int),
    {
        self.expires > now
    }

    /// Whether the record is still to be kept in memory at `now`.
    pub fn stays_at(&self, now: i64) -> (stays: bool)
        ensures
            stays == self@.stays_at(now as int),
    {
        self.autoremove > now
    }

    /// Services the record at `now`. A record that has expired or is marked
    /// as destroyed is emptied: its values go, and so do the destroy and the
    /// long-term flag. In any case the record is then kept in memory until
    /// `now + memory_lifespan`.
    pub fn service(&mut self, now: i64, memory_lifespan: u32)
        requires
            now + memory_lifespan <= i64::MAX,
        ensures
            final(self)@ == old(self)@.serviced(now as int, memory_lifespan as int),
    {
        if !self.validate(now) || self.destroy {
            self.destroy = false;
            self.longterm = false;
            self.data.clear();
        }
        self.autoremove = now + memory_lifespan as i64;
    }

    /// Marks the session for a new identifier. Its values stay.
    pub fn renew(&mut self)
        ensures
            final(self)@ == old(self)@.renewed(),
    {
        self.renew = true;
    }

    /// Marks the session as destroyed. It is emptied when it is next
    /// serviced, not before.
    pub fn destroy(&mut self)
        ensures
            final(self)@ == old(self)@.destroyed(),
    {
        self.destroy = true;
    }

    /// Sets the long-term flag.
    pub fn set_longterm(&mut self, longterm: bool)
        ensures
            final(self)@ == old(self)@.with_longterm(longterm),
    {
        self.longterm = longterm;
    }

    /// Sets the storable flag.
    pub fn set_store(&mut self, storable: bool)
        ensures
            final(self)@ == old(self)@.with_store(storable),
    {
        self.storable = storable;
    }

    /// The value kept under `key`, if there is one. The record stays as it
    /// is.
    pub fn get(&self, key: &str) -> (value: Option<String>)
        ensures
            option_text(value) == self@.value_of(key@),
    {
        match self.data.get(key) {
            Some(text) => Some(text.clone()),
            None => None,
        }
    }

    /// Takes the value kept under `key` out of the record and hands it back,
    /// if there is one.
    pub fn get_remove(&mut self, key: &str) -> (value: Option<String>)
        ensures
            option_text(value) == old(self)@.value_of(key@),
            final(self)@ == old(self)@.without_value(key@),
    {
        self.data.remove(key)
    }

    /// Keeps `value` under `key`, in place of what was kept there.
    pub fn set(&mut self, key: &str, value: String)
        ensures
            final(self)@ == old(self)@.with_value(key@, value@),
    {
        self.data.insert(key, value);
    }

    /// Takes away what is kept under `key`.
    pub fn remove(&mut self, key: &str)
        ensures
            final(self)@ == old(self)@.without_value(key@),
    {
        let _ = self.data.remove(key);
    }

    /// Takes all values away. The flags and times stay.
    pub fn clear(&mut self)
        ensures
            final(self)@ == old(self)@.cleared(),
    {
        self.data.clear();
    }
}

} // verus!
