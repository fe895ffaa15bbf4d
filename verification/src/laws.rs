//! What holds of the store whatever it holds and whenever it is asked.

use crate::cache::{no_records, replaced_at, staying_at};
use crate::codec::{json_fields_of, json_text_of};
use crate::error::SessionError;
use crate::persistence::is_load_outcome;
use crate::record::{SessionData, SessionView};
use crate::store::{records_after_sweep, timers_after_sweep, value_at, without_value_at};
use crate::timers::SessionTimers;
use crate::values::no_values;
use vstd::prelude::*;

verus! {

/// Where a session stands in the store.
pub enum SessionPhase {
    /// No record of the session is resident.
    Absent,
    /// A record is resident and in use.
    Active,
    /// A record is resident and marked as destroyed: the next service
    /// empties it.
    ResetPending,
}

/// Where the session `id` stands among the records.
pub open spec fn phase_of(records: Map<Seq<char>, SessionView>, id: Seq<char>) -> SessionPhase {
    if !records.contains_key(id) {
        SessionPhase::Absent
    } else if records[id].destroy {
        SessionPhase::ResetPending
    } else {
        SessionPhase::Active
    }
}

/// A session that is not resident is not touched by any operation on it:
/// replacing its record leaves the records as they are, and no value is
/// found for it.
pub proof fn lemma_absent_session_untouched(
    records: Map<Seq<char>, SessionView>,
    id: Seq<char>,
    key: Seq<char>,
    record: SessionView,
)
    requires
        !records.contains_key(id),
    ensures
        replaced_at(records, id, record) == records,
        value_at(records, id, key) is None,
{
}

/// Only an insertion makes a session resident: a session that is not
/// resident is not resident after any operation on any session, unless the
/// operation inserts a record under its very identifier. So a session that
/// was never inserted is not resident, and a new store has none.
pub proof fn lemma_only_insert_makes_resident(
    records: Map<Seq<char>, SessionView>,
    id: Seq<char>,
    other: Seq<char>,
    record: SessionView,
    now: int,
)
    requires
        !records.contains_key(id),
    ensures
        !no_records().contains_key(id),
        !replaced_at(records, other, record).contains_key(id),
        !records.remove(other).contains_key(id),
        !staying_at(records, now).contains_key(id),
        records.insert(other, record).contains_key(id) <==> other == id,
{
}

/// Taking a value out in one step is reading it and then removing it:
/// `get_remove` hands back what `get` finds and leaves the records that
/// `remove` leaves. Those records have nothing under the key, and every
/// other key of every session as before.
pub proof fn lemma_get_remove_is_get_then_remove(
    records: Map<Seq<char>, SessionView>,
    id: Seq<char>,
    key: Seq<char>,
)
    ensures
        value_at(without_value_at(records, id, key), id, key) is None,
        without_value_at(records, id, key).dom() == records.dom(),
        forall|other_id: Seq<char>, other_key: Seq<char>|
            other_id != id || other_key != key ==> #[trigger] value_at(
                without_value_at(records, id, key),
                other_id,
                other_key,
            ) == value_at(records, other_id, other_key),
{
    assert(without_value_at(records, id, key).dom() =~= records.dom());
}

/// A session that was persisted and is then loaded comes back as it was,
/// wherever the text that was written reads back as the fields that were
/// written: the request to the backend carries `json_text_of` of the
/// record's fields, and loading that text gives a record with the same
/// view, so with the same values and the same expiry.
pub proof fn lemma_persist_then_load(
    record: SessionData,
    text: String,
    loaded: Result<Option<SessionData>, SessionError>,
)
    requires
        is_load_outcome(Ok(Some(text)), loaded),
    ensures
        json_text_of(record.fields()) == Some(text@) && json_fields_of(text@) == Some(
            record.fields(),
        ) ==> (loaded matches Ok(Some(read)) && read@ == record@),
{
    record.lemma_fields_describe_record();
}

/// The life of a session in the store. Inserting a fresh record makes the
/// session active; destroying it leaves it resident with its reset pending;
/// the next service makes it active again, and empty; removal and a sweep
/// past its time of removal make it absent, from where it can be inserted
/// again. A session that is absent stays absent under every operation that
/// only changes records.
pub proof fn lemma_session_phases(
    records: Map<Seq<char>, SessionView>,
    id: Seq<char>,
    fresh: SessionView,
    change: SessionView,
    now: int,
    memory_lifespan: int,
)
    ensures
        !fresh.destroy ==> phase_of(records.insert(id, fresh), id) == SessionPhase::Active,
        records.contains_key(id) ==> phase_of(
            replaced_at(records, id, records[id].destroyed()),
            id,
        ) == SessionPhase::ResetPending,
        records.contains_key(id) ==> phase_of(
            replaced_at(records, id, records[id].serviced(now, memory_lifespan)),
            id,
        ) == SessionPhase::Active,
        phase_of(records, id) == SessionPhase::ResetPending ==> replaced_at(
            records,
            id,
            records[id].serviced(now, memory_lifespan),
        )[id].data == no_values(),
        phase_of(records.remove(id), id) == SessionPhase::Absent,
        records.contains_key(id) && records[id].autoremove <= now ==> phase_of(
            staying_at(records, now),
            id,
        ) == SessionPhase::Absent,
        phase_of(records, id) == SessionPhase::Absent ==> phase_of(
            replaced_at(records, id, change),
            id,
        ) == SessionPhase::Absent && phase_of(staying_at(records, now), id)
            == SessionPhase::Absent,
{
}

/// A session in use is not swept out of memory: once it was serviced, it
/// stays resident, as it is, through every sweep that comes before the
/// memory lifespan has passed.
pub proof fn lemma_serviced_session_outlives_sweeps(
    records: Map<Seq<char>, SessionView>,
    id: Seq<char>,
    now: int,
    memory_lifespan: int,
    sweep: int,
)
    requires
        records.contains_key(id),
        sweep < now + memory_lifespan,
    ensures
        staying_at(
            replaced_at(records, id, records[id].serviced(now, memory_lifespan)),
            sweep,
        ).contains_key(id),
        staying_at(
            replaced_at(records, id, records[id].serviced(now, memory_lifespan)),
            sweep,
        )[id] == records[id].serviced(now, memory_lifespan),
{
}

/// Asking for a lazy sweep of memory a second time within the interval
/// after one that ran does nothing: no record is scanned or dropped, and
/// the timers stay as the first sweep set them.
pub proof fn lemma_second_sweep_within_interval_does_nothing(
    records: Map<Seq<char>, SessionView>,
    timers: SessionTimers,
    first: i64,
    second: i64,
    interval: u32,
)
    requires
        timers.spec_memory_sweep_due(first),
        first + interval <= i64::MAX,
        first <= second < first + interval,
    ensures
        !timers_after_sweep(timers, first, interval).spec_memory_sweep_due(second),
        records_after_sweep(
            records_after_sweep(records, timers, first),
            timers_after_sweep(timers, first, interval),
            second,
        ) == records_after_sweep(records, timers, first),
        timers_after_sweep(timers_after_sweep(timers, first, interval), second, interval)
            == timers_after_sweep(timers, first, interval),
{
}

} // verus!
