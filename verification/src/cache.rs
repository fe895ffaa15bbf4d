//! The records resident in memory, each under its session's identifier.
//!
//! The records are kept in a `dashmap::DashMap`. Such a map can be changed
//! through a shared reference; the operations here ask for an exclusive one
//! where they change it. Nothing else touches the map while such a call
//! runs, so the contract can say what the map holds before and after it, and
//! no reference into the map is ever held across a call.
//!
//! A record is changed by taking it out of the cache and putting it back.

use crate::record::{SessionData, SessionView};
use dashmap::DashMap;
use vstd::prelude::*;

verus! {

/// `dashmap::DashMap`, made known so that it can stand in fields and
/// signatures. Nothing of its inside is known.
#[verifier::external_type_specification]
#[verifier::external_body]
#[verifier::reject_recursive_types(K)]
#[verifier::reject_recursive_types(V)]
#[verifier::reject_recursive_types(S)]
pub struct ExDashMap<K, V, S>(DashMap<K, V, S>);

/// What a map of records holds: the view of each record, under the
/// characters of its key.
pub uninterp spec fn resident_records(
    map: DashMap<String, SessionData>,
) -> Map<Seq<char>, SessionView>;

/// No records at all.
pub open spec fn no_records() -> Map<Seq<char>, SessionView> {
    Map::empty()
}

/// The records that are still to be kept in memory at `now`.
pub open spec fn staying_at(
    records: Map<Seq<char>, SessionView>,
    now: int,
) -> Map<Seq<char>, SessionView> {
    Map::new(
        |id: Seq<char>| records.contains_key(id) && records[id].stays_at(now),
        |id: Seq<char>| records[id],
    )
}

/// The records with `record` in place of the one under `id`, where there is
/// one; the records as they are, where there is none.
pub open spec fn replaced_at(
    records: Map<Seq<char>, SessionView>,
    id: Seq<char>,
    record: SessionView,
) -> Map<Seq<char>, SessionView> {
    if records.contains_key(id) {
        records.insert(id, record)
    } else {
        records
    }
}

/// Calls `DashMap::new`: a map that holds nothing.
#[verifier::external_body]
fn map_new() -> (map: DashMap<String, SessionData>)
    ensures
        resident_records(map) == no_records(),
{
    DashMap::new()
}

/// Calls `DashMap::insert`: the value is then held under the key, in place
/// of any value held there before, which is handed back.
#[verifier::external_body]
fn map_insert(
    map: &mut DashMap<String, SessionData>,
    id: String,
    record: SessionData,
) -> (previous: Option<SessionData>)
    ensures
        resident_records(*final(map)) == resident_records(*old(map)).insert(id@, record@),
        previous is Some == resident_records(*old(map)).contains_key(id@),
        previous matches Some(earlier) ==> earlier@ == resident_records(*old(map))[id@],
{
    map.insert(id, record)
}

/// Calls `DashMap::remove`: the key is then held no longer, and the key and
/// value that were held under it are handed back, if there were any.
#[verifier::external_body]
fn map_remove(
    map: &mut DashMap<String, SessionData>,
    id: &str,
) -> (taken: Option<(String, SessionData)>)
    ensures
        resident_records(*final(map)) == resident_records(*old(map)).remove(id@),
        taken is Some == resident_records(*old(map)).contains_key(id@),
        taken matches Some(entry) ==> entry.0@ == id@,
        taken matches Some(entry) ==> entry.1@ == resident_records(*old(map))[id@],
{
    map.remove(id)
}

/// Calls `DashMap::retain` with the test whether a record stays at `now`:
/// the records for which it holds are kept as they are, the others leave.
#[verifier::external_body]
fn map_retain_staying(map: &mut DashMap<String, SessionData>, now: i64)
    ensures
        resident_records(*final(map)) == staying_at(resident_records(*old(map)), now as int),
{
    map.retain(|_, record| record.stays_at(now));
}

/// Calls `DashMap::contains_key`: whether a value is held under the key.
#[verifier::external_body]
fn map_contains(map: &DashMap<String, SessionData>, id: &str) -> (held: bool)
    ensures
        held == resident_records(*map).contains_key(id@),
{
    map.contains_key(id)
}

/// Calls `DashMap::len`: the number of keys held.
#[verifier::external_body]
fn map_len(map: &DashMap<String, SessionData>) -> (count: usize)
    ensures
        count == resident_records(*map).len(),
{
    map.len()
}

/// Calls `DashMap::clear`: the map then holds nothing.
#[verifier::external_body]
fn map_clear(map: &mut DashMap<String, SessionData>)
    ensures
        resident_records(*final(map)) == no_records(),
{
    map.clear();
}

/// The records resident in memory. Its view maps the identifier of each
/// resident session to the view of its record.
#[derive(Debug)]
pub struct SessionCache {
    map: DashMap<String, SessionData>,
}

impl View for SessionCache {
    type V = Map<Seq<char>, SessionView>;

    closed spec fn view(&self) -> Map<Seq<char>, SessionView> {
        resident_records(self.map)
    }
}

impl SessionCache {
    /// A cache with no record in it.
    pub fn new() -> (cache: Self)
        ensures
            cache@ == no_records(),
    {
        SessionCache { map: map_new() }
    }

    /// Puts `record` under `id`, in place of any record that was there, and
    /// says whether there was one.
    pub fn insert(&mut self, id: String, record: SessionData) -> (replaced: bool)
        ensures
            final(self)@ == old(self)@.insert(id@, record@),
            replaced == old(self)@.contains_key(id@),
    {
        map_insert(&mut self.map, id, record).is_some()
    }

    /// Takes the record under `id` out of the cache and hands it back with
    /// its key, if there is one.
    pub fn take(&mut self, id: &str) -> (taken: Option<(String, SessionData)>)
        ensures
            final(self)@ == old(self)@.remove(id@),
            taken is Some == old(self)@.contains_key(id@),
            taken matches Some(entry) ==> entry.0@ == id@ && entry.1@ == old(self)@[id@],
    {
        map_remove(&mut self.map, id)
    }

    /// Drops the record under `id` and says whether there was one.
    pub fn remove(&mut self, id: &str) -> (existed: bool)
        ensures
            final(self)@ == old(self)@.remove(id@),
            existed == old(self)@.contains_key(id@),
    {
        map_remove(&mut self.map, id).is_some()
    }

    /// Whether a record is resident under `id`.
    pub fn contains(&self, id: &str) -> (resident: bool)
        ensures
            resident == self@.contains_key(id@),
    {
        map_contains(&self.map, id)
    }

    /// Drops every record whose time of removal from memory is `now` or
    /// earlier. The others stay as they are.
    pub fn evict_expired(&mut self, now: i64)
        ensures
            final(self)@ == staying_at(old(self)@, now as int),
    {
        map_retain_staying(&mut self.map, now);
    }

    /// The number of resident records.
    pub fn len(&self) -> (count: usize)
        ensures
            count == self@.len(),
    {
        map_len(&self.map)
    }

    /// Drops every record.
    pub fn clear(&mut self)
        ensures
            final(self)@ == no_records(),
    {
        map_clear(&mut self.map);
    }
}

/// A record taken out and put back changed is the record replaced.
pub proof fn lemma_take_then_insert(
    records: Map<Seq<char>, SessionView>,
    id: Seq<char>,
    record: SessionView,
)
    requires
        records.contains_key(id),
    ensures
        records.remove(id).insert(id, record) == replaced_at(records, id, record),
{
    assert(records.remove(id).insert(id, record) =~= records.insert(id, record));
}

/// Sweeping at one time and again at a later one leaves what the later
/// sweep alone leaves; sweeping twice at the same time is sweeping once.
pub proof fn lemma_staying_twice(records: Map<Seq<char>, SessionView>, first: int, second: int)
    requires
        first <= second,
    ensures
        staying_at(staying_at(records, first), second) == staying_at(records, second),
{
    assert(staying_at(staying_at(records, first), second) =~= staying_at(records, second));
}

/// A sweep drops records and adds none: what stays was resident before, and
/// of finitely many records finitely many stay, no more than there were.
pub proof fn lemma_staying_is_part(records: Map<Seq<char>, SessionView>, now: int)
    ensures
        staying_at(records, now).dom().subset_of(records.dom()),
        records.dom().finite() ==> staying_at(records, now).dom().finite() && staying_at(
            records,
            now,
        ).len() <= records.len(),
{
    if records.dom().finite() {
        vstd::set_lib::lemma_len_subset(staying_at(records, now).dom(), records.dom());
    }
}

} // verus!
