//! Session records as JSON text, written and read with `serde_json`.
//!
//! A record is written as the JSON array of its fields: identifier, entries
//! (each a pair of key and value), expiry, removal time, and the four flags.

use crate::error::SessionError;
use crate::record::{session_fields, SessionData, SessionFields};
use crate::values::pair_views;
use vstd::prelude::*;

verus! {

/// The JSON text that `serde_json::to_string` gives for the fields of a
/// record, taken as a tuple in the order of `SessionFields`; `None` where it
/// gives an error.
pub uninterp spec fn json_text_of(fields: SessionFields) -> Option<Seq<char>>;

/// The fields that `serde_json::from_str` reads from a text, as a tuple in
/// the order of `SessionFields`; `None` where it gives an error.
pub uninterp spec fn json_fields_of(text: Seq<char>) -> Option<SessionFields>;

/// The fields of a record as they go through `serde_json`: identifier,
/// entries, expiry, removal time, and the destroy, renew, long-term and
/// storable flags.
pub type FieldTuple = (String, Vec<(String, String)>, i64, i64, bool, bool, bool, bool);

/// What was written, as the text or nothing.
pub open spec fn written_text(written: Result<String, serde_json::Error>) -> Option<Seq<char>> {
    match written {
        Ok(text) => Some(text@),
        Err(_) => None,
    }
}

/// What was read, as the fields or nothing.
pub open spec fn read_fields(read: Result<FieldTuple, serde_json::Error>) -> Option<SessionFields> {
    match read {
        Ok(f) => Some(session_fields(f.0@, pair_views(f.1@), f.2, f.3, f.4, f.5, f.6, f.7)),
        Err(_) => None,
    }
}

/// Calls `serde_json::to_string` on the tuple of the given fields. The
/// contract only gives the outcome its name: the text for these fields is
/// `json_text_of` of them, and an error stands for `None`.
#[verifier::external_body]
fn encode_fields(
    id: &str,
    entries: &Vec<(String, String)>,
    expires: i64,
    autoremove: i64,
    destroy: bool,
    renew: bool,
    longterm: bool,
    storable: bool,
) -> (written: Result<String, serde_json::Error>)
    ensures
        written_text(written) == json_text_of(
            session_fields(
                id@,
                pair_views(entries@),
                expires,
                autoremove,
                destroy,
                renew,
                longterm,
                storable,
            ),
        ),
{
    serde_json::to_string(&(id, entries, expires, autoremove, destroy, renew, longterm, storable))
}

/// Calls `serde_json::from_str` for the tuple of a record's fields. The
/// contract only gives the outcome its name: the fields read from `text` are
/// `json_fields_of` of it, and an error stands for `None`.
#[verifier::external_body]
fn decode_fields(text: &str) -> (read: Result<FieldTuple, serde_json::Error>)
    ensures
        read_fields(read) == json_fields_of(text@),
{
    serde_json::from_str(text)
}

impl SessionData {
    /// The record as JSON text. Fails with `Encode` exactly where the fields
    /// cannot be written.
    pub fn to_json(&self) -> (text: Result<String, SessionError>)
        ensures
            match text {
                Ok(t) => json_text_of(self.fields()) == Some(t@),
                Err(failure) => failure is Encode && json_text_of(self.fields()) is None,
            },
    {
        proof {
            self.lemma_fields_describe_record();
        }
        let written = encode_fields(
            self.id().as_str(),
            self.entries(),
            self.expires(),
            self.autoremove(),
            self.is_destroyed(),
            self.is_renewed(),
            self.is_longterm(),
            self.is_storable(),
        );
        assert(self.fields() == session_fields(
            self@.id,
            self.fields().entries,
            self.fields().expires,
            self.fields().autoremove,
            self@.destroy,
            self@.renew,
            self@.longterm,
            self@.storable,
        ));
        match written {
            Ok(t) => Ok(t),
            Err(failure) => Err(SessionError::Encode(failure)),
        }
    }

    /// The record that a JSON text describes. Fails with `Decode` exactly
    /// where the text does not hold the fields of a record. Where a key
    /// occurs more than once among the entries read, its last entry counts.
    pub fn from_json(text: &str) -> (record: Result<SessionData, SessionError>)
        ensures
            match record {
                Ok(r) => json_fields_of(text@) matches Some(f) && r@ == f.record(),
                Err(failure) => failure is Decode && json_fields_of(text@) is None,
            },
    {
        match decode_fields(text) {
            Ok(f) => Ok(SessionData::from_parts(f.0, f.1, f.2, f.3, f.4, f.5, f.6, f.7)),
            Err(failure) => Err(SessionError::Decode(failure)),
        }
    }
}

/// The text to keep for a value that a caller hands over in a shape of its
/// own: the text that the value was written as, or the empty text where it
/// could not be written.
pub fn encoded_or_empty(written: Result<String, serde_json::Error>) -> (text: String)
    ensures
        written matches Ok(t) ==> text == t,
        written is Err ==> text@.len() == 0,
{
    match written {
        Ok(t) => t,
        Err(_) => String::new(),
    }
}

/// A value read for a caller who wants it in a given shape: the value where
/// the stored text had that shape, and none where there was no text or the
/// text did not have it. A stored value of another shape is thus the same to
/// the caller as no value.
pub fn decoded_or_absent<V>(read: Option<Result<V, serde_json::Error>>) -> (value: Option<V>)
    ensures
        read matches Some(Ok(shaped)) ==> value == Some(shaped),
        !(read matches Some(Ok(_))) ==> value is None,
{
    match read {
        Some(Ok(shaped)) => Some(shaped),
        _ => None,
    }
}

} // verus!
