//! What the store asks of a durable backend.

use crate::error::Answer;
use vstd::prelude::*;

verus! {

/// A durable backend for sessions. Each operation works on the table or
/// namespace that it is given, and each may fail with the backend's own
/// report. Nothing is asked of an implementation but these signatures; what
/// an implementation ensures of its answers, the contracts of the store pass
/// on to the store's callers.
pub trait DatabasePool {
    /// Creates the table if it does not exist yet.
    fn initiate(&self, table_name: &str) -> Answer<()>;

    /// Deletes every session whose expiry has passed.
    fn delete_by_expiry(&self, table_name: &str) -> Answer<()>;

    /// The number of sessions in the table.
    fn count(&self, table_name: &str) -> Answer<i64>;

    /// Keeps `session` under `id`, with `expires` as the session's expiry in
    /// seconds since the Unix epoch.
    fn store(&self, id: &str, session: &str, expires: i64, table_name: &str) -> Answer<()>;

    /// What is kept under `id`, if anything.
    fn load(&self, id: &str, table_name: &str) -> Answer<Option<String>>;

    /// Deletes what is kept under `id`.
    fn delete_one_by_id(&self, id: &str, table_name: &str) -> Answer<()>;

    /// Deletes every session.
    fn delete_all(&self, table_name: &str) -> Answer<()>;
}

/// `answer` is an answer that `pool` can give when it is asked to create
/// the table `table`.
pub open spec fn answers_initiate<T: DatabasePool>(
    pool: T,
    table: Seq<char>,
    answer: Answer<()>,
) -> bool {
    exists|table_name: &str|
        table_name@ == table && #[trigger] call_ensures(T::initiate, (&pool, table_name), answer)
}

/// `answer` is an answer that `pool` can give when it is asked to delete the
/// expired sessions of the table `table`.
pub open spec fn answers_delete_by_expiry<T: DatabasePool>(
    pool: T,
    table: Seq<char>,
    answer: Answer<()>,
) -> bool {
    exists|table_name: &str|
        table_name@ == table && #[trigger] call_ensures(
            T::delete_by_expiry,
            (&pool, table_name),
            answer,
        )
}

/// `answer` is an answer that `pool` can give when it is asked to count the
/// sessions of the table `table`.
pub open spec fn answers_count<T: DatabasePool>(
    pool: T,
    table: Seq<char>,
    answer: Answer<i64>,
) -> bool {
    exists|table_name: &str|
        table_name@ == table && #[trigger] call_ensures(T::count, (&pool, table_name), answer)
}

/// `answer` is an answer that `pool` can give when it is asked to keep the
/// text `session` under `id` in the table `table`, with the expiry `expires`.
pub open spec fn answers_store<T: DatabasePool>(
    pool: T,
    id: Seq<char>,
    session: Seq<char>,
    expires: i64,
    table: Seq<char>,
    answer: Answer<()>,
) -> bool {
    exists|id_text: &str, session_text: &str, table_name: &str|
        id_text@ == id && session_text@ == session && table_name@ == table
            && #[trigger] call_ensures(
            T::store,
            (&pool, id_text, session_text, expires, table_name),
            answer,
        )
}

/// `answer` is an answer that `pool` can give when it is asked for what it
/// keeps under `id` in the table `table`.
pub open spec fn answers_load<T: DatabasePool>(
    pool: T,
    id: Seq<char>,
    table: Seq<char>,
    answer: Answer<Option<String>>,
) -> bool {
    exists|id_text: &str, table_name: &str|
        id_text@ == id && table_name@ == table && #[trigger] call_ensures(
            T::load,
            (&pool, id_text, table_name),
            answer,
        )
}

/// `answer` is an answer that `pool` can give when it is asked to delete
/// what it keeps under `id` in the table `table`.
pub open spec fn answers_delete_one_by_id<T: DatabasePool>(
    pool: T,
    id: Seq<char>,
    table: Seq<char>,
    answer: Answer<()>,
) -> bool {
    exists|id_text: &str, table_name: &str|
        id_text@ == id && table_name@ == table && #[trigger] call_ensures(
            T::delete_one_by_id,
            (&pool, id_text, table_name),
            answer,
        )
}

/// `answer` is an answer that `pool` can give when it is asked to delete
/// every session of the table `table`.
pub open spec fn answers_delete_all<T: DatabasePool>(
    pool: T,
    table: Seq<char>,
    answer: Answer<()>,
) -> bool {
    exists|table_name: &str|
        table_name@ == table && #[trigger] call_ensures(T::delete_all, (&pool, table_name), answer)
}

/// The backend that keeps nothing: every operation succeeds, nothing is ever
/// found, and the count is zero.
#[derive(Clone, Copy, Debug)]
pub struct SessionNullPool;

impl DatabasePool for SessionNullPool {
    fn initiate(&self, table_name: &str) -> (done: Answer<()>)
        ensures
            done is Ok,
    {
        Ok(())
    }

    fn delete_by_expiry(&self, table_name: &str) -> (done: Answer<()>)
        ensures
            done is Ok,
    {
        Ok(())
    }

    fn count(&self, table_name: &str) -> (count: Answer<i64>)
        ensures
            count matches Ok(n) && n == 0,
    {
        Ok(0)
    }

    fn store(&self, id: &str, session: &str, expires: i64, table_name: &str) -> (done: Answer<()>)
        ensures
            done is Ok,
    {
        Ok(())
    }

    fn load(&self, id: &str, table_name: &str) -> (found: Answer<Option<String>>)
        ensures
            found matches Ok(None),
    {
        Ok(None)
    }

    fn delete_one_by_id(&self, id: &str, table_name: &str) -> (done: Answer<()>)
        ensures
            done is Ok,
    {
        Ok(())
    }

    fn delete_all(&self, table_name: &str) -> (done: Answer<()>)
        ensures
            done is Ok,
    {
        Ok(())
    }
}

} // verus!
