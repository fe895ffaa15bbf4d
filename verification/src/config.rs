//! Settings of a session store.

use vstd::prelude::*;

verus! {

/// Settings a session store is built with. Every span is in whole seconds.
#[derive(Debug)]
pub struct SessionConfig {
    /// Table or namespace under which the backend keeps the sessions.
    pub table_name: String,
    /// How long a session stays valid after it was created.
    pub lifespan: u32,
    /// How long a long-term session stays valid after it was created.
    pub max_lifespan: u32,
    /// How long a record stays in memory after it was last serviced.
    pub memory_lifespan: u32,
    /// Least time between two sweeps of the records in memory.
    pub purge_update: u32,
    /// Least time between two sweeps of the backend.
    pub purge_database_update: u32,
}

impl Clone for SessionConfig {
    /// The same settings.
    fn clone(&self) -> (copy: Self)
        ensures
            copy == *self,
    {
        SessionConfig {
            table_name: self.table_name.clone(),
            lifespan: self.lifespan,
            max_lifespan: self.max_lifespan,
            memory_lifespan: self.memory_lifespan,
            purge_update: self.purge_update,
            purge_database_update: self.purge_database_update,
        }
    }
}

impl Default for SessionConfig {
    /// The settings of a store that nobody has tuned: the table `sessions`,
    /// sessions valid for six hours, long-term sessions for sixty days,
    /// records kept in memory for six hours, memory swept at most once an
    /// hour and the backend at most once in five hours.
    fn default() -> (config: Self)
        ensures
            config.table_name@ == "sessions"@,
            config.lifespan == 21_600,
            config.max_lifespan == 5_184_000,
            config.memory_lifespan == 21_600,
            config.purge_update == 3_600,
            config.purge_database_update == 18_000,
    {
        SessionConfig {
            table_name: "sessions".to_owned(),
            lifespan: 21_600,
            max_lifespan: 5_184_000,
            memory_lifespan: 21_600,
            purge_update: 3_600,
            purge_database_update: 18_000,
        }
    }
}

impl SessionConfig {
    /// The settings with `table_name` as the backend's table.
    pub fn with_table_name(self, table_name: String) -> (config: Self)
        ensures
            config == (SessionConfig { table_name, ..self }),
    {
        SessionConfig { table_name, ..self }
    }

    /// The settings with sessions valid for `seconds`.
    pub fn with_lifetime(self, seconds: u32) -> (config: Self)
        ensures
            config == (SessionConfig { lifespan: seconds, ..self }),
    {
        SessionConfig { lifespan: seconds, ..self }
    }

    /// The settings with long-term sessions valid for `seconds`.
    pub fn with_max_lifetime(self, seconds: u32) -> (config: Self)
        ensures
            config == (SessionConfig { max_lifespan: seconds, ..self }),
    {
        SessionConfig { max_lifespan: seconds, ..self }
    }

    /// The settings with records kept in memory for `seconds` after they
    /// were last serviced.
    pub fn with_memory_lifetime(self, seconds: u32) -> (config: Self)
        ensures
            config == (SessionConfig { memory_lifespan: seconds, ..self }),
    {
        SessionConfig { memory_lifespan: seconds, ..self }
    }

    /// The settings with at least `seconds` between two sweeps of memory.
    pub fn with_purge_update(self, seconds: u32) -> (config: Self)
        ensures
            config == (SessionConfig { purge_update: seconds, ..self }),
    {
        SessionConfig { purge_update: seconds, ..self }
    }

    /// The settings with at least `seconds` between two sweeps of the
    /// backend.
    pub fn with_purge_database_update(self, seconds: u32) -> (config: Self)
        ensures
            config == (SessionConfig { purge_database_update: seconds, ..self }),
    {
        SessionConfig { purge_database_update: seconds, ..self }
    }

    /// The span for which a new session is valid: the long-term span for a
    /// long-term session, the ordinary one otherwise.
    pub open spec fn spec_validity_span(&self, longterm: bool) -> u32 {
        if longterm {
            self.max_lifespan
        } else {
            self.lifespan
        }
    }

    /// The span for which a new session is valid.
    #[verifier::when_used_as_spec(spec_validity_span)]
    pub fn validity_span(&self, longterm: bool) -> (span: u32)
        ensures
            span == self.spec_validity_span(longterm),
    {
        if longterm {
            self.max_lifespan
        } else {
            self.lifespan
        }
    }
}

} // verus!
