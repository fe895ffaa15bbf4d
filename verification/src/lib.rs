//! A session store: records of per-session data kept in memory, optionally
//! mirrored to a durable backend, with lazy expiry sweeps.
//!
//! - [`values`]: the keyed values of one session.
//! - [`record`]: the record of one session and its lifecycle.
//! - [`codec`]: records as JSON text.
//! - [`cache`]: the records resident in memory.
//! - [`timers`]: when the sweeps are due, and the wall clock.
//! - [`backend`]: what is asked of a durable backend.
//! - [`config`], [`error`]: settings and failures.
//! - [`store`]: the store and what it does in memory.
//! - [`persistence`]: the store's dealings with the backend.
//! - [`hosting`]: handing the store to request handlers.
//! - [`laws`]: what holds of the store in every state.

pub mod backend;
pub mod cache;
pub mod codec;
pub mod config;
pub mod error;
pub mod hosting;
pub mod laws;
pub mod persistence;
pub mod record;
pub mod store;
pub mod timers;
pub mod values;

pub use backend::{DatabasePool, SessionNullPool};
pub use config::SessionConfig;
pub use error::{BackendError, SessionError};
pub use record::SessionData;
pub use store::SessionStore;
pub use timers::SessionTimers;
