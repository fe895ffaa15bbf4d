use session_store::config::SessionConfig;
use session_store::hosting::{installed, STORE_MISSING_STATUS};
use session_store::timers::{SessionTimers, CLOCK_LIMIT};

#[test]
fn default_config_has_the_documented_values() {
    let config = SessionConfig::default();
    assert_eq!(config.table_name, "sessions");
    assert_eq!(config.lifespan, 21_600);
    assert_eq!(config.max_lifespan, 5_184_000);
    assert_eq!(config.memory_lifespan, 21_600);
    assert_eq!(config.purge_update, 3_600);
    assert_eq!(config.purge_database_update, 18_000);
}

#[test]
fn each_builder_sets_its_own_field() {
    let config = SessionConfig::default()
        .with_table_name("visits".to_string())
        .with_lifetime(1)
        .with_max_lifetime(2)
        .with_memory_lifetime(3)
        .with_purge_update(4)
        .with_purge_database_update(5);
    assert_eq!(config.table_name, "visits");
    assert_eq!(config.lifespan, 1);
    assert_eq!(config.max_lifespan, 2);
    assert_eq!(config.memory_lifespan, 3);
    assert_eq!(config.purge_update, 4);
    assert_eq!(config.purge_database_update, 5);
}

#[test]
fn validity_span_is_longer_for_longterm_sessions() {
    let config = SessionConfig::default();
    assert_eq!(config.validity_span(false), 21_600);
    assert_eq!(config.validity_span(true), 5_184_000);
}

#[test]
fn timers_start_an_hour_and_six_hours_ahead() {
    let timers = SessionTimers::starting_at(1_000);
    assert_eq!(timers.last_expiry_sweep, 4_600);
    assert_eq!(timers.last_database_expiry_sweep, 22_600);
}

#[test]
fn a_sweep_is_due_from_its_time_on() {
    let timers = SessionTimers::starting_at(0);
    assert!(!timers.memory_sweep_due(3_599));
    assert!(timers.memory_sweep_due(3_600));
    assert!(timers.memory_sweep_due(3_601));
    assert!(!timers.database_sweep_due(21_599));
    assert!(timers.database_sweep_due(21_600));
}

#[test]
fn noting_a_sweep_moves_only_its_own_timer() {
    let mut timers = SessionTimers::starting_at(0);
    timers.memory_swept(5_000, 60);
    assert_eq!(timers.last_expiry_sweep, 5_060);
    assert_eq!(timers.last_database_expiry_sweep, 21_600);
    timers.database_swept(30_000, 600);
    assert_eq!(timers.last_expiry_sweep, 5_060);
    assert_eq!(timers.last_database_expiry_sweep, 30_600);
}

#[test]
fn clock_limit_is_two_to_the_45th() {
    assert_eq!(CLOCK_LIMIT, 1_i64 << 45);
    // more than a million years of 366 days each
    assert!(CLOCK_LIMIT > 1_001_970 * 366 * 86_400);
}

#[test]
fn a_store_that_was_found_is_handed_on() {
    assert_eq!(installed(Some(7)).unwrap(), 7);
}

#[test]
fn a_missing_store_is_refused_with_an_internal_error() {
    let missing = installed::<u8>(None).unwrap_err();
    assert_eq!(STORE_MISSING_STATUS, 500);
    assert_eq!(missing.status, 500);
    assert_eq!(
        missing.message,
        "Can't extract Axum `Session`. Is `SessionLayer` enabled?"
    );
}
