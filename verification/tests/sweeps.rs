use session_store::backend::SessionNullPool;
use session_store::config::SessionConfig;
use session_store::record::SessionData;
use session_store::store::SessionStore;
use std::time::{SystemTime, UNIX_EPOCH};

fn config() -> SessionConfig {
    SessionConfig::default()
        .with_lifetime(50)
        .with_memory_lifetime(100)
        .with_purge_update(60)
        .with_purge_database_update(600)
}

fn store_with_records(created: &[(&str, i64)]) -> SessionStore<SessionNullPool> {
    let mut store = SessionStore::new_at(None, config(), 0);
    for (id, at) in created {
        store.insert(
            id.to_string(),
            SessionData::new(id.to_string(), true, *at, &config()),
        );
    }
    store
}

fn wall_clock() -> i64 {
    SystemTime::now()
        .duration_since(UNIX_EPOCH)
        .unwrap()
        .as_secs() as i64
}

#[test]
fn no_sweep_before_the_first_one_is_due() {
    let mut store = store_with_records(&[("A", 0)]);
    assert!(!store.sweep_memory_at(3_599));
    assert_eq!(store.len(), 1);
    assert_eq!(store.timers.last_expiry_sweep, 3_600);
}

#[test]
fn a_due_sweep_drops_what_has_passed_its_removal_time() {
    let mut store = store_with_records(&[("gone", 0), ("edge", 3_500), ("kept", 3_501)]);
    assert!(store.sweep_memory_at(3_600));
    assert_eq!(store.len(), 1);
    assert!(store.inner.take("gone").is_none());
    assert!(store.inner.take("edge").is_none());
    assert!(store.inner.take("kept").is_some());
    assert_eq!(store.timers.last_expiry_sweep, 3_660);
    assert_eq!(store.timers.last_database_expiry_sweep, 21_600);
}

#[test]
fn a_sweep_leaves_the_kept_records_as_they_were() {
    let mut store = store_with_records(&[("kept", 3_590)]);
    assert!(store.set("kept", "k", "1".to_string()));
    assert!(store.set_longterm("kept", true));
    assert!(store.sweep_memory_at(3_600));
    let (_, record) = store.inner.take("kept").unwrap();
    assert_eq!(record.get("k"), Some("1".to_string()));
    assert!(record.is_longterm());
    assert_eq!(record.autoremove(), 3_690);
    assert_eq!(record.expires(), 3_640);
}

#[test]
fn a_second_sweep_within_the_interval_does_nothing() {
    let mut store = store_with_records(&[("gone", 0), ("later", 3_520)]);
    assert!(store.sweep_memory_at(3_600));
    let after_first = store.timers;
    assert_eq!(store.len(), 1);

    // "later" has passed its removal time at 3_659, yet no sweep is due.
    assert!(!store.sweep_memory_at(3_600));
    assert!(!store.sweep_memory_at(3_659));
    assert_eq!(store.len(), 1);
    assert_eq!(store.timers.last_expiry_sweep, after_first.last_expiry_sweep);
    assert_eq!(
        store.timers.last_database_expiry_sweep,
        after_first.last_database_expiry_sweep
    );

    assert!(store.sweep_memory_at(3_660));
    assert_eq!(store.len(), 0);
    assert_eq!(store.timers.last_expiry_sweep, 3_720);
}

#[test]
fn a_serviced_session_outlives_the_sweep() {
    let mut store = store_with_records(&[("idle", 0), ("busy", 0)]);
    assert!(store.service_session_data_at("busy", 3_590));
    assert!(store.sweep_memory_at(3_600));
    assert_eq!(store.len(), 1);
    assert!(store.inner.take("busy").is_some());
}

#[test]
fn sweep_by_the_wall_clock_runs_when_due() {
    let mut store = store_with_records(&[("gone", 0)]);
    let before = wall_clock();
    assert!(store.sweep_memory());
    let after = wall_clock();
    assert_eq!(store.len(), 0);
    let shown = store.timers.last_expiry_sweep - 60;
    assert!(before <= shown && shown <= after);
    assert!(!store.sweep_memory());
    assert_eq!(store.timers.last_expiry_sweep, shown + 60);
}

#[test]
fn sweep_by_the_wall_clock_waits_for_its_time() {
    let mut store: SessionStore<SessionNullPool> = SessionStore::new(None, config());
    store.insert(
        "A".to_string(),
        SessionData::new("A".to_string(), true, 0, &config()),
    );
    let timers = store.timers;
    assert!(!store.sweep_memory());
    assert_eq!(store.len(), 1);
    assert_eq!(store.timers.last_expiry_sweep, timers.last_expiry_sweep);
}

#[test]
fn no_database_sweep_without_a_backend() {
    let mut store = store_with_records(&[]);
    assert!(!store.database_sweep_due(1_000_000));
    assert!(!store.sweep_database_at(1_000_000).unwrap());
    assert!(!store.sweep_database().unwrap());
    assert_eq!(store.timers.last_database_expiry_sweep, 21_600);
}

#[test]
fn database_sweep_runs_when_due_and_moves_its_timer() {
    let mut store = SessionStore::new_at(Some(SessionNullPool), config(), 0);
    assert!(!store.database_sweep_due(21_599));
    assert!(!store.sweep_database_at(21_599).unwrap());
    assert_eq!(store.timers.last_database_expiry_sweep, 21_600);

    assert!(store.database_sweep_due(21_600));
    assert!(store.sweep_database_at(21_600).unwrap());
    assert_eq!(store.timers.last_database_expiry_sweep, 22_200);
    assert_eq!(store.timers.last_expiry_sweep, 3_600);

    assert!(!store.sweep_database_at(22_199).unwrap());
    assert_eq!(store.timers.last_database_expiry_sweep, 22_200);
}

#[test]
fn claiming_a_database_sweep_checks_and_moves_the_timer_in_one_step() {
    let mut store = SessionStore::new_at(Some(SessionNullPool), config(), 0);
    assert!(!store.claim_database_sweep_at(21_599));
    assert_eq!(store.timers.last_database_expiry_sweep, 21_600);
    assert!(store.claim_database_sweep_at(50_000));
    assert_eq!(store.timers.last_database_expiry_sweep, 50_600);
    assert_eq!(store.timers.last_expiry_sweep, 3_600);
    assert!(!store.claim_database_sweep_at(50_000));
    assert!(!store.claim_database_sweep_at(50_599));
    assert!(store.database_sweep_due(50_600));
}

#[test]
fn a_database_sweep_is_never_claimed_without_a_backend() {
    let mut store = store_with_records(&[]);
    assert!(!store.claim_database_sweep_at(1_000_000));
    assert!(!store.claim_database_sweep());
    assert_eq!(store.timers.last_database_expiry_sweep, 21_600);
}

#[test]
fn claiming_by_the_wall_clock_moves_the_timer_from_now() {
    let mut store = SessionStore::new_at(Some(SessionNullPool), config(), 0);
    let before = wall_clock();
    assert!(store.claim_database_sweep());
    let after = wall_clock();
    let shown = store.timers.last_database_expiry_sweep - 600;
    assert!(before <= shown && shown <= after);
    assert!(!store.claim_database_sweep());
}

#[test]
fn database_sweep_by_the_wall_clock_runs_when_due() {
    let mut store = SessionStore::new_at(Some(SessionNullPool), config(), 0);
    let before = wall_clock();
    assert!(store.sweep_database().unwrap());
    let after = wall_clock();
    let shown = store.timers.last_database_expiry_sweep - 600;
    assert!(before <= shown && shown <= after);
    assert!(!store.sweep_database().unwrap());
}
