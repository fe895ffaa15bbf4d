use session_store::config::SessionConfig;
use session_store::record::SessionData;

fn config() -> SessionConfig {
    SessionConfig::default()
        .with_lifetime(50)
        .with_memory_lifetime(100)
}

fn record_with(entries: &[(&str, &str)]) -> SessionData {
    let mut record = SessionData::new("A".to_string(), true, 1_000, &config());
    for (key, value) in entries {
        record.set(key, value.to_string());
    }
    record
}

fn pairs(record: &SessionData) -> Vec<(String, String)> {
    let mut entries = record.entries().clone();
    entries.sort();
    entries
}

#[test]
fn new_record_has_no_values_and_configured_times() {
    let record = SessionData::new("A".to_string(), true, 1_000, &config());
    assert_eq!(record.id(), "A");
    assert_eq!(record.expires(), 1_050);
    assert_eq!(record.autoremove(), 1_100);
    assert!(record.entries().is_empty());
    assert!(!record.is_destroyed());
    assert!(!record.is_renewed());
    assert!(!record.is_longterm());
    assert!(record.is_storable());
}

#[test]
fn new_record_keeps_the_storable_flag_it_is_given() {
    let record = SessionData::new("B".to_string(), false, 0, &config());
    assert!(!record.is_storable());
    assert_eq!(record.expires(), 50);
    assert_eq!(record.autoremove(), 100);
}

#[test]
fn validate_is_strict_at_the_expiry() {
    let record = record_with(&[]);
    assert!(record.validate(1_049));
    assert!(!record.validate(1_050));
    assert!(!record.validate(1_051));
}

#[test]
fn stays_at_is_strict_at_the_removal_time() {
    let record = record_with(&[]);
    assert!(record.stays_at(1_099));
    assert!(!record.stays_at(1_100));
    assert!(!record.stays_at(2_000));
}

#[test]
fn set_then_get_returns_the_value_and_keeps_it() {
    let mut record = record_with(&[]);
    record.set("k", "1".to_string());
    assert_eq!(record.get("k"), Some("1".to_string()));
    assert_eq!(record.get("k"), Some("1".to_string()));
    assert_eq!(record.get("other"), None);
}

#[test]
fn set_replaces_the_value_of_a_key_and_keeps_keys_unique() {
    let mut record = record_with(&[("a", "1"), ("b", "2")]);
    record.set("a", "3".to_string());
    assert_eq!(record.get("a"), Some("3".to_string()));
    assert_eq!(record.get("b"), Some("2".to_string()));
    assert_eq!(record.entries().len(), 2);
}

#[test]
fn keys_are_told_apart_by_every_character() {
    let mut record = record_with(&[("key", "1"), ("kez", "2"), ("ke", "3"), ("", "4")]);
    assert_eq!(record.get("key"), Some("1".to_string()));
    assert_eq!(record.get("kez"), Some("2".to_string()));
    assert_eq!(record.get("ke"), Some("3".to_string()));
    assert_eq!(record.get(""), Some("4".to_string()));
    assert_eq!(record.get("k"), None);
    record.remove("ke");
    assert_eq!(record.get("ke"), None);
    assert_eq!(record.get("key"), Some("1".to_string()));
}

#[test]
fn remove_takes_only_the_named_key() {
    let mut record = record_with(&[("a", "1"), ("b", "2"), ("c", "3")]);
    record.remove("b");
    assert_eq!(
        pairs(&record),
        vec![
            ("a".to_string(), "1".to_string()),
            ("c".to_string(), "3".to_string())
        ]
    );
    record.remove("missing");
    assert_eq!(record.entries().len(), 2);
}

#[test]
fn get_remove_equals_get_followed_by_remove() {
    let mut in_one_step = record_with(&[("a", "1"), ("b", "2")]);
    let mut in_two_steps = record_with(&[("a", "1"), ("b", "2")]);

    let taken = in_one_step.get_remove("a");
    let read = in_two_steps.get("a");
    in_two_steps.remove("a");

    assert_eq!(taken, Some("1".to_string()));
    assert_eq!(taken, read);
    assert_eq!(pairs(&in_one_step), pairs(&in_two_steps));
    assert_eq!(in_one_step.get("a"), None);
    assert_eq!(in_one_step.get_remove("a"), None);
}

#[test]
fn get_remove_of_a_missing_key_changes_nothing() {
    let mut record = record_with(&[("a", "1")]);
    assert_eq!(record.get_remove("b"), None);
    assert_eq!(pairs(&record), vec![("a".to_string(), "1".to_string())]);
}

#[test]
fn clear_takes_the_values_and_keeps_flags_and_times() {
    let mut record = record_with(&[("a", "1"), ("b", "2")]);
    record.set_longterm(true);
    record.renew();
    record.clear();
    assert!(record.entries().is_empty());
    assert!(record.is_longterm());
    assert!(record.is_renewed());
    assert_eq!(record.expires(), 1_050);
    assert_eq!(record.autoremove(), 1_100);
}

#[test]
fn renew_marks_the_record_and_keeps_its_values() {
    let mut record = record_with(&[("a", "1")]);
    record.renew();
    assert!(record.is_renewed());
    assert_eq!(record.get("a"), Some("1".to_string()));
    assert!(!record.is_destroyed());
}

#[test]
fn destroy_only_marks_the_record() {
    let mut record = record_with(&[("a", "1")]);
    record.set_longterm(true);
    record.destroy();
    record.destroy();
    assert!(record.is_destroyed());
    assert!(record.is_longterm());
    assert_eq!(record.get("a"), Some("1".to_string()));
}

#[test]
fn flag_toggles_touch_nothing_else() {
    let mut record = record_with(&[("a", "1")]);
    record.set_longterm(true);
    assert!(record.is_longterm());
    assert!(record.is_storable());
    record.set_store(false);
    assert!(!record.is_storable());
    assert!(record.is_longterm());
    record.set_longterm(false);
    record.set_store(true);
    assert!(!record.is_longterm());
    assert!(record.is_storable());
    assert_eq!(record.get("a"), Some("1".to_string()));
    assert_eq!(record.expires(), 1_050);
}

#[test]
fn service_of_a_valid_record_only_moves_the_removal_time() {
    let mut record = record_with(&[("a", "1")]);
    record.set_longterm(true);
    record.service(1_010, 100);
    assert_eq!(record.autoremove(), 1_110);
    assert_eq!(record.get("a"), Some("1".to_string()));
    assert!(record.is_longterm());
    assert_eq!(record.expires(), 1_050);
}

#[test]
fn destroy_then_service_empties_the_record() {
    let mut record = record_with(&[("a", "1"), ("b", "2")]);
    record.set_longterm(true);
    record.destroy();
    record.service(1_010, 100);
    assert!(record.entries().is_empty());
    assert!(!record.is_destroyed());
    assert!(!record.is_longterm());
    assert_eq!(record.autoremove(), 1_110);
    assert_eq!(record.id(), "A");
}

#[test]
fn service_of_an_expired_record_ends_where_destruction_ends() {
    let mut expired = record_with(&[("a", "1")]);
    expired.set_longterm(true);
    let mut destroyed = record_with(&[("a", "1")]);
    destroyed.set_longterm(true);
    destroyed.destroy();

    expired.service(1_050, 7);
    destroyed.service(1_050, 7);

    assert!(expired.entries().is_empty());
    assert_eq!(pairs(&expired), pairs(&destroyed));
    assert_eq!(expired.is_destroyed(), destroyed.is_destroyed());
    assert_eq!(expired.is_longterm(), destroyed.is_longterm());
    assert_eq!(expired.autoremove(), destroyed.autoremove());
    assert_eq!(expired.expires(), destroyed.expires());
    assert!(!expired.is_longterm());
    assert_eq!(expired.autoremove(), 1_057);
}

#[test]
fn service_sets_the_removal_time_whatever_it_was() {
    let mut record = record_with(&[]);
    assert_eq!(record.autoremove(), 1_100);
    record.service(1_001, 100);
    assert_eq!(record.autoremove(), 1_101);
    record.service(1_002, 100);
    assert_eq!(record.autoremove(), 1_102);
    record.service(5, 0);
    assert_eq!(record.autoremove(), 5);
}

#[test]
fn a_reset_record_can_be_used_again() {
    let mut record = record_with(&[("a", "1")]);
    record.destroy();
    record.service(1_010, 100);
    record.set("b", "2".to_string());
    record.service(1_020, 100);
    assert_eq!(record.get("b"), Some("2".to_string()));
    assert_eq!(record.get("a"), None);
}

#[test]
fn to_json_writes_the_fields_in_order() {
    let record = record_with(&[("k", "1")]);
    assert_eq!(
        record.to_json().unwrap(),
        r#"["A",[["k","1"]],1050,1100,false,false,false,true]"#
    );
}

#[test]
fn from_json_reads_what_to_json_wrote() {
    let mut record = record_with(&[("k", "1"), ("quote", "say \"hi\"\n")]);
    record.set_longterm(true);
    record.renew();
    let text = record.to_json().unwrap();
    let read = SessionData::from_json(&text).unwrap();
    assert_eq!(read.id(), "A");
    assert_eq!(pairs(&read), pairs(&record));
    assert_eq!(read.expires(), 1_050);
    assert_eq!(read.autoremove(), 1_100);
    assert!(read.is_longterm());
    assert!(read.is_renewed());
    assert!(!read.is_destroyed());
    assert!(read.is_storable());
}

#[test]
fn from_json_reads_each_field_from_its_place() {
    let read =
        SessionData::from_json(r#"["id-7",[["a","x"],["b","y"]],-5,9,true,false,true,false]"#)
            .unwrap();
    assert_eq!(read.id(), "id-7");
    assert_eq!(read.get("a"), Some("x".to_string()));
    assert_eq!(read.get("b"), Some("y".to_string()));
    assert_eq!(read.expires(), -5);
    assert_eq!(read.autoremove(), 9);
    assert!(read.is_destroyed());
    assert!(!read.is_renewed());
    assert!(read.is_longterm());
    assert!(!read.is_storable());
}

#[test]
fn from_json_lets_the_last_entry_of_a_key_count() {
    let read =
        SessionData::from_json(r#"["A",[["k","1"],["j","2"],["k","3"]],0,0,false,false,false,true]"#)
            .unwrap();
    assert_eq!(read.get("k"), Some("3".to_string()));
    assert_eq!(read.get("j"), Some("2".to_string()));
    assert_eq!(read.entries().len(), 2);
}

#[test]
fn from_json_refuses_text_that_is_no_record() {
    for text in [
        "",
        "not json",
        "{}",
        r#"["A",[],0,0,false,false,false]"#,
        r#"["A",[["k"]],0,0,false,false,false,true]"#,
        r#"["A",[],"soon",0,false,false,false,true]"#,
        r#"["A",[],99999999999999999999,0,false,false,false,true]"#,
    ] {
        assert!(matches!(
            SessionData::from_json(text),
            Err(session_store::error::SessionError::Decode(_))
        ));
    }
}

#[test]
fn from_parts_builds_the_record_of_its_fields() {
    let record = SessionData::from_parts(
        "A".to_string(),
        vec![
            ("a".to_string(), "1".to_string()),
            ("a".to_string(), "2".to_string()),
        ],
        10,
        20,
        false,
        true,
        false,
        true,
    );
    assert_eq!(record.get("a"), Some("2".to_string()));
    assert_eq!(record.entries().len(), 1);
    assert_eq!(record.expires(), 10);
    assert_eq!(record.autoremove(), 20);
    assert!(record.is_renewed());
}

#[test]
fn keys_beyond_ascii_are_told_apart() {
    let mut record = record_with(&[("caf\u{e9}", "1"), ("cafe", "2"), ("\u{65e5}\u{672c}", "3")]);
    assert_eq!(record.get("caf\u{e9}"), Some("1".to_string()));
    assert_eq!(record.get("cafe"), Some("2".to_string()));
    assert_eq!(record.get("\u{65e5}\u{672c}"), Some("3".to_string()));
    assert_eq!(record.get("\u{65e5}"), None);
    assert_eq!(record.get("cafe\u{301}"), None);
    record.set("caf\u{e9}", "4".to_string());
    assert_eq!(record.entries().len(), 3);
    assert_eq!(record.get_remove("caf\u{e9}"), Some("4".to_string()));
    assert_eq!(record.get("cafe"), Some("2".to_string()));
}
