use ppslib::settings::{config_files, run_mode, secret_id, secret_names};
use ppslib::store::{session_item, session_key, session_table, stored_payload};

#[test]
fn run_mode_defaults_to_development() {
    assert_eq!(run_mode(None), "development");
    assert_eq!(run_mode(Some("production".to_string())), "production");
}

#[test]
fn config_files_in_merge_order() {
    let files = config_files("staging");
    assert_eq!(files.len(), 3);
    assert_eq!(files[0].name, "conf/default");
    assert!(files[0].required);
    assert_eq!(files[1].name, "conf/staging");
    assert!(!files[1].required);
    assert_eq!(files[2].name, "conf/local");
    assert!(!files[2].required);
}

#[test]
fn secrets_carry_the_prefix() {
    assert_eq!(secret_id("database_url"), "PPS_database_url");
    assert_eq!(secret_id(""), "PPS_");
    let names = secret_names();
    assert_eq!(
        names,
        vec![
            "database_url",
            "google_api_client_id",
            "google_api_client_secret",
            "google_maps_api_key",
            "facebook_app_id",
            "facebook_app_secret",
        ]
    );
}

#[test]
fn written_session_reads_back() {
    let id = "abc".to_string();
    let item = session_item(&id, "{\"sessid\":\"abc\"}".to_string());
    assert_eq!(item[0], ("sessid".to_string(), Some("abc".to_string())));
    assert_eq!(stored_payload(Some(item)), Some("{\"sessid\":\"abc\"}".to_string()));
}

#[test]
fn payload_missing_or_not_a_string() {
    assert_eq!(stored_payload(None), None);
    let only_key = session_key(&"abc".to_string());
    assert_eq!(only_key, vec![("sessid".to_string(), Some("abc".to_string()))]);
    assert_eq!(stored_payload(Some(only_key)), None);
    let numeric = vec![("session".to_string(), None), ("session".to_string(), Some("x".to_string()))];
    assert_eq!(stored_payload(Some(numeric)), None);
    assert_eq!(session_table(), "session");
}
