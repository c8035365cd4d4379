use symbiotic::store::ConfigStore;
use symbiotic::store::upsert_request;

#[test]
fn upsert_returns_written_value() {
    let mut store = ConfigStore::new();
    let written = store.upsert("python venv", "workshop", "PID", "4711");
    assert_eq!(written, "4711");
}

#[test]
fn upsert_then_get() {
    let mut store = ConfigStore::new();
    store.upsert("python venv", "workshop", "PID", "4711");
    assert_eq!(
        store.get("python venv", "workshop", "PID"),
        Some("4711".to_string())
    );
    assert_eq!(store.get("python venv", "workshop", "listen_key"), None);
    assert_eq!(store.get("python venv", "other", "PID"), None);
    assert_eq!(store.get("other tenant", "workshop", "PID"), None);
}

#[test]
fn upsert_idempotent_single_row_latest_value() {
    let mut store = ConfigStore::new();
    store.upsert("python venv", "workshop", "PID", "100");
    store.upsert("python venv", "workshop", "PID", "200");
    assert_eq!(store.row_count("python venv", "workshop", "PID"), 1);
    assert_eq!(store.len(), 1);
    assert_eq!(
        store.get("python venv", "workshop", "PID"),
        Some("200".to_string())
    );
}

#[test]
fn distinct_triples_keep_distinct_rows() {
    let mut store = ConfigStore::new();
    store.upsert("python venv", "workshop", "PID", "4711");
    store.upsert("python venv", "workshop", "listen_key", "chan1");
    store.upsert("python venv", "other", "PID", "4712");
    assert_eq!(store.len(), 3);
    assert_eq!(store.row_count("python venv", "workshop", "PID"), 1);
    assert_eq!(store.row_count("python venv", "workshop", "listen_key"), 1);
    assert_eq!(store.row_count("python venv", "other", "PID"), 1);
    assert_eq!(
        store.get("python venv", "workshop", "listen_key"),
        Some("chan1".to_string())
    );
    assert_eq!(
        store.get("python venv", "other", "PID"),
        Some("4712".to_string())
    );
}

#[test]
fn upsert_request_is_parameterized() {
    let request = upsert_request("workshop'; drop table", "PID", "4711");
    assert_eq!(
        request.query,
        "insert into symbiotic.symbiotic_config(type, env, key, value) \
         values('python venv', $1, $2, $3) \
         on conflict(type, env, key) do update set value=$3"
    );
    assert!(!request.query.contains("workshop"));
    assert_eq!(
        request.params,
        vec![
            "workshop'; drop table".to_string(),
            "PID".to_string(),
            "4711".to_string()
        ]
    );
}
