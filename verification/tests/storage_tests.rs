use loghub::storage::queue_items;
use serde_json::Value;

#[test]
fn rows_become_queue_items() {
    let rows = vec![
        (1, r#"{"message":"a","n":7}"#.to_string(), 0),
        (5, "[1,2]".to_string(), 3),
    ];
    let items = queue_items(rows).unwrap();
    assert_eq!(items.len(), 2);
    assert_eq!(items[0].id, 1);
    assert_eq!(items[0].retry_count, 0);
    assert_eq!(items[0].payload.get("n").and_then(Value::as_i64), Some(7));
    assert_eq!(items[0].payload.get("message").and_then(Value::as_str), Some("a"));
    assert_eq!(items[1].id, 5);
    assert_eq!(items[1].retry_count, 3);
    assert_eq!(items[1].payload.as_array().map(|a| a.len()), Some(2));
}

#[test]
fn a_bad_payload_fails_the_read() {
    let rows = vec![(1, "{}".to_string(), 0), (2, "not json".to_string(), 0)];
    assert!(queue_items(rows).is_none());
    assert_eq!(queue_items(Vec::new()).map(|v| v.len()), Some(0));
}

#[test]
fn journal_lines() {
    let (m, v) = loghub::collect::journal_entry(r#"{"MESSAGE":"Started nginx","_PID":"12"}"#).unwrap();
    assert_eq!(m, "Started nginx");
    assert_eq!(v.get("_PID").and_then(Value::as_str), Some("12"));
    let (m2, _) = loghub::collect::journal_entry(r#"{"MESSAGE":[72,105]}"#).unwrap();
    assert_eq!(m2, "");
    let (m3, _) = loghub::collect::journal_entry("{}").unwrap();
    assert_eq!(m3, "");
    assert!(loghub::collect::journal_entry("-- No entries --").is_none());
}

#[test]
fn heartbeat_turn() {
    let t = loghub::heartbeat::heartbeat_request("http://s", Some("tok"), "id-1", "host", "0.1.0");
    assert_eq!(t.url, "http://s/api/agent/heartbeat");
    assert_eq!(t.bearer_token, Some("tok".to_string()));
    assert_eq!(t.payload.agent_id, "id-1");
    assert_eq!(t.payload.hostname, "host");
    assert_eq!(t.payload.version, "0.1.0");
    assert_eq!(t.then_sleep_secs, 30);
    let u = loghub::heartbeat::heartbeat_request("http://s", None, "a", "b", "c");
    assert_eq!(u.bearer_token, None);
}
