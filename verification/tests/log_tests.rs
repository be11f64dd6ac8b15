use keygen_portal::logbuf::{
    api_key_header, batch_json, dispatch_payload, level_str, log_sink_config, make_log, LogBuffer,
    LogLevel, LogMessage,
};

fn entry(level: LogLevel, message: &str) -> LogMessage {
    make_log(level, message.to_string())
}

#[test]
fn make_log_keeps_level_and_message() {
    let m = entry(LogLevel::Warn, "careful");
    assert_eq!(m.metadata.level, LogLevel::Warn);
    assert_eq!(m.message.as_str(), "careful");
}

#[test]
fn level_spellings_match_the_wire_contract() {
    assert_eq!(level_str(&LogLevel::Info), "INFO");
    assert_eq!(level_str(&LogLevel::Warn), "WARN");
    assert_eq!(level_str(&LogLevel::Error), "ERROR");
    assert_eq!(level_str(&LogLevel::Debug), "DEBUG");
}

#[test]
fn one_entry_batch_is_exact_json() {
    let body = batch_json(&vec![entry(LogLevel::Info, "hello")]);
    assert_eq!(
        String::from_utf8(body).unwrap(),
        "{\"batch\":[{\"metadata\":{\"level\":\"INFO\"},\"message\":\"hello\"}]}"
    );
}

#[test]
fn entries_keep_their_order_and_are_comma_joined() {
    let body = batch_json(&vec![entry(LogLevel::Info, "first"), entry(LogLevel::Error, "second")]);
    assert_eq!(
        String::from_utf8(body).unwrap(),
        "{\"batch\":[{\"metadata\":{\"level\":\"INFO\"},\"message\":\"first\"},\
         {\"metadata\":{\"level\":\"ERROR\"},\"message\":\"second\"}]}"
    );
}

#[test]
fn message_text_is_escaped() {
    let body = batch_json(&vec![entry(LogLevel::Debug, "a\"b\\c\nd")]);
    assert_eq!(
        String::from_utf8(body).unwrap(),
        "{\"batch\":[{\"metadata\":{\"level\":\"DEBUG\"},\"message\":\"a\\\"b\\\\c\\u000Ad\"}]}"
    );
}

#[test]
fn batch_body_parses_as_json() {
    let body = batch_json(&vec![entry(LogLevel::Info, "hé \"quoted\"\tend")]);
    let value: serde_json::Value = serde_json::from_slice(&body).expect("body must be JSON");
    let items = value["batch"].as_array().expect("batch must be an array");
    assert_eq!(items.len(), 1);
    assert_eq!(items[0]["metadata"]["level"], serde_json::Value::from("INFO"));
    assert_eq!(items[0]["message"], serde_json::Value::from("hé \"quoted\"\tend"));
}

#[test]
fn buffer_keeps_entries_in_recording_order() {
    let mut buffer = LogBuffer::new();
    assert!(buffer.entries().is_empty());
    buffer.push(entry(LogLevel::Info, "one"));
    buffer.push(entry(LogLevel::Error, "two"));
    let entries = buffer.entries();
    assert_eq!(entries.len(), 2);
    assert_eq!(entries[0].message.as_str(), "one");
    assert_eq!(entries[1].message.as_str(), "two");
    assert_eq!(entries[0].metadata.level, LogLevel::Info);
    assert_eq!(entries[1].metadata.level, LogLevel::Error);
}

#[test]
fn nothing_is_sent_when_the_sink_is_unconfigured() {
    let batch = vec![entry(LogLevel::Info, "something happened")];
    assert!(dispatch_payload(&None, &batch).is_none());
    assert!(log_sink_config(Some("k".to_string()), None).is_none());
    assert!(log_sink_config(None, Some("src".to_string())).is_none());
}

#[test]
fn nothing_is_sent_for_an_empty_batch() {
    let config = log_sink_config(Some("k".to_string()), Some("src1".to_string()));
    assert!(config.is_some());
    assert!(dispatch_payload(&config, &Vec::new()).is_none());
}

#[test]
fn a_configured_sink_gets_exactly_one_dispatch_per_batch() {
    let config = log_sink_config(Some("key7".to_string()), Some("src1".to_string()));
    let batch = vec![entry(LogLevel::Info, "one"), entry(LogLevel::Warn, "two")];
    let d = dispatch_payload(&config, &batch).expect("a non-empty batch is dispatched");
    assert_eq!(d.url.as_str(), "https://api.logflare.app/logs?source=src1");
    assert_eq!(d.api_key.as_str(), "key7");
    assert_eq!(d.body, batch_json(&batch));
    assert_eq!(api_key_header(), "X-API-KEY");
}
