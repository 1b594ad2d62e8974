use mqrt::data::{DataEventMeta, ElId};
use mqrt::json_filter::{process_json, FilterError};
use mqrt::trigger::{MqttTrigger, MqttTriggerConfig, MqttTriggerFilterConfig};

fn trigger(topic: &str, filter: MqttTriggerFilterConfig) -> MqttTrigger {
    MqttTrigger::new(ElId::new("in1"), ElId::new("tr1"), MqttTriggerConfig { topic: topic.to_string(), filter })
}

fn json(field: &str, exact: &str) -> MqttTriggerFilterConfig {
    MqttTriggerFilterConfig::Json { field: field.to_string(), exact: exact.to_string() }
}

#[test]
fn json_object_field_with_number_accepts() {
    assert_eq!(process_json("a", "1", &br#"{"a": 1}"#.to_vec()), Ok(true));
    assert!(trigger("t", json("a", "1")).accepts("t", &br#"{"a": 1}"#.to_vec(), None));
}

#[test]
fn json_object_missing_field_rejects() {
    assert_eq!(process_json("missing", "1", &br#"{"a": 1}"#.to_vec()), Err(FilterError::MissingKey));
    assert!(!trigger("t", json("missing", "1")).accepts("t", &br#"{"a": 1}"#.to_vec(), None));
}

#[test]
fn json_object_members_compare_by_string_form() {
    let p = br#"{"s": "on", "b": true, "n": null, "o": {"x": 1}}"#.to_vec();
    assert_eq!(process_json("s", "on", &p), Ok(true));
    assert_eq!(process_json("s", "\"on\"", &p), Ok(false));
    assert_eq!(process_json("b", "true", &p), Ok(true));
    assert_eq!(process_json("n", "null", &p), Ok(true));
    assert_eq!(process_json("o", r#"{"x":1}"#, &p), Ok(true));
}

#[test]
fn json_array_index() {
    let p = br#"["x", "y", 3]"#.to_vec();
    assert_eq!(process_json("1", "y", &p), Ok(true));
    assert_eq!(process_json("0", "y", &p), Ok(false));
    assert_eq!(process_json("2", "3", &p), Ok(true));
    assert_eq!(process_json("+1", "y", &p), Ok(true));
    assert_eq!(process_json("5", "y", &p), Err(FilterError::MissingIndex));
    assert_eq!(process_json("z", "y", &p), Err(FilterError::InvalidIndex));
    assert_eq!(process_json("-1", "y", &p), Err(FilterError::InvalidIndex));
}

#[test]
fn json_scalars() {
    assert_eq!(process_json("", "42", &b"42".to_vec()), Ok(true));
    assert_eq!(process_json("", "42.0", &b"42".to_vec()), Ok(false));
    assert_eq!(process_json("", "1.5", &b"1.5".to_vec()), Ok(true));
    assert_eq!(process_json("", "abc", &b"42".to_vec()), Err(FilterError::InvalidNumber));
    assert_eq!(process_json("", "0.0", &b"-0.0".to_vec()), Ok(true));
    assert_eq!(process_json("", "-0.0", &b"0.0".to_vec()), Ok(true));
    assert_eq!(process_json("", "0", &b"0.0".to_vec()), Ok(false));
    assert_eq!(process_json("", "1e2", &b"100.0".to_vec()), Ok(true));
    assert_eq!(process_json("", "NULL", &b"null".to_vec()), Ok(true));
    assert_eq!(process_json("", "True", &b"true".to_vec()), Ok(true));
    assert_eq!(process_json("", "false", &b"true".to_vec()), Ok(false));
    assert_eq!(process_json("ignored", "hi", &br#""hi""#.to_vec()), Ok(true));
    assert_eq!(process_json("", "HI", &br#""hi""#.to_vec()), Ok(false));
}

#[test]
fn json_bad_payloads_are_errors() {
    assert_eq!(process_json("a", "1", &vec![0xff, 0xfe]), Err(FilterError::NotUtf8));
    assert_eq!(process_json("a", "1", &b"{".to_vec()), Err(FilterError::NotJson));
    assert!(!trigger("t", json("a", "1")).accepts("t", &b"{".to_vec(), None));
}

#[test]
fn drop_all_never_accepts() {
    let t = trigger("t/1", MqttTriggerFilterConfig::DropAll);
    assert!(!t.accepts("t/1", &b"x".to_vec(), Some(true)));
    assert!(!t.accepts("t/2", &b"x".to_vec(), Some(true)));
    assert!(t.process("t/1", &b"x".to_vec(), None).is_none());
}

#[test]
fn no_filter_accepts_on_topic() {
    let t = trigger("t/1", MqttTriggerFilterConfig::NoFilter);
    assert!(t.accepts("t/1", &b"x".to_vec(), None));
    assert!(!t.accepts("t/11", &b"x".to_vec(), None));
    let e = t.process("t/1", &b"x".to_vec(), None).unwrap();
    assert_eq!(e.input, ElId::new("in1"));
    assert_eq!(e.trigger, ElId::new("tr1"));
    assert_eq!(e.data.payload, b"x".to_vec());
    match e.data.meta {
        DataEventMeta::MqttMetadata { topic } => assert_eq!(topic, "t/1"),
        DataEventMeta::NoMetadata => panic!("topic missing"),
    }
}

#[test]
fn script_filter_takes_the_script_verdict() {
    let t = trigger("t/1", MqttTriggerFilterConfig::Js { code: "return true".to_string() });
    assert_eq!(t.script(), Some("return true".to_string()));
    assert!(t.accepts("t/1", &b"x".to_vec(), Some(true)));
    assert!(!t.accepts("t/1", &b"x".to_vec(), Some(false)));
    assert!(!t.accepts("t/1", &b"x".to_vec(), None));
    assert!(!t.accepts("t/2", &b"x".to_vec(), Some(true)));
    assert_eq!(trigger("t", MqttTriggerFilterConfig::NoFilter).script(), None);
}

#[test]
fn unscripted_verdict_repeats() {
    let t = trigger("t", json("a", "1"));
    let p = br#"{"a": 1}"#.to_vec();
    let first = t.accepts("t", &p, None);
    let second = t.accepts("t", &p, Some(false));
    assert_eq!(first, second);
    assert!(first);
}
