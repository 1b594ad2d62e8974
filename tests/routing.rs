use mqrt::action::{MqttAction, MqttActionConfig, MqttActionPayloadConfig};
use mqrt::config::{HandlerActionConfig, HandlerConfig, HandlerTriggerConfig};
use mqrt::data::{ActionableEvent, DataEvent, DataEventMeta, ElId, TriggeredEvent};
use mqrt::dispatcher::{RouteError, RoutingTable};
use mqrt::input::{MqttInput, MqttInputConfig};
use mqrt::output::{MqttOutput, MqttOutputConfig};
use mqrt::trigger::{MqttTriggerConfig, MqttTriggerFilterConfig};
use mqrt::utils::DELIVERY_QOS;

fn id(s: &str) -> ElId {
    ElId::new(s)
}

fn handler(input: &str, trigger: &str, output: &str, action: &str) -> HandlerConfig {
    HandlerConfig {
        trigger: HandlerTriggerConfig { input_id: id(input), trigger_id: id(trigger) },
        action: HandlerActionConfig { output_id: id(output), action_id: id(action) },
    }
}

fn event(input: &str, trigger: &str, payload: &[u8]) -> TriggeredEvent {
    TriggeredEvent {
        input: id(input),
        trigger: id(trigger),
        data: DataEvent { meta: DataEventMeta::MqttMetadata { topic: "t".to_string() }, payload: payload.to_vec() },
    }
}

#[test]
fn trigger_with_two_handlers_fans_out_to_both() {
    let handlers = vec![handler("in1", "t1", "out1", "a1"), handler("in1", "t1", "out2", "a2")];
    let table = RoutingTable::build(&id("in1"), &handlers, &vec![id("out1"), id("out2")]).unwrap();
    let out = table.route(&event("in1", "t1", b"payload"));
    assert_eq!(out.len(), 2);
    assert_eq!(out[0].output, id("out1"));
    assert_eq!(out[0].action, id("a1"));
    assert_eq!(out[1].output, id("out2"));
    assert_eq!(out[1].action, id("a2"));
    assert_eq!(out[0].data.payload, b"payload".to_vec());
    assert_eq!(out[1].data.payload, b"payload".to_vec());
}

#[test]
fn trigger_without_handler_routes_nowhere() {
    let handlers = vec![handler("in1", "t1", "out1", "a1")];
    let table = RoutingTable::build(&id("in1"), &handlers, &vec![id("out1")]).unwrap();
    assert!(table.route(&event("in1", "t2", b"x")).is_empty());
}

#[test]
fn handlers_of_other_inputs_are_ignored() {
    let handlers = vec![handler("in2", "t1", "nowhere", "a1"), handler("in1", "t1", "out1", "a1")];
    let table = RoutingTable::build(&id("in1"), &handlers, &vec![id("out1")]).unwrap();
    assert_eq!(table.input(), &id("in1"));
    assert_eq!(table.route(&event("in1", "t1", b"x")).len(), 1);
}

#[test]
fn groups_keep_declaration_order_and_duplicates() {
    let handlers = vec![
        handler("in1", "t1", "out1", "a1"),
        handler("in1", "t2", "out2", "a2"),
        handler("in1", "t1", "out2", "a3"),
        handler("in1", "t1", "out1", "a1"),
    ];
    let table = RoutingTable::build(&id("in1"), &handlers, &vec![id("out1"), id("out2")]).unwrap();
    let out = table.route(&event("in1", "t1", b"x"));
    let pairs: Vec<(String, String)> = out.iter().map(|e| (e.output.id.clone(), e.action.id.clone())).collect();
    assert_eq!(
        pairs,
        vec![
            ("out1".to_string(), "a1".to_string()),
            ("out2".to_string(), "a3".to_string()),
            ("out1".to_string(), "a1".to_string()),
        ]
    );
    assert_eq!(table.route(&event("in1", "t2", b"x")).len(), 1);
}

#[test]
fn unknown_output_is_an_error() {
    let handlers = vec![handler("in1", "t1", "out1", "a1"), handler("in1", "t1", "ghost", "a2")];
    match RoutingTable::build(&id("in1"), &handlers, &vec![id("out1")]) {
        Err(RouteError::UnknownOutput(o)) => assert_eq!(o, id("ghost")),
        Ok(_) => panic!("expected an error"),
    }
}

fn action(payload: MqttActionPayloadConfig) -> MqttAction {
    MqttAction::new(id("out1"), id("a1"), MqttActionConfig { topic: "o/1".to_string(), payload })
}

fn actionable(payload: &[u8]) -> ActionableEvent {
    ActionableEvent {
        output: id("out1"),
        action: id("a1"),
        data: DataEvent { meta: DataEventMeta::NoMetadata, payload: payload.to_vec() },
    }
}

#[test]
fn action_payload_kinds() {
    let e = actionable(b"in");
    let m = action(MqttActionPayloadConfig::Passthrough).process(&e, None).unwrap();
    assert_eq!(m.topic, "o/1");
    assert_eq!(m.qos, DELIVERY_QOS);
    assert_eq!(m.payload, b"in".to_vec());
    assert!(action(MqttActionPayloadConfig::Drop).process(&e, None).unwrap().payload.is_empty());
    let js = action(MqttActionPayloadConfig::Js { code: "return payload".to_string() });
    assert_eq!(js.script(), Some("return payload".to_string()));
    assert_eq!(js.process(&e, Some("out".to_string())).unwrap().payload, b"out".to_vec());
    assert!(js.process(&e, None).unwrap().payload.is_empty());
    assert_eq!(action(MqttActionPayloadConfig::Drop).script(), None);
}

#[test]
fn static_payload_ignores_the_event() {
    let a = action(MqttActionPayloadConfig::Static { data: "X".to_string() });
    assert_eq!(a.process(&actionable(b"one"), None).unwrap().payload, b"X".to_vec());
    assert_eq!(a.process(&actionable(b""), Some("y".to_string())).unwrap().payload, b"X".to_vec());
}

fn single_route_setup(payload: MqttActionPayloadConfig) -> (MqttInput, RoutingTable, MqttOutput) {
    let input = MqttInput::new(
        id("in1"),
        MqttInputConfig {
            host: "h".to_string(),
            port: 1883,
            username: None,
            password: None,
            triggers: vec![(
                id("tr1"),
                MqttTriggerConfig { topic: "t/1".to_string(), filter: MqttTriggerFilterConfig::NoFilter },
            )],
        },
    );
    let output = MqttOutput::new(
        id("out1"),
        MqttOutputConfig {
            host: "h".to_string(),
            port: 1883,
            username: None,
            password: None,
            actions: vec![(id("ac1"), MqttActionConfig { topic: "t/2".to_string(), payload })],
        },
    );
    let table =
        RoutingTable::build(&id("in1"), &vec![handler("in1", "tr1", "out1", "ac1")], &vec![id("out1")]).unwrap();
    (input, table, output)
}

fn publish_all(input: &MqttInput, table: &RoutingTable, output: &MqttOutput, topic: &str, payload: &[u8]) -> Vec<(String, Vec<u8>)> {
    let mut published = Vec::new();
    for t in input.process_message(topic, &payload.to_vec(), &vec![None]) {
        for a in table.route(&t) {
            for i in output.matching_actions(&a.action) {
                if let Some(m) = output.actions[i].process(&a, None) {
                    published.push((m.topic, m.payload));
                }
            }
        }
    }
    published
}

#[test]
fn end_to_end_passthrough() {
    let (input, table, output) = single_route_setup(MqttActionPayloadConfig::Passthrough);
    let published = publish_all(&input, &table, &output, "t/1", b"hello");
    assert_eq!(published, vec![("t/2".to_string(), b"hello".to_vec())]);
    assert!(publish_all(&input, &table, &output, "t/3", b"hello").is_empty());
}

#[test]
fn end_to_end_static_payload() {
    let (input, table, output) = single_route_setup(MqttActionPayloadConfig::Static { data: "X".to_string() });
    assert_eq!(publish_all(&input, &table, &output, "t/1", b"hello"), vec![("t/2".to_string(), b"X".to_vec())]);
    assert_eq!(publish_all(&input, &table, &output, "t/1", b"other"), vec![("t/2".to_string(), b"X".to_vec())]);
}
