//! Actions: the rule of an output that turns an `ActionableEvent` into the
//! message to publish.
use vstd::prelude::*;
use vstd::utf8::encode_utf8;
use crate::data::{ActionId, ActionableEvent, OutputId};
use crate::utils::DELIVERY_QOS;

verus! {

/// What an action publishes as payload.
#[derive(Debug, Clone)]
pub enum MqttActionPayloadConfig {
    Passthrough,
    Drop,
    Static { data: String },
    /// A script body run as a function of `(payload)` that returns the new
    /// payload.
    Js { code: String },
}

impl Default for MqttActionPayloadConfig {
    fn default() -> (r: MqttActionPayloadConfig)
        ensures
            r is Passthrough,
    {
        MqttActionPayloadConfig::Passthrough
    }
}

impl MqttActionPayloadConfig {
    pub fn duplicate(&self) -> (r: MqttActionPayloadConfig)
        ensures
            r == *self,
    {
        match self {
            MqttActionPayloadConfig::Passthrough => MqttActionPayloadConfig::Passthrough,
            MqttActionPayloadConfig::Drop => MqttActionPayloadConfig::Drop,
            MqttActionPayloadConfig::Static { data } => MqttActionPayloadConfig::Static { data: data.clone() },
            MqttActionPayloadConfig::Js { code } => MqttActionPayloadConfig::Js { code: code.clone() },
        }
    }
}

#[derive(Debug, Clone)]
pub struct MqttActionConfig {
    pub topic: String,
    pub payload: MqttActionPayloadConfig,
}

impl MqttActionConfig {
    pub fn duplicate(&self) -> (r: MqttActionConfig)
        ensures
            r == *self,
    {
        MqttActionConfig { topic: self.topic.clone(), payload: self.payload.duplicate() }
    }
}

/// A message to publish on the bus.
#[derive(Debug, Clone)]
pub struct OutboundMessage {
    pub topic: String,
    pub payload: Vec<u8>,
    pub qos: i32,
}

/// The payload that an action publishes for an event payload. `script_output`
/// is the text returned by the script of a `Js` action (`None` where it
/// failed); no other kind reads it.
pub open spec fn action_payload(
    config: MqttActionPayloadConfig,
    event_payload: Seq<u8>,
    script_output: Option<Seq<char>>,
) -> Seq<u8> {
    match config {
        MqttActionPayloadConfig::Passthrough => event_payload,
        MqttActionPayloadConfig::Drop => seq![],
        MqttActionPayloadConfig::Static { data } => encode_utf8(data@),
        MqttActionPayloadConfig::Js { .. } => match script_output {
            Some(s) => encode_utf8(s),
            None => seq![],
        },
    }
}

#[derive(Debug, Clone)]
pub struct MqttAction {
    pub output_id: OutputId,
    pub action_id: ActionId,
    pub config: MqttActionConfig,
}

impl MqttAction {
    pub fn new(output_id: OutputId, action_id: ActionId, config: MqttActionConfig) -> (r: MqttAction)
        ensures
            r.output_id == output_id,
            r.action_id == action_id,
            r.config == config,
    {
        MqttAction { output_id, action_id, config }
    }

    /// The script of a `Js` action, which the caller runs on the event payload
    /// to obtain the text that `process` takes.
    pub fn script(&self) -> (r: Option<String>)
        ensures
            match self.config.payload {
                MqttActionPayloadConfig::Js { code } => r matches Some(c) && c@ == code@,
                _ => r is None,
            },
    {
        match &self.config.payload {
            MqttActionPayloadConfig::Js { code } => Some(code.clone()),
            _ => None,
        }
    }

    /// The message to publish for an event: on the action's topic, at the
    /// fixed delivery quality, with the payload that the action's kind gives.
    pub fn process(&self, event: &ActionableEvent, script_output: Option<String>) -> (r: Option<
        OutboundMessage,
    >)
        ensures
            r matches Some(m) && {
                &&& m.topic@ == self.config.topic@
                &&& m.qos == DELIVERY_QOS
                &&& m.payload@ == action_payload(
                    self.config.payload,
                    event.data.payload@,
                    match script_output {
                        Some(s) => Some(s@),
                        None => None,
                    },
                )
            },
    {
        let payload: Vec<u8> = match &self.config.payload {
            MqttActionPayloadConfig::Passthrough => {
                let p = event.data.payload.clone();
                assert(p@ =~= event.data.payload@);
                p
            },
            MqttActionPayloadConfig::Drop => Vec::new(),
            MqttActionPayloadConfig::Static { data } => data.as_str().as_bytes_vec(),
            MqttActionPayloadConfig::Js { .. } => match &script_output {
                Some(s) => s.as_str().as_bytes_vec(),
                None => Vec::new(),
            },
        };
        Some(OutboundMessage { topic: self.config.topic.clone(), payload, qos: DELIVERY_QOS })
    }
}

/// A failed transform script publishes an empty payload.
pub proof fn lemma_failed_script_empties(config: MqttActionPayloadConfig, event_payload: Seq<u8>)
    requires
        config is Js,
    ensures
        action_payload(config, event_payload, None) == Seq::<u8>::empty(),
{
}

/// Without a script, the payload depends on the event payload alone: handling
/// the same event again gives the same payload. A static payload does not
/// depend on the event at all.
pub proof fn lemma_unscripted_payload_repeats(
    config: MqttActionPayloadConfig,
    event_payload: Seq<u8>,
    other_payload: Seq<u8>,
    first: Option<Seq<char>>,
    second: Option<Seq<char>>,
)
    requires
        !(config is Js),
    ensures
        action_payload(config, event_payload, first) == action_payload(config, event_payload, second),
        config matches MqttActionPayloadConfig::Static { data } ==> action_payload(
            config,
            event_payload,
            first,
        ) == action_payload(config, other_payload, second) && action_payload(
            config,
            event_payload,
            first,
        ) == encode_utf8(data@),
{
}

} // verus!
