//! Triggers: the rule of an input that decides whether an inbound message
//! becomes a `TriggeredEvent`.
use vstd::prelude::*;
use crate::data::{text_eq, DataEvent, DataEventMeta, InputId, TriggerId, TriggeredEvent};
use crate::json_filter::{json_payload_verdict, process_json};

verus! {

/// How a trigger judges the payload of a message on its topic.
#[derive(Debug, Clone)]
pub enum MqttTriggerFilterConfig {
    NoFilter,
    DropAll,
    /// A script body run as a function of `(topic, payload)`, its result taken
    /// by truthiness.
    Js { code: String },
    Json { field: String, exact: String },
}

impl Default for MqttTriggerFilterConfig {
    fn default() -> (r: MqttTriggerFilterConfig)
        ensures
            r is NoFilter,
    {
        MqttTriggerFilterConfig::NoFilter
    }
}

#[derive(Debug, Clone)]
pub struct MqttTriggerConfig {
    pub topic: String,
    pub filter: MqttTriggerFilterConfig,
}

/// Whether the filter accepts a payload. `script_verdict` is the outcome of the
/// script of a `Js` filter (`None` where it failed); no other filter reads it.
pub open spec fn filter_accepts(
    filter: MqttTriggerFilterConfig,
    payload: Seq<u8>,
    script_verdict: Option<bool>,
) -> bool {
    match filter {
        MqttTriggerFilterConfig::NoFilter => true,
        MqttTriggerFilterConfig::DropAll => false,
        MqttTriggerFilterConfig::Js { .. } => script_verdict == Some(true),
        MqttTriggerFilterConfig::Json { field, exact } => json_payload_verdict(
            field@,
            exact@,
            payload,
        ) == Ok::<bool, crate::json_filter::FilterError>(true),
    }
}

/// A message matches a trigger when it arrives on the trigger's topic and the
/// filter accepts its payload.
pub open spec fn trigger_accepts(
    config: MqttTriggerConfig,
    topic: Seq<char>,
    payload: Seq<u8>,
    script_verdict: Option<bool>,
) -> bool {
    config.topic@ == topic && filter_accepts(config.filter, payload, script_verdict)
}

/// The event that a trigger emits for an accepted message.
pub open spec fn emitted(
    e: TriggeredEvent,
    input_id: Seq<char>,
    trigger_id: Seq<char>,
    topic: Seq<char>,
    payload: Seq<u8>,
) -> bool {
    &&& e.input@ == input_id
    &&& e.trigger@ == trigger_id
    &&& e.data.payload@ == payload
    &&& e.data.meta matches DataEventMeta::MqttMetadata { topic: t } && t@ == topic
}

#[derive(Debug, Clone)]
pub struct MqttTrigger {
    pub input_id: InputId,
    pub trigger_id: TriggerId,
    pub config: MqttTriggerConfig,
}

impl MqttTrigger {
    pub fn new(input_id: InputId, trigger_id: TriggerId, config: MqttTriggerConfig) -> (r: MqttTrigger)
        ensures
            r.input_id == input_id,
            r.trigger_id == trigger_id,
            r.config == config,
    {
        MqttTrigger { input_id, trigger_id, config }
    }

    /// The script of a `Js` filter, which the caller runs on a message of the
    /// trigger's topic to obtain the verdict that `accepts` takes.
    pub fn script(&self) -> (r: Option<String>)
        ensures
            match self.config.filter {
                MqttTriggerFilterConfig::Js { code } => r matches Some(c) && c@ == code@,
                _ => r is None,
            },
    {
        match &self.config.filter {
            MqttTriggerFilterConfig::Js { code } => Some(code.clone()),
            _ => None,
        }
    }

    /// Whether the trigger's topic is `topic`.
    pub fn listens_to(&self, topic: &str) -> (r: bool)
        ensures
            r == (self.config.topic@ == topic@),
    {
        text_eq(self.config.topic.as_str(), topic)
    }

    /// Whether a message with this topic and payload matches the trigger. A
    /// JSON payload that cannot be judged, and a script that failed, reject.
    pub fn accepts(&self, topic: &str, payload: &Vec<u8>, script_verdict: Option<bool>) -> (r: bool)
        ensures
            r == trigger_accepts(self.config, topic@, payload@, script_verdict),
    {
        if !self.listens_to(topic) {
            return false;
        }
        match &self.config.filter {
            MqttTriggerFilterConfig::NoFilter => true,
            MqttTriggerFilterConfig::DropAll => false,
            MqttTriggerFilterConfig::Js { .. } => match script_verdict {
                Some(v) => v,
                None => false,
            },
            MqttTriggerFilterConfig::Json { field, exact } => match process_json(
                field.as_str(),
                exact.as_str(),
                payload,
            ) {
                Ok(v) => v,
                Err(_) => false,
            },
        }
    }

    /// The event for a message, where the trigger accepts it: the payload
    /// unchanged and the topic as metadata.
    pub fn process(&self, topic: &str, payload: &Vec<u8>, script_verdict: Option<bool>) -> (r: Option<
        TriggeredEvent,
    >)
        ensures
            r is Some <==> trigger_accepts(self.config, topic@, payload@, script_verdict),
            r matches Some(e) ==> emitted(e, self.input_id@, self.trigger_id@, topic@, payload@),
    {
        if self.accepts(topic, payload, script_verdict) {
            let p = payload.clone();
            assert(p@ =~= payload@);
            Some(
                TriggeredEvent {
                    input: self.input_id.duplicate(),
                    trigger: self.trigger_id.duplicate(),
                    data: DataEvent { meta: DataEventMeta::MqttMetadata { topic: topic.to_owned() }, payload: p },
                },
            )
        } else {
            None
        }
    }
}

/// A trigger accepts exactly the messages on its topic that its filter accepts:
/// `DropAll` accepts none, `NoFilter` every one on the topic.
pub proof fn lemma_trigger_verdicts(
    config: MqttTriggerConfig,
    topic: Seq<char>,
    payload: Seq<u8>,
    script_verdict: Option<bool>,
)
    ensures
        trigger_accepts(config, topic, payload, script_verdict) <==> (config.topic@ == topic
            && filter_accepts(config.filter, payload, script_verdict)),
        config.filter is DropAll ==> !trigger_accepts(config, topic, payload, script_verdict),
        config.filter is NoFilter ==> (trigger_accepts(config, topic, payload, script_verdict)
            <==> config.topic@ == topic),
{
}

/// A failed filter script rejects the message.
pub proof fn lemma_failed_script_rejects(config: MqttTriggerConfig, topic: Seq<char>, payload: Seq<u8>)
    requires
        config.filter is Js,
    ensures
        !trigger_accepts(config, topic, payload, None),
{
}

/// Without a script, the verdict depends on the topic and the payload alone:
/// judging the same message again gives the same verdict.
pub proof fn lemma_unscripted_verdict_repeats(
    config: MqttTriggerConfig,
    topic: Seq<char>,
    payload: Seq<u8>,
    first: Option<bool>,
    second: Option<bool>,
)
    requires
        !(config.filter is Js),
    ensures
        trigger_accepts(config, topic, payload, first) == trigger_accepts(config, topic, payload, second),
{
}

} // verus!
