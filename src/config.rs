//! The declarative configuration: inputs, outputs and the handlers that wire
//! triggers to actions; and the construction of adapters from it.
use vstd::prelude::*;
use crate::data::{ElId, InputId, OutputId};
use crate::input::{MqttInput, MqttInputConfig};
use crate::output::{MqttOutput, MqttOutputConfig};

verus! {

/// The trigger end of a handler.
#[derive(Debug, Clone)]
pub struct HandlerTriggerConfig {
    pub input_id: ElId,
    pub trigger_id: ElId,
}

/// The action end of a handler.
#[derive(Debug, Clone)]
pub struct HandlerActionConfig {
    pub output_id: ElId,
    pub action_id: ElId,
}

/// An edge of the routing graph: events of `trigger` go to `action`.
#[derive(Debug, Clone)]
pub struct HandlerConfig {
    pub trigger: HandlerTriggerConfig,
    pub action: HandlerActionConfig,
}

#[derive(Debug, Clone)]
pub enum InputConfig {
    Mqtt(MqttInputConfig),
}

#[derive(Debug, Clone)]
pub enum OutputConfig {
    Mqtt(MqttOutputConfig),
}

/// The whole configuration. Inputs and outputs are listed by id, each id once;
/// handlers keep their declaration order.
#[derive(Debug, Clone)]
pub struct Config {
    pub inputs: Vec<(InputId, InputConfig)>,
    pub outputs: Vec<(OutputId, OutputConfig)>,
    pub handlers: Vec<HandlerConfig>,
}

/// Process options: where the configuration is read from, and the number of
/// worker threads.
#[derive(Debug, Clone)]
pub struct Opt {
    pub config_path: String,
    pub threads: Option<usize>,
}

/// Builds the adapters of a configuration.
#[derive(Debug, Default)]
pub struct ChannelManager {}

impl ChannelManager {
    /// The input adapter for an input entry.
    pub fn config_to_input(id: &ElId, config: &InputConfig) -> (r: MqttInput)
        ensures
            r.id@ == id@,
            config matches InputConfig::Mqtt(c) && r.config.same(&c),
            r.triggers@.len() == r.config.triggers@.len(),
            forall|i: int|
                0 <= i < r.triggers@.len() ==> {
                    &&& (#[trigger] r.triggers@[i]).input_id@ == id@
                    &&& r.triggers@[i].trigger_id@ == r.config.triggers@[i].0@
                    &&& r.triggers@[i].config == r.config.triggers@[i].1
                },
    {
        match config {
            InputConfig::Mqtt(c) => MqttInput::new(id.duplicate(), c.duplicate()),
        }
    }

    /// The output adapter for an output entry.
    pub fn config_to_output(id: &ElId, config: &OutputConfig) -> (r: MqttOutput)
        ensures
            r.id@ == id@,
            config matches OutputConfig::Mqtt(c) && r.config.same(&c),
            r.actions@.len() == r.config.actions@.len(),
            forall|i: int|
                0 <= i < r.actions@.len() ==> {
                    &&& (#[trigger] r.actions@[i]).output_id@ == id@
                    &&& r.actions@[i].action_id@ == r.config.actions@[i].0@
                    &&& r.actions@[i].config == r.config.actions@[i].1
                },
    {
        match config {
            OutputConfig::Mqtt(c) => MqttOutput::new(id.duplicate(), c.duplicate()),
        }
    }
}

} // verus!
