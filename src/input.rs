//! The bus input adapter: its configuration, its triggers, and what it makes of
//! one inbound message.
use vstd::prelude::*;
use crate::data::{ElId, InputId, TriggerId, TriggeredEvent};
use crate::trigger::{emitted, trigger_accepts, MqttTrigger, MqttTriggerConfig, MqttTriggerFilterConfig};
use crate::utils::{copy_text, ConnectSettings, DELIVERY_QOS};

verus! {

#[derive(Debug, Clone)]
pub struct MqttInputConfig {
    pub host: String,
    pub port: u16,
    pub username: Option<String>,
    pub password: Option<String>,
    /// The triggers by id, each id once.
    pub triggers: Vec<(TriggerId, MqttTriggerConfig)>,
}

impl MqttInputConfig {
    /// The same settings and the same entries in the same order.
    pub open spec fn same(&self, o: &MqttInputConfig) -> bool {
        &&& self.host == o.host
        &&& self.port == o.port
        &&& self.username == o.username
        &&& self.password == o.password
        &&& self.triggers@ == o.triggers@
    }

    pub fn duplicate(&self) -> (r: MqttInputConfig)
        ensures
            r.same(self),
    {
        let mut triggers: Vec<(TriggerId, MqttTriggerConfig)> = Vec::new();
        let n = self.triggers.len();
        let mut i: usize = 0;
        while i < n
            invariant
                n == self.triggers@.len(),
                i <= n,
                triggers@ == self.triggers@.subrange(0, i as int),
            decreases n - i,
        {
            let e = &self.triggers[i];
            triggers.push((ElId { id: e.0.id.clone() }, e.1.duplicate()));
            assert(triggers@ =~= self.triggers@.subrange(0, i + 1));
            i = i + 1;
        }
        assert(triggers@ =~= self.triggers@);
        MqttInputConfig {
            host: self.host.clone(),
            port: self.port,
            username: copy_text(&self.username),
            password: copy_text(&self.password),
            triggers,
        }
    }
}

impl MqttTriggerFilterConfig {
    pub fn duplicate(&self) -> (r: MqttTriggerFilterConfig)
        ensures
            r == *self,
    {
        match self {
            MqttTriggerFilterConfig::NoFilter => MqttTriggerFilterConfig::NoFilter,
            MqttTriggerFilterConfig::DropAll => MqttTriggerFilterConfig::DropAll,
            MqttTriggerFilterConfig::Js { code } => MqttTriggerFilterConfig::Js { code: code.clone() },
            MqttTriggerFilterConfig::Json { field, exact } => MqttTriggerFilterConfig::Json {
                field: field.clone(),
                exact: exact.clone(),
            },
        }
    }
}

impl MqttTriggerConfig {
    pub fn duplicate(&self) -> (r: MqttTriggerConfig)
        ensures
            r == *self,
    {
        MqttTriggerConfig { topic: self.topic.clone(), filter: self.filter.duplicate() }
    }
}

/// The triggers at the positions that accept a message, in order.
pub open spec fn accepting(
    triggers: Seq<MqttTrigger>,
    topic: Seq<char>,
    payload: Seq<u8>,
    verdicts: Seq<Option<bool>>,
    n: int,
) -> Seq<int>
    decreases n,
{
    if n <= 0 {
        seq![]
    } else {
        let prev = accepting(triggers, topic, payload, verdicts, n - 1);
        if trigger_accepts(triggers[n - 1].config, topic, payload, verdicts[n - 1]) {
            prev.push(n - 1)
        } else {
            prev
        }
    }
}

#[derive(Debug)]
pub struct MqttInput {
    pub id: InputId,
    pub triggers: Vec<MqttTrigger>,
    pub config: MqttInputConfig,
}

impl MqttInput {
    /// An input with one trigger per configured trigger, in configuration order.
    pub fn new(id: InputId, config: MqttInputConfig) -> (r: MqttInput)
        ensures
            r.id == id,
            r.config == config,
            r.triggers@.len() == config.triggers@.len(),
            forall|i: int|
                0 <= i < r.triggers@.len() ==> {
                    &&& (#[trigger] r.triggers@[i]).input_id@ == id@
                    &&& r.triggers@[i].trigger_id@ == config.triggers@[i].0@
                    &&& r.triggers@[i].config == config.triggers@[i].1
                },
    {
        let mut triggers: Vec<MqttTrigger> = Vec::new();
        let n = config.triggers.len();
        let mut i: usize = 0;
        while i < n
            invariant
                n == config.triggers@.len(),
                i <= n,
                triggers@.len() == i,
                forall|j: int|
                    0 <= j < i ==> {
                        &&& (#[trigger] triggers@[j]).input_id@ == id@
                        &&& triggers@[j].trigger_id@ == config.triggers@[j].0@
                        &&& triggers@[j].config == config.triggers@[j].1
                    },
            decreases n - i,
        {
            let entry = &config.triggers[i];
            triggers.push(MqttTrigger::new(id.duplicate(), entry.0.duplicate(), entry.1.duplicate()));
            i = i + 1;
        }
        MqttInput { id, triggers, config }
    }

    /// The topics to subscribe to: one per trigger, in trigger order.
    pub fn listen_topics(&self) -> (r: Vec<String>)
        ensures
            r@.len() == self.config.triggers@.len(),
            forall|i: int| 0 <= i < r@.len() ==> (#[trigger] r@[i])@ == self.config.triggers@[i].1.topic@,
    {
        let mut topics: Vec<String> = Vec::new();
        let n = self.config.triggers.len();
        let mut i: usize = 0;
        while i < n
            invariant
                n == self.config.triggers@.len(),
                i <= n,
                topics@.len() == i,
                forall|j: int| 0 <= j < i ==> (#[trigger] topics@[j])@ == self.config.triggers@[j].1.topic@,
            decreases n - i,
        {
            topics.push(self.config.triggers[i].1.topic.clone());
            i = i + 1;
        }
        topics
    }

    /// The delivery quality of each subscription, one per topic.
    pub fn listen_qos(&self) -> (r: Vec<i32>)
        ensures
            r@.len() == self.config.triggers@.len(),
            forall|i: int| 0 <= i < r@.len() ==> r@[i] == DELIVERY_QOS,
    {
        let mut qos: Vec<i32> = Vec::new();
        let n = self.config.triggers.len();
        let mut i: usize = 0;
        while i < n
            invariant
                n == self.config.triggers@.len(),
                i <= n,
                qos@.len() == i,
                forall|j: int| 0 <= j < i ==> qos@[j] == DELIVERY_QOS,
            decreases n - i,
        {
            qos.push(DELIVERY_QOS);
            i = i + 1;
        }
        qos
    }

    pub fn connect_settings(&self) -> (r: ConnectSettings)
        ensures
            r.fixed_part(),
            r.username == self.config.username,
            r.password == self.config.password,
    {
        ConnectSettings::with_credentials(&self.config.username, &self.config.password)
    }

    /// The events that one inbound message produces: one for each trigger that
    /// accepts it, in trigger order. `script_verdicts[i]` is the outcome of the
    /// script of trigger `i`, where its filter is scripted.
    pub fn process_message(&self, topic: &str, payload: &Vec<u8>, script_verdicts: &Vec<Option<bool>>) -> (r:
        Vec<TriggeredEvent>)
        requires
            script_verdicts@.len() == self.triggers@.len(),
        ensures
            ({
                let pos = accepting(self.triggers@, topic@, payload@, script_verdicts@, self.triggers@.len() as int);
                &&& r@.len() == pos.len()
                &&& forall|k: int|
                    0 <= k < r@.len() ==> emitted(
                        #[trigger] r@[k],
                        self.triggers@[pos[k]].input_id@,
                        self.triggers@[pos[k]].trigger_id@,
                        topic@,
                        payload@,
                    )
            }),
    {
        let mut events: Vec<TriggeredEvent> = Vec::new();
        let n = self.triggers.len();
        let mut i: usize = 0;
        while i < n
            invariant
                n == self.triggers@.len(),
                n == script_verdicts@.len(),
                i <= n,
                ({
                    let pos = accepting(self.triggers@, topic@, payload@, script_verdicts@, i as int);
                    &&& events@.len() == pos.len()
                    &&& forall|k: int|
                        0 <= k < events@.len() ==> emitted(
                            #[trigger] events@[k],
                            self.triggers@[pos[k]].input_id@,
                            self.triggers@[pos[k]].trigger_id@,
                            topic@,
                            payload@,
                        )
                }),
            decreases n - i,
        {
            let trigger = &self.triggers[i];
            match trigger.process(topic, payload, script_verdicts[i]) {
                Some(e) => {
                    events.push(e);
                },
                None => {},
            }
            i = i + 1;
        }
        events
    }
}

} // verus!
