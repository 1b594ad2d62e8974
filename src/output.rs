//! The bus output adapter: its configuration, its actions, and which of them
//! handle an event.
use vstd::prelude::*;
use crate::action::{MqttAction, MqttActionConfig};
use crate::data::{ActionId, ElId};
use crate::utils::{copy_text, ConnectSettings};

verus! {

#[derive(Debug, Clone)]
pub struct MqttOutputConfig {
    pub host: String,
    pub port: u16,
    pub username: Option<String>,
    pub password: Option<String>,
    /// The actions by id, each id once.
    pub actions: Vec<(ActionId, MqttActionConfig)>,
}

impl MqttOutputConfig {
    /// The same settings and the same entries in the same order.
    pub open spec fn same(&self, o: &MqttOutputConfig) -> bool {
        &&& self.host == o.host
        &&& self.port == o.port
        &&& self.username == o.username
        &&& self.password == o.password
        &&& self.actions@ == o.actions@
    }

    pub fn duplicate(&self) -> (r: MqttOutputConfig)
        ensures
            r.same(self),
    {
        let mut actions: Vec<(ActionId, MqttActionConfig)> = Vec::new();
        let n = self.actions.len();
        let mut i: usize = 0;
        while i < n
            invariant
                n == self.actions@.len(),
                i <= n,
                actions@ == self.actions@.subrange(0, i as int),
            decreases n - i,
        {
            let e = &self.actions[i];
            actions.push((ElId { id: e.0.id.clone() }, e.1.duplicate()));
            assert(actions@ =~= self.actions@.subrange(0, i + 1));
            i = i + 1;
        }
        assert(actions@ =~= self.actions@);
        MqttOutputConfig {
            host: self.host.clone(),
            port: self.port,
            username: copy_text(&self.username),
            password: copy_text(&self.password),
            actions,
        }
    }
}

/// The positions, among the first `n` actions, of those with id `id`.
pub open spec fn positions_of(actions: Seq<MqttAction>, id: Seq<char>, n: int) -> Seq<int>
    decreases n,
{
    if n <= 0 {
        seq![]
    } else {
        let prev = positions_of(actions, id, n - 1);
        if actions[n - 1].action_id@ == id {
            prev.push(n - 1)
        } else {
            prev
        }
    }
}

#[derive(Debug)]
pub struct MqttOutput {
    pub id: ElId,
    pub actions: Vec<MqttAction>,
    pub config: MqttOutputConfig,
}

impl MqttOutput {
    /// An output with one action per configured action, in configuration order.
    pub fn new(id: ElId, config: MqttOutputConfig) -> (r: MqttOutput)
        ensures
            r.id == id,
            r.config == config,
            r.actions@.len() == config.actions@.len(),
            forall|i: int|
                0 <= i < r.actions@.len() ==> {
                    &&& (#[trigger] r.actions@[i]).output_id@ == id@
                    &&& r.actions@[i].action_id@ == config.actions@[i].0@
                    &&& r.actions@[i].config == config.actions@[i].1
                },
    {
        let mut actions: Vec<MqttAction> = Vec::new();
        let n = config.actions.len();
        let mut i: usize = 0;
        while i < n
            invariant
                n == config.actions@.len(),
                i <= n,
                actions@.len() == i,
                forall|j: int|
                    0 <= j < i ==> {
                        &&& (#[trigger] actions@[j]).output_id@ == id@
                        &&& actions@[j].action_id@ == config.actions@[j].0@
                        &&& actions@[j].config == config.actions@[j].1
                    },
            decreases n - i,
        {
            let entry = &config.actions[i];
            actions.push(MqttAction::new(id.duplicate(), entry.0.duplicate(), entry.1.duplicate()));
            i = i + 1;
        }
        MqttOutput { id, actions, config }
    }

    /// The positions of the actions that handle an event for action `id`, in
    /// action order.
    pub fn matching_actions(&self, id: &ActionId) -> (r: Vec<usize>)
        ensures
            r@.len() == positions_of(self.actions@, id@, self.actions@.len() as int).len(),
            forall|k: int|
                0 <= k < r@.len() ==> (#[trigger] r@[k]) as int == positions_of(
                    self.actions@,
                    id@,
                    self.actions@.len() as int,
                )[k],
    {
        let mut found: Vec<usize> = Vec::new();
        let n = self.actions.len();
        let mut i: usize = 0;
        while i < n
            invariant
                n == self.actions@.len(),
                i <= n,
                found@.len() == positions_of(self.actions@, id@, i as int).len(),
                forall|k: int|
                    0 <= k < found@.len() ==> (#[trigger] found@[k]) as int == positions_of(
                        self.actions@,
                        id@,
                        i as int,
                    )[k],
            decreases n - i,
        {
            if self.actions[i].action_id.same_as(id) {
                found.push(i);
            }
            i = i + 1;
        }
        found
    }

    pub fn connect_settings(&self) -> (r: ConnectSettings)
        ensures
            r.fixed_part(),
            r.username == self.config.username,
            r.password == self.config.password,
    {
        ConnectSettings::with_credentials(&self.config.username, &self.config.password)
    }
}

/// The publishing side of an output: one connection, one message at a time.
pub struct MqttOutputWriter {
    pub id: ElId,
    pub config: MqttOutputConfig,
}

impl MqttOutputWriter {
    pub fn new(id: ElId, config: MqttOutputConfig) -> (r: MqttOutputWriter)
        ensures
            r.id == id,
            r.config == config,
    {
        MqttOutputWriter { id, config }
    }

    pub fn connect_settings(&self) -> (r: ConnectSettings)
        ensures
            r.fixed_part(),
            r.username == self.config.username,
            r.password == self.config.password,
    {
        ConnectSettings::with_credentials(&self.config.username, &self.config.password)
    }
}

} // verus!
