use vstd::prelude::*;

verus! {

/// A string-backed identifier of an input, a trigger, an action or an output.
#[derive(Debug, Clone, Eq, Hash)]
pub struct ElId {
    pub id: String,
}

impl View for ElId {
    type V = Seq<char>;

    open spec fn view(&self) -> Seq<char> {
        self.id@
    }
}

impl PartialEq for ElId {
    fn eq(&self, o: &ElId) -> (r: bool)
        ensures
            r == (self@ == o@),
    {
        self.id == o.id
    }
}

impl vstd::std_specs::cmp::PartialEqSpecImpl for ElId {
    open spec fn obeys_eq_spec() -> bool {
        true
    }

    open spec fn eq_spec(&self, o: &ElId) -> bool {
        self@ == o@
    }
}

impl ElId {
    pub fn new(id: &str) -> (r: ElId)
        ensures
            r@ == id@,
    {
        ElId { id: id.to_owned() }
    }

    /// A copy of the identifier that keeps its text.
    pub fn duplicate(&self) -> (r: ElId)
        ensures
            r@ == self@,
    {
        ElId { id: self.id.clone() }
    }

    pub fn same_as(&self, o: &ElId) -> (r: bool)
        ensures
            r == (self@ == o@),
    {
        self.id == o.id
    }
}

/// Character-wise equality of two strings.
pub fn text_eq(a: &str, b: &str) -> (r: bool)
    ensures
        r == (a@ == b@),
{
    let n = a.unicode_len();
    if n != b.unicode_len() {
        return false;
    }
    let mut i: usize = 0;
    while i < n
        invariant
            n == a@.len(),
            n == b@.len(),
            i <= n,
            forall|j: int| 0 <= j < i ==> a@[j] == b@[j],
        decreases n - i,
    {
        if a.get_char(i) != b.get_char(i) {
            return false;
        }
        i = i + 1;
    }
    assert(a@ =~= b@);
    true
}

pub type InputId = ElId;

pub type TriggerId = ElId;

pub type ActionId = ElId;

pub type OutputId = ElId;

/// Where an event came from.
#[derive(Debug, Clone)]
pub enum DataEventMeta {
    NoMetadata,
    MqttMetadata { topic: String },
}

impl Default for DataEventMeta {
    fn default() -> (r: DataEventMeta)
        ensures
            r is NoMetadata,
    {
        DataEventMeta::NoMetadata
    }
}

impl DataEventMeta {
    pub open spec fn same(&self, o: &DataEventMeta) -> bool {
        match (self, o) {
            (DataEventMeta::NoMetadata, DataEventMeta::NoMetadata) => true,
            (DataEventMeta::MqttMetadata { topic: a }, DataEventMeta::MqttMetadata { topic: b }) => a@ == b@,
            _ => false,
        }
    }

    pub fn duplicate(&self) -> (r: DataEventMeta)
        ensures
            r.same(self),
    {
        match self {
            DataEventMeta::NoMetadata => DataEventMeta::NoMetadata,
            DataEventMeta::MqttMetadata { topic } => DataEventMeta::MqttMetadata { topic: topic.clone() },
        }
    }
}

/// A message payload with the metadata of its origin.
#[derive(Debug, Clone)]
pub struct DataEvent {
    pub meta: DataEventMeta,
    pub payload: Vec<u8>,
}

impl DataEvent {
    /// The same payload and metadata.
    pub open spec fn same(&self, o: &DataEvent) -> bool {
        self.meta.same(&o.meta) && self.payload@ == o.payload@
    }

    pub fn duplicate(&self) -> (r: DataEvent)
        ensures
            r.same(self),
    {
        let payload = self.payload.clone();
        assert(payload@ =~= self.payload@);
        DataEvent { meta: self.meta.duplicate(), payload }
    }
}

/// An inbound message that a trigger of an input accepted.
#[derive(Debug, Clone)]
pub struct TriggeredEvent {
    pub input: InputId,
    pub trigger: TriggerId,
    pub data: DataEvent,
}

/// A message bound for one action of one output.
#[derive(Debug, Clone)]
pub struct ActionableEvent {
    pub output: OutputId,
    pub action: ActionId,
    pub data: DataEvent,
}

} // verus!
