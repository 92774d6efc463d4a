pub mod gateway;
pub mod json;
pub mod klimalogger;
pub mod queue;
pub mod route;
pub mod shelly;
pub mod topic;
pub mod writer;

use vstd::prelude::*;

verus! {

/// The value carried by one record field: either an integer reading or the
/// bit pattern of a 64-bit floating-point reading. Floating-point values
/// flow through the gateway opaquely; only the backends interpret them.
#[derive(Clone, Copy, PartialEq, Eq, Structural, Debug)]
pub enum WriteType {
    Int(i32),
    Float(u64),
}

/// One message as received from the transport: an opaque envelope of a
/// topic and a payload, never mutated.
pub struct Message {
    pub topic: String,
    pub payload: Vec<u8>,
}

impl Message {
    pub fn new(topic: String, payload: Vec<u8>) -> (m: Message)
        ensures
            m.topic@ == topic@,
            m.payload@ == payload@,
    {
        Message { topic, payload }
    }
}

/// One persistable measurement sample: the unit of work fanned out to the
/// writer workers. A record always carries a timestamp — a sample without
/// one cannot be placed into a time-indexed store, so the handlers drop
/// such messages before any record is created.
pub struct Record {
    pub measurement: String,
    pub timestamp: i64,
    pub value: Option<WriteType>,
    pub tags: Vec<(String, String)>,
}

/// The mathematical model of a `Record`: its strings as character
/// sequences. Contracts about emitted records are stated over this type.
pub struct RecordView {
    pub measurement: Seq<char>,
    pub timestamp: i64,
    pub value: Option<WriteType>,
    pub tags: Seq<(Seq<char>, Seq<char>)>,
}

impl View for Record {
    type V = RecordView;

    open spec fn view(&self) -> RecordView {
        RecordView {
            measurement: self.measurement@,
            timestamp: self.timestamp,
            value: self.value,
            tags: self.tags.deep_view(),
        }
    }
}

impl DeepView for Record {
    type V = RecordView;

    open spec fn deep_view(&self) -> RecordView {
        self.view()
    }
}

/// The records of a buffered sequence, as their models.
pub open spec fn records_view(s: Seq<Record>) -> Seq<RecordView> {
    s.map_values(|r: Record| r.view())
}

} // verus!
