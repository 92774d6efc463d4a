use vstd::prelude::*;

use crate::json::{json_as_str, json_model, JsonVal};
use crate::queue::OutputQueue;
use crate::shelly::{
    spec_bool_field, spec_decoded, spec_num_field, FromJson,
};
use crate::topic::{
    second_segment, spec_second_segment, spec_third_segment, third_segment,
};
use crate::Message;

verus! {

/// One climate-sensor sample as the device publishes it: a measurement
/// value with its unit, the reporting sensor, whether the value was
/// computed rather than measured, and the sample's own timestamp.
pub struct Data {
    pub timestamp: i32,
    pub value: u64,
    pub unit: String,
    pub sensor: String,
    pub calculated: bool,
}

/// The mathematical model of `Data`: its strings as character sequences.
pub struct DataModel {
    pub timestamp: i32,
    pub value: u64,
    pub unit: Seq<char>,
    pub sensor: Seq<char>,
    pub calculated: bool,
}

/// A required integer field that must fit in 32 bits; an integer out of
/// range is a decode error, exactly as a too-large timestamp is.
pub open spec fn spec_i32_field(m: Map<Seq<char>, JsonVal>, key: Seq<char>) -> Option<i32> {
    if m.contains_key(key) {
        match m[key] {
            JsonVal::Int(i) => if i32::MIN <= i <= i32::MAX {
                Some(i as i32)
            } else {
                None
            },
            _ => None,
        }
    } else {
        None
    }
}

/// A required string field of a JSON object.
pub open spec fn spec_str_field(m: Map<Seq<char>, JsonVal>, key: Seq<char>) -> Option<Seq<char>> {
    if m.contains_key(key) {
        match m[key] {
            JsonVal::Str(s) => Some(s),
            _ => None,
        }
    } else {
        None
    }
}

fn get_i32_field(v: &serde_json::Value, key: &str) -> (r: Option<i32>)
    ensures
        r == match json_model(*v) {
            JsonVal::Obj(m) => spec_i32_field(m, key@),
            _ => None::<i32>,
        },
{
    match crate::json::json_get(v, key) {
        Some(x) => match crate::json::json_as_i64(x) {
            Some(i) => {
                if i32::MIN as i64 <= i && i <= i32::MAX as i64 {
                    Some(i as i32)
                } else {
                    None
                }
            },
            None => None,
        },
        None => None,
    }
}

fn get_str_field(v: &serde_json::Value, key: &str) -> (r: Option<String>)
    ensures
        match json_model(*v) {
            JsonVal::Obj(m) => match r {
                Some(s) => spec_str_field(m, key@) == Some(s@),
                None => spec_str_field(m, key@) is None,
            },
            _ => r is None,
        },
{
    match crate::json::json_get(v, key) {
        Some(x) => match json_as_str(x) {
            Some(s) => Some(s.to_owned()),
            None => None,
        },
        None => None,
    }
}

impl FromJson for Data {
    type Model = DataModel;

    open spec fn model(&self) -> DataModel {
        DataModel {
            timestamp: self.timestamp,
            value: self.value,
            unit: self.unit@,
            sensor: self.sensor@,
            calculated: self.calculated,
        }
    }

    open spec fn from_json_spec(j: JsonVal) -> Option<DataModel> {
        match j {
            JsonVal::Obj(m) => match (
                spec_i32_field(m, "time"@),
                spec_num_field(m, "value"@),
                spec_str_field(m, "unit"@),
                spec_str_field(m, "sensor"@),
                spec_bool_field(m, "calculated"@),
            ) {
                (Some(timestamp), Some(value), Some(unit), Some(sensor), Some(calculated)) => Some(
                    DataModel { timestamp, value, unit, sensor, calculated },
                ),
                _ => None,
            },
            _ => None,
        }
    }

    fn from_json(v: &serde_json::Value) -> (r: Option<Self>)
        ensures
            match r {
                Some(d) => Self::from_json_spec(json_model(*v)) == Some(d.model()),
                None => Self::from_json_spec(json_model(*v)) is None,
            },
    {
        let timestamp = match get_i32_field(v, "time") {
            Some(t) => t,
            None => {
                return None;
            },
        };
        let value = match crate::shelly::get_num_field(v, "value") {
            Some(t) => t,
            None => {
                return None;
            },
        };
        let unit = match get_str_field(v, "unit") {
            Some(t) => t,
            None => {
                return None;
            },
        };
        let sensor = match get_str_field(v, "sensor") {
            Some(t) => t,
            None => {
                return None;
            },
        };
        let calculated = match crate::json::json_get(v, "calculated") {
            Some(x) => match crate::json::json_as_bool(x) {
                Some(b) => b,
                None => {
                    return None;
                },
            },
            None => {
                return None;
            },
        };
        Some(Data { timestamp, value, unit, sensor, calculated })
    }
}

/// Decodes a climate-sensor payload. Returns the decode error exactly
/// when the payload is not a well-formed sample; the message is then
/// dropped by the caller, never retried.
pub fn parse(msg: &Message) -> (r: Result<Option<Data>, &'static str>)
    ensures
        match r {
            Ok(opt) => match opt {
                Some(d) => spec_decoded::<Data>(msg.payload@) == Some(d.model()),
                None => false,
            },
            Err(e) => spec_decoded::<Data>(msg.payload@) is None && e@
                == "could not deserialize JSON"@,
        },
{
    crate::shelly::parse::<Data>(msg)
}

/// One reading on its way to the persistence targets of the sensor
/// source: the decoded sample joined with the topic's location and
/// measurement segments.
pub struct SensorReading {
    pub measurement: String,
    pub time: i64,
    pub location: String,
    pub sensor: String,
    pub value: u64,
    pub unit: String,
    pub calculated: bool,
}

/// The mathematical model of a `SensorReading`.
pub struct SensorReadingView {
    pub measurement: Seq<char>,
    pub time: i64,
    pub location: Seq<char>,
    pub sensor: Seq<char>,
    pub value: u64,
    pub unit: Seq<char>,
    pub calculated: bool,
}

impl View for SensorReading {
    type V = SensorReadingView;

    open spec fn view(&self) -> SensorReadingView {
        SensorReadingView {
            measurement: self.measurement@,
            time: self.time,
            location: self.location@,
            sensor: self.sensor@,
            value: self.value,
            unit: self.unit@,
            calculated: self.calculated,
        }
    }
}

impl Clone for SensorReading {
    fn clone(&self) -> (r: Self)
        ensures
            r == *self,
    {
        SensorReading {
            measurement: self.measurement.clone(),
            time: self.time,
            location: self.location.clone(),
            sensor: self.sensor.clone(),
            value: self.value,
            unit: self.unit.clone(),
            calculated: self.calculated,
        }
    }
}

/// The readings of a buffered sequence, as their models.
pub open spec fn readings_view(s: Seq<SensorReading>) -> Seq<SensorReadingView> {
    s.map_values(|r: SensorReading| r.view())
}

/// The reading one sensor message yields: none when the payload does not
/// decode or the topic lacks its location or measurement segment. The
/// sample's own timestamp is a required field, so a sample without one
/// never decodes (no partial emission).
pub open spec fn spec_sensor_reading(topic: Seq<char>, payload: Seq<u8>) -> Option<
    SensorReadingView,
> {
    match spec_decoded::<Data>(payload) {
        None => None,
        Some(d) => match spec_second_segment(topic) {
            None => None,
            Some(loc) => match spec_third_segment(topic) {
                None => None,
                Some(meas) => Some(
                    SensorReadingView {
                        measurement: meas,
                        time: d.timestamp as i64,
                        location: loc,
                        sensor: d.sensor,
                        value: d.value,
                        unit: d.unit,
                        calculated: d.calculated,
                    },
                ),
            },
        },
    }
}

/// Decodes one sensor message and joins it with its topic segments.
pub fn sensor_reading(msg: &Message) -> (r: Option<SensorReading>)
    ensures
        match r {
            Some(reading) => spec_sensor_reading(msg.topic@, msg.payload@) == Some(reading@),
            None => spec_sensor_reading(msg.topic@, msg.payload@) is None,
        },
{
    let data: Data = match parse(msg) {
        Ok(opt) => match opt {
            Some(d) => d,
            None => {
                return None;
            },
        },
        Err(_) => {
            return None;
        },
    };
    let location = match second_segment(msg.topic.as_str()) {
        Some(l) => l.to_owned(),
        None => {
            return None;
        },
    };
    let measurement = match third_segment(msg.topic.as_str()) {
        Some(m) => m.to_owned(),
        None => {
            return None;
        },
    };
    Some(
        SensorReading {
            measurement,
            time: data.timestamp as i64,
            location,
            sensor: data.sensor,
            value: data.value,
            unit: data.unit,
            calculated: data.calculated,
        },
    )
}

/// How one queue changes when a reading is offered to it: appended when
/// the queue is open and has room, untouched otherwise.
pub open spec fn offer_post(
    q0: OutputQueue<SensorReading>,
    q1: OutputQueue<SensorReading>,
    r: SensorReadingView,
) -> bool {
    &&& q1.wf()
    &&& q1.cap() == q0.cap()
    &&& q1.is_closed() == q0.is_closed()
    &&& if !q0.is_closed() && q0.items().len() < q0.cap() {
        readings_view(q1.items()) == readings_view(q0.items()).push(r)
    } else {
        q1.items() == q0.items()
    }
}

/// Offers one reading to every target queue. Returns how many queues
/// accepted it; a full or closed queue is left untouched and the caller
/// decides whether to retry (the blocking loop lives at the transport
/// edge, which owns real channels).
pub fn fan_out(queues: &mut Vec<OutputQueue<SensorReading>>, r: &SensorReading) -> (delivered:
    usize)
    requires
        forall|i: int| 0 <= i < old(queues).len() ==> old(queues)[i].wf(),
    ensures
        final(queues).len() == old(queues).len(),
        delivered <= old(queues).len(),
        forall|i: int|
            0 <= i < old(queues).len() ==> offer_post(old(queues)[i], final(queues)[i], r@),
{
    let n = queues.len();
    let mut i: usize = 0;
    let mut delivered: usize = 0;
    while i < n
        invariant
            0 <= i <= n,
            n == queues.len(),
            n == old(queues).len(),
            delivered <= i,
            forall|j: int| 0 <= j < n ==> old(queues)[j].wf(),
            forall|j: int| 0 <= j < i ==> offer_post(old(queues)[j], queues[j], r@),
            forall|j: int| i <= j < n ==> queues[j] == old(queues)[j],
        decreases n - i,
    {
        let ghost qs0 = queues@;
        let mut q = queues.remove(i);
        proof {
            assert(old(queues)[i as int].wf());
            assert(q == qs0[i as int]);
            assert(qs0[i as int] == old(queues)[i as int]);
        }
        let accepted = match q.try_send(r.clone()) {
            Ok(()) => true,
            Err(_) => false,
        };
        if accepted {
            delivered = delivered + 1;
        }
        queues.insert(i, q);
        proof {
            assert(queues@ =~= qs0.update(i as int, q));
            let q0 = qs0[i as int];
            if !q0.is_closed() && q0.items().len() < q0.cap() {
                assert(readings_view(q.items()) =~= readings_view(q0.items()).push(r@));
            }
        }
        i = i + 1;
    }
    delivered
}

/// The handler bound to a climate-sensor topic prefix. One decoded
/// reading is fanned out to every configured persistence target.
pub struct SensorLogger {}

impl SensorLogger {
    pub fn new() -> SensorLogger {
        SensorLogger {  }
    }

    /// Handles one message: decodes it and offers the reading to every
    /// target queue. A payload that does not decode, or a topic without
    /// its location and measurement segments, yields no reading and
    /// leaves every queue untouched.
    pub fn check_message(
        &self,
        msg: &Message,
        queues: &mut Vec<OutputQueue<SensorReading>>,
    ) -> (delivered: usize)
        requires
            forall|i: int| 0 <= i < old(queues).len() ==> old(queues)[i].wf(),
        ensures
            final(queues).len() == old(queues).len(),
            match spec_sensor_reading(msg.topic@, msg.payload@) {
                Some(rv) => forall|i: int|
                    0 <= i < old(queues).len() ==> offer_post(
                        old(queues)[i],
                        final(queues)[i],
                        rv,
                    ),
                None => final(queues)@ == old(queues)@ && delivered == 0,
            },
    {
        match sensor_reading(msg) {
            Some(reading) => fan_out(queues, &reading),
            None => 0,
        }
    }
}

} // verus!

verus! {

/// The JSON document one sensor sample re-encodes to, under the wire
/// name `time` for its timestamp.
pub open spec fn spec_data_json(m: DataModel) -> JsonVal {
    JsonVal::Obj(
        map![
            "time"@ => JsonVal::Int(m.timestamp as i64),
            "value"@ => JsonVal::Float(m.value),
            "unit"@ => JsonVal::Str(m.unit),
            "sensor"@ => JsonVal::Str(m.sensor),
            "calculated"@ => JsonVal::Bool(m.calculated),
        ],
    )
}

/// Round trip: every sensor sample decoded from the wire re-encodes to
/// a document that decodes to the same sample, every field preserved.
pub proof fn lemma_data_round_trip(m: DataModel)
    ensures
        Data::from_json_spec(spec_data_json(m)) == Some(m),
{
    reveal_strlit("time");
    reveal_strlit("value");
    reveal_strlit("unit");
    reveal_strlit("sensor");
    reveal_strlit("calculated");
    assert("time"@[0] == 't' && "unit"@[0] == 'u');
    assert("time"@.len() == 4 && "unit"@.len() == 4);
    assert("value"@.len() == 5 && "sensor"@.len() == 6 && "calculated"@.len() == 10);
}

} // verus!
