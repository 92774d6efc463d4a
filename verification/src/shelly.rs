use vstd::prelude::*;

use crate::json::{
    float_bits_of_i64, float_bits_of_u64, json_as_bool, json_as_float_bits, json_as_i64,
    json_from_slice, json_get, json_is_null, json_model, json_parse_spec, JsonVal,
};
use crate::queue::OutputQueue;
use crate::topic::{second_segment, spec_ends_with, spec_second_segment, str_ends_with};
use crate::{Message, Record, RecordView, WriteType};

verus! {

/// A payload shape that carries its own measurement timestamp somewhere
/// inside it. A message whose decoded payload yields no timestamp is
/// dropped whole: every field of one device sample shares one timestamp.
pub trait Timestamped {
    spec fn spec_timestamp(&self) -> Option<i64>;

    fn timestamp(&self) -> (r: Option<i64>)
        ensures
            r == self.spec_timestamp(),
    ;
}

/// A type that can be decoded from one JSON document. `Model` is the
/// mathematical image of the type; `from_json_spec` is the decoding
/// relation the executable decoder is proved against.
pub trait FromJson: Sized {
    type Model;

    spec fn model(&self) -> Self::Model;

    spec fn from_json_spec(j: JsonVal) -> Option<Self::Model>;

    fn from_json(v: &serde_json::Value) -> (r: Option<Self>)
        ensures
            match r {
                Some(d) => Self::from_json_spec(json_model(*v)) == Some(d.model()),
                None => Self::from_json_spec(json_model(*v)) is None,
            },
    ;
}

/// The float bits a JSON number decodes to, if the value is a number.
pub open spec fn spec_num_bits(j: JsonVal) -> Option<u64> {
    match j {
        JsonVal::Int(i) => Some(float_bits_of_i64(i)),
        JsonVal::UInt(u) => Some(float_bits_of_u64(u)),
        JsonVal::Float(b) => Some(b),
        _ => None,
    }
}

/// A required numeric field of a JSON object.
pub open spec fn spec_num_field(m: Map<Seq<char>, JsonVal>, key: Seq<char>) -> Option<u64> {
    if m.contains_key(key) {
        spec_num_bits(m[key])
    } else {
        None
    }
}

/// A required boolean field of a JSON object.
pub open spec fn spec_bool_field(m: Map<Seq<char>, JsonVal>, key: Seq<char>) -> Option<bool> {
    if m.contains_key(key) {
        match m[key] {
            JsonVal::Bool(b) => Some(b),
            _ => None,
        }
    } else {
        None
    }
}

/// An optional integer field: absent or null decodes to `None`, an
/// integer to its value, and anything else is a decode error.
pub open spec fn spec_opt_i64_field(m: Map<Seq<char>, JsonVal>, key: Seq<char>) -> Option<
    Option<i64>,
> {
    if m.contains_key(key) {
        match m[key] {
            JsonVal::Null => Some(None),
            JsonVal::Int(i) => Some(Some(i)),
            _ => None,
        }
    } else {
        Some(None)
    }
}

/// Reads a required numeric field of a JSON object value.
pub(crate) fn get_num_field(v: &serde_json::Value, key: &str) -> (r: Option<u64>)
    ensures
        r == match json_model(*v) {
            JsonVal::Obj(m) => spec_num_field(m, key@),
            _ => None::<u64>,
        },
{
    match json_get(v, key) {
        Some(x) => json_as_float_bits(x),
        None => None,
    }
}

/// Reads an optional integer field of a JSON object value; the outer
/// `None` is a decode error, the inner one an absent or null field.
fn get_opt_i64_field(v: &serde_json::Value, key: &str) -> (r: Option<Option<i64>>)
    ensures
        r == match json_model(*v) {
            JsonVal::Obj(m) => spec_opt_i64_field(m, key@),
            _ => Some(None::<i64>),
        },
{
    match json_get(v, key) {
        Some(x) => {
            if json_is_null(x) {
                Some(None)
            } else {
                match json_as_i64(x) {
                    Some(i) => Some(Some(i)),
                    None => None,
                }
            }
        },
        None => Some(None),
    }
}

/// The energy block of a switch or cover status: a total, and the minute
/// timestamp the whole sample is indexed by, when the device sent one.
pub struct EnergyData {
    pub total: u64,
    pub minute_ts: Option<i64>,
}

impl FromJson for EnergyData {
    type Model = EnergyData;

    open spec fn model(&self) -> EnergyData {
        *self
    }

    open spec fn from_json_spec(j: JsonVal) -> Option<EnergyData> {
        match j {
            JsonVal::Obj(m) => match (spec_num_field(m, "total"@), spec_opt_i64_field(
                m,
                "minute_ts"@,
            )) {
                (Some(total), Some(minute_ts)) => Some(EnergyData { total, minute_ts }),
                _ => None,
            },
            _ => None,
        }
    }

    fn from_json(v: &serde_json::Value) -> (r: Option<Self>)
        ensures
            match r {
                Some(d) => Self::from_json_spec(json_model(*v)) == Some(d.model()),
                None => Self::from_json_spec(json_model(*v)) is None,
            },
    {
        let total = match get_num_field(v, "total") {
            Some(t) => t,
            None => {
                return None;
            },
        };
        let minute_ts = match get_opt_i64_field(v, "minute_ts") {
            Some(ts) => ts,
            None => {
                return None;
            },
        };
        Some(EnergyData { total, minute_ts })
    }
}

/// The temperature block of a status payload, in degrees Celsius.
pub struct TemperatureData {
    pub t_celsius: u64,
}

impl FromJson for TemperatureData {
    type Model = TemperatureData;

    open spec fn model(&self) -> TemperatureData {
        *self
    }

    open spec fn from_json_spec(j: JsonVal) -> Option<TemperatureData> {
        match j {
            JsonVal::Obj(m) => match spec_num_field(m, "tC"@) {
                Some(t_celsius) => Some(TemperatureData { t_celsius }),
                _ => None,
            },
            _ => None,
        }
    }

    fn from_json(v: &serde_json::Value) -> (r: Option<Self>)
        ensures
            match r {
                Some(d) => Self::from_json_spec(json_model(*v)) == Some(d.model()),
                None => Self::from_json_spec(json_model(*v)) is None,
            },
    {
        let t_celsius = match get_num_field(v, "tC") {
            Some(t) => t,
            None => {
                return None;
            },
        };
        Some(TemperatureData { t_celsius })
    }
}

/// Decoded status of a switch device. Numeric readings are carried as
/// float bit patterns; the gateway never computes with them.
pub struct SwitchData {
    pub output: bool,
    pub power: u64,
    pub voltage: u64,
    pub current: u64,
    pub energy: EnergyData,
    pub temperature: TemperatureData,
}

impl FromJson for SwitchData {
    type Model = SwitchData;

    open spec fn model(&self) -> SwitchData {
        *self
    }

    open spec fn from_json_spec(j: JsonVal) -> Option<SwitchData> {
        match j {
            JsonVal::Obj(m) => match (
                spec_bool_field(m, "output"@),
                spec_num_field(m, "apower"@),
                spec_num_field(m, "voltage"@),
                spec_num_field(m, "current"@),
                spec_obj_sub::<EnergyData>(m, "aenergy"@),
                spec_obj_sub::<TemperatureData>(m, "temperature"@),
            ) {
                (
                    Some(output),
                    Some(power),
                    Some(voltage),
                    Some(current),
                    Some(energy),
                    Some(temperature),
                ) => Some(SwitchData { output, power, voltage, current, energy, temperature }),
                _ => None,
            },
            _ => None,
        }
    }

    fn from_json(v: &serde_json::Value) -> (r: Option<Self>)
        ensures
            match r {
                Some(d) => Self::from_json_spec(json_model(*v)) == Some(d.model()),
                None => Self::from_json_spec(json_model(*v)) is None,
            },
    {
        let output = match json_get(v, "output") {
            Some(x) => match json_as_bool(x) {
                Some(b) => b,
                None => {
                    return None;
                },
            },
            None => {
                return None;
            },
        };
        let power = match get_num_field(v, "apower") {
            Some(t) => t,
            None => {
                return None;
            },
        };
        let voltage = match get_num_field(v, "voltage") {
            Some(t) => t,
            None => {
                return None;
            },
        };
        let current = match get_num_field(v, "current") {
            Some(t) => t,
            None => {
                return None;
            },
        };
        let energy = match get_sub_field::<EnergyData>(v, "aenergy") {
            Some(t) => t,
            None => {
                return None;
            },
        };
        let temperature = match get_sub_field::<TemperatureData>(v, "temperature") {
            Some(t) => t,
            None => {
                return None;
            },
        };
        Some(SwitchData { output, power, voltage, current, energy, temperature })
    }
}

impl Timestamped for SwitchData {
    open spec fn spec_timestamp(&self) -> Option<i64> {
        self.energy.minute_ts
    }

    fn timestamp(&self) -> (r: Option<i64>)
        ensures
            r == self.spec_timestamp(),
    {
        self.energy.minute_ts
    }
}

/// Decoded status of a cover (curtain, blind) device. The position is
/// optional: a cover that has not been calibrated reports none.
pub struct CoverData {
    pub position: Option<i32>,
    pub power: u64,
    pub voltage: u64,
    pub current: u64,
    pub energy: EnergyData,
    pub temperature: TemperatureData,
}

/// An optional 32-bit integer field: absent or null decodes to `None`,
/// an integer in range to its value, anything else is a decode error.
pub open spec fn spec_opt_i32_field(m: Map<Seq<char>, JsonVal>, key: Seq<char>) -> Option<
    Option<i32>,
> {
    match spec_opt_i64_field(m, key) {
        Some(None) => Some(None),
        Some(Some(i)) => if i32::MIN <= i <= i32::MAX {
            Some(Some(i as i32))
        } else {
            None
        },
        None => None,
    }
}

impl FromJson for CoverData {
    type Model = CoverData;

    open spec fn model(&self) -> CoverData {
        *self
    }

    open spec fn from_json_spec(j: JsonVal) -> Option<CoverData> {
        match j {
            JsonVal::Obj(m) => match (
                spec_opt_i32_field(m, "current_pos"@),
                spec_num_field(m, "apower"@),
                spec_num_field(m, "voltage"@),
                spec_num_field(m, "current"@),
                spec_obj_sub::<EnergyData>(m, "aenergy"@),
                spec_obj_sub::<TemperatureData>(m, "temperature"@),
            ) {
                (
                    Some(position),
                    Some(power),
                    Some(voltage),
                    Some(current),
                    Some(energy),
                    Some(temperature),
                ) => Some(CoverData { position, power, voltage, current, energy, temperature }),
                _ => None,
            },
            _ => None,
        }
    }

    fn from_json(v: &serde_json::Value) -> (r: Option<Self>)
        ensures
            match r {
                Some(d) => Self::from_json_spec(json_model(*v)) == Some(d.model()),
                None => Self::from_json_spec(json_model(*v)) is None,
            },
    {
        let position = match get_opt_i64_field(v, "current_pos") {
            Some(None) => None,
            Some(Some(i)) => {
                if i32::MIN as i64 <= i && i <= i32::MAX as i64 {
                    Some(i as i32)
                } else {
                    return None;
                }
            },
            None => {
                return None;
            },
        };
        let power = match get_num_field(v, "apower") {
            Some(t) => t,
            None => {
                return None;
            },
        };
        let voltage = match get_num_field(v, "voltage") {
            Some(t) => t,
            None => {
                return None;
            },
        };
        let current = match get_num_field(v, "current") {
            Some(t) => t,
            None => {
                return None;
            },
        };
        let energy = match get_sub_field::<EnergyData>(v, "aenergy") {
            Some(t) => t,
            None => {
                return None;
            },
        };
        let temperature = match get_sub_field::<TemperatureData>(v, "temperature") {
            Some(t) => t,
            None => {
                return None;
            },
        };
        Some(CoverData { position, power, voltage, current, energy, temperature })
    }
}

impl Timestamped for CoverData {
    open spec fn spec_timestamp(&self) -> Option<i64> {
        self.energy.minute_ts
    }

    fn timestamp(&self) -> (r: Option<i64>)
        ensures
            r == self.spec_timestamp(),
    {
        self.energy.minute_ts
    }
}

/// A required sub-object field, decoded by the field type's own decoder.
pub open spec fn spec_obj_sub<T: FromJson>(m: Map<Seq<char>, JsonVal>, key: Seq<char>) -> Option<
    T::Model,
> {
    if m.contains_key(key) {
        T::from_json_spec(m[key])
    } else {
        None
    }
}

fn get_sub_field<T: FromJson>(v: &serde_json::Value, key: &str) -> (r: Option<T>)
    ensures
        match r {
            Some(d) => (match json_model(*v) {
                JsonVal::Obj(m) => spec_obj_sub::<T>(m, key@),
                _ => None::<T::Model>,
            }) == Some(d.model()),
            None => (match json_model(*v) {
                JsonVal::Obj(m) => spec_obj_sub::<T>(m, key@),
                _ => None::<T::Model>,
            }) is None,
        },
{
    match json_get(v, key) {
        Some(x) => T::from_json(x),
        None => None,
    }
}

/// What a payload decodes to, as the decoded type's model: None exactly
/// when the bytes are not well-formed JSON or the document does not have
/// the type's shape.
pub open spec fn spec_decoded<T: FromJson>(payload: Seq<u8>) -> Option<T::Model> {
    match json_parse_spec(payload) {
        Some(j) => T::from_json_spec(j),
        None => None,
    }
}

/// Decodes a message payload as one JSON document of shape `T`.
/// Returns the decode error exactly when the payload does not decode;
/// the message is then dropped by the caller, never retried.
pub fn parse<T: FromJson>(msg: &Message) -> (r: Result<Option<T>, &'static str>)
    ensures
        match r {
            Ok(opt) => match opt {
                Some(d) => spec_decoded::<T>(msg.payload@) == Some(d.model()),
                None => false,
            },
            Err(e) => spec_decoded::<T>(msg.payload@) is None && e@ == "could not deserialize JSON"@,
        },
{
    let v = match json_from_slice(msg.payload.as_slice()) {
        Some(v) => v,
        None => {
            return Err("could not deserialize JSON");
        },
    };
    match T::from_json(&v) {
        Some(d) => Ok(Some(d)),
        None => Err("could not deserialize JSON"),
    }
}

/// The record for one measurement of a device sample, tagged with the
/// device location, the sensor family, the device type and the unit.
pub open spec fn spec_tagged(
    measurement: Seq<char>,
    ts: i64,
    value: Option<WriteType>,
    loc: Seq<char>,
    unit: Seq<char>,
) -> RecordView {
    RecordView {
        measurement,
        timestamp: ts,
        value,
        tags: seq![
            ("location"@, loc),
            ("sensor"@, "shelly"@),
            ("type"@, "switch"@),
            ("unit"@, unit),
        ],
    }
}

fn tagged(measurement: &str, ts: i64, value: Option<WriteType>, location: &str, unit: &str) -> (r:
    Record)
    ensures
        r@ == spec_tagged(measurement@, ts, value, location@, unit@),
{
    let mut tags: Vec<(String, String)> = Vec::new();
    tags.push(("location".to_owned(), location.to_owned()));
    tags.push(("sensor".to_owned(), "shelly".to_owned()));
    tags.push(("type".to_owned(), "switch".to_owned()));
    tags.push(("unit".to_owned(), unit.to_owned()));
    let r = Record { measurement: measurement.to_owned(), timestamp: ts, value, tags };
    proof {
        assert(r@.tags =~= spec_tagged(measurement@, ts, value, location@, unit@).tags);
    }
    r
}

/// One shelly payload variant: a fixed list of measurements is read off
/// the decoded shape, in a fixed order.
pub trait ShellyVariant: FromJson + Timestamped {
    /// The timestamp carried inside the decoded shape.
    spec fn model_timestamp(m: Self::Model) -> Option<i64>;

    /// The records one decoded sample yields, in emission order.
    spec fn spec_records(m: Self::Model, loc: Seq<char>, ts: i64) -> Seq<RecordView>;

    proof fn timestamp_agrees(&self)
        ensures
            Self::model_timestamp(self.model()) == self.spec_timestamp(),
    ;

    fn records(&self, location: &str, ts: i64) -> (r: Vec<Record>)
        ensures
            r.deep_view() == Self::spec_records(self.model(), location@, ts),
    ;
}

impl ShellyVariant for SwitchData {
    open spec fn model_timestamp(m: SwitchData) -> Option<i64> {
        m.energy.minute_ts
    }

    open spec fn spec_records(m: SwitchData, loc: Seq<char>, ts: i64) -> Seq<RecordView> {
        seq![
            spec_tagged(
                "output"@,
                ts,
                Some(WriteType::Int(if m.output { 1 } else { 0 })),
                loc,
                "bool"@,
            ),
            spec_tagged("power"@, ts, Some(WriteType::Float(m.power)), loc, "W"@),
            spec_tagged("current"@, ts, Some(WriteType::Float(m.current)), loc, "A"@),
            spec_tagged("voltage"@, ts, Some(WriteType::Float(m.voltage)), loc, "V"@),
            spec_tagged("total_energy"@, ts, Some(WriteType::Float(m.energy.total)), loc, "Wh"@),
            spec_tagged(
                "temperature"@,
                ts,
                Some(WriteType::Float(m.temperature.t_celsius)),
                loc,
                "°C"@,
            ),
        ]
    }

    proof fn timestamp_agrees(&self) {
    }

    fn records(&self, location: &str, ts: i64) -> (r: Vec<Record>)
        ensures
            r.deep_view() == Self::spec_records(self.model(), location@, ts),
    {
        let mut r: Vec<Record> = Vec::new();
        let value: i32 = if self.output {
            1
        } else {
            0
        };
        r.push(tagged("output", ts, Some(WriteType::Int(value)), location, "bool"));
        r.push(tagged("power", ts, Some(WriteType::Float(self.power)), location, "W"));
        r.push(tagged("current", ts, Some(WriteType::Float(self.current)), location, "A"));
        r.push(tagged("voltage", ts, Some(WriteType::Float(self.voltage)), location, "V"));
        r.push(tagged("total_energy", ts, Some(WriteType::Float(self.energy.total)), location, "Wh"));
        r.push(
            tagged(
                "temperature",
                ts,
                Some(WriteType::Float(self.temperature.t_celsius)),
                location,
                "°C",
            ),
        );
        proof {
            assert(r.deep_view() =~= Self::spec_records(self.model(), location@, ts));
        }
        r
    }
}

impl ShellyVariant for CoverData {
    open spec fn model_timestamp(m: CoverData) -> Option<i64> {
        m.energy.minute_ts
    }

    open spec fn spec_records(m: CoverData, loc: Seq<char>, ts: i64) -> Seq<RecordView> {
        seq![
            spec_tagged(
                "position"@,
                ts,
                match m.position {
                    Some(p) => Some(WriteType::Int(p)),
                    None => None,
                },
                loc,
                "%"@,
            ),
            spec_tagged("power"@, ts, Some(WriteType::Float(m.power)), loc, "W"@),
            spec_tagged("current"@, ts, Some(WriteType::Float(m.current)), loc, "A"@),
            spec_tagged("voltage"@, ts, Some(WriteType::Float(m.voltage)), loc, "V"@),
            spec_tagged("total_energy"@, ts, Some(WriteType::Float(m.energy.total)), loc, "Wh"@),
            spec_tagged(
                "temperature"@,
                ts,
                Some(WriteType::Float(m.temperature.t_celsius)),
                loc,
                "°C"@,
            ),
        ]
    }

    proof fn timestamp_agrees(&self) {
    }

    fn records(&self, location: &str, ts: i64) -> (r: Vec<Record>)
        ensures
            r.deep_view() == Self::spec_records(self.model(), location@, ts),
    {
        let mut r: Vec<Record> = Vec::new();
        let value: Option<WriteType> = match self.position {
            Some(p) => Some(WriteType::Int(p)),
            None => None,
        };
        r.push(tagged("position", ts, value, location, "%"));
        r.push(tagged("power", ts, Some(WriteType::Float(self.power)), location, "W"));
        r.push(tagged("current", ts, Some(WriteType::Float(self.current)), location, "A"));
        r.push(tagged("voltage", ts, Some(WriteType::Float(self.voltage)), location, "V"));
        r.push(tagged("total_energy", ts, Some(WriteType::Float(self.energy.total)), location, "Wh"));
        r.push(
            tagged(
                "temperature",
                ts,
                Some(WriteType::Float(self.temperature.t_celsius)),
                location,
                "°C",
            ),
        );
        proof {
            assert(r.deep_view() =~= Self::spec_records(self.model(), location@, ts));
        }
        r
    }
}

/// The records one message yields through a variant's handler: zero when
/// the payload does not decode, when the topic carries no location
/// segment, or when the decoded sample has no timestamp; otherwise the
/// variant's fixed measurement list.
pub open spec fn spec_handled<T: ShellyVariant>(topic: Seq<char>, payload: Seq<u8>) -> Seq<
    RecordView,
> {
    match spec_decoded::<T>(payload) {
        None => Seq::empty(),
        Some(m) => match spec_second_segment(topic) {
            None => Seq::empty(),
            Some(loc) => match T::model_timestamp(m) {
                None => Seq::empty(),
                Some(ts) => T::spec_records(m, loc, ts),
            },
        },
    }
}

/// Decodes one message through a variant and builds its records. A
/// malformed payload or a missing timestamp yields zero records and is
/// never an error: the message is dropped and the loop goes on.
pub fn handle_message<T: ShellyVariant>(msg: &Message) -> (r: Vec<Record>)
    ensures
        r.deep_view() == spec_handled::<T>(msg.topic@, msg.payload@),
{
    let empty: Vec<Record> = Vec::new();
    proof {
        assert(empty.deep_view() =~= Seq::<RecordView>::empty());
    }
    let data: T = match parse::<T>(msg) {
        Ok(opt) => match opt {
            Some(d) => d,
            None => {
                return empty;
            },
        },
        Err(_) => {
            return empty;
        },
    };
    let location = match second_segment(msg.topic.as_str()) {
        Some(l) => l,
        None => {
            return empty;
        },
    };
    proof {
        data.timestamp_agrees();
    }
    let ts = match data.timestamp() {
        Some(t) => t,
        None => {
            return empty;
        },
    };
    data.records(location, ts)
}

/// How many of `n` offered items a queue accepts: none when it is
/// closed, all when there is room, and exactly the free space otherwise.
pub open spec fn spec_accept_n(closed: bool, cap: int, len: int, n: int) -> int {
    if closed {
        0
    } else if n <= cap - len {
        n
    } else {
        cap - len
    }
}

/// The records one message yields through the shelly handler, by the
/// topic's status suffix.
pub open spec fn spec_shelly_emitted(topic: Seq<char>, payload: Seq<u8>) -> Seq<RecordView> {
    if spec_ends_with(topic, "/status/switch:0"@) {
        spec_handled::<SwitchData>(topic, payload)
    } else if spec_ends_with(topic, "/status/cover:0"@) {
        spec_handled::<CoverData>(topic, payload)
    } else {
        Seq::empty()
    }
}

/// The records one message yields through the shelly handler: switch
/// and cover status topics are decoded, anything else yields nothing.
pub fn shelly_records(msg: &Message) -> (r: Vec<Record>)
    ensures
        r.deep_view() == spec_shelly_emitted(msg.topic@, msg.payload@),
{
    if str_ends_with(msg.topic.as_str(), "/status/switch:0") {
        handle_message::<SwitchData>(msg)
    } else if str_ends_with(msg.topic.as_str(), "/status/cover:0") {
        handle_message::<CoverData>(msg)
    } else {
        let empty: Vec<Record> = Vec::new();
        proof {
            assert(empty.deep_view() =~= Seq::<RecordView>::empty());
        }
        empty
    }
}

/// The handler bound to a shelly topic prefix. It decodes switch and
/// cover status messages and enqueues their records onto the output
/// queue of its persistence target.
pub struct ShellyLogger {}

impl ShellyLogger {
    pub fn new() -> ShellyLogger {
        ShellyLogger {  }
    }

    /// Handles one message: decodes it if its topic names a supported
    /// status, and enqueues the resulting records in emission order.
    /// Records the queue had no room for are handed back in order, so
    /// the caller can apply backpressure rather than lose them.
    pub fn check_message(&self, msg: &Message, q: &mut OutputQueue<Record>) -> (rejected: Vec<
        Record,
    >)
        requires
            old(q).wf(),
        ensures
            final(q).wf(),
            final(q).cap() == old(q).cap(),
            final(q).is_closed() == old(q).is_closed(),
            ({
                let emitted = spec_shelly_emitted(msg.topic@, msg.payload@);
                let k = spec_accept_n(
                    old(q).is_closed(),
                    old(q).cap(),
                    old(q).items().len() as int,
                    emitted.len() as int,
                );
                &&& crate::records_view(final(q).items()) == crate::records_view(old(q).items())
                    + emitted.take(k)
                &&& rejected.deep_view() == emitted.skip(k)
            }),
    {
        let recs: Vec<Record> = shelly_records(msg);
        let ghost emitted = spec_shelly_emitted(msg.topic@, msg.payload@);
        proof {
            assert(recs.deep_view() =~= emitted);
        }
        let ghost k = old(q).accept_count(recs@);
        let rejected = q.send_all(recs);
        proof {
            assert(k == spec_accept_n(
                old(q).is_closed(),
                old(q).cap(),
                old(q).items().len() as int,
                emitted.len() as int,
            ));
            assert(crate::records_view(final(q).items()) =~= crate::records_view(old(q).items())
                + emitted.take(k));
            assert(rejected.deep_view() =~= emitted.skip(k));
        }
        rejected
    }
}

} // verus!

verus! {

/// The JSON document one energy block re-encodes to. The minute
/// timestamp is written only when the sample carried one.
pub open spec fn spec_energy_json(e: EnergyData) -> JsonVal {
    match e.minute_ts {
        Some(ts) => JsonVal::Obj(
            map!["total"@ => JsonVal::Float(e.total), "minute_ts"@ => JsonVal::Int(ts)],
        ),
        None => JsonVal::Obj(map!["total"@ => JsonVal::Float(e.total)]),
    }
}

/// The JSON document one temperature block re-encodes to.
pub open spec fn spec_temperature_json(t: TemperatureData) -> JsonVal {
    JsonVal::Obj(map!["tC"@ => JsonVal::Float(t.t_celsius)])
}

/// The JSON document one switch status re-encodes to, under the wire
/// names of its fields (`apower` for power, `aenergy` for energy).
pub open spec fn spec_switch_json(d: SwitchData) -> JsonVal {
    JsonVal::Obj(
        map![
            "output"@ => JsonVal::Bool(d.output),
            "apower"@ => JsonVal::Float(d.power),
            "voltage"@ => JsonVal::Float(d.voltage),
            "current"@ => JsonVal::Float(d.current),
            "aenergy"@ => spec_energy_json(d.energy),
            "temperature"@ => spec_temperature_json(d.temperature),
        ],
    )
}

/// The JSON document one cover status re-encodes to; the position is
/// written under its wire name `current_pos`, and only when present.
pub open spec fn spec_cover_json(d: CoverData) -> JsonVal {
    JsonVal::Obj(
        {
            let base = map![
                "apower"@ => JsonVal::Float(d.power),
                "voltage"@ => JsonVal::Float(d.voltage),
                "current"@ => JsonVal::Float(d.current),
                "aenergy"@ => spec_energy_json(d.energy),
                "temperature"@ => spec_temperature_json(d.temperature),
            ];
            match d.position {
                Some(p) => base.insert("current_pos"@, JsonVal::Int(p as i64)),
                None => base,
            }
        },
    )
}

/// Round trip: decoding the re-encoding of an energy block gives the
/// block back, every field preserved.
pub proof fn lemma_energy_round_trip(e: EnergyData)
    ensures
        EnergyData::from_json_spec(spec_energy_json(e)) == Some(e),
{
    reveal_strlit("total");
    reveal_strlit("minute_ts");
    assert("total"@.len() == 5);
    assert("minute_ts"@.len() == 9);
}

/// Round trip: decoding the re-encoding of a temperature block gives
/// the block back.
pub proof fn lemma_temperature_round_trip(t: TemperatureData)
    ensures
        TemperatureData::from_json_spec(spec_temperature_json(t)) == Some(t),
{
    reveal_strlit("tC");
}

/// Round trip: every switch status decoded from the wire re-encodes to
/// a document that decodes to the same status — every field is
/// preserved, under the wire names the decoder reads.
pub proof fn lemma_switch_round_trip(d: SwitchData)
    ensures
        SwitchData::from_json_spec(spec_switch_json(d)) == Some(d),
{
    lemma_energy_round_trip(d.energy);
    lemma_temperature_round_trip(d.temperature);
    reveal_strlit("output");
    reveal_strlit("apower");
    reveal_strlit("voltage");
    reveal_strlit("current");
    reveal_strlit("aenergy");
    reveal_strlit("temperature");
    assert("output"@[0] == 'o' && "apower"@[0] == 'a');
    assert("voltage"@[0] == 'v' && "current"@[0] == 'c' && "aenergy"@[0] == 'a');
    assert("output"@.len() == 6 && "apower"@.len() == 6);
    assert("voltage"@.len() == 7 && "current"@.len() == 7 && "aenergy"@.len() == 7);
    assert("temperature"@.len() == 11);
}

/// Round trip: every cover status decoded from the wire re-encodes to a
/// document that decodes to the same status, the optional position
/// included — present exactly when the status carried one.
pub proof fn lemma_cover_round_trip(d: CoverData)
    ensures
        CoverData::from_json_spec(spec_cover_json(d)) == Some(d),
{
    lemma_energy_round_trip(d.energy);
    lemma_temperature_round_trip(d.temperature);
    reveal_strlit("current_pos");
    reveal_strlit("apower");
    reveal_strlit("voltage");
    reveal_strlit("current");
    reveal_strlit("aenergy");
    reveal_strlit("temperature");
    assert("voltage"@[0] == 'v' && "current"@[0] == 'c' && "aenergy"@[0] == 'a');
    assert("current_pos"@[0] == 'c' && "temperature"@[0] == 't');
    assert("apower"@.len() == 6);
    assert("voltage"@.len() == 7 && "current"@.len() == 7 && "aenergy"@.len() == 7);
    assert("current_pos"@.len() == 11 && "temperature"@.len() == 11);
}

} // verus!
