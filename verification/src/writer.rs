use vstd::prelude::*;

use crate::klimalogger::{SensorReading, SensorReadingView};
use crate::{Record, RecordView, WriteType};

verus! {

/// Where one writer worker stands: establishing its backend connection,
/// writing records, draining a closed queue, or done.
#[derive(Clone, Copy, PartialEq, Eq, Structural, Debug)]
pub enum WriterState {
    Connecting,
    Ready,
    Draining,
    Closed,
}

/// What the worker's edge observed: the backend connection outcome, one
/// receive on its queue, or one write outcome.
#[derive(Clone, Copy, PartialEq, Eq, Structural, Debug)]
pub enum WriterEvent {
    Connected,
    ConnectFailed,
    RecvRecord,
    RecvDisconnected,
    WriteOk,
    WriteFailed,
    BackendLost,
    ShutdownSignaled,
}

/// What the worker must do next.
#[derive(Clone, Copy, PartialEq, Eq, Structural, Debug)]
pub enum WriterAction {
    /// Retry establishing the backend connection.
    AwaitBackend,
    /// Block on the next queue item.
    Receive,
    /// Issue the received record as one synchronous backend write.
    Write,
    /// Log the failed record with its measurement name, drop it — never
    /// requeue it — and go on receiving.
    DiscardAndContinue,
    /// Re-establish the backend connection once, then resume.
    Reconnect,
    /// The queue is drained and closed: log and exit, so the owning
    /// thread joins during shutdown.
    Exit,
    /// The event does not apply in this state.
    Ignore,
}

/// The worker's monotonic success and failure counts.
#[derive(Clone, Copy, PartialEq, Eq, Structural, Debug)]
pub struct WriterStats {
    pub ok: u64,
    pub failed: u64,
}

/// A count that grows by one until it saturates.
pub open spec fn spec_count_up(x: u64) -> u64 {
    if x < u64::MAX {
        (x + 1) as u64
    } else {
        x
    }
}

/// The writer worker's transition function. A single bad write never
/// stops the worker, and a record is consumed exactly once: a write
/// failure discards it rather than requeueing it.
pub open spec fn spec_writer_step(s: WriterState, ev: WriterEvent) -> (WriterState, WriterAction) {
    match (s, ev) {
        (WriterState::Connecting, WriterEvent::Connected) => (WriterState::Ready, WriterAction::Receive),
        (WriterState::Connecting, WriterEvent::ConnectFailed) => (
            WriterState::Connecting,
            WriterAction::AwaitBackend,
        ),
        (WriterState::Ready, WriterEvent::RecvRecord) => (WriterState::Ready, WriterAction::Write),
        (WriterState::Ready, WriterEvent::RecvDisconnected) => (
            WriterState::Closed,
            WriterAction::Exit,
        ),
        (WriterState::Ready, WriterEvent::WriteOk) => (WriterState::Ready, WriterAction::Receive),
        (WriterState::Ready, WriterEvent::WriteFailed) => (
            WriterState::Ready,
            WriterAction::DiscardAndContinue,
        ),
        (WriterState::Ready, WriterEvent::BackendLost) => (
            WriterState::Connecting,
            WriterAction::Reconnect,
        ),
        (WriterState::Ready, WriterEvent::ShutdownSignaled) => (
            WriterState::Draining,
            WriterAction::Receive,
        ),
        (WriterState::Draining, WriterEvent::RecvRecord) => (
            WriterState::Draining,
            WriterAction::Write,
        ),
        (WriterState::Draining, WriterEvent::WriteOk) => (
            WriterState::Draining,
            WriterAction::Receive,
        ),
        (WriterState::Draining, WriterEvent::WriteFailed) => (
            WriterState::Draining,
            WriterAction::DiscardAndContinue,
        ),
        (WriterState::Draining, WriterEvent::RecvDisconnected) => (
            WriterState::Closed,
            WriterAction::Exit,
        ),
        (any, _) => (any, WriterAction::Ignore),
    }
}

/// How the worker's counters move on one event.
pub open spec fn spec_stats_step(s: WriterState, ev: WriterEvent, st: WriterStats) -> WriterStats {
    match (s, ev) {
        (WriterState::Ready, WriterEvent::WriteOk) => WriterStats {
            ok: spec_count_up(st.ok),
            ..st
        },
        (WriterState::Draining, WriterEvent::WriteOk) => WriterStats {
            ok: spec_count_up(st.ok),
            ..st
        },
        (WriterState::Ready, WriterEvent::WriteFailed) => WriterStats {
            failed: spec_count_up(st.failed),
            ..st
        },
        (WriterState::Draining, WriterEvent::WriteFailed) => WriterStats {
            failed: spec_count_up(st.failed),
            ..st
        },
        _ => st,
    }
}

/// One step of the writer worker: from its state and an observed event
/// to the next state, the action its edge must perform, and the updated
/// counters.
pub fn writer_step(s: WriterState, ev: WriterEvent, stats: WriterStats) -> (r: (
    WriterState,
    WriterAction,
    WriterStats,
))
    ensures
        (r.0, r.1) == spec_writer_step(s, ev),
        r.2 == spec_stats_step(s, ev, stats),
        s is Closed ==> r.0 is Closed,
        (s is Ready || s is Draining) && ev is RecvDisconnected ==> r.0 is Closed && r.1 is Exit,
        stats.ok <= r.2.ok && stats.failed <= r.2.failed,
        ev is WriteFailed ==> !(r.1 is Write),
{
    let next = match (s, ev) {
        (WriterState::Connecting, WriterEvent::Connected) => (WriterState::Ready, WriterAction::Receive),
        (WriterState::Connecting, WriterEvent::ConnectFailed) => (
            WriterState::Connecting,
            WriterAction::AwaitBackend,
        ),
        (WriterState::Ready, WriterEvent::RecvRecord) => (WriterState::Ready, WriterAction::Write),
        (WriterState::Ready, WriterEvent::RecvDisconnected) => (
            WriterState::Closed,
            WriterAction::Exit,
        ),
        (WriterState::Ready, WriterEvent::WriteOk) => (WriterState::Ready, WriterAction::Receive),
        (WriterState::Ready, WriterEvent::WriteFailed) => (
            WriterState::Ready,
            WriterAction::DiscardAndContinue,
        ),
        (WriterState::Ready, WriterEvent::BackendLost) => (
            WriterState::Connecting,
            WriterAction::Reconnect,
        ),
        (WriterState::Ready, WriterEvent::ShutdownSignaled) => (
            WriterState::Draining,
            WriterAction::Receive,
        ),
        (WriterState::Draining, WriterEvent::RecvRecord) => (
            WriterState::Draining,
            WriterAction::Write,
        ),
        (WriterState::Draining, WriterEvent::WriteOk) => (
            WriterState::Draining,
            WriterAction::Receive,
        ),
        (WriterState::Draining, WriterEvent::WriteFailed) => (
            WriterState::Draining,
            WriterAction::DiscardAndContinue,
        ),
        (WriterState::Draining, WriterEvent::RecvDisconnected) => (
            WriterState::Closed,
            WriterAction::Exit,
        ),
        (any, _) => (any, WriterAction::Ignore),
    };
    let wrote_ok = matches!((s, ev), (WriterState::Ready, WriterEvent::WriteOk) | (
        WriterState::Draining,
        WriterEvent::WriteOk,
    ));
    let wrote_failed = matches!((s, ev), (WriterState::Ready, WriterEvent::WriteFailed) | (
        WriterState::Draining,
        WriterEvent::WriteFailed,
    ));
    let ok = if wrote_ok && stats.ok < u64::MAX {
        stats.ok + 1
    } else {
        stats.ok
    };
    let failed = if wrote_failed && stats.failed < u64::MAX {
        stats.failed + 1
    } else {
        stats.failed
    };
    (next.0, next.1, WriterStats { ok, failed })
}

/// The time-series write one sensor reading maps to: measurement `data`,
/// the reading's sample time, the value as its single field, and the
/// reading's description as tags — with the unit tag attached only when
/// the reading carries a unit.
pub open spec fn spec_sensor_influx(r: SensorReadingView) -> RecordView {
    RecordView {
        measurement: "data"@,
        timestamp: r.time,
        value: Some(WriteType::Float(r.value)),
        tags: {
            let base = seq![
                ("type"@, r.measurement),
                ("location"@, r.location),
                ("sensor"@, r.sensor),
                ("calculated"@, if r.calculated { "true"@ } else { "false"@ }),
            ];
            if r.unit.len() > 0 {
                base.push(("unit"@, r.unit))
            } else {
                base
            }
        },
    }
}

/// Maps one sensor reading to its time-series write.
pub fn sensor_influx_record(r: &SensorReading) -> (q: Record)
    ensures
        q@ == spec_sensor_influx(r@),
{
    let mut tags: Vec<(String, String)> = Vec::new();
    tags.push(("type".to_owned(), r.measurement.clone()));
    tags.push(("location".to_owned(), r.location.clone()));
    tags.push(("sensor".to_owned(), r.sensor.clone()));
    let calculated: &str = if r.calculated {
        "true"
    } else {
        "false"
    };
    tags.push(("calculated".to_owned(), calculated.to_owned()));
    if !r.unit.as_str().is_empty() {
        tags.push(("unit".to_owned(), r.unit.clone()));
    }
    let q = Record {
        measurement: "data".to_owned(),
        timestamp: r.time,
        value: Some(WriteType::Float(r.value)),
        tags,
    };
    proof {
        assert(q@.tags =~= spec_sensor_influx(r@).tags);
    }
    q
}

/// One row bound for the relational store: a fixed positional insert
/// into an allow-listed table.
pub struct PgWrite {
    pub table: String,
    pub time: i64,
    pub location: String,
    pub sensor: String,
    pub value: u64,
    pub unit: String,
    pub calculated: bool,
}

/// The relational writer's plan: the fixed list of tables writes may
/// target. A reading maps to the table named after its measurement only
/// when that table is on the list — the table name is taken from the
/// configured list, never interpolated from message data, so a
/// measurement name arriving off the wire can never name a new table.
pub struct PostgresPlan {
    tables: Vec<String>,
}

impl PostgresPlan {
    /// The allow-listed table names.
    pub closed spec fn tables_view(&self) -> Seq<Seq<char>> {
        self.tables.deep_view()
    }

    /// Whether a measurement may be written at all.
    pub open spec fn allows(&self, measurement: Seq<char>) -> bool {
        exists|i: int| 0 <= i < self.tables_view().len() && self.tables_view()[i] == measurement
    }

    pub fn new(tables: Vec<String>) -> (p: PostgresPlan)
        ensures
            p.tables_view() == tables.deep_view(),
    {
        PostgresPlan { tables }
    }

    /// The insert one reading maps to: its fields in the fixed order
    /// `(time, location, sensor, value, unit, calculated)`, into the
    /// allow-listed table named by the measurement — or nothing, when
    /// the measurement is not allow-listed.
    pub fn write_for(&self, r: &SensorReading) -> (w: Option<PgWrite>)
        ensures
            match w {
                Some(pw) => self.allows(r.measurement@) && pw.table@ == r.measurement@ && pw.time
                    == r.time && pw.location@ == r.location@ && pw.sensor@ == r.sensor@ && pw.value
                    == r.value && pw.unit@ == r.unit@ && pw.calculated == r.calculated,
                None => !self.allows(r.measurement@),
            },
    {
        let n = self.tables.len();
        let mut i: usize = 0;
        while i < n
            invariant
                0 <= i <= n,
                n == self.tables.len(),
                forall|j: int| 0 <= j < i ==> self.tables_view()[j] != r.measurement@,
            decreases n - i,
        {
            if self.tables[i] == r.measurement {
                let table = self.tables[i].clone();
                proof {
                    assert(self.tables_view()[i as int] == r.measurement@);
                }
                return Some(
                    PgWrite {
                        table,
                        time: r.time,
                        location: r.location.clone(),
                        sensor: r.sensor.clone(),
                        value: r.value,
                        unit: r.unit.clone(),
                        calculated: r.calculated,
                    },
                );
            }
            i = i + 1;
        }
        None
    }
}

} // verus!
