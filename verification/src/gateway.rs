use vstd::prelude::*;

use crate::klimalogger::{offer_post, spec_sensor_reading, SensorLogger, SensorReading};
use crate::queue::{OutputQueue, RecvResult};
use crate::route::{lookup, RouteTable, SourceKind};
use crate::shelly::{spec_accept_n, spec_shelly_emitted, ShellyLogger};
use crate::topic::spec_first_segment;
use crate::{records_view, Message, Record};

verus! {

/// Where the ingress loop stands: connecting at startup, subscribing,
/// receiving messages, or re-establishing a lost transport connection.
#[derive(Clone, Copy, PartialEq, Eq, Structural, Debug)]
pub enum IngressState {
    Connecting,
    Subscribed,
    Receiving,
    Reconnecting { attempts: u32 },
}

/// What the transport edge observed.
#[derive(Clone, Copy, PartialEq, Eq, Structural, Debug)]
pub enum IngressEvent {
    ConnectOk,
    ConnectFailed,
    SubscribeOk,
    SubscribeFailed,
    MessageReceived,
    Disconnected,
    ShutdownRequested,
}

/// What the transport edge must do next. The edge performs the action
/// and reports the resulting event; the decisions all live here.
#[derive(Clone, Copy, PartialEq, Eq, Structural, Debug)]
pub enum IngressAction {
    /// Subscribe to every registered prefix, wildcard-suffixed, at once.
    SubscribeAll,
    /// Block on the next message or disconnection marker.
    AwaitMessage,
    /// Resolve and handle the received message.
    DispatchMessage,
    /// Sleep for the given interval, then attempt to reconnect.
    Backoff { delay_ms: u64 },
    /// Unrecoverable startup or subscribe failure: exit non-zero.
    FatalExit,
    /// Graceful shutdown: stop reading, close every output queue, join
    /// the writer workers after they drain.
    Stop,
    /// The event does not apply in this state.
    Ignore,
}

/// Reconnect backoff: doubles from one second per failed attempt, capped
/// at five minutes. Never gives up.
pub open spec fn spec_reconnect_delay(attempt: u32) -> u64 {
    if attempt < 9 {
        (1000u64 << attempt) as u64
    } else {
        300000u64
    }
}

pub fn reconnect_delay(attempt: u32) -> (r: u64)
    ensures
        r == spec_reconnect_delay(attempt),
        1000 <= r <= 300000,
{
    if attempt < 9 {
        let d = 1000u64 << attempt;
        proof {
            let a = attempt as u64;
            assert(a < 9 ==> 1000 <= (1000u64 << a) <= 256000) by (bit_vector);
            assert(1000u64 << attempt == 1000u64 << a);
        }
        d
    } else {
        300000
    }
}

/// The ingress loop's transition function. One subscription round
/// follows every successful connect — including every reconnect, so a
/// recovered session sees exactly the topics the lost one did.
pub open spec fn spec_ingress_step(s: IngressState, ev: IngressEvent) -> (IngressState,
    IngressAction) {
    match (s, ev) {
        (IngressState::Connecting, IngressEvent::ConnectOk) => (
            IngressState::Subscribed,
            IngressAction::SubscribeAll,
        ),
        // A failed initial connect is a fatal startup error, unlike a
        // failed reconnect.
        (IngressState::Connecting, IngressEvent::ConnectFailed) => (
            IngressState::Connecting,
            IngressAction::FatalExit,
        ),
        (IngressState::Subscribed, IngressEvent::SubscribeOk) => (
            IngressState::Receiving,
            IngressAction::AwaitMessage,
        ),
        (IngressState::Subscribed, IngressEvent::SubscribeFailed) => (
            IngressState::Subscribed,
            IngressAction::FatalExit,
        ),
        (IngressState::Receiving, IngressEvent::MessageReceived) => (
            IngressState::Receiving,
            IngressAction::DispatchMessage,
        ),
        (IngressState::Receiving, IngressEvent::Disconnected) => (
            IngressState::Reconnecting { attempts: 0 },
            IngressAction::Backoff { delay_ms: spec_reconnect_delay(0) },
        ),
        (IngressState::Receiving, IngressEvent::ShutdownRequested) => (
            IngressState::Receiving,
            IngressAction::Stop,
        ),
        (IngressState::Reconnecting { attempts }, IngressEvent::ConnectOk) => (
            IngressState::Subscribed,
            IngressAction::SubscribeAll,
        ),
        (IngressState::Reconnecting { attempts }, IngressEvent::ConnectFailed) => {
            let next = if attempts < u32::MAX {
                (attempts + 1) as u32
            } else {
                attempts
            };
            (
                IngressState::Reconnecting { attempts: next },
                IngressAction::Backoff { delay_ms: spec_reconnect_delay(next) },
            )
        },
        (any, _) => (any, IngressAction::Ignore),
    }
}

pub fn ingress_step(s: IngressState, ev: IngressEvent) -> (r: (IngressState, IngressAction))
    ensures
        r == spec_ingress_step(s, ev),
{
    match (s, ev) {
        (IngressState::Connecting, IngressEvent::ConnectOk) => (
            IngressState::Subscribed,
            IngressAction::SubscribeAll,
        ),
        (IngressState::Connecting, IngressEvent::ConnectFailed) => (
            IngressState::Connecting,
            IngressAction::FatalExit,
        ),
        (IngressState::Subscribed, IngressEvent::SubscribeOk) => (
            IngressState::Receiving,
            IngressAction::AwaitMessage,
        ),
        (IngressState::Subscribed, IngressEvent::SubscribeFailed) => (
            IngressState::Subscribed,
            IngressAction::FatalExit,
        ),
        (IngressState::Receiving, IngressEvent::MessageReceived) => (
            IngressState::Receiving,
            IngressAction::DispatchMessage,
        ),
        (IngressState::Receiving, IngressEvent::Disconnected) => {
            let delay_ms = reconnect_delay(0);
            (IngressState::Reconnecting { attempts: 0 }, IngressAction::Backoff { delay_ms })
        },
        (IngressState::Receiving, IngressEvent::ShutdownRequested) => (
            IngressState::Receiving,
            IngressAction::Stop,
        ),
        (IngressState::Reconnecting { attempts: _ }, IngressEvent::ConnectOk) => (
            IngressState::Subscribed,
            IngressAction::SubscribeAll,
        ),
        (IngressState::Reconnecting { attempts }, IngressEvent::ConnectFailed) => {
            let next = if attempts < u32::MAX {
                attempts + 1
            } else {
                attempts
            };
            let delay_ms = reconnect_delay(next);
            (IngressState::Reconnecting { attempts: next }, IngressAction::Backoff { delay_ms })
        },
        (any, _) => (any, IngressAction::Ignore),
    }
}

/// What one dispatched message came to.
pub enum Dispatch {
    /// No registered prefix matched the topic's routing key: the message
    /// is discarded, with no side effect.
    NoRoute,
    /// The shelly handler ran; records the queue had no room for come
    /// back in order, for the caller to retry under backpressure.
    Shelly { rejected: Vec<Record> },
    /// The sensor handler ran; its reading was offered to every target.
    Sensor { delivered: usize },
    /// The prefix is bound to the inverter source, whose decoder is an
    /// external collaborator of this crate: routed, nothing enqueued.
    OpenDtu,
}

/// The dispatch core: the immutable route table, one handler per source
/// kind, and the bounded output queues the handlers feed.
pub struct Gateway {
    table: RouteTable,
    shelly: ShellyLogger,
    sensor: SensorLogger,
    shelly_queue: OutputQueue<Record>,
    sensor_queues: Vec<OutputQueue<SensorReading>>,
}

impl Gateway {
    /// The registered routes, in registration order.
    pub closed spec fn routes(&self) -> Seq<(Seq<char>, SourceKind)> {
        self.table.entries_view()
    }

    pub closed spec fn spec_shelly_queue(&self) -> OutputQueue<Record> {
        self.shelly_queue
    }

    pub closed spec fn spec_sensor_queues(&self) -> Seq<OutputQueue<SensorReading>> {
        self.sensor_queues@
    }

    pub closed spec fn wf(&self) -> bool {
        &&& self.table.wf()
        &&& self.shelly_queue.wf()
        &&& forall|i: int| 0 <= i < self.sensor_queues@.len() ==> self.sensor_queues@[i].wf()
    }

    /// Builds the gateway: the route table as configured, one bounded
    /// queue for the shelly target and one per sensor target. The
    /// bindings are fixed for the process lifetime.
    pub fn new(table: RouteTable, shelly_capacity: usize, sensor_targets: usize,
        sensor_capacity: usize) -> (g: Gateway)
        requires
            table.wf(),
            shelly_capacity >= 1,
            sensor_capacity >= 1,
        ensures
            g.wf(),
            g.routes() == table.entries_view(),
            g.spec_shelly_queue().items() == Seq::<Record>::empty(),
            g.spec_shelly_queue().cap() == shelly_capacity as int,
            !g.spec_shelly_queue().is_closed(),
            g.spec_sensor_queues().len() == sensor_targets as int,
            forall|i: int|
                0 <= i < sensor_targets as int ==> (#[trigger] g.spec_sensor_queues()[i]).items()
                    == Seq::<SensorReading>::empty() && g.spec_sensor_queues()[i].cap()
                    == sensor_capacity as int && !g.spec_sensor_queues()[i].is_closed(),
    {
        let mut sensor_queues: Vec<OutputQueue<SensorReading>> = Vec::new();
        let mut i: usize = 0;
        while i < sensor_targets
            invariant
                0 <= i <= sensor_targets,
                sensor_capacity >= 1,
                sensor_queues@.len() == i as int,
                forall|j: int|
                    0 <= j < i as int ==> (#[trigger] sensor_queues@[j]).items() == Seq::<
                        SensorReading,
                    >::empty() && sensor_queues@[j].cap() == sensor_capacity as int
                        && !sensor_queues@[j].is_closed() && sensor_queues@[j].wf(),
            decreases sensor_targets - i,
        {
            sensor_queues.push(OutputQueue::new(sensor_capacity));
            i = i + 1;
        }
        Gateway {
            table,
            shelly: ShellyLogger::new(),
            sensor: SensorLogger::new(),
            shelly_queue: OutputQueue::new(shelly_capacity),
            sensor_queues,
        }
    }

    /// Handles one inbound message: resolves the topic's routing key and
    /// runs the matched handler. An unmatched topic changes nothing —
    /// the message is discarded without side effects and the loop goes
    /// on.
    pub fn on_message(&mut self, msg: &Message) -> (d: Dispatch)
        requires
            old(self).wf(),
        ensures
            final(self).wf(),
            final(self).routes() == old(self).routes(),
            match lookup(old(self).routes(), spec_first_segment(msg.topic@)) {
                None => *final(self) == *old(self) && (d is NoRoute),
                Some(SourceKind::Shelly) => match d {
                    Dispatch::Shelly { rejected } => {
                        let emitted = spec_shelly_emitted(msg.topic@, msg.payload@);
                        let q0 = old(self).spec_shelly_queue();
                        let q1 = final(self).spec_shelly_queue();
                        let k = spec_accept_n(
                            q0.is_closed(),
                            q0.cap(),
                            q0.items().len() as int,
                            emitted.len() as int,
                        );
                        &&& final(self).spec_sensor_queues() == old(self).spec_sensor_queues()
                        &&& q1.cap() == q0.cap()
                        &&& q1.is_closed() == q0.is_closed()
                        &&& records_view(q1.items()) == records_view(q0.items()) + emitted.take(k)
                        &&& rejected.deep_view() == emitted.skip(k)
                    },
                    _ => false,
                },
                Some(SourceKind::Sensor) => match d {
                    Dispatch::Sensor { delivered } => {
                        &&& final(self).spec_shelly_queue() == old(self).spec_shelly_queue()
                        &&& final(self).spec_sensor_queues().len() == old(self).spec_sensor_queues().len()
                        &&& match spec_sensor_reading(msg.topic@, msg.payload@) {
                            Some(rv) => forall|i: int|
                                0 <= i < old(self).spec_sensor_queues().len() ==> offer_post(
                                    old(self).spec_sensor_queues()[i],
                                    final(self).spec_sensor_queues()[i],
                                    rv,
                                ),
                            None => final(self).spec_sensor_queues() == old(self).spec_sensor_queues() && delivered == 0,
                        }
                    },
                    _ => false,
                },
                Some(SourceKind::OpenDtu) => *final(self) == *old(self) && (d is OpenDtu),
            },
    {
        let kind = self.table.resolve(msg.topic.as_str());
        match kind {
            None => Dispatch::NoRoute,
            Some(SourceKind::Shelly) => {
                let rejected = self.shelly.check_message(msg, &mut self.shelly_queue);
                Dispatch::Shelly { rejected }
            },
            Some(SourceKind::Sensor) => {
                let delivered = self.sensor.check_message(msg, &mut self.sensor_queues);
                Dispatch::Sensor { delivered }
            },
            Some(SourceKind::OpenDtu) => Dispatch::OpenDtu,
        }
    }

    /// The prefixes one subscription round covers: every registered
    /// route's prefix, none missing and none doubled. A reconnected
    /// session subscribes to exactly these again.
    pub fn subscription_prefixes(&self) -> (r: Vec<String>)
        ensures
            r.deep_view() == self.routes().map_values(|e: (Seq<char>, SourceKind)| e.0),
    {
        self.table.prefixes()
    }

    /// The writer worker's receive on the shelly queue.
    pub fn shelly_recv(&mut self) -> (r: RecvResult<Record>)
        requires
            old(self).wf(),
        ensures
            final(self).wf(),
            final(self).routes() == old(self).routes(),
            final(self).spec_sensor_queues() == old(self).spec_sensor_queues(),
            final(self).spec_shelly_queue().cap() == old(self).spec_shelly_queue().cap(),
            final(self).spec_shelly_queue().is_closed() == old(self).spec_shelly_queue().is_closed(),
            match r {
                RecvResult::Item(t) => old(self).spec_shelly_queue().items().len() > 0 && t == old(self).spec_shelly_queue().items()[0] && final(self).spec_shelly_queue().items() == old(self).spec_shelly_queue().items().drop_first(),
                RecvResult::Empty => old(self).spec_shelly_queue().items().len() == 0 && !old(self).spec_shelly_queue().is_closed() && *final(self) == *old(self),
                RecvResult::Disconnected => old(self).spec_shelly_queue().items().len() == 0 && old(self).spec_shelly_queue().is_closed() && *final(self) == *old(self),
            },
    {
        self.shelly_queue.try_recv()
    }

    /// The writer worker's receive on one sensor queue.
    pub fn sensor_recv(&mut self, i: usize) -> (r: RecvResult<SensorReading>)
        requires
            old(self).wf(),
            i < old(self).spec_sensor_queues().len(),
        ensures
            final(self).wf(),
            final(self).routes() == old(self).routes(),
            final(self).spec_shelly_queue() == old(self).spec_shelly_queue(),
            final(self).spec_sensor_queues().len() == old(self).spec_sensor_queues().len(),
            forall|j: int|
                0 <= j < old(self).spec_sensor_queues().len() && j != i as int ==> final(self).spec_sensor_queues()[j] == old(self).spec_sensor_queues()[j],
            match r {
                RecvResult::Item(t) => old(self).spec_sensor_queues()[i as int].items().len() > 0
                    && t == old(self).spec_sensor_queues()[i as int].items()[0] && final(self).spec_sensor_queues()[i as int].items() == old(self).spec_sensor_queues()[i as int].items().drop_first(),
                RecvResult::Empty => final(self).spec_sensor_queues() == old(self).spec_sensor_queues(),
                RecvResult::Disconnected => final(self).spec_sensor_queues() == old(self).spec_sensor_queues(),
            },
    {
        let ghost qs0 = self.sensor_queues@;
        let mut q = self.sensor_queues.remove(i);
        let r = q.try_recv();
        self.sensor_queues.insert(i, q);
        proof {
            assert(self.sensor_queues@ =~= qs0.update(i as int, q));
        }
        r
    }

    /// Shutdown: closes every output queue. Buffered records stay
    /// available, each worker drains its queue and exits on
    /// disconnection; no further send will be accepted.
    pub fn shutdown(&mut self)
        requires
            old(self).wf(),
        ensures
            final(self).wf(),
            final(self).routes() == old(self).routes(),
            final(self).spec_shelly_queue().items() == old(self).spec_shelly_queue().items(),
            final(self).spec_shelly_queue().is_closed(),
            final(self).spec_sensor_queues().len() == old(self).spec_sensor_queues().len(),
            forall|i: int|
                0 <= i < old(self).spec_sensor_queues().len() ==> (#[trigger] final(self).spec_sensor_queues()[i]).items() == old(self).spec_sensor_queues()[i].items()
                    && final(self).spec_sensor_queues()[i].is_closed(),
    {
        self.shelly_queue.close();
        let n = self.sensor_queues.len();
        let mut i: usize = 0;
        while i < n
            invariant
                0 <= i <= n,
                n == self.sensor_queues@.len(),
                n == old(self).spec_sensor_queues().len(),
                self.table == old(self).table,
                self.shelly_queue.wf(),
                self.shelly_queue.items() == old(self).spec_shelly_queue().items(),
                self.shelly_queue.is_closed(),
                self.shelly == old(self).shelly,
                self.sensor == old(self).sensor,
                forall|j: int| 0 <= j < n ==> old(self).spec_sensor_queues()[j].wf(),
                forall|j: int|
                    0 <= j < i as int ==> (#[trigger] self.sensor_queues@[j]).items() == old(self).spec_sensor_queues()[j].items() && self.sensor_queues@[j].is_closed()
                        && self.sensor_queues@[j].wf(),
                forall|j: int|
                    i as int <= j < n ==> self.sensor_queues@[j] == old(self).spec_sensor_queues()[j],
            decreases n - i,
        {
            let ghost qs0 = self.sensor_queues@;
            let mut q = self.sensor_queues.remove(i);
            q.close();
            self.sensor_queues.insert(i, q);
            proof {
                assert(self.sensor_queues@ =~= qs0.update(i as int, q));
            }
            i = i + 1;
        }
    }
}

} // verus!
