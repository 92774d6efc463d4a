use sensors_gateway::gateway::{
    ingress_step, reconnect_delay, Dispatch, Gateway, IngressAction, IngressEvent, IngressState,
};
use sensors_gateway::klimalogger::SensorReading;
use sensors_gateway::queue::RecvResult;
use sensors_gateway::route::{RouteError, RouteTable, SourceKind};
use sensors_gateway::writer::{
    sensor_influx_record, writer_step, PostgresPlan, WriterAction, WriterEvent, WriterState,
    WriterStats,
};
use sensors_gateway::Message;

fn message(topic: &str, payload: &str) -> Message {
    Message::new(topic.to_string(), payload.as_bytes().to_vec())
}

fn routed_table() -> RouteTable {
    let mut table = RouteTable::new();
    table.register("shellies".to_string(), SourceKind::Shelly).unwrap();
    table.register("klimalogger".to_string(), SourceKind::Sensor).unwrap();
    table.register("solar".to_string(), SourceKind::OpenDtu).unwrap();
    table
}

#[test]
fn duplicate_prefix_is_refused() {
    let mut table = RouteTable::new();
    assert!(table.register("shellies".to_string(), SourceKind::Shelly).is_ok());
    assert_eq!(
        table.register("shellies".to_string(), SourceKind::Sensor),
        Err(RouteError::DuplicatePrefix)
    );
    // The earlier binding still stands.
    assert_eq!(table.resolve("shellies/loo-fan/status/switch:0"), Some(SourceKind::Shelly));
}

#[test]
fn resolve_matches_first_segment_exactly() {
    let table = routed_table();
    assert_eq!(table.resolve("shellies/loo-fan/status/switch:0"), Some(SourceKind::Shelly));
    assert_eq!(table.resolve("klimalogger/kids1/temperature"), Some(SourceKind::Sensor));
    assert_eq!(table.resolve("solar/114190641177/0/power"), Some(SourceKind::OpenDtu));
    assert_eq!(table.resolve("zigbee/kitchen/light"), None);
    // No wildcard or partial matching on the routing key.
    assert_eq!(table.resolve("shellies2/loo-fan/status/switch:0"), None);
    assert_eq!(table.resolve("shellie/loo-fan"), None);
}

#[test]
fn unmatched_topic_is_discarded_without_side_effects() {
    let mut g = Gateway::new(routed_table(), 100, 1, 100);
    let msg = message(
        "zigbee/kitchen/light",
        "{\"output\":false,\"apower\":0.0,\"voltage\":226.5,\"current\":3.1,\"aenergy\":{\"total\":1094.865,\"minute_ts\":1703415907},\"temperature\":{\"tC\":36.4}}",
    );
    let d = g.on_message(&msg);
    assert!(matches!(d, Dispatch::NoRoute));
    assert!(matches!(g.shelly_recv(), RecvResult::Empty));
    assert!(matches!(g.sensor_recv(0), RecvResult::Empty));
}

#[test]
fn routed_shelly_message_reaches_its_queue() {
    let mut g = Gateway::new(routed_table(), 100, 1, 100);
    let msg = message(
        "shellies/loo-fan/status/switch:0",
        "{\"output\":false,\"apower\":0.0,\"voltage\":226.5,\"current\":3.1,\"aenergy\":{\"total\":1094.865,\"minute_ts\":1703415907},\"temperature\":{\"tC\":36.4}}",
    );
    match g.on_message(&msg) {
        Dispatch::Shelly { rejected } => assert!(rejected.is_empty()),
        _ => panic!("expected the shelly handler"),
    }
    let mut count = 0;
    while let RecvResult::Item(r) = g.shelly_recv() {
        assert_eq!(r.timestamp, 1703415907);
        count += 1;
    }
    assert_eq!(count, 6);
    // The sensor queue saw nothing.
    assert!(matches!(g.sensor_recv(0), RecvResult::Empty));
}

#[test]
fn shutdown_closes_every_queue() {
    let mut g = Gateway::new(routed_table(), 100, 2, 100);
    g.shutdown();
    assert!(matches!(g.shelly_recv(), RecvResult::Disconnected));
    assert!(matches!(g.sensor_recv(0), RecvResult::Disconnected));
    assert!(matches!(g.sensor_recv(1), RecvResult::Disconnected));
}

#[test]
fn reconnect_resubscribes_exactly_once() {
    // A disconnect, three failed reconnect attempts, then one success:
    // one subscription round follows, covering every original prefix.
    let mut s = IngressState::Receiving;
    let events = [
        IngressEvent::Disconnected,
        IngressEvent::ConnectFailed,
        IngressEvent::ConnectFailed,
        IngressEvent::ConnectFailed,
        IngressEvent::ConnectOk,
    ];
    let mut subscribe_rounds = 0;
    for ev in events {
        let (next, action) = ingress_step(s, ev);
        if matches!(action, IngressAction::SubscribeAll) {
            subscribe_rounds += 1;
        }
        s = next;
    }
    assert_eq!(subscribe_rounds, 1);
    assert_eq!(s, IngressState::Subscribed);

    let g = Gateway::new(routed_table(), 100, 1, 100);
    let prefixes = g.subscription_prefixes();
    assert_eq!(prefixes, vec!["shellies", "klimalogger", "solar"]);
}

#[test]
fn reconnect_backoff_is_capped() {
    assert_eq!(reconnect_delay(0), 1000);
    assert_eq!(reconnect_delay(1), 2000);
    assert_eq!(reconnect_delay(3), 8000);
    assert_eq!(reconnect_delay(8), 256000);
    assert_eq!(reconnect_delay(9), 300000);
    assert_eq!(reconnect_delay(40), 300000);
}

#[test]
fn initial_connect_failure_is_fatal_but_reconnect_failure_is_not() {
    let (_, action) = ingress_step(IngressState::Connecting, IngressEvent::ConnectFailed);
    assert_eq!(action, IngressAction::FatalExit);
    let (s, action) = ingress_step(
        IngressState::Reconnecting { attempts: 4 },
        IngressEvent::ConnectFailed,
    );
    assert_eq!(s, IngressState::Reconnecting { attempts: 5 });
    assert_eq!(action, IngressAction::Backoff { delay_ms: 32000 });
}

#[test]
fn writer_discards_a_failed_record_and_goes_on() {
    let stats = WriterStats { ok: 3, failed: 0 };
    let (s, action, stats) = writer_step(WriterState::Ready, WriterEvent::WriteFailed, stats);
    assert_eq!(s, WriterState::Ready);
    assert_eq!(action, WriterAction::DiscardAndContinue);
    assert_eq!(stats, WriterStats { ok: 3, failed: 1 });

    let (s, action, stats) = writer_step(s, WriterEvent::RecvRecord, stats);
    assert_eq!(s, WriterState::Ready);
    assert_eq!(action, WriterAction::Write);
    let (s, action, _) = writer_step(s, WriterEvent::WriteOk, stats);
    assert_eq!(s, WriterState::Ready);
    assert_eq!(action, WriterAction::Receive);
}

#[test]
fn writer_exits_cleanly_when_its_queue_closes() {
    let stats = WriterStats { ok: 0, failed: 0 };
    let (s, action, stats) = writer_step(WriterState::Ready, WriterEvent::ShutdownSignaled, stats);
    assert_eq!(s, WriterState::Draining);
    assert_eq!(action, WriterAction::Receive);
    let (s, action, _) = writer_step(s, WriterEvent::RecvDisconnected, stats);
    assert_eq!(s, WriterState::Closed);
    assert_eq!(action, WriterAction::Exit);
}

fn reading(measurement: &str, unit: &str) -> SensorReading {
    SensorReading {
        measurement: measurement.to_string(),
        time: 1701292592,
        location: "kids1".to_string(),
        sensor: "BME680".to_string(),
        value: (19.45f64).to_bits(),
        unit: unit.to_string(),
        calculated: false,
    }
}

#[test]
fn influx_mapping_tags_the_reading_and_skips_an_empty_unit() {
    let with_unit = sensor_influx_record(&reading("temperature", "\u{00b0}C"));
    assert_eq!(with_unit.measurement, "data");
    assert_eq!(with_unit.timestamp, 1701292592);
    assert_eq!(with_unit.tags.len(), 5);
    assert_eq!(with_unit.tags[0], ("type".to_string(), "temperature".to_string()));
    assert_eq!(with_unit.tags[3], ("calculated".to_string(), "false".to_string()));
    assert_eq!(with_unit.tags[4], ("unit".to_string(), "\u{00b0}C".to_string()));

    let without_unit = sensor_influx_record(&reading("iaq", ""));
    assert_eq!(without_unit.tags.len(), 4);
}

#[test]
fn postgres_writes_only_into_allow_listed_tables() {
    let plan = PostgresPlan::new(vec!["temperature".to_string(), "humidity".to_string()]);
    let w = plan.write_for(&reading("temperature", "\u{00b0}C")).unwrap();
    assert_eq!(w.table, "temperature");
    assert_eq!(w.location, "kids1");
    assert_eq!(w.sensor, "BME680");
    assert_eq!(w.calculated, false);
    // A measurement arriving off the wire never names a table of its
    // own: anything not on the configured list is refused.
    assert!(plan.write_for(&reading("temperature\"; drop table x; --", "")).is_none());
    assert!(plan.write_for(&reading("pressure", "hPa")).is_none());
}
