use sensors_gateway::klimalogger::{SensorLogger, SensorReading};
use sensors_gateway::queue::{OutputQueue, RecvResult, SendError};
use sensors_gateway::shelly::ShellyLogger;
use sensors_gateway::{Message, Record, WriteType};

fn message(topic: &str, payload: &str) -> Message {
    Message::new(topic.to_string(), payload.as_bytes().to_vec())
}

fn drain(q: &mut OutputQueue<Record>) -> Vec<Record> {
    let mut out = Vec::new();
    loop {
        match q.try_recv() {
            RecvResult::Item(r) => out.push(r),
            _ => return out,
        }
    }
}

#[test]
fn switch_status_yields_six_records() {
    let logger = ShellyLogger::new();
    let mut q: OutputQueue<Record> = OutputQueue::new(100);
    let msg = message(
        "shellies/loo-fan/status/switch:0",
        "{\"output\":false,\"apower\":0.0,\"voltage\":226.5,\"current\":3.1,\"aenergy\":{\"total\":1094.865,\"minute_ts\":1703415907},\"temperature\":{\"tC\":36.4}}",
    );
    let rejected = logger.check_message(&msg, &mut q);
    assert!(rejected.is_empty());

    let records = drain(&mut q);
    let names: Vec<&str> = records.iter().map(|r| r.measurement.as_str()).collect();
    assert_eq!(names, vec!["output", "power", "current", "voltage", "total_energy", "temperature"]);
    for r in &records {
        assert_eq!(r.timestamp, 1703415907);
        assert_eq!(r.tags[0], ("location".to_string(), "loo-fan".to_string()));
        assert_eq!(r.tags[1], ("sensor".to_string(), "shelly".to_string()));
        assert!(r.value.is_some());
    }
    assert_eq!(records[0].value, Some(WriteType::Int(0)));
    assert_eq!(records[1].value, Some(WriteType::Float((0.0f64).to_bits())));
    assert_eq!(records[3].value, Some(WriteType::Float((226.5f64).to_bits())));
}

#[test]
fn unparsable_payload_yields_no_records() {
    let logger = ShellyLogger::new();
    let mut q: OutputQueue<Record> = OutputQueue::new(100);
    let msg = message("shellies/loo-fan/status/switch:0", "this is not json {{{");
    let rejected = logger.check_message(&msg, &mut q);
    assert!(rejected.is_empty());
    assert!(matches!(q.try_recv(), RecvResult::Empty));
}

#[test]
fn cover_without_timestamp_yields_no_records() {
    let logger = ShellyLogger::new();
    let mut q: OutputQueue<Record> = OutputQueue::new(100);
    let msg = message(
        "shellies/bedroom-curtain/status/cover:0",
        "{\"current_pos\":100,\"apower\":0.0,\"voltage\":231.7,\"current\":0.5,\"aenergy\":{\"total\":3.143},\"temperature\":{\"tC\":30.7}}",
    );
    let rejected = logger.check_message(&msg, &mut q);
    assert!(rejected.is_empty());
    assert!(matches!(q.try_recv(), RecvResult::Empty));
}

#[test]
fn cover_without_position_yields_presence_record() {
    let logger = ShellyLogger::new();
    let mut q: OutputQueue<Record> = OutputQueue::new(100);
    let msg = message(
        "shellies/bedroom-curtain/status/cover:0",
        "{\"apower\":0.0,\"voltage\":231.7,\"current\":0.5,\"aenergy\":{\"total\":3.143,\"minute_ts\":1703414519},\"temperature\":{\"tC\":30.7}}",
    );
    let rejected = logger.check_message(&msg, &mut q);
    assert!(rejected.is_empty());

    let records = drain(&mut q);
    assert_eq!(records.len(), 6);
    assert_eq!(records[0].measurement, "position");
    // The position sample is still written, tags only: its extractor
    // found no value, and that absence is observable behavior.
    assert_eq!(records[0].value, None);
    for r in &records[1..] {
        assert!(r.value.is_some());
    }
}

#[test]
fn unsupported_status_suffix_yields_no_records() {
    let logger = ShellyLogger::new();
    let mut q: OutputQueue<Record> = OutputQueue::new(100);
    let msg = message(
        "shellies/loo-fan/status/em:0",
        "{\"output\":false,\"apower\":0.0,\"voltage\":226.5,\"current\":3.1,\"aenergy\":{\"total\":1094.865,\"minute_ts\":1703415907},\"temperature\":{\"tC\":36.4}}",
    );
    let rejected = logger.check_message(&msg, &mut q);
    assert!(rejected.is_empty());
    assert!(matches!(q.try_recv(), RecvResult::Empty));
}

#[test]
fn sensor_message_fans_out_to_every_target() {
    let logger = SensorLogger::new();
    let mut queues: Vec<OutputQueue<SensorReading>> = vec![OutputQueue::new(10), OutputQueue::new(10)];
    let msg = message(
        "klimalogger/kids1/temperature",
        "{\"unit\": \"\u{00b0C}\", \"sensor\": \"BME680\", \"calculated\": false, \"time\": 1701292592, \"value\": 19.45}",
    );
    let delivered = logger.check_message(&msg, &mut queues);
    assert_eq!(delivered, 2);
    for q in queues.iter_mut() {
        match q.try_recv() {
            RecvResult::Item(r) => {
                assert_eq!(r.measurement, "temperature");
                assert_eq!(r.location, "kids1");
                assert_eq!(r.sensor, "BME680");
                assert_eq!(r.time, 1701292592);
                assert_eq!(r.value, (19.45f64).to_bits());
                assert_eq!(r.calculated, false);
            },
            _ => panic!("expected one reading"),
        }
        assert!(matches!(q.try_recv(), RecvResult::Empty));
    }
}

#[test]
fn full_queue_refuses_and_returns_the_record() {
    // Backpressure: the third send is refused, the record comes back
    // intact, and once the consumer frees capacity the retry succeeds.
    // Nothing is dropped and nothing is reordered.
    let mut q: OutputQueue<u32> = OutputQueue::new(2);
    assert!(q.try_send(1).is_ok());
    assert!(q.try_send(2).is_ok());
    let refused = match q.try_send(3) {
        Err(SendError::Full(v)) => v,
        _ => panic!("expected the queue to be full"),
    };
    assert_eq!(refused, 3);
    match q.try_recv() {
        RecvResult::Item(v) => assert_eq!(v, 1),
        _ => panic!("expected the oldest item"),
    }
    assert!(q.try_send(refused).is_ok());
    match q.try_recv() {
        RecvResult::Item(v) => assert_eq!(v, 2),
        _ => panic!("expected the next item"),
    }
    match q.try_recv() {
        RecvResult::Item(v) => assert_eq!(v, 3),
        _ => panic!("expected the retried item"),
    }
    assert!(matches!(q.try_recv(), RecvResult::Empty));
}

#[test]
fn closed_queue_refuses_sends_and_drains() {
    let mut q: OutputQueue<u32> = OutputQueue::new(4);
    assert!(q.try_send(7).is_ok());
    q.close();
    match q.try_send(8) {
        Err(SendError::Closed(v)) => assert_eq!(v, 8),
        _ => panic!("expected the queue to be closed"),
    }
    match q.try_recv() {
        RecvResult::Item(v) => assert_eq!(v, 7),
        _ => panic!("expected the buffered item"),
    }
    assert!(matches!(q.try_recv(), RecvResult::Disconnected));
}
