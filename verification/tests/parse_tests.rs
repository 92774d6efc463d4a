use sensors_gateway::klimalogger;
use sensors_gateway::shelly::{parse, CoverData, SwitchData, Timestamped};
use sensors_gateway::Message;

fn message(topic: &str, payload: &str) -> Message {
    Message::new(topic.to_string(), payload.as_bytes().to_vec())
}

#[test]
fn test_parse() -> Result<(), &'static str> {
    let topic = "klimalogger";
    let payload = "{\"location\": \"Kinderzimmer 1\", \"type\": \"temperature\", \"unit\": \"\u{00b0C}\", \"sensor\": \"BME680\", \"calculated\": false, \"time\": 1701292592, \"value\": 19.45}";

    let msg = message(topic, payload);
    let data = klimalogger::parse(&msg)?.unwrap();

    assert_eq!(data.timestamp, 1701292592);
    assert_eq!(data.sensor, "BME680");

    Ok(())
}

#[test]
fn test_parse_error() -> Result<(), &'static str> {
    let topic = "klimalogger";
    let payload = "{\"host\": \"dana\", \"location\": \"Kinderzimmer 1\", \"type\": \"temperature\", \"unit\": \"\u{00b0C}\", \"sensor\": \"BME680\", \"calculated\": false, \"time\": \"foo\", \"value\": 19.45}";

    let msg = message(topic, payload);
    let error = klimalogger::parse(&msg).err().unwrap();

    assert_eq!(error, "could not deserialize JSON");

    Ok(())
}

#[test]
fn test_parse_switch_status() -> Result<(), &'static str> {
    let msg = message(
        "shellies/loo-fan/status/switch:0",
        "{\"id\":0, \"source\":\"timer\", \"output\":false, \"apower\":0.0, \"voltage\":226.5, \"current\":3.1, \"aenergy\":{\"total\":1094.865,\"by_minute\":[0.000,0.000,0.000],\"minute_ts\":1703415907},\"temperature\":{\"tC\":36.4, \"tF\":97.5}}",
    );
    let result: SwitchData = parse(&msg)?.unwrap();

    assert_eq!(result.output, false);
    assert_eq!(result.power, (0.0f64).to_bits());
    assert_eq!(result.voltage, (226.5f64).to_bits());
    assert_eq!(result.current, (3.1f64).to_bits());
    assert_eq!(result.energy.total, (1094.865f64).to_bits());
    assert_eq!(result.temperature.t_celsius, (36.4f64).to_bits());

    Ok(())
}

#[test]
fn test_parse_cover_status() -> Result<(), &'static str> {
    let msg = message(
        "shellies/bedroom-curtain/status/cover:0",
        "{\"id\":0, \"source\":\"limit_switch\", \"state\":\"open\",\"apower\":0.0,\"voltage\":231.7,\"current\":0.500,\"pf\":0.00,\"freq\":50.0,\"aenergy\":{\"total\":3.143,\"by_minute\":[0.000,0.000,97.712],\"minute_ts\":1703414519},\"temperature\":{\"tC\":30.7, \"tF\":87.3},\"pos_control\":true,\"last_direction\":\"open\",\"current_pos\":100}",
    );
    let result: CoverData = parse(&msg)?.unwrap();

    assert_eq!(result.position, Some(100));
    assert_eq!(result.power, (0.0f64).to_bits());
    assert_eq!(result.voltage, (231.7f64).to_bits());
    assert_eq!(result.current, (0.5f64).to_bits());
    assert_eq!(result.energy.total, (3.143f64).to_bits());
    assert_eq!(result.temperature.t_celsius, (30.7f64).to_bits());
    assert_eq!(result.energy.minute_ts.unwrap(), 1703414519);

    Ok(())
}

#[test]
fn test_parse_cover_status_without_timestamp() -> Result<(), &'static str> {
    let msg = message(
        "shellies/bedroom-curtain/status/cover:0",
        "{\"id\":0, \"source\":\"limit_switch\", \"state\":\"open\",\"apower\":0.0,\"voltage\":231.7,\"current\":0.500,\"pf\":0.00,\"freq\":50.0,\"aenergy\":{\"total\":3.143,\"by_minute\":[0.000,0.000,97.712]},\"temperature\":{\"tC\":30.7, \"tF\":87.3},\"pos_control\":true,\"last_direction\":\"open\",\"current_pos\":100}",
    );
    let result: CoverData = parse(&msg)?.unwrap();

    assert!(result.energy.minute_ts.is_none());

    Ok(())
}

#[test]
fn test_parse_cover_status_without_position() -> Result<(), &'static str> {
    let msg = message(
        "shellies/bedroom-curtain/status/cover:0",
        "{\"id\":0, \"source\":\"limit_switch\", \"state\":\"open\",\"apower\":0.0,\"voltage\":231.7,\"current\":0.500,\"pf\":0.00,\"freq\":50.0,\"aenergy\":{\"total\":3.143,\"by_minute\":[0.000,0.000,97.712],\"minute_ts\":1703414519},\"temperature\":{\"tC\":30.7, \"tF\":87.3},\"pos_control\":true,\"last_direction\":\"open\"}",
    );
    let result: CoverData = parse(&msg)?.unwrap();

    assert!(result.position.is_none());

    Ok(())
}

#[test]
fn timestamp_comes_from_the_energy_block() -> Result<(), &'static str> {
    let msg = message(
        "shellies/loo-fan/status/switch:0",
        "{\"output\":true,\"apower\":1.5,\"voltage\":226.5,\"current\":3.1,\"aenergy\":{\"total\":1094.865,\"minute_ts\":1703415907},\"temperature\":{\"tC\":36.4}}",
    );
    let result: SwitchData = parse(&msg)?.unwrap();
    assert_eq!(result.timestamp(), Some(1703415907));
    Ok(())
}

#[test]
fn round_trip_decode_is_stable_under_reencoding() -> Result<(), &'static str> {
    // The same sample, once as the device sends it (extra fields and
    // all) and once as the decoder's own shape re-encodes it: only the
    // decoded fields, under their wire names, in another order.
    let original = message(
        "shellies/loo-fan/status/switch:0",
        "{\"id\":0, \"source\":\"timer\", \"output\":false, \"apower\":0.0, \"voltage\":226.5, \"current\":3.1, \"aenergy\":{\"total\":1094.865,\"by_minute\":[0.000,0.000,0.000],\"minute_ts\":1703415907},\"temperature\":{\"tC\":36.4, \"tF\":97.5}}",
    );
    let reencoded = message(
        "shellies/loo-fan/status/switch:0",
        "{\"temperature\":{\"tC\":36.4},\"aenergy\":{\"minute_ts\":1703415907,\"total\":1094.865},\"current\":3.1,\"voltage\":226.5,\"apower\":0.0,\"output\":false}",
    );
    let a: SwitchData = parse(&original)?.unwrap();
    let b: SwitchData = parse(&reencoded)?.unwrap();

    assert_eq!(a.output, b.output);
    assert_eq!(a.power, b.power);
    assert_eq!(a.voltage, b.voltage);
    assert_eq!(a.current, b.current);
    assert_eq!(a.energy.total, b.energy.total);
    assert_eq!(a.energy.minute_ts, b.energy.minute_ts);
    assert_eq!(a.temperature.t_celsius, b.temperature.t_celsius);

    Ok(())
}
