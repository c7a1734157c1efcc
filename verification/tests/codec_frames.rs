//! Tests of the envelope codec: decoding batch report frames, the two
//! decode failures, and the encoded pong reply, cross-checked against a
//! general-purpose JSON implementation.

use bot_gateway::codec::{decode_batch, decode_envelope, encode_pong, DecodeError,
    SocketReceiveEvent};
use bot_gateway::shards::PingPayload;

const FRAME: &str = "{\"event\":\"BotUpdate\",\"data\":{\"ping\":{\"timestamp\":123,\"avg_ping\":50},\"shards\":[{\"shard_id\":0,\"status\":\"online\",\"latency_ms\":50,\"members\":10}]}}";

#[test]
fn decode_envelope_classifies_bot_update() {
    let r = decode_envelope(FRAME.as_bytes());
    let (event, data_at) = r.expect("well-formed envelope");
    assert_eq!(event, SocketReceiveEvent::BotUpdate);
    assert_eq!(&FRAME[data_at..data_at + 8], "{\"ping\":");
}

#[test]
fn decode_envelope_rejects_unknown_event() {
    let frame = "{\"event\":\"Telemetry\",\"data\":{}}";
    assert_eq!(decode_envelope(frame.as_bytes()), Err(DecodeError::UnknownEvent));
}

#[test]
fn decode_envelope_rejects_malformed_frames() {
    for frame in [
        "",
        "hello",
        "{\"data\":{},\"event\":\"BotUpdate\"}",
        "{\"event\":42,\"data\":{}}",
        "{\"event\":\"BotUpdate\"}",
    ] {
        assert_eq!(
            decode_envelope(frame.as_bytes()),
            Err(DecodeError::MalformedEnvelope),
            "frame: {frame}",
        );
    }
}

#[test]
fn decode_batch_reads_every_field() {
    let (_, data_at) = decode_envelope(FRAME.as_bytes()).unwrap();
    let payload = decode_batch(FRAME.as_bytes(), data_at).expect("payload decodes");
    assert_eq!(payload.ping.timestamp, 123);
    assert_eq!(payload.ping.avg_ping, Some(50));
    assert_eq!(payload.shards.len(), 1);
    assert_eq!(payload.shards[0].shard_id, 0);
    assert_eq!(payload.shards[0].status, "online");
    assert_eq!(payload.shards[0].latency_ms, Some(50));
    assert_eq!(payload.shards[0].members, 10);
}

#[test]
fn decode_batch_handles_nulls_negatives_and_empty_lists() {
    let frame = "{\"event\":\"BotUpdate\",\"data\":{\"ping\":{\"timestamp\":-7,\"avg_ping\":null},\"shards\":[]}}";
    let (_, data_at) = decode_envelope(frame.as_bytes()).unwrap();
    let payload = decode_batch(frame.as_bytes(), data_at).expect("payload decodes");
    assert_eq!(payload.ping.timestamp, -7);
    assert_eq!(payload.ping.avg_ping, None);
    assert!(payload.shards.is_empty());
}

#[test]
fn decode_batch_drops_malformed_payloads() {
    for data in [
        "{}",
        "{\"ping\":{\"timestamp\":1,\"avg_ping\":2}}",
        "{\"ping\":{\"timestamp\":1,\"avg_ping\":2},\"shards\":[}}",
        "{\"ping\":{\"timestamp\":99999999999999999999,\"avg_ping\":2},\"shards\":[]}",
    ] {
        let frame = format!("{{\"event\":\"BotUpdate\",\"data\":{data}}}");
        let (_, data_at) = decode_envelope(frame.as_bytes()).unwrap();
        assert!(decode_batch(frame.as_bytes(), data_at).is_none(), "data: {data}");
    }
}

#[test]
fn encode_pong_echoes_the_report() {
    let pong = encode_pong(&PingPayload { timestamp: 123, avg_ping: Some(50) });
    assert_eq!(
        String::from_utf8(pong).unwrap(),
        "{\"event\":\"BotPong\",\"data\":{\"timestamp\":123,\"avg_ping\":50}}",
    );

    let pong = encode_pong(&PingPayload { timestamp: -4, avg_ping: None });
    assert_eq!(
        String::from_utf8(pong).unwrap(),
        "{\"event\":\"BotPong\",\"data\":{\"timestamp\":-4,\"avg_ping\":null}}",
    );
}

#[test]
fn encoded_pong_is_json_a_general_parser_accepts() {
    let pong = encode_pong(&PingPayload { timestamp: 9_999_999_999, avg_ping: Some(-3) });
    let v: serde_json::Value = serde_json::from_slice(&pong).expect("valid JSON");
    assert_eq!(v["event"], serde_json::Value::String("BotPong".to_string()));
    assert_eq!(v["data"]["timestamp"], serde_json::Value::from(9_999_999_999i64));
    assert_eq!(v["data"]["avg_ping"], serde_json::Value::from(-3i64));
}

#[test]
fn numeric_fields_take_at_most_nine_or_eighteen_digits() {
    let frame = "{\"event\":\"BotUpdate\",\"data\":{\"ping\":{\"timestamp\":999999999999999999,\"avg_ping\":null},\"shards\":[{\"shard_id\":999999999,\"status\":\"x\",\"latency_ms\":null,\"members\":1}]}}";
    let (_, data_at) = decode_envelope(frame.as_bytes()).unwrap();
    let payload = decode_batch(frame.as_bytes(), data_at).expect("payload decodes");
    assert_eq!(payload.ping.timestamp, 999_999_999_999_999_999);
    assert_eq!(payload.shards[0].shard_id, 999_999_999);

    // A tenth digit on an unsigned field is rejected.
    let frame = "{\"event\":\"BotUpdate\",\"data\":{\"ping\":{\"timestamp\":1,\"avg_ping\":null},\"shards\":[{\"shard_id\":1000000000,\"status\":\"x\",\"latency_ms\":null,\"members\":1}]}}";
    let (_, data_at) = decode_envelope(frame.as_bytes()).unwrap();
    assert!(decode_batch(frame.as_bytes(), data_at).is_none());
}
