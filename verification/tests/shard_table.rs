//! Tests of the shard state table: wholesale cold-start batches, delta
//! upserts by shard id, the latency estimate, and snapshots.

use bot_gateway::shards::{
    get_shards, handle_ping, handle_ping_shard, handle_shard_update, PingPayload,
    ShardPingPayload, ShardUpdatePayload,
};

fn report(id: u32, status: &str, latency: Option<u32>, members: u32) -> ShardUpdatePayload {
    ShardUpdatePayload { shard_id: id, status: status.to_string(), latency_ms: latency, members }
}

#[test]
fn cold_start_then_delta_preserves_both() {
    let mut table: Vec<ShardUpdatePayload> = Vec::new();
    handle_shard_update(&mut table, vec![report(0, "online", Some(12), 5)]);
    handle_shard_update(&mut table, vec![report(1, "starting", None, 0)]);
    assert_eq!(table.len(), 2);
    assert_eq!(table[0], report(0, "online", Some(12), 5));
    assert_eq!(table[1], report(1, "starting", None, 0));
}

#[test]
fn same_id_overwrites_in_place() {
    let mut table: Vec<ShardUpdatePayload> = Vec::new();
    handle_shard_update(&mut table, vec![report(3, "online", Some(40), 7)]);
    handle_shard_update(&mut table, vec![report(3, "degraded", Some(900), 7)]);
    assert_eq!(table.len(), 1);
    assert_eq!(table[0].status, "degraded");
    assert_eq!(table[0].latency_ms, Some(900));
}

#[test]
fn first_batch_replaces_wholesale() {
    let mut table: Vec<ShardUpdatePayload> = Vec::new();
    let batch = vec![report(5, "online", None, 1), report(9, "online", None, 2)];
    handle_shard_update(&mut table, batch.clone());
    assert_eq!(table, batch);
}

#[test]
fn delta_upserts_and_appends() {
    let mut table: Vec<ShardUpdatePayload> = Vec::new();
    handle_shard_update(
        &mut table,
        vec![report(0, "online", Some(10), 3), report(1, "online", Some(20), 4)],
    );
    handle_shard_update(
        &mut table,
        vec![report(1, "offline", None, 4), report(2, "online", Some(30), 6)],
    );
    assert_eq!(table.len(), 3);
    assert_eq!(table[0], report(0, "online", Some(10), 3));
    assert_eq!(table[1], report(1, "offline", None, 4));
    assert_eq!(table[2], report(2, "online", Some(30), 6));
}

#[test]
fn ping_overwrites_latency_and_echoes() {
    let mut latency: Option<i64> = Some(77);
    let pong = handle_ping(&mut latency, PingPayload { timestamp: 123, avg_ping: Some(50) });
    assert_eq!(latency, Some(50));
    assert_eq!(pong, PingPayload { timestamp: 123, avg_ping: Some(50) });

    let pong = handle_ping(&mut latency, PingPayload { timestamp: 124, avg_ping: None });
    assert_eq!(latency, None);
    assert_eq!(pong.avg_ping, None);
}

#[test]
fn combined_batch_updates_table_and_latency() {
    let mut latency: Option<i64> = None;
    let mut table: Vec<ShardUpdatePayload> = Vec::new();
    let payload = ShardPingPayload {
        ping: PingPayload { timestamp: 9, avg_ping: Some(31) },
        shards: vec![report(0, "online", Some(31), 11)],
    };
    let pong = handle_ping_shard(&mut latency, &mut table, payload);
    assert_eq!(latency, Some(31));
    assert_eq!(pong.timestamp, 9);
    assert_eq!(table.len(), 1);
}

#[test]
fn snapshot_copies_the_table() {
    let mut table: Vec<ShardUpdatePayload> = Vec::new();
    handle_shard_update(&mut table, vec![report(0, "online", Some(1), 2)]);
    let snap = get_shards(&table);
    assert_eq!(snap, table);
}
