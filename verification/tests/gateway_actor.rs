//! Tests of the gateway relay actor: connection classification, the
//! cold-start seed, message relay with its pong reply, the wake-up drain
//! pass, and the status query — including the end-to-end flow of a bot
//! and a dashboard client.

use bot_gateway::actor::{BotDurable, BotDurableTag, ClassificationError};

const BATCH_FRAME: &str = "{\"event\":\"BotUpdate\",\"data\":{\"ping\":{\"timestamp\":123,\"avg_ping\":50},\"shards\":[{\"shard_id\":0,\"status\":\"online\",\"latency_ms\":50,\"members\":10}]}}";

#[test]
fn guild_header_registers_guild_tags() {
    let mut actor = BotDurable::new();
    let out = actor
        .websocket_upgrade_at(Some("DiscordGuild/123"), 7, 1_000)
        .expect("guild clients are accepted");
    assert_eq!(out.tags, vec!["guild".to_string(), "123".to_string()]);
}

#[test]
fn bot_header_registers_bot_tag() {
    let mut actor = BotDurable::new();
    let out = actor
        .websocket_upgrade_at(Some("DiscordBot"), 1, 1_000)
        .expect("the bot is accepted");
    assert_eq!(out.tags, vec!["bot".to_string()]);
    assert!(out.notice.is_none());
}

#[test]
fn missing_or_unknown_header_is_rejected() {
    let mut actor = BotDurable::new();
    assert_eq!(
        actor.websocket_upgrade_at(None, 1, 1_000).err(),
        Some(ClassificationError::MissingHeader),
    );
    assert_eq!(
        actor.websocket_upgrade_at(Some("Mozilla/5.0"), 1, 1_000).err(),
        Some(ClassificationError::UnrecognizedClient),
    );
    assert_eq!(
        actor.websocket_upgrade_at(Some("DiscordGuild"), 1, 1_000).err(),
        Some(ClassificationError::UnrecognizedClient),
    );
}

#[test]
fn first_connection_seeds_the_timer_queue() {
    let mut actor = BotDurable::new();
    let out = actor.websocket_upgrade_at(Some("DiscordBot"), 1, 1_000).unwrap();
    assert_eq!(out.wake_at, Some(61_000));
    // A later connection does not seed again.
    let out = actor.websocket_upgrade_at(Some("DiscordGuild/42"), 2, 2_000).unwrap();
    assert_eq!(out.wake_at, None);
}

#[test]
fn end_to_end_bot_then_guild_then_batch() {
    let mut actor = BotDurable::new();

    // The bot connects first and seeds one action at now + 60000 ms.
    let out = actor.websocket_upgrade_at(Some("DiscordBot"), 1, 1_000).unwrap();
    assert_eq!(out.wake_at, Some(61_000));

    // Guild 42 connects: no new seed, and the bot is notified.
    let out = actor.websocket_upgrade_at(Some("DiscordGuild/42"), 2, 2_000).unwrap();
    assert_eq!(out.wake_at, None);
    let (targets, msg) = out.notice.expect("the bot gets a notice");
    assert_eq!(targets, vec![1]);
    assert_eq!(msg, "Guild 42 connected to bot");

    // The bot reports one shard; the actor replies with a pong echoing
    // the report on the same connection.
    let reply = actor.websocket_message(BATCH_FRAME.as_bytes()).expect("a pong comes back");
    assert_eq!(
        String::from_utf8(reply).unwrap(),
        "{\"event\":\"BotPong\",\"data\":{\"timestamp\":123,\"avg_ping\":50}}",
    );

    // The status query shows the reported shard.
    let shards = actor.get_shards();
    assert_eq!(shards.len(), 1);
    assert_eq!(shards[0].shard_id, 0);
    assert_eq!(shards[0].status, "online");
    assert_eq!(shards[0].latency_ms, Some(50));
    assert_eq!(shards[0].members, 10);
    assert_eq!(actor.latency(), Some(50));
}

#[test]
fn dropped_frames_change_nothing() {
    let mut actor = BotDurable::new();
    actor.websocket_upgrade_at(Some("DiscordBot"), 1, 1_000).unwrap();
    assert!(actor.websocket_message(b"not json").is_none());
    assert!(actor.websocket_message(b"{\"event\":\"Nope\",\"data\":{}}").is_none());
    assert!(actor.websocket_message(b"{\"event\":\"BotUpdate\",\"data\":{}}").is_none());
    assert!(actor.get_shards().is_empty());
    assert_eq!(actor.latency(), None);
}

#[test]
fn wakeup_drains_due_actions_and_rearms_or_cancels() {
    let mut actor = BotDurable::new();
    actor.websocket_upgrade_at(Some("DiscordBot"), 1, 1_000).unwrap();
    // Fire before the seed is due: nothing drains, the wake-up stays.
    assert_eq!(actor.handle_system_alarm_at(60_999), Some(61_000));
    // Fire at the due time: the only action runs (and fails quietly,
    // scheduling no follow-up), so the wake-up is cancelled.
    assert_eq!(actor.handle_system_alarm_at(61_000), None);
    assert_eq!(actor.handle_system_alarm_at(70_000), None);
}

#[test]
fn close_and_error_remove_the_session() {
    let mut actor = BotDurable::new();
    actor.websocket_upgrade_at(Some("DiscordBot"), 1, 1_000).unwrap();
    actor.websocket_upgrade_at(Some("DiscordGuild/42"), 2, 2_000).unwrap();
    actor.websocket_close(2);
    let out = actor.websocket_upgrade_at(Some("DiscordGuild/43"), 3, 3_000).unwrap();
    let (targets, _) = out.notice.unwrap();
    assert_eq!(targets, vec![1]);
    actor.websocket_error(1);
    let out = actor.websocket_upgrade_at(Some("DiscordGuild/44"), 4, 4_000).unwrap();
    let (targets, _) = out.notice.unwrap();
    assert_eq!(targets, Vec::<u64>::new());
}

#[test]
fn clocked_upgrade_seeds_a_minute_from_a_real_clock() {
    let mut actor = BotDurable::new();
    let out = actor.websocket_upgrade(Some("DiscordBot"), 1).unwrap();
    // The wall clock is after the epoch, so the seed lands at or after
    // one minute from it.
    assert!(out.wake_at.unwrap() >= 60_000);
}

#[test]
fn role_tags_spell_their_names() {
    assert_eq!(BotDurableTag::Bot.as_str(), "bot");
    assert_eq!(BotDurableTag::Dashboard.as_str(), "dashboard");
}

#[test]
fn seed_time_saturates_at_the_end_of_the_clock() {
    let mut actor = BotDurable::new();
    let out = actor.websocket_upgrade_at(Some("DiscordBot"), 1, i64::MAX - 1_000).unwrap();
    assert_eq!(out.wake_at, Some(i64::MAX));
}
