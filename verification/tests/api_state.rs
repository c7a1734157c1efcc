//! Tests of the API-side helpers: caller classification, bot-only route
//! protection, the gateway's forwarded header, snowflake validation, the
//! mutual-guilds intersection, and the plain schema row types.

use bot_gateway::check_snowflake;
use bot_gateway::schema::config::{GuildSettings, GuildSettingsData, SupportedLanguages};
use bot_gateway::schema::guild::setting::GuildSettingsSchema;
use bot_gateway::schema::guild::{GuildData, Guilds};
use bot_gateway::services::guilds::{mutual_guilds, PartialDiscordGuild};
use bot_gateway::state::user::{Bot, RequestedUser, User};

#[test]
fn snowflakes_are_17_to_19_digits() {
    assert!(check_snowflake("12345678901234567"));
    assert!(check_snowflake("123456789012345678"));
    assert!(check_snowflake("1234567890123456789"));
    assert!(!check_snowflake("1234567890123456"));
    assert!(!check_snowflake("12345678901234567890"));
    assert!(!check_snowflake("12345678901234567a"));
    assert!(!check_snowflake(""));
}

#[test]
fn client_header_classifies_the_bot() {
    let r = RequestedUser::classify_client(Some("DiscordBot abc123"));
    assert!(r.is_bot());
    if let RequestedUser::Bot(b) = r {
        assert_eq!(b.token(), "abc123");
    } else {
        unreachable!();
    }

    assert!(RequestedUser::classify_client(None).is_user());
    assert!(RequestedUser::classify_client(Some("DiscordBot")).is_user());
    assert!(RequestedUser::classify_client(Some("DiscordBot a b")).is_user());
    assert!(RequestedUser::classify_client(Some("Browser")).is_user());
}

#[test]
fn bot_protection_refuses_everyone_else() {
    let bot = RequestedUser::Bot(Bot::new("t".to_string()));
    assert!(bot.bot_protection("Set AFK Status").is_ok());

    let user = RequestedUser::User;
    let (code, msg) = user.bot_protection("Set AFK Status").unwrap_err();
    assert_eq!(code, 403);
    assert_eq!(msg, "Set AFK Status is only available to registered bots");
}

#[test]
fn gateway_header_follows_the_caller() {
    let token = "tok".to_string();
    let with_token = RequestedUser::UserWithToken(User::new("a".to_string()));
    assert_eq!(with_token.gateway_user_agent("123", &token).unwrap(), "DiscordGuild/123");

    let right_bot = RequestedUser::Bot(Bot::new("tok".to_string()));
    assert_eq!(right_bot.gateway_user_agent("123", &token).unwrap(), "DiscordBot");

    let wrong_bot = RequestedUser::Bot(Bot::new("nope".to_string()));
    assert_eq!(wrong_bot.gateway_user_agent("123", &token), Err(401));

    assert_eq!(RequestedUser::User.gateway_user_agent("123", &token), Err(401));
}

fn guild(id: &str) -> PartialDiscordGuild {
    PartialDiscordGuild {
        id: id.to_string(),
        name: format!("guild {id}"),
        icon: None,
        banner: None,
        owner: false,
        permissions: "0".to_string(),
        features: Vec::new(),
        approximate_member_count: None,
        approximate_presence_count: None,
    }
}

#[test]
fn mutual_guilds_intersect_by_id() {
    let mine = vec![guild("1"), guild("2"), guild("3")];
    let others = vec![guild("3"), guild("1")];
    let mutual = mutual_guilds(mine, &others);
    let ids: Vec<&str> = mutual.iter().map(|g| g.id.as_str()).collect();
    assert_eq!(ids, vec!["1", "3"]);

    assert!(mutual_guilds(vec![guild("9")], &Vec::new()).is_empty());
}

#[test]
fn guild_settings_data_round_trips_through_its_setters() {
    let mut s = GuildSettingsData::new("g1".to_string(), "?", SupportedLanguages::English);
    assert_eq!(s.id(), "g1");
    assert_eq!(s.prefix(), "?");
    assert_eq!(s.language(), "en");
    s.set_prefix("!".to_string());
    s.set_language("en".to_string());
    assert_eq!(s.prefix(), "!");
    let copy = s.to_owned();
    assert_eq!(copy.id(), "g1");

    let d = GuildSettingsData::default("g2".to_string());
    assert_eq!(d.prefix(), "!");
    assert_eq!(d.language(), "en");
}

#[test]
fn guild_data_round_trips_through_its_setters() {
    let mut g = GuildData::new("42".to_string(), true);
    assert_eq!(g.id(), "42");
    assert!(g.enabled());
    g.set_enabled(false);
    g.set_id("43".to_string());
    assert!(!g.enabled());
    assert_eq!(g.to_owned().id(), "43");
}

#[test]
fn column_enums_spell_their_schema_names() {
    assert_eq!(Guilds::Table.unquoted(), "guilds");
    assert_eq!(Guilds::Id.unquoted(), "id");
    assert_eq!(Guilds::Enabled.unquoted(), "enabled");
    assert_eq!(GuildSettings::Table.unquoted(), "guild_settings");
    assert_eq!(GuildSettings::Prefix.unquoted(), "prefix");
    assert_eq!(SupportedLanguages::English.to_string(), "en");
    assert_eq!(SupportedLanguages::default(), SupportedLanguages::English);
}

#[test]
fn default_guild_settings_schema_row() {
    let row = GuildSettingsSchema::default("guild9".to_string());
    assert_eq!(row.id, "guild9");
    assert_eq!(row.prefix, "!");
    assert_eq!(row.language, "en");
    assert!(row.colour.is_none());
}
