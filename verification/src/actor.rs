//! The gateway relay actor: a single addressable unit of state that
//! classifies inbound WebSocket connections, relays envelope-coded events
//! between the bot process and dashboard clients, aggregates shard
//! telemetry, and drives the self-rescheduling timer queue.
//!
//! The host delivers three kinds of events — connection upgrades, inbound
//! messages, and the wake-up callback — and guarantees that no two run
//! concurrently against one instance.  Each handler here is a decision
//! function: it updates the actor's own state and returns the actions the
//! host must perform (arm or re-arm the wake-up, send frames).

use vstd::prelude::*;

use crate::codec::{
    decode_batch, decode_envelope, encode_pong, spec_decode_data, spec_decode_envelope,
    spec_encode_pong, shard_matches, SocketReceiveEvent,
};
use crate::registry::{session_index, spec_targets, Session, SessionRegistry};
use crate::shards::{
    get_shards, handle_ping_shard, spec_apply_batch, PingPayload, ShardPingPayload,
    ShardUpdatePayload,
};
use crate::timer::{
    spec_next_wakeup, ScheduledAlarm, TimerEntry, TimerQueue, lemma_drain_exact,
};

verus! {

/// Role labels a session can be registered under.
#[derive(Debug, Clone, Copy, PartialEq, Eq, Structural)]
pub enum BotDurableTag {
    Bot,
    Dashboard,
}

impl BotDurableTag {
    /// The tag string of this role.
    pub fn as_str(&self) -> (r: String)
        ensures
            *self is Bot ==> r@ == "bot"@,
            *self is Dashboard ==> r@ == "dashboard"@,
    {
        match self {
            BotDurableTag::Bot => String::from_str("bot"),
            BotDurableTag::Dashboard => String::from_str("dashboard"),
        }
    }
}

/// Why a connection upgrade was refused.
#[derive(Debug, Clone, Copy, PartialEq, Eq, Structural)]
pub enum ClassificationError {
    /// No identifying header was sent.
    MissingHeader,
    /// The identifying header matches no known caller shape.
    UnrecognizedClient,
}

/// Processing a scheduled action failed.
#[derive(Debug, Clone, Copy, PartialEq, Eq, Structural)]
pub enum AlarmError {
    /// No executor is registered for this alarm kind.
    UnrecognizedAlarm,
}

/// The follow-up action an executed alarm schedules, by kind.  No alarm
/// kind has a registered executor yet, so none schedules one.
pub open spec fn alarm_followup(a: ScheduledAlarm) -> Option<(i64, ScheduledAlarm)> {
    None
}

/// Executes one scheduled action.  An action of a kind with no registered
/// executor reports an error, which the drain pass logs and swallows.
pub fn process_alarm(alarm: ScheduledAlarm) -> (r: Result<(i64, ScheduledAlarm), AlarmError>)
    ensures
        r matches Ok(x) ==> alarm_followup(alarm) == Some(x),
        r is Err <==> alarm_followup(alarm) is None,
{
    match alarm {
        ScheduledAlarm::DatabaseSync => Err(AlarmError::UnrecognizedAlarm),
    }
}

/// The caller identifies as the bot process.
pub open spec fn is_bot_agent(ua: Seq<char>) -> bool {
    ua == "DiscordBot"@
}

/// The caller identifies as a dashboard client: `DiscordGuild/<id>`.
pub open spec fn is_guild_agent(ua: Seq<char>) -> bool {
    ua.len() >= 13 && ua.subrange(0, 13) == "DiscordGuild/"@
}

/// The guild id carried by a dashboard client's identifying header.
pub open spec fn guild_id_of(ua: Seq<char>) -> Seq<char> {
    ua.subrange(13, ua.len() as int)
}

/// Checks whether the header value is exactly `DiscordBot`.
fn agent_is_bot(ua: &str) -> (r: bool)
    ensures
        r == is_bot_agent(ua@),
{
    proof {
        reveal_strlit("DiscordBot");
    }
    let n = ua.unicode_len();
    if n != 10 {
        proof {
            assert(ua@ != "DiscordBot"@);
        }
        return false;
    }
    let r = ua.get_char(0) == 'D' && ua.get_char(1) == 'i' && ua.get_char(2) == 's'
        && ua.get_char(3) == 'c' && ua.get_char(4) == 'o' && ua.get_char(5) == 'r'
        && ua.get_char(6) == 'd' && ua.get_char(7) == 'B' && ua.get_char(8) == 'o'
        && ua.get_char(9) == 't';
    proof {
        if r {
            assert(ua@ =~= "DiscordBot"@);
        } else {
            assert(ua@ != "DiscordBot"@);
        }
    }
    r
}

/// Checks whether the header value starts with `DiscordGuild/`.
fn agent_is_guild(ua: &str) -> (r: bool)
    ensures
        r == is_guild_agent(ua@),
{
    proof {
        reveal_strlit("DiscordGuild/");
    }
    let n = ua.unicode_len();
    if n < 13 {
        return false;
    }
    let r = ua.get_char(0) == 'D' && ua.get_char(1) == 'i' && ua.get_char(2) == 's'
        && ua.get_char(3) == 'c' && ua.get_char(4) == 'o' && ua.get_char(5) == 'r'
        && ua.get_char(6) == 'd' && ua.get_char(7) == 'G' && ua.get_char(8) == 'u'
        && ua.get_char(9) == 'i' && ua.get_char(10) == 'l' && ua.get_char(11) == 'd'
        && ua.get_char(12) == '/';
    proof {
        let p = ua@.subrange(0, 13);
        if r {
            assert(p =~= "DiscordGuild/"@);
        } else {
            assert(p[0] == ua@[0]);
            assert(p[1] == ua@[1]);
            assert(p[2] == ua@[2]);
            assert(p[3] == ua@[3]);
            assert(p[4] == ua@[4]);
            assert(p[5] == ua@[5]);
            assert(p[6] == ua@[6]);
            assert(p[7] == ua@[7]);
            assert(p[8] == ua@[8]);
            assert(p[9] == ua@[9]);
            assert(p[10] == ua@[10]);
            assert(p[11] == ua@[11]);
            assert(p[12] == ua@[12]);
        }
    }
    r
}

/// The time the cold-start seed executes: one minute after `now`,
/// saturating at the far end of the clock.
pub open spec fn seed_time(now: i64) -> i64 {
    if now + 60000 <= i64::MAX {
        (now + 60000) as i64
    } else {
        i64::MAX
    }
}

/// What a successful connection upgrade tells the host to do.
pub struct UpgradeOutcome {
    /// The tags the new session was registered under.
    pub tags: Vec<String>,
    /// Arm the platform wake-up at this time (cold-start seed), if set.
    pub wake_at: Option<i64>,
    /// A plain-text notice to deliver, with its target sessions.
    pub notice: Option<(Vec<u64>, String)>,
}

/// The views of a tag list.
pub open spec fn tag_views(tags: Seq<String>) -> Seq<Seq<char>> {
    tags.map_values(|t: String| t@)
}

/// The tags a caller is registered under, by classification.
pub open spec fn spec_tags_for(ua: Seq<char>) -> Seq<Seq<char>> {
    if is_bot_agent(ua) {
        seq!["bot"@]
    } else {
        seq!["guild"@, guild_id_of(ua)]
    }
}

/// The registry after registering session `id` under tags with the given
/// views: an unknown handle is appended, a known one has its tags
/// replaced in place, and every other session is untouched.
pub open spec fn registered_with(
    pre: Seq<Session>,
    post: Seq<Session>,
    id: u64,
    views: Seq<Seq<char>>,
) -> bool {
    let idx = session_index(pre, id);
    if idx == -1 {
        &&& post.len() == pre.len() + 1
        &&& post.subrange(0, pre.len() as int) == pre
        &&& post.last().id == id
        &&& tag_views(post.last().tags@) == views
    } else {
        &&& post.len() == pre.len()
        &&& forall|j: int| 0 <= j < pre.len() && j != idx ==> post[j] == #[trigger] pre[j]
        &&& post[idx].id == id
        &&& tag_views(post[idx].tags@) == views
    }
}

/// The gateway relay actor's state: its timer queue, shard state table,
/// latency estimate and session registry.
pub struct BotDurable {
    pub alarms: TimerQueue,
    pub shards: Vec<ShardUpdatePayload>,
    pub avg_latency: Option<i64>,
    pub registry: SessionRegistry,
}

/// Full description of one connection-upgrade transition at time `now`.
pub open spec fn upgrade_post(
    pre: BotDurable,
    post: BotDurable,
    user_agent: Option<&str>,
    session_id: u64,
    now: i64,
    r: Result<UpgradeOutcome, ClassificationError>,
) -> bool {
    &&& post.shards == pre.shards
    &&& post.avg_latency == pre.avg_latency
    &&& (r == Err::<UpgradeOutcome, _>(ClassificationError::MissingHeader) <==> user_agent
        is None)
    &&& (r == Err::<UpgradeOutcome, _>(ClassificationError::UnrecognizedClient) <==> (
    user_agent matches Some(ua) && !is_bot_agent(ua@) && !is_guild_agent(ua@)))
    &&& (r is Err ==> post == pre)
    &&& (r matches Ok(out) ==> {
        let ua = user_agent->Some_0@;
        &&& user_agent is Some
        &&& (is_bot_agent(ua) || is_guild_agent(ua))
        &&& tag_views(out.tags@) == spec_tags_for(ua)
        &&& registered_with(pre.registry@, post.registry@, session_id, spec_tags_for(ua))
        &&& (pre.alarms@.len() == 0 ==> post.alarms@ == seq![
            (TimerEntry { at: seed_time(now), alarm: ScheduledAlarm::DatabaseSync }),
        ] && out.wake_at == Some(seed_time(now)))
        &&& (pre.alarms@.len() > 0 ==> post.alarms@ == pre.alarms@ && out.wake_at is None)
        &&& (is_bot_agent(ua) ==> out.notice is None)
        &&& (!is_bot_agent(ua) ==> (out.notice matches Some((targets, msg)) && targets@
            == spec_targets(post.registry@, "bot"@) && msg@ == "Guild "@ + guild_id_of(ua)
            + " connected to bot"@))
    })
}

/// Full description of one wake-up drain pass at time `now`.
pub open spec fn alarm_post(pre: BotDurable, post: BotDurable, now: i64, wake: Option<i64>) -> bool {
    &&& post.shards == pre.shards
    &&& post.avg_latency == pre.avg_latency
    &&& post.registry == pre.registry
    &&& post.alarms@ == pre.alarms@.filter(|e: TimerEntry| e.at > now)
    &&& wake == spec_next_wakeup(post.alarms@)
}

impl BotDurable {
    pub open spec fn wf(&self) -> bool {
        &&& self.alarms.wf()
        &&& self.registry.wf()
    }

    /// A freshly activated actor: no sessions, no shard state, no pending
    /// actions.  In-memory state does not survive eviction, so the host
    /// reconstructs instances through this.
    pub fn new() -> (a: BotDurable)
        ensures
            a.wf(),
            a.alarms@ == Seq::<TimerEntry>::empty(),
            a.shards@ == Seq::<ShardUpdatePayload>::empty(),
            a.avg_latency is None,
            a.registry@ == Seq::<Session>::empty(),
    {
        BotDurable {
            alarms: TimerQueue::new(),
            shards: Vec::new(),
            avg_latency: None,
            registry: SessionRegistry::new(),
        }
    }

    /// Classifies an inbound connection upgrade by its identifying header
    /// and registers the session, at an explicit current time.
    ///
    /// `DiscordBot` is the bot process, registered under the `bot` tag;
    /// `DiscordGuild/<id>` is a dashboard client, registered under the
    /// `guild` tag and its guild id, with a notice for the bot sessions;
    /// a missing or unrecognized header refuses the upgrade.  The very
    /// first accepted connection (the timer queue being empty) seeds the
    /// initial scheduled actions one minute ahead and asks the host for a
    /// wake-up then.
    pub fn websocket_upgrade_at(
        &mut self,
        user_agent: Option<&str>,
        session_id: u64,
        now: i64,
    ) -> (r: Result<UpgradeOutcome, ClassificationError>)
        requires
            old(self).wf(),
        ensures
            final(self).wf(),
            upgrade_post(*old(self), *final(self), user_agent, session_id, now, r),
    {
        let ua = match user_agent {
            None => {
                return Err(ClassificationError::MissingHeader);
            },
            Some(ua) => ua,
        };
        let is_bot = agent_is_bot(ua);
        let is_guild = agent_is_guild(ua);
        if !is_bot && !is_guild {
            return Err(ClassificationError::UnrecognizedClient);
        }
        let mut tags: Vec<String> = Vec::new();
        if is_bot {
            tags.push(String::from_str("bot"));
            proof {
                assert(tag_views(tags@) =~= seq!["bot"@]);
            }
        } else {
            let n = ua.unicode_len();
            let id = ua.substring_char(13, n).to_owned();
            tags.push(String::from_str("guild"));
            tags.push(id);
            proof {
                assert(tag_views(tags@) =~= seq!["guild"@, guild_id_of(ua@)]);
            }
        }
        let wake_at = if self.alarms.is_empty() {
            let execute_time = if now <= i64::MAX - 60000 {
                now + 60000
            } else {
                i64::MAX
            };
            let initial = ScheduledAlarm::initial_alarms();
            let ghost pre_alarms = self.alarms@;
            let mut k: usize = 0;
            while k < initial.len()
                invariant
                    self.alarms.wf(),
                    self.registry == old(self).registry,
                    self.shards == old(self).shards,
                    self.avg_latency == old(self).avg_latency,
                    old(self).registry.wf(),
                    initial@ == seq![ScheduledAlarm::DatabaseSync],
                    0 <= k <= initial@.len(),
                    k == 0 ==> self.alarms@ == Seq::<TimerEntry>::empty(),
                    k > 0 ==> self.alarms@ == seq![
                        (TimerEntry {
                            at: execute_time,
                            alarm: ScheduledAlarm::DatabaseSync,
                        }),
                    ],
                decreases initial@.len() - k,
            {
                let alarm = initial[k];
                self.alarms.schedule(alarm, execute_time);
                proof {
                    assert(self.alarms@ =~= seq![
                        (TimerEntry { at: execute_time, alarm: ScheduledAlarm::DatabaseSync }),
                    ]);
                }
                k = k + 1;
            }
            Some(execute_time)
        } else {
            None
        };
        let tags_for_registry = clone_tags(&tags);
        let ghost reg0 = self.registry@;
        self.registry.register(session_id, tags_for_registry);
        proof {
            let entry = (Session { id: session_id, tags: tags_for_registry });
            crate::registry::lemma_session_index(reg0, session_id);
            let idx = session_index(reg0, session_id);
            if idx == -1 {
                assert(self.registry@ == reg0.push(entry));
                assert(self.registry@.subrange(0, reg0.len() as int) =~= reg0);
                assert(self.registry@.last() == entry);
            } else {
                assert(self.registry@ == reg0.update(idx, entry));
                assert(forall|j: int|
                    0 <= j < reg0.len() && j != idx ==> self.registry@[j] == #[trigger] reg0[j]);
                assert(self.registry@[idx] == entry);
            }
            assert(tag_views(tags_for_registry@) == tag_views(tags@));
            assert(registered_with(reg0, self.registry@, session_id, tag_views(tags@)));
        }
        let notice = if is_bot {
            None
        } else {
            let n = ua.unicode_len();
            let id = ua.substring_char(13, n).to_owned();
            let targets = self.registry.broadcast(&String::from_str("bot"));
            let mut msg = String::from_str("Guild ");
            msg.append(id.as_str());
            msg.append(" connected to bot");
            Some((targets, msg))
        };
        Ok(UpgradeOutcome { tags, wake_at, notice })
    }

    /// Handles one inbound text frame on an established session.
    ///
    /// The envelope is decoded first; a malformed envelope or an unknown
    /// event only drops the frame (the connection stays open).  A batch
    /// report whose payload decodes is applied to the shard state table
    /// and the latency estimate, and the pong reply to send back on the
    /// same session is returned.
    pub fn websocket_message(&mut self, frame: &[u8]) -> (reply: Option<Vec<u8>>)
        requires
            old(self).wf(),
        ensures
            final(self).wf(),
            final(self).alarms == old(self).alarms,
            final(self).registry == old(self).registry,
            match spec_decode_envelope(frame@) {
                Err(_) => *final(self) == *old(self) && reply is None,
                Ok((ev, d)) => match spec_decode_data(frame@, d) {
                    None => *final(self) == *old(self) && reply is None,
                    Some((ping, ts)) => {
                        &&& exists|reports: Seq<ShardUpdatePayload>|
                            reports.len() == ts.len() && (forall|m: int|
                                0 <= m < ts.len() ==> shard_matches(
                                    #[trigger] reports[m],
                                    ts[m],
                                )) && final(self).shards@ == spec_apply_batch(
                                old(self).shards@,
                                reports,
                            )
                        &&& final(self).avg_latency == ping.1
                        &&& reply matches Some(f) && f@ == spec_encode_pong(
                            (PingPayload { timestamp: ping.0, avg_ping: ping.1 }),
                        )
                    },
                },
            },
    {
        let (event, data_at) = match decode_envelope(frame) {
            Err(_) => {
                return None;
            },
            Ok(head) => head,
        };
        match event {
            SocketReceiveEvent::BotUpdate => {
                let payload = match decode_batch(frame, data_at) {
                    None => {
                        return None;
                    },
                    Some(p) => p,
                };
                let ghost reports = payload.shards@;
                let pong = handle_ping_shard(&mut self.avg_latency, &mut self.shards, payload);
                Some(encode_pong(&pong))
            },
        }
    }

    /// Drives the timer queue when the host's wake-up callback fires, at
    /// an explicit current time: every action whose timestamp has passed
    /// is drained in ascending-timestamp order and executed; an execution
    /// failure is swallowed (no follow-up is scheduled); a successful one
    /// schedules its follow-up.  Returns the next wake-up request: the new
    /// minimum pending timestamp, or nothing — cancel — when the queue is
    /// left empty.
    pub fn handle_system_alarm_at(&mut self, now: i64) -> (wake: Option<i64>)
        requires
            old(self).wf(),
        ensures
            final(self).wf(),
            alarm_post(*old(self), *final(self), now, wake),
    {
        let due = self.alarms.drain_due(now);
        proof {
            lemma_drain_exact(old(self).alarms@, due@, self.alarms@, now);
        }
        let ghost after_drain = self.alarms@;
        let mut k: usize = 0;
        while k < due.len()
            invariant
                self.alarms.wf(),
                self.alarms@ == after_drain,
                self.shards == old(self).shards,
                self.avg_latency == old(self).avg_latency,
                self.registry == old(self).registry,
            decreases due@.len() - k,
        {
            let entry = due[k];
            match process_alarm(entry.alarm) {
                Ok((next_time, next_alarm)) => {
                    // No alarm kind schedules a follow-up today, but a
                    // future executor's follow-up is requeued here.
                    self.alarms.schedule(next_alarm, next_time);
                    proof {
                        assert(alarm_followup(entry.alarm) is Some);
                        assert(false);
                    }
                },
                Err(_) => {},
            }
            k = k + 1;
        }
        self.alarms.next_wakeup()
    }

    /// The synchronous read-only status query: a snapshot of the shard
    /// state table.
    pub fn get_shards(&self) -> (r: Vec<ShardUpdatePayload>)
        ensures
            r@ == self.shards@,
    {
        get_shards(&self.shards)
    }

    /// The latest reported average round-trip time across bot shards.
    pub fn latency(&self) -> (r: Option<i64>)
        ensures
            r == self.avg_latency,
    {
        self.avg_latency
    }

    /// Host notification that a session closed: the registry entry goes.
    pub fn websocket_close(&mut self, session_id: u64)
        requires
            old(self).wf(),
        ensures
            final(self).wf(),
            final(self).alarms == old(self).alarms,
            final(self).shards == old(self).shards,
            final(self).avg_latency == old(self).avg_latency,
            final(self).registry@ == (if session_index(old(self).registry@, session_id) == -1 {
                old(self).registry@
            } else {
                old(self).registry@.remove(session_index(old(self).registry@, session_id))
            }),
    {
        self.registry.remove(session_id);
    }

    /// Host notification that a session errored; treated like a close.
    pub fn websocket_error(&mut self, session_id: u64)
        requires
            old(self).wf(),
        ensures
            final(self).wf(),
            final(self).alarms == old(self).alarms,
            final(self).shards == old(self).shards,
            final(self).avg_latency == old(self).avg_latency,
            final(self).registry@ == (if session_index(old(self).registry@, session_id) == -1 {
                old(self).registry@
            } else {
                old(self).registry@.remove(session_index(old(self).registry@, session_id))
            }),
    {
        self.registry.remove(session_id);
    }

    /// Classifies and registers an upgrade at the current wall-clock time.
    pub fn websocket_upgrade(&mut self, user_agent: Option<&str>, session_id: u64) -> (r: Result<
        UpgradeOutcome,
        ClassificationError,
    >)
        requires
            old(self).wf(),
        ensures
            final(self).wf(),
            exists|now: i64|
                0 <= now && upgrade_post(
                    *old(self),
                    *final(self),
                    user_agent,
                    session_id,
                    now,
                    r,
                ),
    {
        let now = now_ms();
        self.websocket_upgrade_at(user_agent, session_id, now)
    }

    /// Drives the timer queue at the current wall-clock time.
    pub fn handle_system_alarm(&mut self) -> (wake: Option<i64>)
        requires
            old(self).wf(),
        ensures
            final(self).wf(),
            exists|now: i64| 0 <= now && alarm_post(*old(self), *final(self), now, wake),
    {
        let now = now_ms();
        self.handle_system_alarm_at(now)
    }
}

/// Copies a tag list; each tag is cloned.
fn clone_tags(tags: &Vec<String>) -> (r: Vec<String>)
    ensures
        r@ == tags@,
{
    let mut out: Vec<String> = Vec::new();
    let mut i: usize = 0;
    while i < tags.len()
        invariant
            0 <= i <= tags@.len(),
            out@ == tags@.take(i as int),
        decreases tags@.len() - i,
    {
        out.push(tags[i].clone());
        proof {
            assert(out@ =~= tags@.take(i + 1));
        }
        i = i + 1;
    }
    proof {
        assert(tags@.take(i as int) =~= tags@);
    }
    out
}

/// Relies on `chrono::Utc::now` and `DateTime::timestamp_millis`: the
/// current time in milliseconds since the Unix epoch.  Non-negative,
/// because `Utc::now` does not return on a pre-epoch system clock.
#[verifier::external_body]
fn now_ms() -> (r: i64)
    ensures
        0 <= r,
{
    chrono::Utc::now().timestamp_millis()
}

} // verus!
