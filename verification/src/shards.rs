//! Shard state table of the gateway actor.
//!
//! An in-memory table of the last-known status, latency and member count
//! per shard, keyed by shard id, plus a single latency estimate.  The very
//! first batch after a cold start replaces the table wholesale; every later
//! batch is a delta, upserted report by report.

use vstd::prelude::*;

verus! {

/// Last-known state of one bot shard, as reported over the gateway.
#[derive(Debug, Clone, PartialEq, Eq)]
pub struct ShardUpdatePayload {
    pub shard_id: u32,
    pub status: String,
    pub latency_ms: Option<u32>,
    pub members: u32,
}

/// Liveness report of the bot process: when it was sent and the average
/// round-trip time across shards, if one was measured.
#[derive(Debug, Clone, Copy, PartialEq, Eq)]
pub struct PingPayload {
    pub timestamp: i64,
    pub avg_ping: Option<i64>,
}

/// The full payload of one shard/ping batch report.
#[derive(Debug, Clone, PartialEq, Eq)]
pub struct ShardPingPayload {
    pub ping: PingPayload,
    pub shards: Vec<ShardUpdatePayload>,
}

/// First index holding the given shard id, or -1 when the id is unseen.
pub open spec fn shard_index(s: Seq<ShardUpdatePayload>, id: u32) -> int
    decreases s.len(),
{
    if s.len() == 0 {
        -1
    } else if s[0].shard_id == id {
        0
    } else {
        let r = shard_index(s.drop_first(), id);
        if r == -1 {
            -1
        } else {
            r + 1
        }
    }
}

/// Upsert of a single report: overwrite the first entry with the same
/// shard id in place, or append when the id is unseen.
pub open spec fn upsert_one(
    table: Seq<ShardUpdatePayload>,
    r: ShardUpdatePayload,
) -> Seq<ShardUpdatePayload> {
    let i = shard_index(table, r.shard_id);
    if i == -1 {
        table.push(r)
    } else {
        table.update(i, r)
    }
}

/// Left-to-right upsert of a whole batch.
pub open spec fn upsert_all(
    table: Seq<ShardUpdatePayload>,
    reports: Seq<ShardUpdatePayload>,
) -> Seq<ShardUpdatePayload>
    decreases reports.len(),
{
    if reports.len() == 0 {
        table
    } else {
        upsert_all(upsert_one(table, reports[0]), reports.drop_first())
    }
}

/// What one batch report does to the table: an empty table is replaced
/// wholesale (the first batch after a cold start is authoritative full
/// state); otherwise each report is upserted by shard id.
pub open spec fn spec_apply_batch(
    table: Seq<ShardUpdatePayload>,
    reports: Seq<ShardUpdatePayload>,
) -> Seq<ShardUpdatePayload> {
    if table.len() == 0 {
        reports
    } else {
        upsert_all(table, reports)
    }
}

/// `shard_index` really is the first index with the given id.
pub proof fn lemma_shard_index(s: Seq<ShardUpdatePayload>, id: u32)
    ensures
        shard_index(s, id) == -1 ==> forall|j: int|
            0 <= j < s.len() ==> (#[trigger] s[j]).shard_id != id,
        shard_index(s, id) != -1 ==> {
            let i = shard_index(s, id);
            &&& 0 <= i < s.len()
            &&& s[i].shard_id == id
            &&& forall|j: int| 0 <= j < i ==> (#[trigger] s[j]).shard_id != id
        },
    decreases s.len(),
{
    if s.len() > 0 && s[0].shard_id != id {
        let rest = s.drop_first();
        lemma_shard_index(rest, id);
        let r = shard_index(rest, id);
        if r == -1 {
            assert forall|j: int| 0 <= j < s.len() implies (#[trigger] s[j]).shard_id != id by {
                if j >= 1 {
                    assert(s[j] == rest[j - 1]);
                }
            }
        } else {
            assert(s[r + 1] == rest[r]);
            assert forall|j: int| 0 <= j < r + 1 implies (#[trigger] s[j]).shard_id != id by {
                if j >= 1 {
                    assert(s[j] == rest[j - 1]);
                }
            }
        }
    }
}

proof fn lemma_upsert_all_snoc(
    table: Seq<ShardUpdatePayload>,
    reports: Seq<ShardUpdatePayload>,
    r: ShardUpdatePayload,
)
    ensures
        upsert_all(table, reports.push(r)) == upsert_one(upsert_all(table, reports), r),
    decreases reports.len(),
{
    let rp = reports.push(r);
    if reports.len() == 0 {
        assert(rp[0] == r);
        assert(rp.drop_first() =~= Seq::<ShardUpdatePayload>::empty());
        assert(upsert_all(table, rp) == upsert_all(upsert_one(table, r), rp.drop_first()));
        assert(upsert_all(upsert_one(table, r), Seq::<ShardUpdatePayload>::empty())
            == upsert_one(table, r));
        assert(upsert_all(table, reports) == table);
    } else {
        assert(rp[0] == reports[0]);
        assert(rp.drop_first() =~= reports.drop_first().push(r));
        lemma_upsert_all_snoc(upsert_one(table, reports[0]), reports.drop_first(), r);
        assert(upsert_all(table, rp) == upsert_all(upsert_one(table, rp[0]), rp.drop_first()));
        assert(upsert_all(table, reports) == upsert_all(
            upsert_one(table, reports[0]),
            reports.drop_first(),
        ));
    }
}

/// Applies one batch report to the table: wholesale replacement when the
/// table is empty, otherwise an in-place upsert of each report by shard id,
/// appending reports whose id is unseen.
pub fn handle_shard_update(
    shards: &mut Vec<ShardUpdatePayload>,
    new_shards: Vec<ShardUpdatePayload>,
)
    ensures
        final(shards)@ == spec_apply_batch(old(shards)@, new_shards@),
{
    if shards.len() == 0 {
        *shards = new_shards;
        return;
    }
    let ghost t0 = shards@;
    let ghost orig = new_shards@;
    let mut rest = new_shards;
    let ghost mut k: int = 0;
    while rest.len() > 0
        invariant
            0 <= k <= orig.len(),
            rest@ == orig.skip(k),
            shards@ == upsert_all(t0, orig.take(k)),
        decreases rest@.len(),
    {
        let update = rest.remove(0);
        proof {
            assert(update == orig[k]);
            assert(rest@ =~= orig.skip(k + 1));
        }
        let ghost before = shards@;
        let id = update.shard_id;
        let mut j: usize = 0;
        while j < shards.len() && shards[j].shard_id != id
            invariant
                0 <= j <= shards@.len(),
                forall|m: int| 0 <= m < j ==> (#[trigger] shards@[m]).shard_id != id,
                shards@ == before,
            decreases shards@.len() - j,
        {
            j = j + 1;
        }
        let found = j < shards.len();
        proof {
            lemma_shard_index(before, id);
            let i = shard_index(before, id);
            if found {
                assert(i == j);
            } else {
                assert(i == -1);
            }
        }
        if found {
            shards.set(j, update);
        } else {
            shards.push(update);
        }
        proof {
            assert(shards@ == upsert_one(before, update));
            assert(orig.take(k + 1) =~= orig.take(k).push(orig[k]));
            lemma_upsert_all_snoc(t0, orig.take(k), update);
            k = k + 1;
        }
    }
    proof {
        assert(orig.take(k) =~= orig);
    }
}

/// Overwrites the latency estimate with the newly reported average ping
/// and echoes the report back as the payload of the pong reply.
pub fn handle_ping(latency: &mut Option<i64>, payload: PingPayload) -> (pong: PingPayload)
    ensures
        *final(latency) == payload.avg_ping,
        pong == payload,
{
    *latency = payload.avg_ping;
    payload
}

/// Handles one decoded shard/ping batch report: applies the shard batch
/// to the table, records the latency estimate, and returns the payload of
/// the pong reply (the report echoed back).
pub fn handle_ping_shard(
    latency: &mut Option<i64>,
    shards: &mut Vec<ShardUpdatePayload>,
    payload: ShardPingPayload,
) -> (pong: PingPayload)
    ensures
        *final(latency) == payload.ping.avg_ping,
        final(shards)@ == spec_apply_batch(old(shards)@, payload.shards@),
        pong == payload.ping,
{
    handle_shard_update(shards, payload.shards);
    handle_ping(latency, payload.ping)
}

/// Read-only snapshot of the shard table for the status query.
pub fn get_shards(shards: &Vec<ShardUpdatePayload>) -> (r: Vec<ShardUpdatePayload>)
    ensures
        r@ == shards@,
{
    let mut out: Vec<ShardUpdatePayload> = Vec::new();
    let mut i: usize = 0;
    while i < shards.len()
        invariant
            0 <= i <= shards@.len(),
            out@ == shards@.take(i as int),
        decreases shards@.len() - i,
    {
        let copy = ShardUpdatePayload {
            shard_id: shards[i].shard_id,
            status: shards[i].status.clone(),
            latency_ms: shards[i].latency_ms,
            members: shards[i].members,
        };
        proof {
            assert(copy == shards@[i as int]);
        }
        out.push(copy);
        proof {
            assert(out@ =~= shards@.take(i + 1));
        }
        i = i + 1;
    }
    proof {
        assert(shards@.take(i as int) =~= shards@);
    }
    out
}

/// Upserting a report whose shard id is already in the table overwrites
/// that entry in place: the table keeps its size, the first entry with the
/// id becomes the new report, and every other entry is untouched.
pub proof fn lemma_upsert_overwrites_in_place(
    table: Seq<ShardUpdatePayload>,
    r: ShardUpdatePayload,
)
    requires
        table.len() > 0,
        shard_index(table, r.shard_id) != -1,
    ensures
        spec_apply_batch(table, seq![r]).len() == table.len(),
        spec_apply_batch(table, seq![r]) == table.update(shard_index(table, r.shard_id), r),
        spec_apply_batch(table, seq![r])[shard_index(table, r.shard_id)] == r,
        forall|j: int|
            0 <= j < table.len() && j != shard_index(table, r.shard_id)
                ==> #[trigger] spec_apply_batch(table, seq![r])[j] == table[j],
{
    lemma_shard_index(table, r.shard_id);
    let one = seq![r];
    assert(one[0] == r);
    assert(one.drop_first() =~= Seq::<ShardUpdatePayload>::empty());
    assert(upsert_all(table, one) == upsert_all(upsert_one(table, r), one.drop_first()));
    assert(upsert_all(upsert_one(table, r), Seq::<ShardUpdatePayload>::empty())
        == upsert_one(table, r));
}

/// A batch whose single report carries an unseen shard id appends that
/// report: applied to a non-empty table, the delta semantics preserve every
/// existing entry and grow the table by one.
pub proof fn lemma_apply_batch_appends_unseen(
    table: Seq<ShardUpdatePayload>,
    r: ShardUpdatePayload,
)
    requires
        table.len() > 0,
        shard_index(table, r.shard_id) == -1,
    ensures
        spec_apply_batch(table, seq![r]) == table.push(r),
{
    let one = seq![r];
    assert(one[0] == r);
    assert(one.drop_first() =~= Seq::<ShardUpdatePayload>::empty());
    assert(upsert_all(table, one) == upsert_all(upsert_one(table, r), one.drop_first()));
    assert(upsert_all(upsert_one(table, r), Seq::<ShardUpdatePayload>::empty())
        == upsert_one(table, r));
}

/// Delta semantics after a cold start: a first single-report batch on an
/// empty table, followed by a second whose report carries a different
/// shard id, yields a table of exactly those two reports, both preserved.
pub proof fn lemma_cold_start_delta(a: ShardUpdatePayload, b: ShardUpdatePayload)
    requires
        a.shard_id != b.shard_id,
    ensures
        spec_apply_batch(spec_apply_batch(Seq::empty(), seq![a]), seq![b]) == seq![a, b],
        spec_apply_batch(spec_apply_batch(Seq::empty(), seq![a]), seq![b]).len() == 2,
{
    let first = spec_apply_batch(Seq::empty(), seq![a]);
    assert(first == seq![a]);
    assert(shard_index(seq![a], b.shard_id) == -1) by {
        assert(seq![a][0] == a);
        assert(seq![a].drop_first() =~= Seq::<ShardUpdatePayload>::empty());
        assert(shard_index(Seq::<ShardUpdatePayload>::empty(), b.shard_id) == -1);
    }
    lemma_apply_batch_appends_unseen(seq![a], b);
    assert(seq![a].push(b) =~= seq![a, b]);
}

} // verus!
