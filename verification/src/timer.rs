//! Timer queue for the gateway actor.
//!
//! Pending scheduled actions are kept ordered by their absolute execution
//! timestamp (milliseconds since epoch).  Several actions may share one
//! timestamp.  The queue owns the logic for collapsing all pending times
//! into a single platform wake-up request: the request always targets the
//! minimum pending timestamp, and is absent exactly when the queue is empty.

use vstd::prelude::*;

verus! {

/// A deferred unit of work, tagged by kind.
///
/// The kind registry is deliberately small: the built-in maintenance kind
/// has no registered executor yet, so processing it reports an error and
/// schedules no follow-up.
#[derive(Debug, Clone, Copy, PartialEq, Eq, Structural)]
pub enum ScheduledAlarm {
    DatabaseSync,
}

impl ScheduledAlarm {
    /// The actions seeded on the actor's first-ever connection.
    pub fn initial_alarms() -> (r: Vec<ScheduledAlarm>)
        ensures
            r@ == seq![ScheduledAlarm::DatabaseSync],
    {
        let mut v: Vec<ScheduledAlarm> = Vec::new();
        v.push(ScheduledAlarm::DatabaseSync);
        proof {
            assert(v@ =~= seq![ScheduledAlarm::DatabaseSync]);
        }
        v
    }
}

/// One pending action together with its absolute execution time.
#[derive(Debug, Clone, Copy, PartialEq, Eq, Structural)]
pub struct TimerEntry {
    pub at: i64,
    pub alarm: ScheduledAlarm,
}

/// Entries are sorted by timestamp, ties kept in insertion order.
pub open spec fn sorted_by_time(s: Seq<TimerEntry>) -> bool {
    forall|i: int, j: int| 0 <= i < j < s.len() ==> #[trigger] s[i].at <= #[trigger] s[j].at
}

/// Number of leading entries of a sorted sequence whose time is at most `t`;
/// this is where an entry with time `t` is inserted to keep ties in
/// insertion order.
pub open spec fn insert_pos(s: Seq<TimerEntry>, t: i64) -> int
    decreases s.len(),
{
    if s.len() == 0 {
        0
    } else if s[0].at <= t {
        1 + insert_pos(s.drop_first(), t)
    } else {
        0
    }
}

/// The platform wake-up request derived from the pending entries: the
/// earliest pending timestamp, or nothing when the queue is empty.
pub open spec fn spec_next_wakeup(s: Seq<TimerEntry>) -> Option<i64> {
    if s.len() == 0 {
        None
    } else {
        Some(s[0].at)
    }
}

proof fn lemma_insert_pos_range(s: Seq<TimerEntry>, t: i64)
    ensures
        0 <= insert_pos(s, t) <= s.len(),
    decreases s.len(),
{
    if s.len() > 0 && s[0].at <= t {
        lemma_insert_pos_range(s.drop_first(), t);
    }
}

/// For a sorted sequence, `insert_pos` is the unique split point: everything
/// before it is at most `t`, everything from it on is later than `t`.
proof fn lemma_insert_pos_split(s: Seq<TimerEntry>, t: i64)
    requires
        sorted_by_time(s),
    ensures
        0 <= insert_pos(s, t) <= s.len(),
        forall|j: int| 0 <= j < insert_pos(s, t) ==> #[trigger] s[j].at <= t,
        forall|j: int| insert_pos(s, t) <= j < s.len() ==> #[trigger] s[j].at > t,
    decreases s.len(),
{
    lemma_insert_pos_range(s, t);
    if s.len() > 0 {
        let rest = s.drop_first();
        assert(sorted_by_time(rest)) by {
            assert(forall|i: int, j: int|
                0 <= i < j < rest.len() ==> #[trigger] rest[i].at <= #[trigger] rest[j].at) by {
                assert(forall|i: int| 0 <= i < rest.len() ==> rest[i] == s[i + 1]);
            }
        }
        lemma_insert_pos_split(rest, t);
        if s[0].at <= t {
            assert(insert_pos(s, t) == 1 + insert_pos(rest, t));
            assert forall|j: int| 0 <= j < insert_pos(s, t) implies #[trigger] s[j].at <= t by {
                if j >= 1 {
                    assert(s[j] == rest[j - 1]);
                    assert(rest[j - 1].at <= t);
                }
            }
            assert forall|j: int| insert_pos(s, t) <= j < s.len() implies #[trigger] s[j].at
                > t by {
                assert(s[j] == rest[j - 1]);
                assert(rest[j - 1].at > t);
            }
        } else {
            // s[0].at > t and sortedness push every later entry above t.
            assert(forall|j: int| 0 <= j < s.len() ==> #[trigger] s[j].at > t) by {
                assert(forall|j: int| 1 <= j < s.len() ==> s[0].at <= #[trigger] s[j].at);
            }
        }
    }
}

/// The in-memory timer queue of one actor instance.
pub struct TimerQueue {
    entries: Vec<TimerEntry>,
}

impl View for TimerQueue {
    type V = Seq<TimerEntry>;

    closed spec fn view(&self) -> Seq<TimerEntry> {
        self.entries@
    }
}

impl TimerQueue {
    /// Well-formed queues keep their entries sorted by timestamp.
    pub open spec fn wf(&self) -> bool {
        sorted_by_time(self@)
    }

    pub fn new() -> (q: TimerQueue)
        ensures
            q@ == Seq::<TimerEntry>::empty(),
            q.wf(),
    {
        TimerQueue { entries: Vec::new() }
    }

    pub fn is_empty(&self) -> (r: bool)
        ensures
            r == (self@.len() == 0),
    {
        self.entries.len() == 0
    }

    pub fn len(&self) -> (r: usize)
        ensures
            r == self@.len(),
    {
        self.entries.len()
    }

    /// Schedules `alarm` for absolute time `at`, keeping the entries sorted;
    /// an action that ties with pending ones goes after them, so insertion
    /// order is preserved among equal timestamps.
    pub fn schedule(&mut self, alarm: ScheduledAlarm, at: i64)
        requires
            old(self).wf(),
        ensures
            final(self).wf(),
            final(self)@ == old(self)@.insert(
                insert_pos(old(self)@, at),
                TimerEntry { at, alarm },
            ),
            final(self)@.len() == old(self)@.len() + 1,
    {
        proof {
            lemma_insert_pos_split(self@, at);
        }
        let ghost s = self@;
        let mut i: usize = 0;
        while i < self.entries.len() && self.entries[i].at <= at
            invariant
                self@ == s,
                0 <= i <= s.len(),
                forall|j: int| 0 <= j < i ==> #[trigger] s[j].at <= at,
            decreases s.len() - i,
        {
            i = i + 1;
        }
        proof {
            // i is exactly the split point characterised by the lemma.
            lemma_insert_pos_split(s, at);
            let ip = insert_pos(s, at);
            if i < ip {
                assert(s[i as int].at <= at);
                assert(false);
            } else if i > ip {
                assert(s[ip].at > at);
                assert(s[ip].at <= at);
                assert(false);
            }
        }
        let entry = TimerEntry { at, alarm };
        self.entries.insert(i, entry);
        proof {
            let t = self@;
            assert forall|p: int, q: int| 0 <= p < q < t.len() implies #[trigger] t[p].at
                <= #[trigger] t[q].at by {
                lemma_insert_pos_split(s, at);
                if p < i {
                    assert(t[p] == s[p]);
                } else if p > i {
                    assert(t[p] == s[p - 1]);
                }
                if q < i {
                    assert(t[q] == s[q]);
                } else if q > i {
                    assert(t[q] == s[q - 1]);
                }
            }
        }
    }

    /// The platform wake-up request this queue calls for right now.
    pub fn next_wakeup(&self) -> (r: Option<i64>)
        requires
            self.wf(),
        ensures
            r == spec_next_wakeup(self@),
    {
        if self.entries.len() == 0 {
            None
        } else {
            Some(self.entries[0].at)
        }
    }

    /// Removes and returns every entry whose timestamp is at most `now`,
    /// in ascending-timestamp order; later entries are left untouched, in
    /// their original order.
    pub fn drain_due(&mut self, now: i64) -> (due: Vec<TimerEntry>)
        requires
            old(self).wf(),
        ensures
            final(self).wf(),
            old(self)@ == due@ + final(self)@,
            forall|i: int| 0 <= i < due@.len() ==> #[trigger] due@[i].at <= now,
            forall|i: int| 0 <= i < final(self)@.len() ==> #[trigger] final(self)@[i].at > now,
            sorted_by_time(due@),
    {
        proof {
            lemma_insert_pos_split(self@, now);
        }
        let ghost s = self@;
        let mut i: usize = 0;
        while i < self.entries.len() && self.entries[i].at <= now
            invariant
                self@ == s,
                0 <= i <= s.len(),
                forall|j: int| 0 <= j < i ==> #[trigger] s[j].at <= now,
            decreases s.len() - i,
        {
            i = i + 1;
        }
        let mut due: Vec<TimerEntry> = Vec::new();
        let mut k: usize = 0;
        while k < i
            invariant
                self@ == s,
                0 <= k <= i <= s.len(),
                due@ == s.subrange(0, k as int),
            decreases i - k,
        {
            due.push(self.entries[k]);
            proof {
                assert(due@ =~= s.subrange(0, k + 1));
            }
            k = k + 1;
        }
        let rest = self.entries.split_off(i);
        self.entries = rest;
        proof {
            assert(due@ == s.subrange(0, i as int));
            assert(self@ == s.subrange(i as int, s.len() as int));
            assert(s == due@ + self@);
            if (i as int) < s.len() {
                assert(s[i as int].at > now);
            }
            assert(forall|j: int| i <= j < s.len() ==> #[trigger] s[j].at > now) by {
                assert(forall|j: int| i < j < s.len() ==> s[i as int].at <= #[trigger] s[j].at);
            }
        }
        due
    }
}

/// The wake-up target always equals the minimum pending timestamp, and is
/// absent exactly when the queue is empty.  This holds of every well-formed
/// queue, hence after any sequence of `schedule` calls and drain passes.
pub proof fn lemma_wakeup_is_min(q: TimerQueue)
    requires
        q.wf(),
    ensures
        spec_next_wakeup(q@) is None <==> q@.len() == 0,
        q@.len() > 0 ==> spec_next_wakeup(q@) == Some(q@[0].at),
        q@.len() > 0 ==> forall|i: int| 0 <= i < q@.len() ==> q@[0].at <= #[trigger] q@[i].at,
{
    if q@.len() > 0 {
        assert(forall|i: int| 1 <= i < q@.len() ==> q@[0].at <= #[trigger] q@[i].at);
    }
}

/// A drain pass at time `now` takes exactly the entries with timestamp at
/// most `now` and leaves exactly those with a later timestamp: any split of
/// a sorted queue into an early part and a strictly later part is the
/// filter of the original by the deadline.
pub proof fn lemma_drain_exact(s: Seq<TimerEntry>, due: Seq<TimerEntry>, rest: Seq<TimerEntry>, now: i64)
    requires
        s == due + rest,
        forall|i: int| 0 <= i < due.len() ==> #[trigger] due[i].at <= now,
        forall|i: int| 0 <= i < rest.len() ==> #[trigger] rest[i].at > now,
    ensures
        due == s.filter(|e: TimerEntry| e.at <= now),
        rest == s.filter(|e: TimerEntry| e.at > now),
{
    let le = |e: TimerEntry| e.at <= now;
    let gt = |e: TimerEntry| e.at > now;
    Seq::filter_distributes_over_add(due, rest, le);
    Seq::filter_distributes_over_add(due, rest, gt);
    lemma_filter_all(due, le);
    lemma_filter_all(rest, gt);
    due.lemma_all_neg_filter_empty(gt);
    rest.lemma_all_neg_filter_empty(le);
    assert(due.filter(gt) =~= Seq::<TimerEntry>::empty());
    assert(rest.filter(le) =~= Seq::<TimerEntry>::empty());
    assert(s.filter(le) =~= due);
    assert(s.filter(gt) =~= rest);
}

/// Filtering by a predicate that every element satisfies keeps the sequence.
proof fn lemma_filter_all(s: Seq<TimerEntry>, pred: spec_fn(TimerEntry) -> bool)
    requires
        forall|i: int| 0 <= i < s.len() ==> pred(#[trigger] s[i]),
    ensures
        s.filter(pred) == s,
    decreases s.len(),
{
    reveal(Seq::filter);
    if s.len() > 0 {
        assert(forall|i: int| 0 <= i < s.drop_last().len() ==> pred(#[trigger] s.drop_last()[i]));
        lemma_filter_all(s.drop_last(), pred);
        assert(pred(s.last()));
        assert(s.filter(pred) =~= s);
    }
}

} // verus!
