//! Session registry of the gateway actor.
//!
//! Tracks the live WebSocket connections, each labelled with one or more
//! classification tags (a role such as "bot", or a scope such as a guild
//! id).  Tags are not unique across sessions: broadcast-by-tag fans out to
//! every session holding the tag.  The registry exclusively owns the
//! mapping; sessions are removed on close or error notifications.

use vstd::prelude::*;

verus! {

/// One live connection: a host-assigned handle plus its classification tags.
#[derive(Debug, Clone, PartialEq, Eq)]
pub struct Session {
    pub id: u64,
    pub tags: Vec<String>,
}

/// Whether a session holds the given tag.
pub open spec fn has_tag(s: Session, tag: Seq<char>) -> bool {
    exists|k: int| 0 <= k < s.tags@.len() && #[trigger] s.tags@[k]@ == tag
}

/// First index of the session with the given handle, or -1 when absent.
pub open spec fn session_index(ss: Seq<Session>, id: u64) -> int
    decreases ss.len(),
{
    if ss.len() == 0 {
        -1
    } else if ss[0].id == id {
        0
    } else {
        let r = session_index(ss.drop_first(), id);
        if r == -1 {
            -1
        } else {
            r + 1
        }
    }
}

/// The handles of the sessions holding a tag, in registry order.
pub open spec fn spec_targets(ss: Seq<Session>, tag: Seq<char>) -> Seq<u64>
    decreases ss.len(),
{
    if ss.len() == 0 {
        Seq::empty()
    } else {
        let rest = spec_targets(ss.drop_first(), tag);
        if has_tag(ss[0], tag) {
            seq![ss[0].id] + rest
        } else {
            rest
        }
    }
}

/// `session_index` really is the first index with the given handle.
pub proof fn lemma_session_index(ss: Seq<Session>, id: u64)
    ensures
        session_index(ss, id) == -1 ==> forall|j: int|
            0 <= j < ss.len() ==> (#[trigger] ss[j]).id != id,
        session_index(ss, id) != -1 ==> {
            let i = session_index(ss, id);
            &&& 0 <= i < ss.len()
            &&& ss[i].id == id
            &&& forall|j: int| 0 <= j < i ==> (#[trigger] ss[j]).id != id
        },
    decreases ss.len(),
{
    if ss.len() > 0 && ss[0].id != id {
        let rest = ss.drop_first();
        lemma_session_index(rest, id);
        let r = session_index(rest, id);
        if r == -1 {
            assert forall|j: int| 0 <= j < ss.len() implies (#[trigger] ss[j]).id != id by {
                if j >= 1 {
                    assert(ss[j] == rest[j - 1]);
                }
            }
        } else {
            assert(ss[r + 1] == rest[r]);
            assert forall|j: int| 0 <= j < r + 1 implies (#[trigger] ss[j]).id != id by {
                if j >= 1 {
                    assert(ss[j] == rest[j - 1]);
                }
            }
        }
    }
}

proof fn lemma_targets_snoc(ss: Seq<Session>, s: Session, tag: Seq<char>)
    ensures
        spec_targets(ss.push(s), tag) == if has_tag(s, tag) {
            spec_targets(ss, tag).push(s.id)
        } else {
            spec_targets(ss, tag)
        },
    decreases ss.len(),
{
    let sp = ss.push(s);
    if ss.len() == 0 {
        assert(sp[0] == s);
        assert(sp.drop_first() =~= Seq::<Session>::empty());
        assert(spec_targets(Seq::<Session>::empty(), tag) == Seq::<u64>::empty());
        if has_tag(s, tag) {
            assert(seq![s.id] + Seq::<u64>::empty() =~= Seq::<u64>::empty().push(s.id));
        }
    } else {
        assert(sp[0] == ss[0]);
        assert(sp.drop_first() =~= ss.drop_first().push(s));
        lemma_targets_snoc(ss.drop_first(), s, tag);
        if has_tag(s, tag) {
            if has_tag(ss[0], tag) {
                assert(seq![ss[0].id] + spec_targets(ss.drop_first(), tag).push(s.id)
                    =~= (seq![ss[0].id] + spec_targets(ss.drop_first(), tag)).push(s.id));
            }
        }
    }
}

/// The registry of live sessions; the host hands each connection a
/// distinct handle, so well-formed registries never repeat one.
pub struct SessionRegistry {
    sessions: Vec<Session>,
}

impl View for SessionRegistry {
    type V = Seq<Session>;

    closed spec fn view(&self) -> Seq<Session> {
        self.sessions@
    }
}

impl SessionRegistry {
    pub open spec fn wf(&self) -> bool {
        forall|i: int, j: int|
            0 <= i < j < self@.len() ==> (#[trigger] self@[i]).id != (#[trigger] self@[j]).id
    }

    pub fn new() -> (r: SessionRegistry)
        ensures
            r@ == Seq::<Session>::empty(),
            r.wf(),
    {
        SessionRegistry { sessions: Vec::new() }
    }

    pub fn len(&self) -> (r: usize)
        ensures
            r == self@.len(),
    {
        self.sessions.len()
    }

    /// Registers a connection under its classification tags.  Registration
    /// is idempotent: registering a handle that is already present only
    /// replaces that session's tags.
    pub fn register(&mut self, id: u64, tags: Vec<String>)
        requires
            old(self).wf(),
            tags@.len() >= 1,
        ensures
            final(self).wf(),
            final(self)@ == if session_index(old(self)@, id) == -1 {
                old(self)@.push(Session { id, tags })
            } else {
                old(self)@.update(session_index(old(self)@, id), Session { id, tags })
            },
    {
        let ghost ss = self@;
        let mut j: usize = 0;
        while j < self.sessions.len() && self.sessions[j].id != id
            invariant
                0 <= j <= ss.len(),
                self@ == ss,
                forall|m: int| 0 <= m < j ==> (#[trigger] ss[m]).id != id,
            decreases ss.len() - j,
        {
            j = j + 1;
        }
        proof {
            lemma_session_index(ss, id);
            let i = session_index(ss, id);
            if j < ss.len() {
                assert(i == j);
            } else {
                assert(i == -1);
            }
        }
        let entry = Session { id, tags };
        if j < self.sessions.len() {
            self.sessions.set(j, entry);
        } else {
            self.sessions.push(entry);
        }
        proof {
            assert forall|p: int, q: int|
                0 <= p < q < self@.len() implies (#[trigger] self@[p]).id
                != (#[trigger] self@[q]).id by {
                if p != j && q != j {
                    assert(self@[p] == ss[p]);
                    assert(self@[q] == ss[q]);
                }
            }
        }
    }

    /// Removes the session with the given handle; removing an unknown
    /// handle is a no-op, so close and error notifications are idempotent.
    pub fn remove(&mut self, id: u64)
        requires
            old(self).wf(),
        ensures
            final(self).wf(),
            final(self)@ == if session_index(old(self)@, id) == -1 {
                old(self)@
            } else {
                old(self)@.remove(session_index(old(self)@, id))
            },
    {
        let ghost ss = self@;
        let mut j: usize = 0;
        while j < self.sessions.len() && self.sessions[j].id != id
            invariant
                0 <= j <= ss.len(),
                self@ == ss,
                forall|m: int| 0 <= m < j ==> (#[trigger] ss[m]).id != id,
            decreases ss.len() - j,
        {
            j = j + 1;
        }
        proof {
            lemma_session_index(ss, id);
            let i = session_index(ss, id);
            if j < ss.len() {
                assert(i == j);
            } else {
                assert(i == -1);
            }
        }
        if j < self.sessions.len() {
            self.sessions.remove(j);
            proof {
                assert forall|p: int, q: int|
                    0 <= p < q < self@.len() implies (#[trigger] self@[p]).id
                    != (#[trigger] self@[q]).id by {
                    if p < j {
                        assert(self@[p] == ss[p]);
                    } else {
                        assert(self@[p] == ss[p + 1]);
                    }
                    if q < j {
                        assert(self@[q] == ss[q]);
                    } else {
                        assert(self@[q] == ss[q + 1]);
                    }
                }
            }
        }
    }

    /// The handles a broadcast to `tag` goes out to, in registry order;
    /// its length is the broadcast's sent-count.  A tag held by no session
    /// yields the empty target list and raises no error.
    pub fn broadcast(&self, tag: &String) -> (targets: Vec<u64>)
        ensures
            targets@ == spec_targets(self@, tag@),
    {
        let ghost ss = self@;
        let mut targets: Vec<u64> = Vec::new();
        let mut i: usize = 0;
        while i < self.sessions.len()
            invariant
                0 <= i <= ss.len(),
                self@ == ss,
                targets@ == spec_targets(ss.take(i as int), tag@),
            decreases ss.len() - i,
        {
            let session = &self.sessions[i];
            let mut k: usize = 0;
            let mut held: bool = false;
            while k < session.tags.len()
                invariant
                    0 <= k <= session.tags@.len(),
                    held <==> exists|m: int|
                        0 <= m < k && (#[trigger] session.tags@[m])@ == tag@,
                decreases session.tags@.len() - k,
            {
                if session.tags[k].eq(tag) {
                    held = true;
                    proof {
                        assert(session.tags@[k as int]@ == tag@);
                    }
                }
                k = k + 1;
            }
            proof {
                assert(held <==> has_tag(ss[i as int], tag@));
                assert(ss.take(i + 1) =~= ss.take(i as int).push(ss[i as int]));
                lemma_targets_snoc(ss.take(i as int), ss[i as int], tag@);
            }
            if held {
                targets.push(session.id);
            }
            i = i + 1;
        }
        proof {
            assert(ss.take(i as int) =~= ss);
        }
        targets
    }

    /// The sessions with the given handle, if registered.
    pub fn contains(&self, id: u64) -> (r: bool)
        ensures
            r == (session_index(self@, id) != -1),
    {
        let ghost ss = self@;
        let mut j: usize = 0;
        while j < self.sessions.len() && self.sessions[j].id != id
            invariant
                0 <= j <= ss.len(),
                self@ == ss,
                forall|m: int| 0 <= m < j ==> (#[trigger] ss[m]).id != id,
            decreases ss.len() - j,
        {
            j = j + 1;
        }
        proof {
            lemma_session_index(ss, id);
            let i = session_index(ss, id);
            if j < ss.len() {
                assert(i == j);
            } else {
                assert(i == -1);
            }
        }
        j < self.sessions.len()
    }
}

/// Broadcasting to a tag with zero registered sessions reaches nobody:
/// the sent-count is 0 and no error arises.
pub proof fn lemma_broadcast_empty_tag(ss: Seq<Session>, tag: Seq<char>)
    requires
        forall|i: int| 0 <= i < ss.len() ==> !has_tag(#[trigger] ss[i], tag),
    ensures
        spec_targets(ss, tag) == Seq::<u64>::empty(),
    decreases ss.len(),
{
    if ss.len() > 0 {
        assert(!has_tag(ss[0], tag));
        let rest = ss.drop_first();
        assert(forall|i: int| 0 <= i < rest.len() ==> rest[i] == ss[i + 1]);
        lemma_broadcast_empty_tag(rest, tag);
    }
}

} // verus!
