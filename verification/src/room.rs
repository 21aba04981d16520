//! Shared room state: the history log and the set of active nicknames.
//!
//! One value of [`RoomState`] is shared by every session; the surrounding
//! program serializes all access to it, so each method here is one atomic
//! step of the protocol.

use vstd::prelude::*;
use vstd::assert_sets_equal;

use crate::codec::chat_envelope_text;
use crate::message::ChatMessage;
use crate::msgs_view;

verus! {

/// The names claimed so far, as a set of character sequences.
pub open spec fn names_of(us: Seq<String>) -> Set<Seq<char>> {
    Set::new(|n: Seq<char>| exists|i: int| 0 <= i < us.len() && us[i]@ == n)
}

/// No name occurs twice.
pub open spec fn names_unique(us: Seq<String>) -> bool {
    forall|i: int, j: int| 0 <= i < j < us.len() ==> us[i]@ != us[j]@
}

/// One atomic claim of a nickname: fails (leaving the set unchanged) when the
/// name is already active, succeeds (inserting it) when it is not.
pub open spec fn spec_claim(users: Set<Seq<char>>, n: Seq<char>) -> (bool, Set<Seq<char>>) {
    if users.contains(n) {
        (false, users)
    } else {
        (true, users.insert(n))
    }
}

/// One release of a nickname: removes it; releasing an absent name is a no-op.
pub open spec fn spec_release(users: Set<Seq<char>>, n: Seq<char>) -> Set<Seq<char>> {
    users.remove(n)
}

/// The shared room state: the append-only history log and the set of active
/// nicknames. The nickname set is rebuilt empty at process start; only the
/// history is ever persisted.
pub struct RoomState {
    history: Vec<ChatMessage>,
    users: Vec<String>,
}

impl RoomState {
    /// The history log, oldest first, as (nick, message) pairs.
    pub closed spec fn history_view(&self) -> Seq<(Seq<char>, Seq<char>)> {
        msgs_view(self.history@)
    }

    /// The set of currently active nicknames.
    pub closed spec fn users_set(&self) -> Set<Seq<char>> {
        names_of(self.users@)
    }

    /// Internal invariant: no nickname is held twice.
    pub closed spec fn wf(&self) -> bool {
        names_unique(self.users@)
    }

    /// A fresh room around an initial history (the persisted snapshot, or
    /// empty); no nickname is active yet.
    pub fn new(history: Vec<ChatMessage>) -> (r: RoomState)
        ensures
            r.wf(),
            r.history_view() == msgs_view(history@),
            r.users_set() == Set::<Seq<char>>::empty(),
    {
        let r = RoomState { history, users: Vec::new() };
        proof {
            assert_sets_equal!(r.users_set() == Set::<Seq<char>>::empty(), n => {
                assert(r.users@.len() == 0);
            });
        }
        r
    }

    /// The history log itself, for serialization.
    pub fn history(&self) -> (r: &Vec<ChatMessage>)
        ensures
            msgs_view(r@) == self.history_view(),
    {
        &self.history
    }

    /// How many messages the history holds.
    pub fn history_len(&self) -> (r: usize)
        ensures
            r == self.history_view().len(),
    {
        self.history.len()
    }

    /// Whether a name is currently active.
    pub fn contains_user(&self, name: &str) -> (r: bool)
        ensures
            r == self.users_set().contains(name@),
    {
        let mut i: usize = 0;
        while i < self.users.len()
            invariant
                0 <= i <= self.users@.len(),
                forall|k: int| 0 <= k < i ==> self.users@[k]@ != name@,
            decreases self.users@.len() - i,
        {
            if crate::codec::str_eq(self.users[i].as_str(), name) {
                return true;
            }
            i += 1;
        }
        false
    }

    /// Append one message to the history; returns the new length. This is the
    /// only way the history changes: entries are never edited or removed.
    pub fn append_message(&mut self, m: ChatMessage) -> (pos: usize)
        requires
            old(self).wf(),
        ensures
            final(self).wf(),
            final(self).history_view() == old(self).history_view().push(m@),
            final(self).users_set() == old(self).users_set(),
            pos == final(self).history_view().len(),
    {
        let ghost h0 = self.history@;
        self.history.push(m);
        proof {
            assert(self.history_view() =~= msgs_view(h0).push(m@));
        }
        self.history.len()
    }

    /// Atomically test-and-claim a nickname: the linearization point that
    /// keeps two sessions from racing to the same name. Returns whether the
    /// claim succeeded; on failure nothing changes.
    pub fn try_claim_nickname(&mut self, name: &str) -> (claimed: bool)
        requires
            old(self).wf(),
        ensures
            final(self).wf(),
            claimed == spec_claim(old(self).users_set(), name@).0,
            final(self).users_set() == spec_claim(old(self).users_set(), name@).1,
            final(self).history_view() == old(self).history_view(),
    {
        if self.contains_user(name) {
            return false;
        }
        let ghost u0 = self.users@;
        self.users.push(name.to_owned());
        proof {
            assert(self.users@.len() == u0.len() + 1);
            assert(self.users@[u0.len() as int]@ == name@);
            assert(forall|i: int| 0 <= i < u0.len() ==> self.users@[i] == u0[i]);
            assert(forall|i: int| 0 <= i < u0.len() ==> u0[i]@ != name@);
            assert forall|i: int, j: int|
                0 <= i < j < self.users@.len() implies self.users@[i]@ != self.users@[j]@ by {
                if j < u0.len() {
                    assert(u0[i]@ != u0[j]@);
                }
            }
            assert_sets_equal!(names_of(self.users@) == names_of(u0).insert(name@), n => {
                if names_of(self.users@).contains(n) {
                    let i = choose|i: int| 0 <= i < self.users@.len() && self.users@[i]@ == n;
                    if i < u0.len() {
                        assert(names_of(u0).contains(n));
                    } else {
                        assert(n == name@);
                    }
                }
                if names_of(u0).contains(n) {
                    let i = choose|i: int| 0 <= i < u0.len() && u0[i]@ == n;
                    assert(self.users@[i]@ == n);
                    assert(names_of(self.users@).contains(n));
                }
                if n == name@ {
                    assert(names_of(self.users@).contains(n));
                }
            });
        }
        true
    }

    /// Release a nickname (on session close). Idempotent: releasing a name
    /// that is not active is a no-op, which covers a session that closes
    /// before ever joining.
    pub fn release_nickname(&mut self, name: &str)
        requires
            old(self).wf(),
        ensures
            final(self).wf(),
            final(self).users_set() == spec_release(old(self).users_set(), name@),
            final(self).history_view() == old(self).history_view(),
    {
        let ghost u0 = self.users@;
        let ghost h0 = self.history@;
        let mut i: usize = 0;
        while i < self.users.len()
            invariant
                self.users@ == u0,
                self.history@ == h0,
                u0 == old(self).users@,
                h0 == old(self).history@,
                names_unique(u0),
                0 <= i <= u0.len(),
                forall|k: int| 0 <= k < i ==> u0[k]@ != name@,
            decreases u0.len() - i,
        {
            if crate::codec::str_eq(self.users[i].as_str(), name) {
                self.users.remove(i);
                proof {
                    lemma_remove_unique(u0, i as int, name@);
                }
                return;
            }
            i += 1;
        }
        proof {
            assert(!names_of(u0).contains(name@));
            assert_sets_equal!(names_of(u0) == names_of(u0).remove(name@));
        }
    }

    /// The last `n` history entries, oldest first: the slice replayed to a
    /// newly connected client.
    pub fn snapshot_tail(&self, n: usize) -> (r: Vec<ChatMessage>)
        ensures
            msgs_view(r@) == self.history_view().skip(
                self.history_view().len() - (if n <= self.history_view().len() {
                    n as int
                } else {
                    self.history_view().len() as int
                }),
            ),
    {
        let len = self.history.len();
        let start = if n <= len {
            len - n
        } else {
            0
        };
        let mut out: Vec<ChatMessage> = Vec::new();
        let mut i = start;
        while i < len
            invariant
                start <= i <= len,
                len == self.history@.len(),
                out@.len() == i - start,
                forall|j: int|
                    0 <= j < out@.len() ==> out@[j]@ == self.history_view()[start + j],
            decreases len - i,
        {
            let ghost prev = out@;
            let m = self.history[i].duplicate();
            out.push(m);
            proof {
                assert(out@.len() == i + 1 - start);
                assert(out@[i - start]@ == self.history_view()[i as int]);
                assert(forall|j: int| 0 <= j < prev.len() ==> out@[j] == prev[j]);
            }
            i += 1;
        }
        proof {
            assert(msgs_view(out@) =~= self.history_view().skip(start as int));
        }
        out
    }

    /// The backlog frames for a newly connected client: the last `limit`
    /// history entries, oldest first, each wrapped as a `/message` envelope.
    pub fn backlog_frames(&self, limit: usize) -> (r: Vec<String>)
        ensures
            r@.len() == (if limit <= self.history_view().len() {
                limit as int
            } else {
                self.history_view().len() as int
            }),
            forall|i: int|
                0 <= i < r@.len() ==> r@[i]@ == chat_envelope_text(
                    "/message"@,
                    self.history_view()[self.history_view().len() - r@.len() + i].0,
                    self.history_view()[self.history_view().len() - r@.len() + i].1,
                ),
    {
        let tail = self.snapshot_tail(limit);
        let mut out: Vec<String> = Vec::new();
        let mut i: usize = 0;
        while i < tail.len()
            invariant
                0 <= i <= tail@.len(),
                out@.len() == i,
                msgs_view(tail@) == self.history_view().skip(
                    self.history_view().len() - tail@.len(),
                ),
                forall|j: int|
                    0 <= j < i ==> out@[j]@ == chat_envelope_text(
                        "/message"@,
                        msgs_view(tail@)[j].0,
                        msgs_view(tail@)[j].1,
                    ),
            decreases tail@.len() - i,
        {
            let frame = crate::codec::encode_chat_envelope("/message", &tail[i]);
            out.push(frame);
            i += 1;
        }
        proof {
            assert(out@.len() == tail@.len());
            assert(tail@.len() == msgs_view(tail@).len());
            assert(msgs_view(tail@).len() == (if limit <= self.history_view().len() {
                limit as int
            } else {
                self.history_view().len() as int
            }));
        }
        out
    }
}

/// Removing the one occurrence of a name from a duplicate-free name list
/// removes exactly that name from the name set.
proof fn lemma_remove_unique(us: Seq<String>, at: int, n: Seq<char>)
    requires
        names_unique(us),
        0 <= at < us.len(),
        us[at]@ == n,
    ensures
        names_unique(us.remove(at)),
        names_of(us.remove(at)) == names_of(us).remove(n),
{
    let rest = us.remove(at);
    assert forall|i: int, j: int| 0 <= i < j < rest.len() implies rest[i]@ != rest[j]@ by {
        let pi = if i < at { i } else { i + 1 };
        let pj = if j < at { j } else { j + 1 };
        assert(rest[i] == us[pi]);
        assert(rest[j] == us[pj]);
    }
    assert_sets_equal!(names_of(rest) == names_of(us).remove(n), x => {
        if names_of(rest).contains(x) {
            let i = choose|i: int| 0 <= i < rest.len() && rest[i]@ == x;
            let pi = if i < at { i } else { i + 1 };
            assert(us[pi]@ == x);
            assert(pi != at);
        } else {
            if names_of(us).contains(x) && x != n {
                let i = choose|i: int| 0 <= i < us.len() && us[i]@ == x;
                assert(i != at);
                let ri = if i < at { i } else { i - 1 };
                assert(rest[ri] == us[i]);
                assert(names_of(rest).contains(x));
            }
        }
    });
}

/// Nickname uniqueness: a successful claim makes the name active; after any
/// claim of a name, a further claim of the same name fails and changes
/// nothing, until the name is released.
pub proof fn lemma_nickname_uniqueness(users: Set<Seq<char>>, n: Seq<char>)
    ensures
        spec_claim(users, n).0 ==> !users.contains(n),
        spec_claim(users, n).1.contains(n),
        !spec_claim(spec_claim(users, n).1, n).0,
        spec_claim(spec_claim(users, n).1, n).1 == spec_claim(users, n).1,
{
}

/// The outcome of `k` consecutive claims of one name: how many succeeded, and
/// the set of active names afterwards.
pub open spec fn claim_seq(users: Set<Seq<char>>, n: Seq<char>, k: nat) -> (nat, Set<Seq<char>>)
    decreases k,
{
    if k == 0 {
        (0, users)
    } else {
        let prev = claim_seq(users, n, (k - 1) as nat);
        let step = spec_claim(prev.1, n);
        ((prev.0 + if step.0 {
            1nat
        } else {
            0nat
        }), step.1)
    }
}

/// Of any sequence of claims of one name, at most one succeeds: exactly one
/// when the name was free and the sequence is not empty, none when the name
/// was already active; afterwards the set holds the one entry for that name.
pub proof fn lemma_claim_sequence(users: Set<Seq<char>>, n: Seq<char>, k: nat)
    ensures
        claim_seq(users, n, k).0 <= 1,
        claim_seq(users, n, k).0 == (if !users.contains(n) && k > 0 {
            1nat
        } else {
            0nat
        }),
        claim_seq(users, n, k).1 == (if k == 0 {
            users
        } else {
            users.insert(n)
        }),
    decreases k,
{
    if k > 0 {
        lemma_claim_sequence(users, n, (k - 1) as nat);
        if users.contains(n) {
            assert(users.insert(n) =~= users);
        }
    }
}

/// A released name is immediately available again: a claim right after the
/// release succeeds.
pub proof fn lemma_release_enables_reuse(users: Set<Seq<char>>, n: Seq<char>)
    ensures
        spec_claim(spec_release(users, n), n).0,
{
}

/// Appending one entry leaves the old history a prefix of the new one.
pub proof fn lemma_push_keeps_prefix(h: Seq<(Seq<char>, Seq<char>)>, m: (Seq<char>, Seq<char>))
    ensures
        h.is_prefix_of(h.push(m)),
{
    assert(h =~= h.push(m).subrange(0, h.len() as int));
}

/// History is append-only: the history observed at an earlier time is a
/// prefix of the history observed at any later time, because the prefix left
/// by each single step carries over any chain of steps.
pub proof fn lemma_history_append_only(
    h1: Seq<(Seq<char>, Seq<char>)>,
    h2: Seq<(Seq<char>, Seq<char>)>,
    h3: Seq<(Seq<char>, Seq<char>)>,
)
    requires
        h1.is_prefix_of(h2),
        h2.is_prefix_of(h3),
    ensures
        h1.is_prefix_of(h3),
{
    assert(h1 =~= h3.subrange(0, h1.len() as int));
}

} // verus!
