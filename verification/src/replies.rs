use ahash::AHashMap;
use std::collections::VecDeque;
use vstd::prelude::*;

verus! {

#[verifier::external_type_specification]
#[verifier::external_body]
#[verifier::reject_recursive_types(K)]
#[verifier::reject_recursive_types(V)]
#[verifier::reject_recursive_types(S)]
pub struct ExAHashMap<K, V, S>(AHashMap<K, V, S>);

#[verifier::external_type_specification]
#[verifier::external_body]
pub struct ExAHashRandomState(ahash::RandomState);

/// What an `AHashMap` from message ids to message ids holds: each key with
/// the value stored under it.
pub uninterp spec fn id_map_contents(m: AHashMap<u64, u64>) -> Map<u64, u64>;

/// `AHashMap::with_capacity`: a map with room for `capacity` entries that
/// holds nothing.  Far larger capacities make the table's size computation
/// overflow, so they are left out.
#[verifier::external_body]
fn id_map_with_capacity(capacity: usize) -> (fresh: AHashMap<u64, u64>)
    requires
        capacity <= 0x1000_0000,
    ensures
        id_map_contents(fresh).dom().is_empty(),
{
    AHashMap::with_capacity(capacity)
}

/// `AHashMap::insert`: afterwards `k` maps to `v` and every other key is as
/// it was; the value that `k` had before, if any, is returned.
#[verifier::external_body]
fn id_map_insert(m: &mut AHashMap<u64, u64>, k: u64, v: u64) -> (prev: Option<u64>)
    ensures
        id_map_contents(*final(m)) == id_map_contents(*old(m)).insert(k, v),
        prev == (if id_map_contents(*old(m)).dom().contains(k) {
            Some(id_map_contents(*old(m))[k])
        } else {
            None
        }),
{
    m.insert(k, v)
}

/// `AHashMap::remove`: afterwards `k` is absent and every other key is as it
/// was; the value that `k` had before, if any, is returned.
#[verifier::external_body]
fn id_map_remove(m: &mut AHashMap<u64, u64>, k: u64) -> (prev: Option<u64>)
    ensures
        id_map_contents(*final(m)) == id_map_contents(*old(m)).remove(k),
        prev == (if id_map_contents(*old(m)).dom().contains(k) {
            Some(id_map_contents(*old(m))[k])
        } else {
            None
        }),
{
    m.remove(&k)
}

/// `AHashMap::get`, with the found value copied out: the value stored
/// under `k`, if any.
#[verifier::external_body]
fn id_map_get(m: &AHashMap<u64, u64>, k: u64) -> (found: Option<u64>)
    ensures
        found == (if id_map_contents(*m).dom().contains(k) {
            Some(id_map_contents(*m)[k])
        } else {
            None
        }),
{
    m.get(&k).copied()
}

/// How many replies the cache remembers at most.
pub const MAX_REFERENCES: usize = 1_000_000;

/// The value stored under `k` in `m`, if any.
pub open spec fn lookup(m: Map<u64, u64>, k: u64) -> Option<u64> {
    if m.dom().contains(k) {
        Some(m[k])
    } else {
        None
    }
}

/// The insertion queue after `referenced` is recorded: it is appended, and
/// when the queue then exceeds the limit its oldest entry leaves.
pub open spec fn queue_after_insert(oldest: Seq<u64>, referenced: u64) -> Seq<u64> {
    let q = oldest.push(referenced);
    if q.len() > MAX_REFERENCES {
        q.drop_first()
    } else {
        q
    }
}

/// The reply map after `referenced -> reply` is recorded: the pair is
/// stored, and when the queue overflows, the key at its front is forgotten.
pub open spec fn replies_after_insert(
    replies: Map<u64, u64>,
    oldest: Seq<u64>,
    referenced: u64,
    reply: u64,
) -> Map<u64, u64> {
    let m = replies.insert(referenced, reply);
    let q = oldest.push(referenced);
    if q.len() > MAX_REFERENCES {
        m.remove(q[0])
    } else {
        m
    }
}

/// A bounded cache from the id of a message to the id of the bot's reply to
/// it, so that the reply can be deleted when the message is.  Ids are
/// remembered in insertion order; once more than [`MAX_REFERENCES`] have been
/// recorded, the oldest one is forgotten.
pub struct MessageReplies {
    replies: AHashMap<u64, u64>,
    oldest: VecDeque<u64>,
}

impl MessageReplies {
    /// The replies currently remembered, by the id of the message replied to.
    pub closed spec fn replies(&self) -> Map<u64, u64> {
        id_map_contents(self.replies)
    }

    /// The recorded message ids, oldest first (an id may occur more than
    /// once, and removed ids stay until they reach the front).
    pub closed spec fn oldest(&self) -> Seq<u64> {
        self.oldest@
    }

    /// The cache's invariant: the queue stays within the limit, and every
    /// remembered message id is still in the queue.
    pub open spec fn wf(&self) -> bool {
        &&& self.oldest().len() <= MAX_REFERENCES
        &&& forall|k: u64| #[trigger]
            self.replies().dom().contains(k) ==> self.oldest().contains(k)
    }

    /// An empty cache.
    pub fn new() -> (r: Self)
        ensures
            r.wf(),
            r.replies() == Map::<u64, u64>::empty(),
            r.oldest() == Seq::<u64>::empty(),
    {
        Self::default()
    }

    /// Records that `reply` answers `referenced`.  When this makes the queue
    /// longer than [`MAX_REFERENCES`], the oldest recorded id is forgotten.
    pub fn insert(&mut self, referenced: u64, reply: u64)
        requires
            old(self).wf(),
        ensures
            final(self).wf(),
            final(self).oldest() == queue_after_insert(old(self).oldest(), referenced),
            final(self).replies() == replies_after_insert(
                old(self).replies(),
                old(self).oldest(),
                referenced,
                reply,
            ),
    {
        id_map_insert(&mut self.replies, referenced, reply);
        self.oldest.push_back(referenced);
        if self.oldest.len() > MAX_REFERENCES {
            if let Some(evicted) = self.oldest.pop_front() {
                id_map_remove(&mut self.replies, evicted);
            }
        }
        proof {
            let q = old(self).oldest().push(referenced);
            assert(q.drop_first() =~= q.subrange(1, q.len() as int));
            assert forall|k: u64| #[trigger] self.replies().dom().contains(k) implies self.oldest().contains(
                k,
            ) by {
                if k == referenced {
                    if q.len() > MAX_REFERENCES {
                        assert(self.oldest()[self.oldest().len() - 1] == k);
                    } else {
                        assert(q[q.len() - 1] == k);
                    }
                } else {
                    assert(old(self).replies().dom().contains(k));
                    let i = choose|i: int| 0 <= i < old(self).oldest().len() && old(self).oldest()[i] == k;
                    assert(q[i] == k);
                    if q.len() > MAX_REFERENCES {
                        assert(i != 0);
                        assert(self.oldest()[i - 1] == k);
                    }
                }
            }
        }
    }

    /// The reply recorded for `referenced`, if it is remembered.
    pub fn get(&self, referenced: u64) -> (r: Option<u64>)
        ensures
            r == lookup(self.replies(), referenced),
    {
        id_map_get(&self.replies, referenced)
    }

    /// Forgets the reply recorded for `referenced` and returns it, if it was
    /// remembered.
    pub fn remove(&mut self, referenced: u64) -> (r: Option<u64>)
        requires
            old(self).wf(),
        ensures
            final(self).wf(),
            r == lookup(old(self).replies(), referenced),
            final(self).replies() == old(self).replies().remove(referenced),
            final(self).oldest() == old(self).oldest(),
    {
        id_map_remove(&mut self.replies, referenced)
    }
}

impl Default for MessageReplies {
    fn default() -> (r: Self)
        ensures
            r.wf(),
            r.replies() == Map::<u64, u64>::empty(),
            r.oldest() == Seq::<u64>::empty(),
    {
        MessageReplies {
            replies: id_map_with_capacity(MAX_REFERENCES + 1),
            oldest: VecDeque::with_capacity(MAX_REFERENCES + 1),
        }
    }
}


/// The cache never remembers more than [`MAX_REFERENCES`] replies: its memory
/// is bounded whatever sequence of operations produced it.
pub proof fn lemma_replies_bounded(s: &MessageReplies)
    requires
        s.wf(),
    ensures
        s.replies().dom().finite(),
        s.replies().len() <= MAX_REFERENCES,
{
    let q = s.oldest();
    assert(s.replies().dom().subset_of(q.to_set()));
    q.lemma_cardinality_of_set();
    vstd::set_lib::lemma_len_subset(s.replies().dom(), q.to_set());
}

/// A reply that has just been recorded is found again, unless recording it
/// pushed out the very same message id from the front of a full queue.
pub proof fn lemma_insert_then_get(s: &MessageReplies, referenced: u64, reply: u64)
    requires
        s.wf(),
        !(s.oldest().len() == MAX_REFERENCES && s.oldest()[0] == referenced),
    ensures
        lookup(replies_after_insert(s.replies(), s.oldest(), referenced, reply), referenced)
            == Some(reply),
{
    let q = s.oldest().push(referenced);
    if q.len() > MAX_REFERENCES {
        assert(q[0] == s.oldest()[0]);
    }
}

/// Recording a reply leaves every other message's reply as it was, except
/// that of the id that leaves the front of a full queue.
pub proof fn lemma_insert_keeps_others(s: &MessageReplies, referenced: u64, reply: u64, other: u64)
    requires
        s.wf(),
        other != referenced,
        !(s.oldest().len() == MAX_REFERENCES && s.oldest()[0] == other),
    ensures
        lookup(replies_after_insert(s.replies(), s.oldest(), referenced, reply), other) == lookup(
            s.replies(),
            other,
        ),
{
    let q = s.oldest().push(referenced);
    if q.len() > MAX_REFERENCES {
        assert(q[0] == s.oldest()[0]);
    }
}

/// A queue that is not full loses nothing when an id is recorded: every
/// remembered reply is still there, and the new one with it.
pub proof fn lemma_insert_below_limit_loses_nothing(
    s: &MessageReplies,
    referenced: u64,
    reply: u64,
)
    requires
        s.wf(),
        s.oldest().len() < MAX_REFERENCES,
    ensures
        replies_after_insert(s.replies(), s.oldest(), referenced, reply) == s.replies().insert(
            referenced,
            reply,
        ),
        queue_after_insert(s.oldest(), referenced) == s.oldest().push(referenced),
{
}

/// Once a reply is removed it is not found again, and no other message's
/// reply is affected.
pub proof fn lemma_remove_then_get(s: &MessageReplies, referenced: u64, other: u64)
    requires
        s.wf(),
    ensures
        lookup(s.replies().remove(referenced), referenced) == None::<u64>,
        other != referenced ==> lookup(s.replies().remove(referenced), other) == lookup(
            s.replies(),
            other,
        ),
{
}


/// A call that changes the cache: recording a reply, or forgetting one.
pub enum CacheCall {
    Insert { referenced: u64, reply: u64 },
    Remove { referenced: u64 },
}

/// The replies and the queue of a cache made by [`MessageReplies::new`] after
/// these calls, as the contracts of `insert` and `remove` give them.
pub open spec fn after_calls(calls: Seq<CacheCall>) -> (Map<u64, u64>, Seq<u64>)
    decreases calls.len(),
{
    if calls.len() == 0 {
        (Map::empty(), Seq::empty())
    } else {
        let (replies, oldest) = after_calls(calls.drop_last());
        match calls.last() {
            CacheCall::Insert { referenced, reply } => (
                replies_after_insert(replies, oldest, referenced, reply),
                queue_after_insert(oldest, referenced),
            ),
            CacheCall::Remove { referenced } => (replies.remove(referenced), oldest),
        }
    }
}

/// The message ids passed to `insert` by these calls, in order.
pub open spec fn inserted_ids(calls: Seq<CacheCall>) -> Seq<u64>
    decreases calls.len(),
{
    if calls.len() == 0 {
        Seq::empty()
    } else {
        let earlier = inserted_ids(calls.drop_last());
        match calls.last() {
            CacheCall::Insert { referenced, reply } => earlier.push(referenced),
            CacheCall::Remove { referenced } => earlier,
        }
    }
}

/// The last [`MAX_REFERENCES`] ids of `history` (all of them if there are
/// fewer).
pub open spec fn recent(history: Seq<u64>) -> Seq<u64> {
    if history.len() <= MAX_REFERENCES {
        history
    } else {
        history.skip(history.len() - MAX_REFERENCES)
    }
}

/// Recording an id keeps the queue equal to the last [`MAX_REFERENCES`]
/// recorded ids.
pub proof fn lemma_queue_follows_history(history: Seq<u64>, referenced: u64)
    ensures
        queue_after_insert(recent(history), referenced) == recent(history.push(referenced)),
{
    let q = recent(history).push(referenced);
    if history.len() >= MAX_REFERENCES {
        assert(q.drop_first() =~= recent(history.push(referenced)));
    } else {
        assert(q =~= recent(history.push(referenced)));
    }
}

/// Whatever calls made a cache, its queue holds the last [`MAX_REFERENCES`]
/// ids passed to `insert`, oldest first.
pub proof fn lemma_queue_is_recent_inserts(calls: Seq<CacheCall>)
    ensures
        after_calls(calls).1 == recent(inserted_ids(calls)),
    decreases calls.len(),
{
    if calls.len() > 0 {
        lemma_queue_is_recent_inserts(calls.drop_last());
        match calls.last() {
            CacheCall::Insert { referenced, reply } => {
                lemma_queue_follows_history(inserted_ids(calls.drop_last()), referenced);
            },
            CacheCall::Remove { referenced } => {},
        }
    }
}

/// Eviction is first in, first out by `insert` call: recording a reply after
/// `n` earlier inserts stores it, and, once `n` reaches [`MAX_REFERENCES`],
/// forgets the id passed to the insert exactly [`MAX_REFERENCES`] inserts
/// earlier, even if that id was recorded again since.
pub proof fn lemma_insert_evicts_oldest_insert(calls: Seq<CacheCall>, referenced: u64, reply: u64)
    ensures
        ({
            let h = inserted_ids(calls);
            let before = after_calls(calls).0;
            let after = after_calls(calls.push(CacheCall::Insert { referenced, reply })).0;
            if h.len() < MAX_REFERENCES {
                after == before.insert(referenced, reply)
            } else {
                after == before.insert(referenced, reply).remove(h[h.len() - MAX_REFERENCES])
            }
        }),
{
    lemma_queue_is_recent_inserts(calls);
    let h = inserted_ids(calls);
    let next = calls.push(CacheCall::Insert { referenced, reply });
    assert(next.drop_last() =~= calls);
    let q = after_calls(calls).1;
    if h.len() >= MAX_REFERENCES {
        assert(q.push(referenced)[0] == h[h.len() - MAX_REFERENCES]);
    }
}

} // verus!
