use crate::replies::{lookup, queue_after_insert, replies_after_insert, MessageReplies};
use crate::reply::{
    new_message, planned_buttons, refusal_text, reply_acceptable, reply_content, rows_of, rows_view, Error,
    IncomingMessage, ReplyPlan,
};
use vstd::prelude::*;

verus! {

/// A gateway event, as far as the bot acts on it.
#[derive(Debug)]
pub enum Event {
    /// A message was posted.
    MessageCreate(IncomingMessage),
    /// A message was deleted.
    MessageDelete { id: u64, channel_id: u64 },
    /// Several messages of one channel were deleted at once.
    MessageDeleteBulk { ids: Vec<u64>, channel_id: u64 },
    /// A thread was created.
    ThreadCreate { id: u64 },
    /// The connection to the gateway is ready.
    Ready,
    /// Any other event.
    Other,
}

/// What the bot does in answer to an event.
#[derive(Debug)]
pub enum Action {
    /// Nothing.
    Nothing,
    /// Post this reply; once posted, record it in the reply cache.
    Reply(ReplyPlan),
    /// Delete the bot's reply `reply_id` in `channel_id`.
    DeleteReply { channel_id: u64, reply_id: u64 },
    /// Delete these replies of the bot in `channel_id`.
    DeleteReplies { channel_id: u64, reply_ids: Vec<u64> },
    /// Join the thread with this id.
    JoinThread(u64),
    /// Report that the bot is ready.
    AnnounceReady,
}

/// The replies found, in order, when the replies to `ids` are taken out of
/// `replies` one after the other, and what is left afterwards.
pub open spec fn bulk_removal(replies: Map<u64, u64>, ids: Seq<u64>) -> (Map<u64, u64>, Seq<u64>)
    decreases ids.len(),
{
    if ids.len() == 0 {
        (replies, Seq::empty())
    } else {
        let (left, found) = bulk_removal(replies, ids.drop_last());
        let id = ids.last();
        if left.dom().contains(id) {
            (left.remove(id), found.push(left[id]))
        } else {
            (left, found)
        }
    }
}

/// Records the reply `reply_id` that the bot posted for `plan`, so that it
/// is deleted along with the message it answers.
pub fn reply_posted(cache: &mut MessageReplies, plan: &ReplyPlan, reply_id: u64)
    requires
        old(cache).wf(),
    ensures
        final(cache).wf(),
        final(cache).oldest() == queue_after_insert(old(cache).oldest(), plan.reply_to),
        final(cache).replies() == replies_after_insert(
            old(cache).replies(),
            old(cache).oldest(),
            plan.reply_to,
            reply_id,
        ),
{
    cache.insert(plan.reply_to, reply_id);
}

/// Takes the reply to the deleted message `msg_id` out of the cache and
/// returns it, if the bot had replied to that message: that reply is the
/// one to delete.
pub fn message_delete(cache: &mut MessageReplies, msg_id: u64) -> (reply: Option<u64>)
    requires
        old(cache).wf(),
    ensures
        final(cache).wf(),
        reply == lookup(old(cache).replies(), msg_id),
        final(cache).replies() == old(cache).replies().remove(msg_id),
        final(cache).oldest() == old(cache).oldest(),
{
    cache.remove(msg_id)
}

/// Takes the replies to all of `ids` out of the cache, in order, and
/// returns those that were found.
pub fn messages_delete(cache: &mut MessageReplies, ids: &Vec<u64>) -> (found: Vec<u64>)
    requires
        old(cache).wf(),
    ensures
        final(cache).wf(),
        (final(cache).replies(), found@) == bulk_removal(old(cache).replies(), ids@),
        final(cache).oldest() == old(cache).oldest(),
{
    let mut found: Vec<u64> = Vec::new();
    let mut i: usize = 0;
    while i < ids.len()
        invariant
            i <= ids.len(),
            cache.wf(),
            cache.oldest() == old(cache).oldest(),
            (cache.replies(), found@) == bulk_removal(
                old(cache).replies(),
                ids@.subrange(0, i as int),
            ),
        decreases ids.len() - i,
    {
        let ghost pre = ids@.subrange(0, i + 1);
        assert(pre.drop_last() =~= ids@.subrange(0, i as int));
        if let Some(r) = message_delete(cache, ids[i]) {
            found.push(r);
        }
        i = i + 1;
    }
    assert(ids@.subrange(0, ids@.len() as int) =~= ids@);
    found
}

/// Decides what to do about a gateway event.  A new message gets the reply
/// that [`new_message`] plans; the deletion of a message the bot replied to
/// takes the reply out of the cache and deletes it; a new thread is joined;
/// readiness is announced; anything else is ignored.
pub fn handle_event(cache: &mut MessageReplies, event: Event, paste_url: &str) -> (r: Result<
    Action,
    Error,
>)
    requires
        old(cache).wf(),
    ensures
        final(cache).wf(),
        final(cache).oldest() == old(cache).oldest(),
        match event {
            Event::MessageCreate(m) => {
                let bs = planned_buttons(paste_url@, m.channel_id, m.attachments@);
                let text = reply_content(m.author_id);
                &&& final(cache).replies() == old(cache).replies()
                &&& if m.attachments@.len() == 0 {
                    r matches Ok(Action::Nothing)
                } else if bs.len() == 0 {
                    r matches Err(Error::InvalidAttachment)
                } else if !reply_acceptable(text, bs) {
                    r matches Err(Error::MessageValidation(e)) && e@ == refusal_text(text, bs)
                } else {
                    r matches Ok(Action::Reply(p)) && p.channel_id == m.channel_id && p.reply_to
                        == m.id && p.content@ == text && !p.mentions_allowed && rows_view(p.rows@)
                        == rows_of(bs)
                }
            },
            Event::MessageDelete { id, channel_id } => {
                &&& final(cache).replies() == old(cache).replies().remove(id)
                &&& match lookup(old(cache).replies(), id) {
                    Some(reply) => r == Ok::<Action, Error>(
                        Action::DeleteReply { channel_id, reply_id: reply },
                    ),
                    None => r == Ok::<Action, Error>(Action::Nothing),
                }
            },
            Event::MessageDeleteBulk { ids, channel_id } => {
                let (left, found) = bulk_removal(old(cache).replies(), ids@);
                &&& final(cache).replies() == left
                &&& r matches Ok(Action::DeleteReplies { channel_id: c, reply_ids })
                &&& c == channel_id
                &&& reply_ids@ == found
            },
            Event::ThreadCreate { id } => {
                &&& final(cache).replies() == old(cache).replies()
                &&& r == Ok::<Action, Error>(Action::JoinThread(id))
            },
            Event::Ready => {
                &&& final(cache).replies() == old(cache).replies()
                &&& r == Ok::<Action, Error>(Action::AnnounceReady)
            },
            Event::Other => {
                &&& final(cache).replies() == old(cache).replies()
                &&& r == Ok::<Action, Error>(Action::Nothing)
            },
        },
{
    match event {
        Event::MessageCreate(m) => match new_message(&m, paste_url) {
            Ok(Some(p)) => Ok(Action::Reply(p)),
            Ok(None) => Ok(Action::Nothing),
            Err(e) => Err(e),
        },
        Event::MessageDelete { id, channel_id } => match message_delete(cache, id) {
            Some(reply_id) => Ok(Action::DeleteReply { channel_id, reply_id }),
            None => Ok(Action::Nothing),
        },
        Event::MessageDeleteBulk { ids, channel_id } => {
            let reply_ids = messages_delete(cache, &ids);
            Ok(Action::DeleteReplies { channel_id, reply_ids })
        },
        Event::ThreadCreate { id } => Ok(Action::JoinThread(id)),
        Event::Ready => Ok(Action::AnnounceReady),
        Event::Other => Ok(Action::Nothing),
    }
}


/// Deleting messages in bulk forgets the replies to all of them and keeps
/// every other reply; it finds each remembered reply once, in the order of
/// the deleted ids, so never more replies than ids.
pub proof fn lemma_bulk_removal(replies: Map<u64, u64>, ids: Seq<u64>)
    ensures
        bulk_removal(replies, ids).0 == replies.remove_keys(ids.to_set()),
        bulk_removal(replies, ids).1.len() <= ids.len(),
    decreases ids.len(),
{
    if ids.len() > 0 {
        lemma_bulk_removal(replies, ids.drop_last());
        let id = ids.last();
        assert(ids.to_set() =~= ids.drop_last().to_set().insert(id)) by {
            assert forall|k: u64| ids.to_set().contains(k) implies ids.drop_last().to_set().insert(
                id,
            ).contains(k) by {
                let i = choose|i: int| 0 <= i < ids.len() && ids[i] == k;
                if i < ids.len() - 1 {
                    assert(ids.drop_last()[i] == k);
                }
            }
            assert forall|k: u64| ids.drop_last().to_set().insert(id).contains(k) implies ids.to_set().contains(
                k,
            ) by {
                if k != id {
                    let i = choose|i: int| 0 <= i < ids.drop_last().len() && ids.drop_last()[i] == k;
                    assert(ids[i] == k);
                } else {
                    assert(ids[ids.len() - 1] == k);
                }
            }
        }
        let (left, found) = bulk_removal(replies, ids.drop_last());
        if left.dom().contains(id) {
            assert(left.remove(id) =~= replies.remove_keys(ids.to_set()));
        } else {
            assert(left =~= replies.remove_keys(ids.to_set()));
        }
    } else {
        assert(replies.remove_keys(ids.to_set()) =~= replies);
    }
}


/// `v` is the reply remembered in `replies` for one of `ids`.
pub open spec fn reply_to_one_of(replies: Map<u64, u64>, ids: Seq<u64>, v: u64) -> bool {
    exists|k: u64| ids.contains(k) && replies.dom().contains(k) && #[trigger] replies[k] == v
}

/// Deleting messages in bulk hands back every reply it takes out of the
/// cache: each reply remembered for one of the ids is returned, everything
/// returned is such a reply, and there is one returned reply per distinct
/// deleted message that had one.
pub proof fn lemma_bulk_removal_returns_every_reply(replies: Map<u64, u64>, ids: Seq<u64>)
    requires
        replies.dom().finite(),
    ensures
        ({
            let found = bulk_removal(replies, ids).1;
            &&& forall|k: u64|
                ids.contains(k) && replies.dom().contains(k) ==> found.contains(#[trigger] replies[k])
            &&& forall|j: int|
                0 <= j < found.len() ==> reply_to_one_of(replies, ids, #[trigger] found[j])
            &&& found.len() == replies.dom().intersect(ids.to_set()).len()
        }),
    decreases ids.len(),
{
    let found = bulk_removal(replies, ids).1;
    if ids.len() == 0 {
        assert(replies.dom().intersect(ids.to_set()) =~= Set::<u64>::empty());
        assert(found.len() == 0);
    } else {
        let earlier = ids.drop_last();
        let id = ids.last();
        lemma_bulk_removal_returns_every_reply(replies, earlier);
        lemma_bulk_removal(replies, earlier);
        let (left, found0) = bulk_removal(replies, earlier);
        assert(left == replies.remove_keys(earlier.to_set()));
        assert(ids =~= earlier.push(id));
        let s0 = replies.dom().intersect(earlier.to_set());
        let s1 = replies.dom().intersect(ids.to_set());
        assert(ids.to_set() =~= earlier.to_set().insert(id)) by {
            assert forall|k: u64| ids.to_set().contains(k) implies earlier.to_set().insert(id).contains(
                k,
            ) by {
                let i = choose|i: int| 0 <= i < ids.len() && ids[i] == k;
                if i < ids.len() - 1 {
                    assert(earlier[i] == k);
                }
            }
            assert forall|k: u64| earlier.to_set().insert(id).contains(k) implies ids.to_set().contains(
                k,
            ) by {
                if k != id {
                    let i = choose|i: int| 0 <= i < earlier.len() && earlier[i] == k;
                    assert(ids[i] == k);
                } else {
                    assert(ids[ids.len() - 1] == k);
                }
            }
        }
        vstd::set_lib::lemma_len_subset(s0, replies.dom());
        if left.dom().contains(id) {
            assert(s1 =~= s0.insert(id));
            assert(!s0.contains(id));
            assert(found =~= found0.push(replies[id]));
        } else {
            assert(s1 =~= s0);
            assert(found == found0);
        }
        assert forall|k: u64| ids.contains(k) && replies.dom().contains(k) implies found.contains(
            #[trigger] replies[k],
        ) by {
            assert(ids.to_set().contains(k));
            if earlier.contains(k) {
                let j = choose|j: int| 0 <= j < found0.len() && found0[j] == replies[k];
                assert(found[j] == replies[k]);
            } else {
                assert(k == id);
                assert(!earlier.to_set().contains(k));
                assert(found[found.len() - 1] == replies[k]);
            }
        }
        assert forall|j: int| 0 <= j < found.len() implies reply_to_one_of(
            replies,
            ids,
            #[trigger] found[j],
        ) by {
            if j < found0.len() {
                assert(reply_to_one_of(replies, earlier, found0[j]));
                let k = choose|k: u64|
                    earlier.contains(k) && replies.dom().contains(k) && #[trigger] replies[k] == found0[j];
                let i = choose|i: int| 0 <= i < earlier.len() && earlier[i] == k;
                assert(ids[i] == k);
                assert(found[j] == found0[j]);
            } else {
                assert(ids[ids.len() - 1] == id);
                assert(ids.contains(id));
                assert(found[j] == replies[id]);
            }
        }
        assert(found.len() == s1.len());
        assert(found.len() == replies.dom().intersect(ids.to_set()).len());
    }
}

} // verus!
