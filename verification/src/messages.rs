//! The bounded, ordered message list kept per channel: insertion order is
//! preserved (oldest first) and the list never exceeds the configured
//! maximum; the oldest message is evicted first.

use crate::cache::CacheView;
use crate::cache::InMemoryCache;
use crate::ids::ChannelId;
use crate::ids::MessageId;
use crate::model::message_to_cached;
use crate::model::CachedMessage;
use crate::model::CachedMessageView;
use crate::model::Message;
use crate::model::MessageView;
use vstd::prelude::*;

verus! {

/// What a bounded append leaves in a channel's message list: the incoming
/// message last, preceded by the newest earlier messages, never more than
/// `max` in all.
pub open spec fn spec_bounded_push(
    s: Seq<CachedMessageView>,
    m: CachedMessageView,
    max: nat,
) -> Seq<CachedMessageView> {
    if max == 0 {
        Seq::empty()
    } else if s.len() < max {
        s.push(m)
    } else {
        s.skip(s.len() - (max - 1)).push(m)
    }
}

/// The ordered sequence of messages cached for one channel, oldest first.
pub struct MessageList {
    msgs: Vec<CachedMessage>,
}

impl View for MessageList {
    type V = Seq<CachedMessageView>;

    closed spec fn view(&self) -> Seq<CachedMessageView> {
        self.msgs@.map_values(|m: CachedMessage| m@)
    }
}

impl MessageList {
    /// An empty list.
    pub fn new() -> (r: Self)
        ensures
            r@ == Seq::<CachedMessageView>::empty(),
    {
        let r = MessageList { msgs: Vec::new() };
        proof {
            assert(r@ =~= Seq::<CachedMessageView>::empty());
        }
        r
    }

    /// How many messages the list holds.
    pub fn len(&self) -> (n: usize)
        ensures
            n == self@.len(),
    {
        self.msgs.len()
    }

    /// Append a message, evicting the oldest ones so that at most `max`
    /// remain.
    pub fn push_bounded(&mut self, m: CachedMessage, max: usize)
        ensures
            final(self)@ == spec_bounded_push(old(self)@, m@, max as nat),
    {
        let ghost v0 = self@;
        if max == 0 {
            self.msgs = Vec::new();
            proof {
                assert(self@ =~= Seq::<CachedMessageView>::empty());
            }
            return ;
        }
        proof {
            assert(v0.skip(0) =~= v0);
        }
        while self.msgs.len() >= max
            invariant
                max >= 1,
                self@.len() <= v0.len(),
                self@.len() >= max - 1 || self@.len() == v0.len(),
                self@ == v0.skip(v0.len() - self@.len()),
            decreases self@.len(),
        {
            let ghost before = self@;
            let _evicted = self.msgs.remove(0);
            proof {
                assert(self@ =~= before.skip(1));
                assert(before.skip(1) =~= v0.skip(v0.len() - before.len() + 1));
            }
        }
        let ghost suffix = self@;
        self.msgs.push(m);
        proof {
            assert(self@ =~= suffix.push(m@));
            if v0.len() < max {
                assert(suffix.len() == v0.len());
                assert(suffix =~= v0);
            }
        }
    }

    /// The cached message with the given id, if the list holds one.
    pub fn get_message(&self, message_id: MessageId) -> (r: Option<&CachedMessage>)
        ensures
            match r {
                Some(m) => exists|i: int|
                    0 <= i < self@.len() && self@[i].id == message_id && m@ == self@[i],
                None => forall|i: int| 0 <= i < self@.len() ==> self@[i].id != message_id,
            },
    {
        let mut i: usize = 0;
        while i < self.msgs.len()
            invariant
                i <= self@.len(),
                self@.len() == self.msgs@.len(),
                forall|j: int| 0 <= j < i ==> self@[j].id != message_id,
            decreases self@.len() - i,
        {
            if self.msgs[i].id.0 == message_id.0 {
                proof {
                    assert(self@[i as int] == self.msgs@[i as int]@);
                    assert(self@[i as int].id == message_id);
                }
                return Some(&self.msgs[i]);
            }
            i += 1;
        }
        None
    }

    /// Drop every message with the given id, keeping the order of the rest.
    pub fn remove_message(&mut self, message_id: MessageId)
        ensures
            final(self)@ == old(self)@.filter(|m: CachedMessageView| m.id != message_id),
    {
        let ghost v0 = self@;
        let ghost pred = |m: CachedMessageView| m.id != message_id;
        let mut out: Vec<CachedMessage> = Vec::new();
        let mut i: usize = 0;
        proof {
            reveal_with_fuel(Seq::filter, 1);
            assert(v0.take(0) =~= Seq::<CachedMessageView>::empty());
        }
        while i < self.msgs.len()
            invariant
                i <= self@.len(),
                self@.len() == self.msgs@.len(),
                self@ == v0,
                pred == (|m: CachedMessageView| m.id != message_id),
                out@.map_values(|m: CachedMessage| m@) == v0.take(i as int).filter(pred),
            decreases self@.len() - i,
        {
            let ghost out_before = out@.map_values(|m: CachedMessage| m@);
            if self.msgs[i].id.0 != message_id.0 {
                out.push(self.msgs[i].clone());
                proof {
                    assert(out@.map_values(|m: CachedMessage| m@) =~= out_before.push(v0[i as int]));
                }
            }
            proof {
                reveal(Seq::filter);
                assert(v0.take(i + 1).drop_last() =~= v0.take(i as int));
                assert(v0.take(i + 1).last() == v0[i as int]);
                assert(v0.take(i + 1).filter(pred) == if pred(v0[i as int]) {
                    v0.take(i as int).filter(pred).push(v0[i as int])
                } else {
                    v0.take(i as int).filter(pred)
                });
            }
            i += 1;
        }
        proof {
            assert(v0.take(v0.len() as int) =~= v0);
        }
        self.msgs = out;
    }
}

/// What appending one message to its channel's bounded list leaves in the
/// message table.
pub open spec fn spec_cache_message(v: CacheView, m: MessageView) -> CacheView {
    let list = if v.messages.contains_key(m.channel_id) {
        v.messages[m.channel_id]
    } else {
        Seq::empty()
    };
    CacheView {
        messages: v.messages.insert(
            m.channel_id,
            spec_bounded_push(list, message_to_cached(m), v.config.message_cache_size as nat),
        ),
        ..v
    }
}

/// What deleting a message leaves in the message table: every message with
/// that id is gone from its channel's list; a channel with no list at all is
/// untouched.
pub open spec fn spec_delete_message(
    v: CacheView,
    channel_id: ChannelId,
    message_id: MessageId,
) -> CacheView {
    if v.messages.contains_key(channel_id) {
        CacheView {
            messages: v.messages.insert(
                channel_id,
                v.messages[channel_id].filter(|m: CachedMessageView| m.id != message_id),
            ),
            ..v
        }
    } else {
        v
    }
}

impl InMemoryCache {
    /// Append a message to its channel's list, evicting the oldest messages
    /// beyond the configured bound.
    pub fn cache_message(&mut self, message: Message)
        ensures
            final(self)@ == spec_cache_message(old(self)@, message@),
    {
        let ghost mv = message@;
        let channel_id = message.channel_id;
        let max = self.config.message_cache_size;
        let mut list = match self.messages.remove(&channel_id) {
            Some(l) => l,
            None => MessageList::new(),
        };
        let Message { id, channel_id: message_channel_id, author, content } = message;
        let cached = CachedMessage {
            id,
            channel_id: message_channel_id,
            author_id: author.id,
            content,
        };
        proof {
            assert(cached@ == message_to_cached(mv));
        }
        list.push_bounded(cached, max);
        self.messages.insert(channel_id, list);
        proof {
            assert(self@ =~= spec_cache_message(old(self)@, mv));
        }
    }

    /// Drop every message with the given id from the channel's list.
    pub fn delete_message(&mut self, channel_id: ChannelId, message_id: MessageId)
        ensures
            final(self)@ == spec_delete_message(old(self)@, channel_id, message_id),
    {
        match self.messages.remove(&channel_id) {
            Some(mut list) => {
                list.remove_message(message_id);
                self.messages.insert(channel_id, list);
                proof {
                    assert(self@ =~= spec_delete_message(old(self)@, channel_id, message_id));
                }
            },
            None => {},
        }
    }
}

} // verus!
