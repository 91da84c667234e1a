//! The message store: the authoritative in-memory collection of messages,
//! with atomic create / list / edit / delete / sweep operations.
//!
//! The store itself is sequential; callers that share it across tasks wrap
//! it in a mutual-exclusion primitive and hold that lock for the whole of
//! each operation.

use vstd::prelude::*;
use vstd::pervasive::VecAdditionalExecFns;
use crate::langs::Langs;
use crate::messages::{
    is_expired, message_edited, message_from_new, valid_new_message, EditMessage, Message,
    NewMessage,
};

verus! {

broadcast use vstd::seq_lib::group_filter_ensures;

/// No two messages of `s` share an id.
pub open spec fn ids_distinct(s: Seq<Message>) -> bool {
    forall|i: int, j: int| 0 <= i < j < s.len() ==> s[i].id != s[j].id
}

/// Some message of `s` carries the id `id`.
pub open spec fn contains_id(s: Seq<Message>, id: u64) -> bool {
    exists|i: int| 0 <= i < s.len() && s[i].id == id
}

/// The predicate a message must satisfy to survive a sweep at `now`.
pub open spec fn live_pred(now: u64) -> spec_fn(Message) -> bool {
    |m: Message| !is_expired(m, now)
}

/// The predicate selecting messages of language `lang`.
pub open spec fn lang_pred(lang: Langs) -> spec_fn(Message) -> bool {
    |m: Message| m.lang == lang
}

/// `post` is `pre` with the message at some index `i` carrying id `e.id`
/// replaced by its edited form, and every other index untouched. Under
/// [`ids_distinct`] that index is unique, so `post` is fully determined.
pub open spec fn seq_edited(pre: Seq<Message>, post: Seq<Message>, e: EditMessage) -> bool {
    &&& post.len() == pre.len()
    &&& exists|i: int|
        #![trigger pre[i]]
        {
            &&& 0 <= i < pre.len()
            &&& pre[i].id == e.id
            &&& message_edited(post[i], pre[i], e)
            &&& (forall|j: int| 0 <= j < pre.len() && j != i ==> post[j] == pre[j])
        }
}

/// The smallest counter value strictly above every id of `s` (0 when `s` is
/// empty).
pub open spec fn min_fresh_counter(s: Seq<Message>) -> int
    decreases s.len(),
{
    if s.len() == 0 {
        0
    } else {
        let rest = min_fresh_counter(s.drop_last());
        if s.last().id + 1 > rest {
            s.last().id + 1
        } else {
            rest
        }
    }
}

/// Why a snapshot was rejected by [`MessageStore::replace_all`].
#[derive(Clone, Copy, Debug, PartialEq, Eq, Structural)]
pub enum SnapshotError {
    /// Two messages of the snapshot share an id.
    DuplicateId,
    /// An id of the snapshot leaves no room for a fresh counter above it.
    IdTooLarge,
}

/// `post` is `pre` extended by exactly one message: a freshly stamped one
/// that carries the payload `nm`, the id `id` (live nowhere in `pre`) and
/// `created = created`.
pub open spec fn message_from_new_pushed(
    pre: Seq<Message>,
    post: Seq<Message>,
    nm: NewMessage,
    id: u64,
    created: u64,
) -> bool {
    &&& post.len() == pre.len() + 1
    &&& post == pre.push(post.last())
    &&& message_from_new(post.last(), nm, id, created)
    &&& !contains_id(pre, post.last().id)
}

/// Every id of `s` leaves room for a counter strictly above it.
pub open spec fn ids_below_max(s: Seq<Message>) -> bool {
    forall|i: int| 0 <= i < s.len() ==> s[i].id < u64::MAX
}

/// The authoritative collection of messages, in insertion order, plus the
/// counter from which fresh ids are drawn.
pub struct MessageStore {
    messages: Vec<Message>,
    next_id: u64,
}

impl View for MessageStore {
    type V = Seq<Message>;

    closed spec fn view(&self) -> Seq<Message> {
        self.messages@
    }
}

impl MessageStore {
    /// The counter from which the next id will be assigned.
    pub closed spec fn id_counter(self) -> u64 {
        self.next_id
    }

    /// Well-formedness: live ids are pairwise distinct and all lie below the
    /// counter, so the counter's value is always fresh.
    pub open spec fn inv(self) -> bool {
        &&& ids_distinct(self@)
        &&& forall|i: int| 0 <= i < self@.len() ==> self@[i].id < self.id_counter()
    }

    /// An empty store.
    pub fn new() -> (s: Self)
        ensures
            s@ == Seq::<Message>::empty(),
            s.id_counter() == 0,
            s.inv(),
    {
        MessageStore { messages: Vec::new(), next_id: 0 }
    }

    /// How many messages are currently live.
    pub fn len(&self) -> (n: usize)
        ensures
            n == self@.len(),
    {
        self.messages.len()
    }

    /// Whether the id counter still has room for a fresh id.
    pub fn can_assign_id(&self) -> (b: bool)
        ensures
            b == (self.id_counter() < u64::MAX),
    {
        self.next_id < u64::MAX
    }

    /// Appends a freshly stamped message built from `nm`: it receives the
    /// next unused id and `created = now`, and is returned in full.
    pub fn create(&mut self, nm: &NewMessage, now: u64) -> (m: Message)
        requires
            old(self).inv(),
            valid_new_message(*nm),
            old(self).id_counter() < u64::MAX,
        ensures
            final(self).inv(),
            message_from_new(m, *nm, old(self).id_counter(), now),
            final(self)@ == old(self)@.push(m),
            !contains_id(old(self)@, m.id),
            final(self).id_counter() == old(self).id_counter() + 1,
    {
        let id: u64 = self.next_id;
        self.next_id = self.next_id + 1;
        let p = nm.clone();
        let m = Message {
            id,
            created: now,
            content: p.content,
            lang: p.lang,
            expires: p.expires,
            title: p.title,
            image_url: p.image_url,
            image_data: p.image_data,
            image_mime_type: p.image_mime_type,
        };
        let out = m.clone();
        self.messages.push(m);
        out
    }

    /// Copies out every live message whose language is `lang`, in insertion
    /// order. The result is a snapshot: later mutation of the store cannot
    /// be observed through it.
    pub fn list_by_lang(&self, lang: Langs) -> (r: Vec<Message>)
        ensures
            r@ == self@.filter(lang_pred(lang)),
    {
        broadcast use vstd::prelude::Seq::lemma_filter_push;

        let ghost pred = lang_pred(lang);
        let mut r: Vec<Message> = Vec::new();
        let mut i: usize = 0;
        proof {
            assert(self@.subrange(0, 0).filter(pred) =~= Seq::<Message>::empty());
        }
        while i < self.messages.len()
            invariant
                i <= self.messages.len(),
                self@ == self.messages@,
                pred == lang_pred(lang),
                r@ == self@.subrange(0, i as int).filter(pred),
            decreases self.messages.len() - i,
        {
            let m = &self.messages[i];
            proof {
                let sub = self@.subrange(0, i as int);
                assert(self@.subrange(0, i + 1 as int) =~= sub.push(self@[i as int]));
                sub.lemma_filter_push(self@[i as int], pred);
            }
            if m.lang == lang {
                r.push(m.clone());
            }
            i += 1;
        }
        proof {
            assert(self@.subrange(0, self@.len() as int) =~= self@);
        }
        r
    }

    /// Replaces the mutable fields (content, title, image_url) of the
    /// message carrying `e.id`, leaving id, created, lang, expires and the
    /// image payload untouched; reports whether the id was found, and on a
    /// miss leaves the store unchanged.
    pub fn edit(&mut self, e: &EditMessage) -> (found: bool)
        requires
            old(self).inv(),
        ensures
            final(self).inv(),
            found == contains_id(old(self)@, e.id),
            !found ==> final(self)@ == old(self)@,
            found ==> seq_edited(old(self)@, final(self)@, *e),
            final(self).id_counter() == old(self).id_counter(),
    {
        let n: usize = self.messages.len();
        let mut i: usize = 0;
        while i < n
            invariant
                i <= n,
                *self == *old(self),
                n == self.messages.len(),
                old(self).inv(),
                forall|j: int| 0 <= j < i ==> self@[j].id != e.id,
            decreases n - i,
        {
            if self.messages[i].id == e.id {
                let ghost pre = self@;
                let mut u = self.messages[i].clone();
                u.content = e.content.clone();
                u.title = e.title.clone();
                u.image_url = crate::messages::clone_opt_string(&e.image_url);
                self.messages.set(i, u);
                proof {
                    assert(self@ =~= pre.update(i as int, self@[i as int]));
                    assert forall|a: int, b: int|
                        0 <= a < b < self@.len() implies self@[a].id != self@[b].id by {
                        assert(self@[a].id == pre[a].id && self@[b].id == pre[b].id);
                    }
                    assert forall|a: int| 0 <= a < self@.len() implies self@[a].id
                        < self.id_counter() by {
                        assert(self@[a].id == pre[a].id);
                    }
                    assert(pre[i as int].id == e.id);
                }
                return true;
            }
            i += 1;
        }
        false
    }

    /// Removes the message carrying `id`; reports whether the id was found,
    /// and on a miss leaves the store unchanged. Repeating a successful
    /// delete reports not-found, since the id is gone.
    pub fn delete(&mut self, id: u64) -> (found: bool)
        requires
            old(self).inv(),
        ensures
            final(self).inv(),
            found == contains_id(old(self)@, id),
            !found ==> final(self)@ == old(self)@,
            found ==> exists|i: int|
                0 <= i < old(self)@.len() && old(self)@[i].id == id && final(self)@ == old(self)@.remove(i),
            final(self).id_counter() == old(self).id_counter(),
    {
        let n: usize = self.messages.len();
        let mut i: usize = 0;
        while i < n
            invariant
                i <= n,
                *self == *old(self),
                n == self.messages.len(),
                old(self).inv(),
                forall|j: int| 0 <= j < i ==> self@[j].id != id,
            decreases n - i,
        {
            if self.messages[i].id == id {
                let ghost pre = self@;
                self.messages.remove(i);
                proof {
                    assert forall|a: int, b: int| 0 <= a < b < self@.len() implies self@[a].id
                        != self@[b].id by {
                        if b < i {
                            assert(self@[a] == pre[a] && self@[b] == pre[b]);
                        } else if a < i {
                            assert(self@[a] == pre[a] && self@[b] == pre[b + 1]);
                        } else {
                            assert(self@[a] == pre[a + 1] && self@[b] == pre[b + 1]);
                        }
                    }
                    assert forall|a: int| 0 <= a < self@.len() implies self@[a].id
                        < self.id_counter() by {
                        if a < i {
                            assert(self@[a] == pre[a]);
                        } else {
                            assert(self@[a] == pre[a + 1]);
                        }
                    }
                }
                return true;
            }
            i += 1;
        }
        false
    }

    /// Removes exactly the messages whose age at `now` has reached their
    /// expiration window (an exactly-equal age is expired), keeps all the
    /// others in order, and reports how many were removed.
    pub fn sweep_expired(&mut self, now: u64) -> (removed: usize)
        requires
            old(self).inv(),
        ensures
            final(self).inv(),
            final(self)@ == old(self)@.filter(live_pred(now)),
            removed == old(self)@.len() - final(self)@.len(),
            final(self).id_counter() == old(self).id_counter(),
    {
        broadcast use vstd::prelude::Seq::lemma_filter_push;

        let ghost pred = live_pred(now);
        let ghost pre = self@;
        let n: usize = self.messages.len();
        let mut kept: Vec<Message> = Vec::new();
        let mut i: usize = 0;
        proof {
            assert(pre.subrange(0, 0).filter(pred) =~= Seq::<Message>::empty());
        }
        while i < n
            invariant
                i <= n,
                n == self.messages.len(),
                self@ == self.messages@,
                self@ == pre,
                pred == live_pred(now),
                kept@ == pre.subrange(0, i as int).filter(pred),
            decreases n - i,
        {
            let m = &self.messages[i];
            proof {
                let sub = pre.subrange(0, i as int);
                assert(pre.subrange(0, i + 1 as int) =~= sub.push(pre[i as int]));
                sub.lemma_filter_push(pre[i as int], pred);
            }
            if !message_is_expired(m, now) {
                kept.push(m.clone());
            }
            i += 1;
        }
        proof {
            assert(pre.subrange(0, pre.len() as int) =~= pre);
        }
        let removed: usize = n - kept.len();
        self.messages = kept;
        proof {
            lemma_filter_keeps_properties(pre, pred, self.next_id);
        }
        removed
    }

    /// Copies out every live message, in insertion order: a full, consistent
    /// snapshot for the backup collaborator.
    pub fn export_all(&self) -> (r: Vec<Message>)
        ensures
            r@ == self@,
    {
        let mut r: Vec<Message> = Vec::new();
        let mut i: usize = 0;
        while i < self.messages.len()
            invariant
                i <= self.messages.len(),
                self@ == self.messages@,
                r@ == self@.subrange(0, i as int),
            decreases self.messages.len() - i,
        {
            r.push(self.messages[i].clone());
            proof {
                assert(self@.subrange(0, i + 1 as int) =~= self@.subrange(0, i as int).push(
                    self@[i as int],
                ));
            }
            i += 1;
        }
        proof {
            assert(self@.subrange(0, self@.len() as int) =~= self@);
        }
        r
    }

    /// Replaces the whole collection with `msgs` — the startup-time restore
    /// operation. The snapshot is accepted exactly when its ids are pairwise
    /// distinct and each leaves room for a fresh counter above it; a rejected
    /// snapshot leaves the store unchanged.
    pub fn replace_all(&mut self, msgs: Vec<Message>) -> (r: Result<(), SnapshotError>)
        requires
            old(self).inv(),
        ensures
            final(self).inv(),
            r == Ok::<(), SnapshotError>(()) <==> ids_distinct(msgs@) && ids_below_max(msgs@),
            r == Ok::<(), SnapshotError>(()) ==> final(self)@ == msgs@ && final(self).id_counter() == min_fresh_counter(msgs@),
            r == Err::<(), SnapshotError>(SnapshotError::DuplicateId) <==> !ids_distinct(msgs@),
            r == Err::<(), SnapshotError>(SnapshotError::IdTooLarge) <==> ids_distinct(msgs@)
                && !ids_below_max(msgs@),
            r is Err ==> final(self)@ == old(self)@ && final(self).id_counter() == old(self).id_counter(),
    {
        let n: usize = msgs.len();
        let mut i: usize = 0;
        while i < n
            invariant
                i <= n,
                n == msgs.len(),
                *self == *old(self),
                old(self).inv(),
                forall|a: int, b: int| 0 <= a < b < n && a < i ==> msgs@[a].id != msgs@[b].id,
            decreases n - i,
        {
            let mut j: usize = i + 1;
            while j < n
                invariant
                    i < j <= n,
                    n == msgs.len(),
                    *self == *old(self),
                    old(self).inv(),
                    forall|b: int| i < b < j ==> msgs@[i as int].id != msgs@[b].id,
                decreases n - j,
            {
                if msgs[i].id == msgs[j].id {
                    return Err(SnapshotError::DuplicateId);
                }
                j += 1;
            }
            i += 1;
        }
        let mut counter: u64 = 0;
        let mut k: usize = 0;
        proof {
            assert(min_fresh_counter(msgs@.subrange(0, 0)) == 0);
        }
        while k < n
            invariant
                k <= n,
                n == msgs.len(),
                *self == *old(self),
                old(self).inv(),
                ids_distinct(msgs@),
                forall|b: int| 0 <= b < k ==> msgs@[b].id < u64::MAX,
                counter == min_fresh_counter(msgs@.subrange(0, k as int)),
            decreases n - k,
        {
            proof {
                assert(msgs@.subrange(0, k + 1 as int).drop_last() =~= msgs@.subrange(0, k as int));
                assert(msgs@.subrange(0, k + 1 as int).last() == msgs@[k as int]);
            }
            if msgs[k].id == u64::MAX {
                return Err(SnapshotError::IdTooLarge);
            }
            if msgs[k].id >= counter {
                counter = msgs[k].id + 1;
            }
            k += 1;
        }
        proof {
            assert(msgs@.subrange(0, n as int) =~= msgs@);
            lemma_min_fresh_counter_bounds(msgs@);
        }
        self.messages = msgs;
        self.next_id = counter;
        Ok(())
    }
}

/// Expiry test on a single message, matching [`is_expired`] exactly.
pub fn message_is_expired(m: &Message, now: u64) -> (r: bool)
    ensures
        r == is_expired(*m, now),
{
    let ttl: u64 = crate::messages::expiration_seconds(m.expires);
    now >= m.created && now - m.created >= ttl
}

/// Every message of a filtered sequence comes from the unfiltered one, so a filter
/// keeps ids distinct and keeps every id below `bound`.
proof fn lemma_filter_keeps_properties(s: Seq<Message>, pred: spec_fn(Message) -> bool, bound: u64)
    requires
        ids_distinct(s),
        forall|i: int| 0 <= i < s.len() ==> s[i].id < bound,
    ensures
        ids_distinct(s.filter(pred)),
        forall|i: int| 0 <= i < s.filter(pred).len() ==> s.filter(pred)[i].id < bound,
    decreases s.len(),
{
    if s.len() > 0 {
        let rest = s.drop_last();
        lemma_filter_keeps_properties(rest, pred, bound);
        assert(rest.push(s.last()) =~= s);
        rest.lemma_filter_push(s.last(), pred);
        if pred(s.last()) {
            assert(s.filter(pred) == rest.filter(pred).push(s.last()));
            assert forall|a: int, b: int|
                0 <= a < b < s.filter(pred).len() implies s.filter(pred)[a].id != s.filter(
                pred,
            )[b].id by {
                if b == s.filter(pred).len() - 1 {
                    let e = rest.filter(pred)[a];
                    assert(rest.filter(pred).contains(e));
                    rest.lemma_filter_contains_rev(pred, e);
                    let w = choose|w: int| 0 <= w < rest.len() && rest[w] == e;
                    assert(s[w] == rest[w]);
                    assert(s.filter(pred)[b] == s.last() && s.last() == s[s.len() - 1]);
                }
            }
        } else {
            assert(s.filter(pred) == rest.filter(pred));
        }
    }
}

/// The minimal fresh counter of a sequence is strictly above every id in it,
/// and is 0 when the sequence is empty.
proof fn lemma_min_fresh_counter_bounds(s: Seq<Message>)
    ensures
        forall|i: int| 0 <= i < s.len() ==> s[i].id < min_fresh_counter(s),
    decreases s.len(),
{
    if s.len() > 0 {
        lemma_min_fresh_counter_bounds(s.drop_last());
        assert forall|i: int| 0 <= i < s.len() implies s[i].id < min_fresh_counter(s) by {
            if i < s.len() - 1 {
                assert(s.drop_last()[i] == s[i]);
            }
        }
    }
}

/// Law: a message removed by id is gone — no message of the shrunken
/// collection carries that id — so deleting the same id a second time
/// reports not-found.
pub proof fn lemma_deleted_id_absent(s: Seq<Message>, i: int, id: u64)
    requires
        ids_distinct(s),
        0 <= i < s.len(),
        s[i].id == id,
    ensures
        !contains_id(s.remove(i), id),
{
    let t = s.remove(i);
    assert forall|j: int| 0 <= j < t.len() implies t[j].id != id by {
        if j < i {
            assert(t[j] == s[j]);
        } else {
            assert(t[j] == s[j + 1]);
        }
    }
}

/// Every element of `s` satisfies `pred`, so filtering changes nothing.
proof fn lemma_filter_identity(s: Seq<Message>, pred: spec_fn(Message) -> bool)
    requires
        forall|i: int| 0 <= i < s.len() ==> pred(s[i]),
    ensures
        s.filter(pred) == s,
    decreases s.len(),
{
    if s.len() > 0 {
        let rest = s.drop_last();
        lemma_filter_identity(rest, pred);
        assert(rest.push(s.last()) =~= s);
        rest.lemma_filter_push(s.last(), pred);
        assert(s.filter(pred) == rest.filter(pred).push(s.last()));
    }
}

/// Law: sweeping is idempotent — with no time passing and no new inserts, a
/// second sweep removes nothing, because everything that survived the first
/// is live at `now`.
pub proof fn lemma_sweep_idempotent(s: Seq<Message>, now: u64)
    ensures
        s.filter(live_pred(now)).filter(live_pred(now)) == s.filter(live_pred(now)),
{
    let kept = s.filter(live_pred(now));
    assert forall|i: int| 0 <= i < kept.len() implies live_pred(now)(kept[i]) by {
        s.lemma_filter_pred(live_pred(now), i);
    }
    lemma_filter_identity(kept, live_pred(now));
}

/// Law: a create appends one message whose id was not live before, so any
/// number of serialized creates yields as many messages, all with pairwise
/// distinct ids.
pub proof fn lemma_fresh_create_keeps_ids_distinct(s: Seq<Message>, m: Message)
    requires
        ids_distinct(s),
        !contains_id(s, m.id),
    ensures
        ids_distinct(s.push(m)),
        s.push(m).len() == s.len() + 1,
{
    assert forall|a: int, b: int| 0 <= a < b < s.push(m).len() implies s.push(m)[a].id != s.push(
        m,
    )[b].id by {
        if b == s.len() {
            assert(s.push(m)[a] == s[a]);
        }
    }
}

} // verus!
