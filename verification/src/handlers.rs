//! The boundary the store exposes to the transport layer: each handler takes
//! a validated payload, runs exactly one store operation, and reports an
//! outcome for the transport to turn into a response. Handlers implement no
//! business rule of their own; every state transition happens in the store.

use vstd::prelude::*;
use crate::clock::now_unix_seconds;
use crate::langs::Langs;
use crate::messages::{valid_new_message, EditMessage, Message, NewMessage};
use crate::store::{contains_id, lang_pred, live_pred, message_from_new_pushed, MessageStore};

verus! {

/// What a store operation came to, for the transport to map onto a response:
/// `Success` to a 200-equivalent, `NotFound` to a 404-equivalent,
/// `BadRequest` to a client error, `Internal` to a 500-equivalent.
#[derive(Clone, Copy, Debug, PartialEq, Eq, Structural)]
pub enum ApiOutcome {
    Success,
    NotFound,
    BadRequest,
    Internal,
}

/// Posts a new message: rejects a payload with an empty content or title,
/// otherwise appends a freshly stamped message carrying the payload, with
/// `created = now` and an id never seen before.
pub fn add_message(store: &mut MessageStore, body: &NewMessage, now: u64) -> (r: ApiOutcome)
    requires
        old(store).inv(),
    ensures
        final(store).inv(),
        final(store).id_counter() >= old(store).id_counter(),
        r == ApiOutcome::BadRequest <==> !valid_new_message(*body),
        r == ApiOutcome::Internal <==> valid_new_message(*body) && old(store).id_counter()
            == u64::MAX,
        r == ApiOutcome::Success <==> valid_new_message(*body) && old(store).id_counter()
            < u64::MAX,
        r != ApiOutcome::Success ==> final(store)@ == old(store)@ && final(store).id_counter()
            == old(store).id_counter(),
        r == ApiOutcome::Success ==> message_from_new_pushed(
            old(store)@,
            final(store)@,
            *body,
            old(store).id_counter(),
            now,
        ),
    {
    if body.content.as_str().is_empty() || body.title.as_str().is_empty() {
        return ApiOutcome::BadRequest;
    }
    if !store.can_assign_id() {
        return ApiOutcome::Internal;
    }
    let m = store.create(body, now);
    proof {
        assert(store@.last() == m);
    }
    ApiOutcome::Success
}

/// Lists the live messages of one language, in insertion order, as a copied
/// snapshot.
pub fn get_messages_by_lang(store: &MessageStore, lang: Langs) -> (r: Vec<Message>)
    ensures
        r@ == store@.filter(lang_pred(lang)),
{
    store.list_by_lang(lang)
}

/// Edits the message carrying `body.id`: success when the id is live, and
/// then only content, title and image_url change; not-found otherwise, with
/// the store untouched.
pub fn edit_message(store: &mut MessageStore, body: &EditMessage) -> (r: ApiOutcome)
    requires
        old(store).inv(),
    ensures
        final(store).inv(),
        r == ApiOutcome::Success <==> contains_id(old(store)@, body.id),
        r == ApiOutcome::NotFound <==> !contains_id(old(store)@, body.id),
        r == ApiOutcome::NotFound ==> final(store)@ == old(store)@,
        r == ApiOutcome::Success ==> crate::store::seq_edited(old(store)@, final(store)@, *body),
        final(store).id_counter() == old(store).id_counter(),
{
    if store.edit(body) {
        ApiOutcome::Success
    } else {
        ApiOutcome::NotFound
    }
}

/// Deletes the message carrying `id`: success when the id is live, not-found
/// otherwise (so a repeated delete of the same id reports not-found), with
/// the store untouched on a miss.
pub fn delete_message(store: &mut MessageStore, id: u64) -> (r: ApiOutcome)
    requires
        old(store).inv(),
    ensures
        final(store).inv(),
        r == ApiOutcome::Success <==> contains_id(old(store)@, id),
        r == ApiOutcome::NotFound <==> !contains_id(old(store)@, id),
        r == ApiOutcome::NotFound ==> final(store)@ == old(store)@,
        r == ApiOutcome::Success ==> exists|i: int|
            0 <= i < old(store)@.len() && old(store)@[i].id == id && final(store)@ == old(
                store,
            )@.remove(i),
        final(store).id_counter() == old(store).id_counter(),
{
    if store.delete(id) {
        ApiOutcome::Success
    } else {
        ApiOutcome::NotFound
    }
}

/// One reaper tick: reads the clock and sweeps everything whose age has
/// reached its expiration window. Returns the instant used for the sweep and
/// how many messages it removed.
pub fn remove_old_messages(store: &mut MessageStore) -> (r: (u64, usize))
    requires
        old(store).inv(),
    ensures
        final(store).inv(),
        final(store)@ == old(store)@.filter(live_pred(r.0)),
        r.1 == old(store)@.len() - final(store)@.len(),
        final(store).id_counter() == old(store).id_counter(),
{
    let t: i64 = now_unix_seconds();
    let now: u64 = t as u64;
    let removed: usize = store.sweep_expired(now);
    (now, removed)
}

} // verus!
