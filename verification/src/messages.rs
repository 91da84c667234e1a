//! Message data model and the expiry policy.

use vstd::prelude::*;
use crate::langs::Langs;

verus! {

/// How long a message stays live after creation, as a named duration class.
#[derive(Clone, Copy, Debug, PartialEq, Eq, Structural)]
pub enum Expiration {
    Hour,
    Day,
    Week,
    Quarter,
    Year,
}

/// The number of seconds a message with the given expiration class stays live.
pub open spec fn spec_expiration_seconds(e: Expiration) -> int {
    match e {
        Expiration::Hour => 3600,
        Expiration::Day => 86400,
        Expiration::Week => 604800,
        Expiration::Quarter => 7257600,
        Expiration::Year => 31536000,
    }
}

/// Pure mapping from an expiration class to its duration in seconds:
/// Hour = 3600, Day = 86400, Week = 604800, Quarter = 12 weeks, Year = 365 days.
pub fn expiration_seconds(e: Expiration) -> (secs: u64)
    ensures
        secs == spec_expiration_seconds(e),
{
    match e {
        Expiration::Hour => 3600,
        Expiration::Day => 86400,
        Expiration::Week => 604800,
        Expiration::Quarter => 7257600,
        Expiration::Year => 31536000,
    }
}

/// A message held by the store. `id` and `created` are assigned by the store
/// at creation and never change afterwards; `lang` and `expires` are fixed at
/// creation as well. Only `content`, `title` and `image_url` may change, via
/// an edit. Timestamps are seconds of Unix time.
#[derive(Debug, PartialEq, Eq)]
pub struct Message {
    pub id: u64,
    pub created: u64,
    pub content: String,
    pub lang: Langs,
    pub expires: Expiration,
    pub title: String,
    pub image_url: Option<String>,
    pub image_data: Option<String>,
    pub image_mime_type: Option<String>,
}

/// The payload of a create request: everything a message carries except the
/// store-assigned `id` and `created`.
#[derive(Debug, PartialEq, Eq)]
pub struct NewMessage {
    pub content: String,
    pub lang: Langs,
    pub expires: Expiration,
    pub title: String,
    pub image_url: Option<String>,
    pub image_data: Option<String>,
    pub image_mime_type: Option<String>,
}

/// The payload of an edit request: the id of the message to change and the
/// replacement values for its mutable fields.
#[derive(Debug, PartialEq, Eq)]
pub struct EditMessage {
    pub id: u64,
    pub content: String,
    pub title: String,
    pub image_url: Option<String>,
}

/// A create payload is valid when its text fields are non-empty.
pub open spec fn valid_new_message(nm: NewMessage) -> bool {
    nm.content@.len() > 0 && nm.title@.len() > 0
}

/// A message is expired at `now` once its age reaches its expiration window;
/// an exactly-equal age counts as expired.
pub open spec fn is_expired(m: Message, now: u64) -> bool {
    now >= m.created + spec_expiration_seconds(m.expires)
}

/// The message `m` carries the payload `nm` and was stamped with `created`.
pub open spec fn message_from_new(m: Message, nm: NewMessage, id: u64, created: u64) -> bool {
    &&& m.id == id
    &&& m.created == created
    &&& m.content == nm.content
    &&& m.lang == nm.lang
    &&& m.expires == nm.expires
    &&& m.title == nm.title
    &&& m.image_url == nm.image_url
    &&& m.image_data == nm.image_data
    &&& m.image_mime_type == nm.image_mime_type
}

/// The message `m` is `orig` with its mutable fields replaced by those of
/// `edit`: content, title and image_url change, everything else is kept.
pub open spec fn message_edited(m: Message, orig: Message, edit: EditMessage) -> bool {
    &&& m.id == orig.id
    &&& m.created == orig.created
    &&& m.lang == orig.lang
    &&& m.expires == orig.expires
    &&& m.content == edit.content
    &&& m.title == edit.title
    &&& m.image_url == edit.image_url
    &&& m.image_data == orig.image_data
    &&& m.image_mime_type == orig.image_mime_type
}

pub(crate) fn clone_opt_string(s: &Option<String>) -> (r: Option<String>)
    ensures
        r == *s,
{
    match s {
        Option::Some(v) => Option::Some(v.clone()),
        Option::None => Option::None,
    }
}

impl Clone for Message {
    /// Copies are field-for-field equal to the value cloned.
    fn clone(&self) -> (r: Self)
        ensures
            r == *self,
    {
        Message {
            id: self.id,
            created: self.created,
            content: self.content.clone(),
            lang: self.lang,
            expires: self.expires,
            title: self.title.clone(),
            image_url: clone_opt_string(&self.image_url),
            image_data: clone_opt_string(&self.image_data),
            image_mime_type: clone_opt_string(&self.image_mime_type),
        }
    }
}

impl Clone for NewMessage {
    /// Copies are field-for-field equal to the value cloned.
    fn clone(&self) -> (r: Self)
        ensures
            r == *self,
    {
        NewMessage {
            content: self.content.clone(),
            lang: self.lang,
            expires: self.expires,
            title: self.title.clone(),
            image_url: clone_opt_string(&self.image_url),
            image_data: clone_opt_string(&self.image_data),
            image_mime_type: clone_opt_string(&self.image_mime_type),
        }
    }
}

impl Clone for EditMessage {
    /// Copies are field-for-field equal to the value cloned.
    fn clone(&self) -> (r: Self)
        ensures
            r == *self,
    {
        EditMessage {
            id: self.id,
            content: self.content.clone(),
            title: self.title.clone(),
            image_url: clone_opt_string(&self.image_url),
        }
    }
}

} // verus!
