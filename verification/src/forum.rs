use vstd::prelude::*;

verus! {

use crate::api::{Payload, RequestBody};

/// Fetches the custom emoji stickers usable as forum topic icons.
#[derive(Clone, Copy, Debug)]
pub struct GetForumTopicIconStickers;

impl GetForumTopicIconStickers {
    /// The payload of the call: `getForumTopicIconStickers` with no body.
    pub fn into_payload(self) -> (r: Payload)
        ensures
            r.name@ == "getForumTopicIconStickers"@,
            r.body is Empty,
    {
        Payload::empty("getForumTopicIconStickers")
    }
}

} // verus!
