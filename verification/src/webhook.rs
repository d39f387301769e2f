//! The pure decisions behind dispatch: selecting a usable webhook and
//! assembling the execution payload.
//!
//! Dispatch itself performs up to three sequential network operations
//! (list webhooks, optionally create one, execute); those calls live
//! outside this crate, which only decides what they are given. A freshly
//! created webhook is guaranteed a token by the platform, so callers
//! treat a missing token there as a fatal fault, not a typed error.

use vstd::prelude::*;

use crate::thread;
use crate::MessageSource;

verus! {

/// A webhook handle, as the selection logic reads it.
#[derive(Debug, Clone, PartialEq, Eq)]
pub struct Webhook {
    /// ID of the webhook.
    pub id: u64,
    /// The webhook's execution token, present only on bot-manageable
    /// webhooks.
    pub token: Option<String>,
}

impl Webhook {
    /// Whether the webhook carries a usable execution token.
    pub open spec fn spec_has_token(self) -> bool {
        self.token is Some
    }

    /// Whether the webhook carries a usable execution token.
    pub fn has_token(&self) -> (r: bool)
        ensures
            r == self.spec_has_token(),
    {
        self.token.is_some()
    }
}

/// The position of the first webhook possessing a usable execution token,
/// if any does.
pub fn find_usable_index(webhooks: &Vec<Webhook>) -> (r: Option<usize>)
    ensures
        match r {
            Some(i) => {
                &&& i < webhooks@.len()
                &&& webhooks@[i as int].spec_has_token()
                &&& forall|j: int| 0 <= j < i ==> !(#[trigger] webhooks@[j]).spec_has_token()
            },
            None => forall|j: int|
                0 <= j < webhooks@.len() ==> !(#[trigger] webhooks@[j]).spec_has_token(),
        },
{
    let mut i: usize = 0;
    while i < webhooks.len()
        invariant
            i <= webhooks@.len(),
            forall|j: int| 0 <= j < i ==> !(#[trigger] webhooks@[j]).spec_has_token(),
        decreases webhooks@.len() - i,
    {
        if webhooks[i].has_token() {
            return Some(i);
        }
        i += 1;
    }
    None
}

/// The thread id dispatch routes into: present only when the thread
/// association is resolved to a known thread.
pub open spec fn spec_thread_routing(info: thread::Info) -> Option<u64> {
    match info {
        thread::Info::Known(id) => id,
        _ => Option::None,
    }
}

/// What a webhook execution is given: the source's output fields, with
/// the avatar URL derived and the thread routing resolved. The reply
/// reference is always stripped, since webhook messages cannot carry one.
pub struct ExecutePayload<'a> {
    /// Content to send.
    pub content: &'a String,
    /// Username override to send under.
    pub username: &'a String,
    /// Avatar URL override to send under.
    pub avatar_url: String,
    /// Embeds to send.
    pub embeds: &'a Vec<twilight_model::channel::message::Embed>,
    /// Whether to enable text-to-speech.
    pub tts: bool,
    /// Flag bits to send, when any are set.
    pub flags: Option<u64>,
    /// The thread to route into, when a thread is known.
    pub thread_id: Option<u64>,
}

impl MessageSource {
    /// Assemble the payload a webhook execution is given for this source.
    pub fn execute_payload(&self) -> (p: ExecutePayload<'_>)
        ensures
            p.content@ == self.content@,
            p.username@ == self.username@,
            p.avatar_url@ == self.avatar_info.spec_url(),
            p.embeds@ == self.embeds@,
            p.tts == self.tts,
            p.flags == self.flags,
            p.thread_id == spec_thread_routing(self.thread_info),
    {
        let thread_id: Option<u64> = match &self.thread_info {
            thread::Info::Known(id) => *id,
            _ => None,
        };
        ExecutePayload {
            content: &self.content,
            username: &self.username,
            avatar_url: self.avatar_info.url(),
            embeds: &self.embeds,
            tts: self.tts,
            flags: self.flags,
            thread_id,
        }
    }
}

} // verus!
