//! Validation and re-derivation of a chat message into a form that can be
//! faithfully recreated through a webhook-style send API.
//!
//! The core is [`MessageSource`]: a normalized record derived from a raw
//! message by [`MessageSource::from_message`], which rejects content that
//! cannot be losslessly reproduced (rich-presence payloads, voice messages,
//! system messages, oversized content) and derives the reproducible state
//! (filtered components, reference classification, thread association,
//! avatar fields). A caller may override output fields before dispatch;
//! the dispatch decisions (webhook selection, payload assembly) are pure
//! functions here, while the network calls live outside this crate.

use vstd::prelude::*;

pub mod avatar;
pub mod component;
pub mod constructor;
pub mod error;
pub mod later_messages;
pub mod message;
pub mod reference;
pub mod thread;
pub mod webhook;

verus! {

/// A message that can be cloned: the validated, normalized record derived
/// from an original message, ready for re-dispatch.
///
/// Output fields may be mutated to override what is dispatched, for
/// example to clone the message into another channel; the fields starting
/// with `source` identify provenance, not destination, and must not be
/// mutated after construction.
pub struct MessageSource {
    /// ID of the original message. Provenance; do not mutate.
    pub source_id: u64,
    /// ID of the channel the original message was in. Provenance; do not
    /// mutate.
    pub source_channel_id: u64,
    /// ID of the original message's thread, when one is known. Provenance;
    /// do not mutate.
    pub source_thread_id: Option<u64>,
    /// Content of the message.
    pub content: String,
    /// Embeds in the message, carried through for re-emission.
    pub embeds: Vec<twilight_model::channel::message::Embed>,
    /// Whether the message has text-to-speech enabled.
    pub tts: bool,
    /// Flag bits of the message, when any are set.
    pub flags: Option<u64>,
    /// ID of the channel to dispatch into. If the destination is a thread,
    /// this is the parent channel's ID.
    pub channel_id: u64,
    /// ID of the server to dispatch into.
    pub guild_id: u64,
    /// Username to dispatch under: the author's server nickname when one
    /// is set, else the account display name.
    pub username: String,
    /// Name for the webhook, should one have to be created.
    pub webhook_name: String,
    /// Fields the author's display avatar is derived from.
    pub avatar_info: avatar::Info,
    /// Classification of the message's reply relationship.
    pub reference_info: reference::Info,
    /// Reactions on the message, carried through for re-emission.
    pub reactions: Vec<twilight_model::channel::message::Reaction>,
    /// Sticker references, carried through for re-emission.
    pub sticker_items: Vec<twilight_model::channel::message::sticker::MessageSticker>,
    /// Attachments, carried through for re-emission.
    pub attachments: Vec<twilight_model::channel::Attachment>,
    /// The reproducible components of the message, and whether any were
    /// dropped.
    pub component_info: component::Info,
    /// Classification of the message's thread association.
    pub thread_info: thread::Info,
    /// The webhook selected or created for dispatch, once one is.
    pub webhook: Option<webhook::Webhook>,
    /// Tracker for the continuation parts of a multi-message sequence.
    pub later_messages: later_messages::Info,
}

impl MessageSource {
    /// What construction establishes and dispatch relies on: every kept
    /// component is reproducible, and the continuation tracker is
    /// consistent.
    pub open spec fn well_formed(self) -> bool {
        &&& component::spec_components_reproducible(
            component::models(self.component_info.url_components@),
        )
        &&& self.later_messages.well_formed()
    }
}

} // verus!
