//! The raw message model: the fields of a received platform message that
//! the normalization checks and derivations read, as plain values.
//!
//! Payload data that the core only carries through for re-emission
//! (embeds, reactions, stickers, attachments) keeps the platform client's
//! own types, declared opaquely below.

use vstd::prelude::*;

use crate::component::Component;
use crate::thread::Thread;

verus! {

#[verifier::external_type_specification]
#[verifier::external_body]
/// An embed carried through opaquely for re-emission.
pub struct ExEmbed(twilight_model::channel::message::Embed);

#[verifier::external_type_specification]
#[verifier::external_body]
/// A reaction carried through opaquely for re-emission.
pub struct ExReaction(twilight_model::channel::message::Reaction);

#[verifier::external_type_specification]
#[verifier::external_body]
/// A sticker reference carried through opaquely for re-emission.
pub struct ExMessageSticker(twilight_model::channel::message::sticker::MessageSticker);

#[verifier::external_type_specification]
#[verifier::external_body]
/// An attachment carried through opaquely for re-emission.
pub struct ExAttachment(twilight_model::channel::Attachment);

/// The message flag bit marking a voice message.
pub const FLAG_IS_VOICE_MESSAGE: u64 = 1u64 << 13;

/// Whether a flag set marks the message as a voice message.
pub open spec fn spec_is_voice_message(flags: Option<u64>) -> bool {
    match flags {
        Option::Some(f) => f & FLAG_IS_VOICE_MESSAGE != 0,
        Option::None => false,
    }
}

/// The 3-way classification of a message's type that the checks read:
/// anything besides a plain message or a reply is a system-notification
/// type.
#[derive(Debug, Clone, Copy, PartialEq, Eq, Structural)]
pub enum MessageKind {
    /// A plain message.
    Regular,
    /// A reply to an earlier message.
    Reply,
    /// Any system-notification type (pin notice, member join, ...).
    Other,
}

/// The message author's account identity, as the username and avatar
/// derivations read it.
#[derive(Debug, Clone, PartialEq, Eq)]
pub struct User {
    /// ID of the account.
    pub id: u64,
    /// Display name of the account.
    pub name: String,
    /// Legacy discriminator; zero on accounts without one.
    pub discriminator: u16,
    /// Account-level avatar hash, when one is set.
    pub avatar: Option<String>,
}

/// The author's per-server member state.
#[derive(Debug, Clone, PartialEq, Eq)]
pub struct PartialMember {
    /// Server-specific nickname, when one is set.
    pub nick: Option<String>,
    /// Server-specific avatar hash, when one is set.
    pub avatar: Option<String>,
}

/// A received platform message, reduced to the fields the normalization
/// pipeline reads.
pub struct Message {
    /// ID of the message.
    pub id: u64,
    /// ID of the channel the message is in.
    pub channel_id: u64,
    /// ID of the server the message is in, when known. Fetch paths often
    /// leave this unset even for server messages, so the caller must make
    /// sure it is actually filled.
    pub guild_id: Option<u64>,
    /// Type of the message.
    pub kind: MessageKind,
    /// Flag bits of the message, when any are set.
    pub flags: Option<u64>,
    /// Whether the message carries a rich-presence activity payload.
    pub has_activity: bool,
    /// Whether the message carries a rich-presence application payload.
    pub has_application: bool,
    /// Whether the message carries role-subscription metadata.
    pub has_role_subscription_data: bool,
    /// Content of the message.
    pub content: String,
    /// Whether text-to-speech is enabled.
    pub tts: bool,
    /// Embeds in the message, carried through for re-emission.
    pub embeds: Vec<twilight_model::channel::message::Embed>,
    /// Top-level interactive components of the message.
    pub components: Vec<Component>,
    /// Reactions on the message, carried through for re-emission.
    pub reactions: Vec<twilight_model::channel::message::Reaction>,
    /// Sticker references, carried through for re-emission.
    pub sticker_items: Vec<twilight_model::channel::message::sticker::MessageSticker>,
    /// Attachments, carried through for re-emission.
    pub attachments: Vec<twilight_model::channel::Attachment>,
    /// The author's account identity.
    pub author: User,
    /// The author's member state in the server, when known.
    pub member: Option<PartialMember>,
    /// The referenced message, when this message is a reply and the
    /// referent was eagerly populated.
    pub referenced_message: Option<Box<Message>>,
    /// The thread snapshot attached to the message, when one was captured.
    pub thread: Option<Thread>,
}

/// The effective username of the message's author: the server-specific
/// nickname when one is set, else the account display name.
pub open spec fn spec_username(msg: Message) -> Seq<char> {
    match msg.member {
        Option::Some(m) => match m.nick {
            Option::Some(n) => n@,
            Option::None => msg.author.name@,
        },
        Option::None => msg.author.name@,
    }
}

} // verus!
