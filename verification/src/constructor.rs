//! Constructing a [`MessageSource`] from a raw message.
//!
//! Construction runs the early-exit checks in a fixed precedence and only
//! then derives the record's state; no partial record is returned on
//! failure, and construction performs no network call.

use vstd::prelude::*;

use crate::avatar;
use crate::component;
use crate::error::Error;
use crate::later_messages;
use crate::message::{spec_is_voice_message, spec_username, Message, MessageKind};
use crate::reference;
use crate::thread;
use crate::webhook;
use crate::MessageSource;

verus! {

/// The largest content, in characters, the platform accepts in a single
/// message.
pub const CONTENT_LENGTH_MAX: usize = 2000;

/// The first construction error a message is rejected with, in the fixed
/// precedence: rich presence, then voice, then system type, then content
/// validity, then server context; `None` when construction succeeds.
pub open spec fn spec_construction_error(msg: Message) -> Option<Error> {
    if msg.has_activity || msg.has_application {
        Option::Some(Error::RichPresence)
    } else if spec_is_voice_message(msg.flags) {
        Option::Some(Error::Voice)
    } else if !(msg.kind is Regular || msg.kind is Reply) || msg.has_role_subscription_data {
        Option::Some(Error::System)
    } else if msg.content@.len() > CONTENT_LENGTH_MAX {
        Option::Some(Error::ContentInvalid)
    } else if msg.guild_id is None {
        Option::Some(Error::NotInGuild)
    } else {
        Option::None
    }
}

/// Relies on `twilight_validate::message::content`, which returns `Ok`
/// iff the content is at most 2000 characters.
#[verifier::external_body]
fn content_valid(content: &String) -> (r: bool)
    ensures
        r == (content@.len() <= CONTENT_LENGTH_MAX),
{
    twilight_validate::message::content(content).is_ok()
}

impl MessageSource {
    /// Create a [`MessageSource`] from a raw message.
    ///
    /// The checks run in a fixed precedence and construction fails fast
    /// with the first matching error. Only after every check passes are
    /// the components filtered, the reply relationship classified, the
    /// thread association captured (resolution deferred) and the avatar
    /// fields assembled. The username defaults to the author's server
    /// nickname when one is set, else the account display name.
    ///
    /// # Errors
    ///
    /// Returns [`Error::RichPresence`] if the message carries a
    /// rich-presence activity or application payload.
    ///
    /// Returns [`Error::Voice`] if the message is a voice message.
    ///
    /// Returns [`Error::System`] if the message's type is not a plain
    /// message or a reply, or it carries role-subscription metadata.
    ///
    /// Returns [`Error::ContentInvalid`] if the content fails the
    /// platform's length validation, as oversized premium-tier content
    /// does.
    ///
    /// Returns [`Error::NotInGuild`] if the message has no server id.
    pub fn from_message(message: Message) -> (r: Result<MessageSource, Error>)
        ensures
            (r is Ok) <==> (spec_construction_error(message) is None),
            r matches Err(e) ==> Option::Some(e) == spec_construction_error(message),
            r matches Ok(src) ==> {
                &&& src.well_formed()
                &&& src.source_id == message.id
                &&& src.source_channel_id == message.channel_id
                &&& src.source_thread_id == thread::spec_from_snapshot(message.thread).spec_id()
                &&& src.content == message.content
                &&& src.embeds == message.embeds
                &&& src.tts == message.tts
                &&& src.flags == message.flags
                &&& src.channel_id == message.channel_id
                &&& Option::Some(src.guild_id) == message.guild_id
                &&& src.username@ == spec_username(message)
                &&& src.webhook_name@ == "Message Cloner"@
                &&& component::models(src.component_info.url_components@)
                    == component::filter_components(component::models(message.components@))
                &&& src.component_info.has_invalid_components
                    == !component::spec_components_reproducible(
                    component::models(message.components@),
                )
                &&& src.reference_info == reference::spec_classify(
                    message.kind,
                    message.referenced_message,
                )
                &&& src.thread_info == thread::spec_from_snapshot(message.thread)
                &&& src.avatar_info.url is None
                &&& src.avatar_info.user_id == message.author.id
                &&& Option::Some(src.avatar_info.guild_id) == message.guild_id
                &&& src.avatar_info.user_discriminator == message.author.discriminator
                &&& src.avatar_info.user_avatar == message.author.avatar
                &&& src.avatar_info.member_avatar == (match message.member {
                    Option::Some(m) => m.avatar,
                    Option::None => Option::<String>::None,
                })
                &&& src.reactions == message.reactions
                &&& src.sticker_items == message.sticker_items
                &&& src.attachments == message.attachments
                &&& src.webhook is None
                &&& src.later_messages.messages@.len() == 0
                &&& !src.later_messages.is_complete
                &&& !src.later_messages.is_source_created
                &&& !src.later_messages.is_later_message_sources_created
            },
    {
        if message.has_activity || message.has_application {
            return Err(Error::RichPresence);
        }
        let is_voice = match message.flags {
            Some(f) => f & crate::message::FLAG_IS_VOICE_MESSAGE != 0,
            None => false,
        };
        if is_voice {
            return Err(Error::Voice);
        }
        if !(message.kind == MessageKind::Regular || message.kind == MessageKind::Reply)
            || message.has_role_subscription_data {
            return Err(Error::System);
        }
        if !content_valid(&message.content) {
            return Err(Error::ContentInvalid);
        }
        let guild_id = match message.guild_id {
            Some(g) => g,
            None => {
                return Err(Error::NotInGuild);
            },
        };

        let url_components = component::filter_valid(&message.components);
        let has_invalid_components = !component::components_reproducible(&message.components);
        proof {
            component::lemma_filter_components_reproducible(
                component::models(message.components@),
            );
        }

        let Message {
            id,
            channel_id,
            kind,
            flags,
            content,
            tts,
            embeds,
            reactions,
            sticker_items,
            attachments,
            author,
            member,
            referenced_message,
            thread,
            ..
        } = message;

        let (member_nick, member_avatar) = match member {
            Some(m) => (m.nick, m.avatar),
            None => (None, None),
        };
        let username = match member_nick {
            Some(n) => n,
            None => author.name.clone(),
        };

        let thread_info = thread::from_snapshot(thread);
        let source_thread_id = thread_info.id();
        let reference_info = reference::classify(kind, referenced_message);

        Ok(
            MessageSource {
                source_id: id,
                source_channel_id: channel_id,
                source_thread_id,
                content,
                embeds,
                tts,
                flags,
                channel_id,
                guild_id,
                username,
                webhook_name: "Message Cloner".to_owned(),
                avatar_info: avatar::Info {
                    url: None,
                    user_id: author.id,
                    guild_id,
                    user_discriminator: author.discriminator,
                    user_avatar: author.avatar,
                    member_avatar,
                },
                reference_info,
                reactions,
                sticker_items,
                attachments,
                component_info: component::Info { url_components, has_invalid_components },
                thread_info,
                webhook: None::<webhook::Webhook>,
                later_messages: later_messages::Info::new(),
            },
        )
    }
}

} // verus!
