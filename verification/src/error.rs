//! Errors raised while normalizing a message into a clonable source.

use vstd::prelude::*;

verus! {

/// Why a message cannot be (or must not yet be) recreated.
///
/// Construction fails fast with the first matching error, in the fixed
/// precedence documented on [`crate::MessageSource::from_message`]. The
/// component and thread guards are opt-in and raised only by their
/// dedicated check methods.
#[derive(Debug, Clone, Copy, PartialEq, Eq, Structural)]
pub enum Error {
    /// The message carries a rich-presence activity or application
    /// payload, which bots cannot recreate.
    RichPresence,
    /// The message is a voice message, which bots cannot create.
    Voice,
    /// The message's type is a system-notification type (not a regular
    /// message or reply), or it carries role-subscription metadata.
    System,
    /// The message's content fails the platform's length validation.
    ContentInvalid,
    /// The message lacks the required server context.
    NotInGuild,
    /// The message has interactive components that cannot be reproduced.
    SourceComponent,
    /// The message originates from a container type that cannot be cloned
    /// into directly, such as an originating forum post.
    SourceThread,
}

} // verus!
