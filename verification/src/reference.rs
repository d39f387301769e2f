//! Classifying a message's reply relationship.
//!
//! The classification distinguishes "not a reply" from "is a reply but
//! the referent is gone or was never fetched": a reply cannot be
//! reconstructed without the referent's content. Webhook messages cannot
//! carry a reference at all, so dispatch strips the reference whatever
//! variant was computed; the variant is still exposed so callers can
//! decide how to handle the loss.

use vstd::prelude::*;

use crate::message::{Message, MessageKind};

verus! {

/// Info about the message's reply relationship.
pub enum Info {
    /// The message is not a reply.
    NoReply,
    /// The message is a reply, but the referenced message is unavailable
    /// (deleted, or not fetched).
    UnknownOrDeleted,
    /// The resolved referenced message.
    Reference(Box<Message>),
}

/// The classification of a reply relationship: a non-reply message always
/// classifies as `NoReply`, even if a referent is somehow attached; a
/// reply classifies by whether its referent is available.
pub open spec fn spec_classify(kind: MessageKind, referenced: Option<Box<Message>>) -> Info {
    match referenced {
        Option::Some(m) => if kind is Reply {
            Info::Reference(m)
        } else {
            Info::NoReply
        },
        Option::None => if kind is Reply {
            Info::UnknownOrDeleted
        } else {
            Info::NoReply
        },
    }
}

/// Classify a message's reply relationship from its type and its
/// optionally populated referenced message.
pub fn classify(kind: MessageKind, referenced: Option<Box<Message>>) -> (r: Info)
    ensures
        r == spec_classify(kind, referenced),
{
    match referenced {
        Some(m) => if kind == MessageKind::Reply {
            Info::Reference(m)
        } else {
            Info::NoReply
        },
        None => if kind == MessageKind::Reply {
            Info::UnknownOrDeleted
        } else {
            Info::NoReply
        },
    }
}

} // verus!
