//! Classifying a message's thread association.
//!
//! The association starts out `Unknown`, or `CreatedUnknown` when the raw
//! message carried a thread snapshot. It is upgraded to `Known` exactly
//! once, by an external collaborator after thread creation or lookup, and
//! only through the explicit [`Info::into_known`] transition.

use vstd::prelude::*;

use crate::error::Error;
use crate::MessageSource;

verus! {

/// The kind of a channel, as far as the thread checks read it.
#[derive(Debug, Clone, Copy, PartialEq, Eq, Structural)]
pub enum ChannelKind {
    /// A plain text channel in a server.
    GuildText,
    /// A public thread.
    PublicThread,
    /// A private thread.
    PrivateThread,
    /// A thread under an announcement channel.
    AnnouncementThread,
    /// A forum channel; messages originating from a forum post cannot be
    /// cloned into directly.
    GuildForum,
    /// Any other channel kind.
    Other,
}

/// A thread snapshot captured at construction time.
#[derive(Debug, Clone, Copy, PartialEq, Eq)]
pub struct Thread {
    /// ID of the thread channel.
    pub id: u64,
    /// ID of the parent channel, when known.
    pub parent_id: Option<u64>,
    /// Kind of the thread channel.
    pub kind: ChannelKind,
}

/// Info about the message's thread.
#[derive(Debug, Clone, Copy, PartialEq, Eq)]
pub enum Info {
    /// Thread existence or id not yet determined.
    Unknown,
    /// Resolved: either no thread, or a thread with the given id.
    Known(Option<u64>),
    /// The message belongs to a thread snapshot captured at construction
    /// time; resolution is deferred.
    CreatedUnknown(Thread),
}

/// The classification a raw message's thread snapshot yields: the snapshot
/// wrapped when one is present, else `Unknown`.
pub open spec fn spec_from_snapshot(thread: Option<Thread>) -> Info {
    match thread {
        Option::Some(t) => Info::CreatedUnknown(t),
        Option::None => Info::Unknown,
    }
}

impl Info {
    /// The thread id, when one is known.
    pub open spec fn spec_id(self) -> Option<u64> {
        match self {
            Info::Unknown => Option::None,
            Info::Known(id) => id,
            Info::CreatedUnknown(t) => Option::Some(t.id),
        }
    }

    /// The thread id, when one is known.
    pub fn id(&self) -> (r: Option<u64>)
        ensures
            r == self.spec_id(),
    {
        match self {
            Info::Unknown => None,
            Info::Known(id) => *id,
            Info::CreatedUnknown(t) => Some(t.id),
        }
    }

    /// The one-time transition to a resolved thread association, driven by
    /// an external collaborator after thread creation or lookup. A
    /// `Known` value is never overwritten.
    pub fn into_known(self, thread_id: Option<u64>) -> (r: Info)
        requires
            !(self is Known),
        ensures
            r == Info::Known(thread_id),
    {
        Info::Known(thread_id)
    }
}

/// Classify a raw message's thread snapshot.
pub fn from_snapshot(thread: Option<Thread>) -> (r: Info)
    ensures
        r == spec_from_snapshot(thread),
{
    match thread {
        Some(t) => Info::CreatedUnknown(t),
        None => Info::Unknown,
    }
}

impl MessageSource {
    /// Opt-in guard: check that the message does not originate from a
    /// forum-type container, which cannot be cloned into directly.
    ///
    /// The caller passes the kind of the container the source message
    /// originated from, as fetched from the platform.
    ///
    /// # Errors
    ///
    /// Returns [`Error::SourceThread`] iff that kind is a forum.
    pub fn check_source_thread(self, origin_kind: ChannelKind) -> (r: Result<MessageSource, Error>)
        ensures
            (r is Err) <==> (origin_kind is GuildForum),
            r matches Err(e) ==> e == Error::SourceThread,
            r matches Ok(s) ==> s == self,
    {
        if origin_kind == ChannelKind::GuildForum {
            Err(Error::SourceThread)
        } else {
            Ok(self)
        }
    }
}

} // verus!
