//! Tracking the continuation parts of a multi-message sequence.
//!
//! Content exceeding a single-message limit is split across sends; this
//! tracker holds the located continuation parts in chronological order and
//! records how far discovery and recreation have progressed. The sequence
//! is append-only during discovery, and recreating all continuation parts
//! presupposes that the anchor message itself was recreated.

use vstd::prelude::*;

use crate::message::Message;

verus! {

/// Info about the continuation parts of a multi-message sequence.
pub struct Info {
    /// The located continuation parts, in chronological order.
    pub messages: Vec<Message>,
    /// Whether all continuation parts have been located.
    pub is_complete: bool,
    /// Whether the anchor message has been recreated.
    pub is_source_created: bool,
    /// Whether all continuation parts have been recreated.
    pub is_later_message_sources_created: bool,
}

impl Info {
    /// The tracker's invariant: all continuation parts recreated implies
    /// the anchor message was recreated.
    pub open spec fn well_formed(self) -> bool {
        self.is_later_message_sources_created ==> self.is_source_created
    }

    /// An empty tracker: nothing located, nothing recreated.
    pub fn new() -> (r: Info)
        ensures
            r.well_formed(),
            r.messages@.len() == 0,
            !r.is_complete,
            !r.is_source_created,
            !r.is_later_message_sources_created,
    {
        Info {
            messages: Vec::new(),
            is_complete: false,
            is_source_created: false,
            is_later_message_sources_created: false,
        }
    }

    /// Append a newly located continuation part. Discovery is append-only
    /// and ends when the tracker is marked complete.
    pub fn push_message(&mut self, msg: Message)
        requires
            !old(self).is_complete,
        ensures
            final(self).messages@ == old(self).messages@.push(msg),
            final(self).is_complete == old(self).is_complete,
            final(self).is_source_created == old(self).is_source_created,
            final(self).is_later_message_sources_created == old(
                self,
            ).is_later_message_sources_created,
    {
        self.messages.push(msg);
    }

    /// Record that all continuation parts have been located.
    pub fn mark_complete(&mut self)
        ensures
            final(self).is_complete,
            final(self).messages@ == old(self).messages@,
            final(self).is_source_created == old(self).is_source_created,
            final(self).is_later_message_sources_created == old(
                self,
            ).is_later_message_sources_created,
    {
        self.is_complete = true;
    }

    /// Record that the anchor message has been recreated.
    pub fn mark_source_created(&mut self)
        ensures
            final(self).is_source_created,
            final(self).messages@ == old(self).messages@,
            final(self).is_complete == old(self).is_complete,
            final(self).is_later_message_sources_created == old(
                self,
            ).is_later_message_sources_created,
    {
        self.is_source_created = true;
    }

    /// Record that all continuation parts have been recreated. The anchor
    /// message must have been recreated first.
    pub fn mark_later_message_sources_created(&mut self)
        requires
            old(self).is_source_created,
        ensures
            final(self).is_later_message_sources_created,
            final(self).well_formed(),
            final(self).messages@ == old(self).messages@,
            final(self).is_complete == old(self).is_complete,
            final(self).is_source_created == old(self).is_source_created,
    {
        self.is_later_message_sources_created = true;
    }
}

} // verus!
