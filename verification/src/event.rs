//! Incoming chat messages.

use crate::ids::{ChannelId, UserId};
use vstd::prelude::*;

verus! {

/// One incoming chat message, as the gateway reported it.
///
/// An event is made once and never changed: its parts can be read, not
/// written.
#[derive(Debug, PartialEq, Eq)]
pub struct MessageEvent {
    content: String,
    channel_id: ChannelId,
    author_id: UserId,
}

/// What a [`MessageEvent`] holds, for use in contracts.
pub struct MessageEventView {
    /// The raw text of the message.
    pub content: Seq<char>,
    /// The channel the message arrived on.
    pub channel_id: ChannelId,
    /// The user who wrote the message.
    pub author_id: UserId,
}

impl View for MessageEvent {
    type V = MessageEventView;

    closed spec fn view(&self) -> MessageEventView {
        MessageEventView {
            content: self.content@,
            channel_id: self.channel_id,
            author_id: self.author_id,
        }
    }
}

impl MessageEvent {
    /// The event for a message with text `content`, written by `author_id` on
    /// channel `channel_id`.
    pub fn new(content: String, channel_id: ChannelId, author_id: UserId) -> (event: MessageEvent)
        ensures
            event@.content == content@,
            event@.channel_id == channel_id,
            event@.author_id == author_id,
    {
        MessageEvent { content, channel_id, author_id }
    }

    /// The raw text of the message.
    pub fn content(&self) -> (content: &String)
        ensures
            content@ == self@.content,
    {
        &self.content
    }

    /// The channel the message arrived on.
    pub fn channel_id(&self) -> (channel_id: ChannelId)
        ensures
            channel_id == self@.channel_id,
    {
        self.channel_id
    }

    /// The user who wrote the message.
    pub fn author_id(&self) -> (author_id: UserId)
        ensures
            author_id == self@.author_id,
    {
        self.author_id
    }
}

} // verus!
