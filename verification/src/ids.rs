//! Identifiers of the chat platform's channels and users.

use vstd::prelude::*;

verus! {

/// Handle of a channel that a message can be sent to.
///
/// The platform numbers its channels from one; zero is what an unset handle
/// holds. A `ChannelId` is never zero: [`ChannelId::new`] is the only way to
/// make one, and it refuses the placeholder.
#[derive(Clone, Copy, Debug, PartialEq, Eq, Hash, Structural)]
pub struct ChannelId {
    raw: u64,
}

impl ChannelId {
    /// The platform's number for this channel.
    pub closed spec fn value(self) -> u64 {
        self.raw
    }

    /// Whether this handle names a channel, which every handle made by
    /// [`ChannelId::new`] does.
    pub open spec fn is_valid(self) -> bool {
        self.value() != 0
    }

    #[verifier::type_invariant]
    pub open spec fn resolvable(self) -> bool {
        self.is_valid()
    }

    /// The handle for channel number `raw`, or `None` for the placeholder zero.
    pub fn new(raw: u64) -> (id: Option<ChannelId>)
        ensures
            id is None <==> raw == 0,
            id matches Some(c) ==> c.value() == raw && c.is_valid(),
    {
        if raw == 0 {
            None
        } else {
            Some(ChannelId { raw })
        }
    }

    /// The platform's number for this channel, never zero.
    pub fn get(self) -> (raw: u64)
        ensures
            raw == self.value(),
            self.is_valid(),
    {
        proof {
            use_type_invariant(&self);
        }
        self.raw
    }
}

/// Two handles with the same number are the same handle.
pub proof fn lemma_channel_id_by_value(a: ChannelId, b: ChannelId)
    requires
        a.value() == b.value(),
    ensures
        a == b,
{
}

/// Identifier of the user who wrote a message.
#[derive(Clone, Copy, Debug, PartialEq, Eq, Hash, Structural)]
pub struct UserId {
    pub raw: u64,
}

impl UserId {
    /// The identifier for user number `raw`.
    pub fn new(raw: u64) -> (id: UserId)
        ensures
            id.raw == raw,
    {
        UserId { raw }
    }

    /// The platform's number for this user.
    pub fn get(self) -> (raw: u64)
        ensures
            raw == self.raw,
    {
        self.raw
    }
}

} // verus!
