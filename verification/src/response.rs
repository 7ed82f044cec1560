//! Replies: what the bot sends back for a recognised command.

use crate::command::Command;
use crate::error::{DispatchError, DispatchErrorView};
use crate::ids::ChannelId;
use vstd::prelude::*;
use vstd::string::StringExecFns;

verus! {

/// Where the pages of the planets live. A planet's identifier follows.
pub const PLANET_URL_BASE: &'static str = "https://play.skinetics.tech/tests/planets/";

/// What the announcement of a new planet starts with. The planet's address
/// follows.
pub const ANNOUNCEMENT_PREFIX: &'static str = "A new planet has been added: ";

/// The address of the page of planet `id`.
pub open spec fn planet_url(id: Seq<char>) -> Seq<char> {
    PLANET_URL_BASE@ + id
}

/// The text that announces planet `id`.
pub open spec fn announcement(id: Seq<char>) -> Seq<char> {
    ANNOUNCEMENT_PREFIX@ + planet_url(id)
}

/// A planet identifier as contracts see it: `None` where it was never set.
pub open spec fn planet_id_view(planet_id: Option<&str>) -> Option<Seq<char>> {
    match planet_id {
        Some(id) => Some(id@),
        None => None,
    }
}

/// Whether a reply can be built on `planet_id`: it is set and not empty.
pub open spec fn planet_id_usable(planet_id: Option<Seq<char>>) -> bool {
    planet_id matches Some(id) && id.len() > 0
}

/// A message for the platform: a text and the channel it goes to.
///
/// A payload is built whole and never changed. Its channel is a valid
/// handle, as every [`ChannelId`] is.
#[derive(Debug, PartialEq, Eq)]
pub struct OutboundPayload {
    channel_id: ChannelId,
    content: String,
}

/// What an [`OutboundPayload`] holds, for use in contracts.
pub struct OutboundPayloadView {
    /// The channel the message goes to.
    pub channel_id: ChannelId,
    /// The text of the message.
    pub content: Seq<char>,
}

impl View for OutboundPayload {
    type V = OutboundPayloadView;

    closed spec fn view(&self) -> OutboundPayloadView {
        OutboundPayloadView { channel_id: self.channel_id, content: self.content@ }
    }
}

impl OutboundPayload {
    /// A payload goes to a channel that exists.
    #[verifier::type_invariant]
    pub open spec fn addressed(&self) -> bool {
        self@.channel_id.is_valid()
    }

    /// The channel the message goes to.
    pub fn channel_id(&self) -> (channel_id: ChannelId)
        ensures
            channel_id == self@.channel_id,
            channel_id.is_valid(),
    {
        proof {
            use_type_invariant(self);
        }
        self.channel_id
    }

    /// The text of the message.
    pub fn content(&self) -> (content: &String)
        ensures
            content@ == self@.content,
    {
        &self.content
    }

    /// Takes the payload apart for the one send it is made for.
    pub fn into_parts(self) -> (parts: (ChannelId, String))
        ensures
            parts.0 == self@.channel_id,
            parts.0.is_valid(),
            parts.1@ == self@.content,
    {
        proof {
            use_type_invariant(&self);
        }
        (self.channel_id, self.content)
    }
}

/// The reply to `command`, given on channel `source_channel`, once planet
/// `planet_id` has been registered: the announcement of that planet, sent to
/// the channel the command came from. Without a usable identifier there is no
/// reply, but [`DispatchErrorView::InvalidPayload`].
pub open spec fn reply_to(
    command: Command,
    source_channel: ChannelId,
    planet_id: Option<Seq<char>>,
) -> Result<OutboundPayloadView, DispatchErrorView> {
    match command {
        Command::NewPlanet => match planet_id {
            Some(id) if id.len() > 0 => Ok(
                OutboundPayloadView { channel_id: source_channel, content: announcement(id) },
            ),
            _ => Err(DispatchErrorView::InvalidPayload),
        },
    }
}

/// The reply of a command: see [`reply_to`] and [`build`].
pub open spec fn reply_view(
    reply: Result<OutboundPayload, DispatchError>,
) -> Result<OutboundPayloadView, DispatchErrorView> {
    match reply {
        Ok(payload) => Ok(payload@),
        Err(error) => Err(error@),
    }
}

/// Builds the reply to `command`, which arrived on `source_channel`, for the
/// planet `planet_id`. An identifier that is unset or empty gives
/// [`DispatchError::InvalidPayload`] and no payload.
pub fn build(command: Command, source_channel: ChannelId, planet_id: Option<&str>) -> (reply:
    Result<OutboundPayload, DispatchError>)
    ensures
        reply_view(reply) == reply_to(command, source_channel, planet_id_view(planet_id)),
        reply is Ok <==> planet_id_usable(planet_id_view(planet_id)),
        reply matches Ok(payload) ==> payload@.channel_id == source_channel
            && payload@.channel_id.is_valid() && payload@.content == announcement(
            planet_id_view(planet_id)->0,
        ),
        reply matches Err(error) ==> error@ == DispatchErrorView::InvalidPayload,
{
    match command {
        Command::NewPlanet => {
            let id: &str = match planet_id {
                Some(id) => id,
                None => {
                    return Err(DispatchError::InvalidPayload);
                },
            };
            if id.is_empty() {
                return Err(DispatchError::InvalidPayload);
            }
            proof {
                use_type_invariant(&source_channel);
            }
            let mut content = String::from_str(ANNOUNCEMENT_PREFIX);
            content.append(PLANET_URL_BASE);
            content.append(id);
            assert(content@ == announcement(id@));
            Ok(OutboundPayload { channel_id: source_channel, content })
        },
    }
}

/// The announcement of a planet is the prefix, the base address and the
/// identifier, one behind the other, and the identifier can be read back from
/// it: two identifiers with the same announcement are the same.
pub proof fn lemma_announcement_tells_planet(a: Seq<char>, b: Seq<char>)
    ensures
        announcement(a) == ANNOUNCEMENT_PREFIX@ + PLANET_URL_BASE@ + a,
        announcement(a).len() == ANNOUNCEMENT_PREFIX@.len() + PLANET_URL_BASE@.len() + a.len(),
        announcement(a) == announcement(b) ==> a == b,
{
    let head = ANNOUNCEMENT_PREFIX@ + PLANET_URL_BASE@;
    assert(announcement(a) =~= head + a);
    assert(announcement(b) =~= head + b);
    if announcement(a) == announcement(b) {
        assert(a =~= (head + a).subrange(head.len() as int, (head + a).len() as int));
        assert(b =~= (head + b).subrange(head.len() as int, (head + b).len() as int));
    }
}

} // verus!
