//! The payload of a message-component interaction: the member shape it
//! embeds feeds the member upserts, and the rest is carried as plain data.

use crate::ids::ChannelId;
use crate::ids::GuildId;
use crate::ids::InteractionId;
use crate::model::Message;
use crate::model::PartialMember;
use vstd::prelude::*;

verus! {

/// The kind of an interaction.
#[derive(Clone, Copy, PartialEq, Eq, Structural, Debug)]
pub enum InteractionType {
    Ping,
    ApplicationCommand,
    MessageComponent,
}

/// The data of a message-component interaction.
pub struct MessageComponentData {
    /// Custom id of the component.
    pub custom_id: String,
    /// Kind of component.
    pub component_type: u8,
}

/// An interaction triggered from a message component.
pub struct MessageComponent {
    /// Id of the interaction.
    pub id: InteractionId,
    /// Kind of the interaction.
    pub kind: InteractionType,
    /// Token of the interaction.
    pub token: String,
    /// Present when the component was used in a guild.
    pub member: Option<PartialMember>,
    /// The message the component is attached to.
    pub message: Option<Message>,
    /// Id of the guild the interaction was triggered from.
    pub guild_id: Option<GuildId>,
    /// The channel the interaction was triggered from.
    pub channel_id: ChannelId,
    /// The component's own data.
    pub data: MessageComponentData,
}

} // verus!
