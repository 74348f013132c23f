use vstd::prelude::*;
use std::collections::HashMap;

verus! {

/// The kind of an inbound interaction.
#[derive(Debug, Clone, Copy, PartialEq, Eq, Structural)]
pub enum InteractionKind {
    Ping,
    ApplicationCommand,
    MessageComponent,
    /// Any kind this endpoint does not serve (autocomplete, modal submit, ...).
    Other,
}

/// The sub-kind of an application command.
#[derive(Debug, Clone, Copy, PartialEq, Eq, Structural)]
pub enum CommandKind {
    ChatInput,
    User,
    /// A context-menu command that applies to a message.
    Message,
    Other,
}

/// The author of a resolved message.
#[derive(Debug, Clone)]
pub struct Author {
    pub id: u64,
    pub name: String,
    /// The avatar hash, when the user has set one.
    pub avatar: Option<String>,
    pub discriminator: u16,
}

/// A message that the platform resolved and sent along with a command.
#[derive(Debug, Clone)]
pub struct ResolvedMessage {
    pub id: u64,
    pub channel_id: u64,
    pub content: String,
    pub author: Author,
}

/// The data of an application command invocation.
#[derive(Debug)]
pub struct CommandData {
    pub name: String,
    pub kind: CommandKind,
    pub target_id: Option<u64>,
    /// The resolved messages keyed by their id, when the payload holds any.
    pub resolved: Option<HashMap<u64, ResolvedMessage>>,
}

/// The data of a component (button) interaction.
#[derive(Debug, Clone)]
pub struct ComponentData {
    pub custom_id: String,
}

/// The payload of an interaction, by kind.
#[derive(Debug)]
pub enum InteractionData {
    Command(CommandData),
    Component(ComponentData),
    /// Data of a kind this endpoint does not read.
    Other,
}

/// The guild member who triggered an interaction.
#[derive(Debug, Clone, Copy)]
pub struct Member {
    pub user_id: Option<u64>,
}

/// An inbound interaction, reduced to the fields this endpoint reads.
#[derive(Debug)]
pub struct Interaction {
    pub kind: InteractionKind,
    pub data: Option<InteractionData>,
    pub member: Option<Member>,
    pub guild_id: Option<u64>,
    /// The channel of the message a component was attached to.
    pub channel_id: Option<u64>,
    /// The id of the message a component was attached to.
    pub message_id: Option<u64>,
}

} // verus!
