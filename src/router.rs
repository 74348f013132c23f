use vstd::prelude::*;
use crate::client::{
    ApiCall, ApiError, ApiEvent, CommandDefinition, DeliveryOutcome, check_created, check_done,
    classify_delivery, created_outcome, delivery_outcome, done_outcome,
};
use crate::interaction::{CommandData, CommandKind, Interaction, InteractionData, InteractionKind, ResolvedMessage};
use crate::message::{
    ActionRow, Button, CreateMessage, DELETE_ACTION, EPHEMERAL, bookmark_message, direct_link,
    direct_message_link, is_bookmark_of, is_link_button, visit_button,
};

verus! {

broadcast use vstd::std_specs::hash::group_hash_axioms;

/// The name of the one command this application registers.
pub const COMMAND_NAME: &'static str = "Bookmark message";

/// The reply content once a bookmark was delivered.
pub const BOOKMARKED: &'static str = "\u{1F516} Message bookmarked";

/// The reply content when the user does not accept direct messages.
pub const NOT_DELIVERED: &'static str =
    "\u{26A0}\u{FE0F} Could not bookmark the message: you do not accept direct messages";

/// Why an interaction was refused as malformed or unsupported.
#[derive(Debug, Clone, Copy, PartialEq, Eq, Structural)]
pub enum ShapeError {
    UnsupportedKind,
    UnexpectedData,
    MissingMember,
    MissingUser,
    MissingGuild,
    UnknownCommand,
    WrongCommandKind,
    MissingTarget,
    MissingResolved,
    UnresolvedTarget,
    UnknownAction,
    MissingChannel,
    MissingMessage,
}

/// A request-level failure.
#[derive(Debug, Clone, Copy, PartialEq, Eq)]
pub enum RequestError {
    Shape(ShapeError),
    Api(ApiError),
}

impl RequestError {
    /// The HTTP status that reports this failure: 400 for a malformed
    /// request, 500 for a failed outbound call.
    pub fn status(&self) -> (r: u16)
        ensures
            self is Shape ==> r == 400,
            self is Api ==> r == 500,
    {
        match self {
            RequestError::Shape(_) => 400,
            RequestError::Api(_) => 500,
        }
    }
}

/// The data of a message reply.
#[derive(Debug, Clone)]
pub struct ResponseData {
    pub flags: u64,
    pub content: String,
    pub components: Option<Vec<ActionRow>>,
}

/// The reply to an interaction.
#[derive(Debug, Clone)]
pub enum InteractionResponse {
    Pong,
    ChannelMessage(ResponseData),
    /// An empty success.
    Acknowledge,
}

/// What an unfinished request waits for.
#[derive(Debug, Clone)]
pub enum Pending {
    /// The private channel is being opened; `message` is to be posted into it.
    OpeningChannel { message: CreateMessage },
    /// The bookmark is being posted into private channel `channel_id`.
    Delivering { channel_id: u64 },
    Deleting,
    Registering,
}

/// The next thing to do for a request.
#[derive(Debug, Clone)]
pub enum Step {
    /// Reply, and finish.
    Respond(InteractionResponse),
    /// Fail the request, and finish.
    Fail(RequestError),
    /// Perform the call, then resume with its result.
    Call(ApiCall, Pending),
}

/// The message a bookmark command targets, or why the command is refused.
pub open spec fn command_target(c: CommandData) -> Result<ResolvedMessage, ShapeError> {
    if c.name@ != COMMAND_NAME@ {
        Err(ShapeError::UnknownCommand)
    } else if c.kind != CommandKind::Message {
        Err(ShapeError::WrongCommandKind)
    } else if c.target_id.is_none() {
        Err(ShapeError::MissingTarget)
    } else if c.resolved.is_none() {
        Err(ShapeError::MissingResolved)
    } else if !c.resolved.unwrap()@.contains_key(c.target_id.unwrap()) {
        Err(ShapeError::UnresolvedTarget)
    } else {
        Ok(c.resolved.unwrap()@[c.target_id.unwrap()])
    }
}

/// For a command interaction: the invoking user, the guild and the targeted
/// message, or why it is refused.
pub open spec fn command_request(i: Interaction) -> Result<(u64, u64, ResolvedMessage), ShapeError> {
    match i.data {
        Some(InteractionData::Command(c)) => if i.member.is_none() {
            Err(ShapeError::MissingMember)
        } else if i.member.unwrap().user_id.is_none() {
            Err(ShapeError::MissingUser)
        } else if i.guild_id.is_none() {
            Err(ShapeError::MissingGuild)
        } else {
            match command_target(c) {
                Err(e) => Err(e),
                Ok(m) => Ok((i.member.unwrap().user_id.unwrap(), i.guild_id.unwrap(), m)),
            }
        },
        _ => Err(ShapeError::UnexpectedData),
    }
}

/// For a component interaction: the channel and message to delete, or why
/// it is refused.
pub open spec fn delete_request(i: Interaction) -> Result<(u64, u64), ShapeError> {
    match i.data {
        Some(InteractionData::Component(c)) => if c.custom_id@ != DELETE_ACTION@ {
            Err(ShapeError::UnknownAction)
        } else if i.channel_id.is_none() {
            Err(ShapeError::MissingChannel)
        } else if i.message_id.is_none() {
            Err(ShapeError::MissingMessage)
        } else {
            Ok((i.channel_id.unwrap(), i.message_id.unwrap()))
        },
        _ => Err(ShapeError::UnexpectedData),
    }
}

/// The first step of a bookmark: open the private channel with `user_id`,
/// holding the bookmark copy of `msg` from guild `guild_id`.
pub open spec fn opens_channel_for(s: Step, user_id: u64, guild_id: u64, msg: ResolvedMessage) -> bool {
    match s {
        Step::Call(
            ApiCall::OpenDirectChannel { recipient_id },
            Pending::OpeningChannel { message },
        ) => recipient_id == user_id && is_bookmark_of(message, guild_id, msg),
        _ => false,
    }
}

/// The ephemeral reply that the bookmark was delivered, linking to the copy.
pub open spec fn is_bookmarked_reply(s: Step, channel_id: u64, message_id: u64) -> bool {
    match s {
        Step::Respond(InteractionResponse::ChannelMessage(d)) => {
            &&& d.flags == EPHEMERAL
            &&& d.content@ == BOOKMARKED@
            &&& d.components.is_some() && d.components.unwrap()@.len() == 1
            &&& d.components.unwrap()@[0].buttons@.len() == 1
            &&& is_link_button(
                d.components.unwrap()@[0].buttons@[0],
                direct_link(channel_id, message_id),
            )
        },
        _ => false,
    }
}

/// The ephemeral reply that the bookmark could not be delivered because the
/// user does not accept direct messages.
pub open spec fn is_not_delivered_reply(s: Step) -> bool {
    match s {
        Step::Respond(InteractionResponse::ChannelMessage(d)) => {
            &&& d.flags == EPHEMERAL
            &&& d.content@ == NOT_DELIVERED@
            &&& d.components.is_none()
        },
        _ => false,
    }
}

pub open spec fn is_bookmark_command(c: CommandDefinition) -> bool {
    &&& c.name@ == COMMAND_NAME@
    &&& c.description@ == ""@
    &&& c.kind == CommandKind::Message
    &&& !c.dm_permission
}

/// Validates a bookmark command and looks up the message it targets.
pub fn find_target(command: &CommandData) -> (r: Result<&ResolvedMessage, ShapeError>)
    ensures
        match command_target(*command) {
            Ok(m) => r == Ok::<&ResolvedMessage, ShapeError>(&m),
            Err(e) => r == Err::<&ResolvedMessage, ShapeError>(e),
        },
{
    let expected = String::from_str(COMMAND_NAME);
    if command.name != expected {
        return Err(ShapeError::UnknownCommand);
    }
    match command.kind {
        CommandKind::Message => {},
        _ => return Err(ShapeError::WrongCommandKind),
    }
    let target = match command.target_id {
        Some(t) => t,
        None => return Err(ShapeError::MissingTarget),
    };
    let resolved = match &command.resolved {
        Some(r) => r,
        None => return Err(ShapeError::MissingResolved),
    };
    match resolved.get(&target) {
        Some(m) => Ok(m),
        None => Err(ShapeError::UnresolvedTarget),
    }
}

/// Handles the bookmark command of `user_id` in guild `guild_id`: on a valid
/// command, the first call opens the private channel with the user.
pub fn bookmark(command: &CommandData, guild_id: u64, user_id: u64) -> (r: Step)
    ensures
        match command_target(*command) {
            Ok(m) => opens_channel_for(r, user_id, guild_id, m),
            Err(e) => r == Step::Fail(RequestError::Shape(e)),
        },
{
    match find_target(command) {
        Ok(m) => {
            let message = bookmark_message(guild_id, m);
            Step::Call(ApiCall::OpenDirectChannel { recipient_id: user_id }, Pending::OpeningChannel { message })
        },
        Err(e) => Step::Fail(RequestError::Shape(e)),
    }
}

/// Routes an authenticated interaction to its handler.
pub fn dispatch(interaction: &Interaction) -> (r: Step)
    ensures
        interaction.kind == InteractionKind::Ping ==> r == Step::Respond(InteractionResponse::Pong),
        interaction.kind == InteractionKind::Other ==> r == Step::Fail(
            RequestError::Shape(ShapeError::UnsupportedKind),
        ),
        interaction.kind == InteractionKind::ApplicationCommand ==> match command_request(
            *interaction,
        ) {
            Ok((user_id, guild_id, m)) => opens_channel_for(r, user_id, guild_id, m),
            Err(e) => r == Step::Fail(RequestError::Shape(e)),
        },
        interaction.kind == InteractionKind::MessageComponent ==> match delete_request(
            *interaction,
        ) {
            Ok((channel_id, message_id)) => r == Step::Call(
                ApiCall::DeleteMessage { channel_id, message_id },
                Pending::Deleting,
            ),
            Err(e) => r == Step::Fail(RequestError::Shape(e)),
        },
{
    match interaction.kind {
        InteractionKind::Ping => Step::Respond(InteractionResponse::Pong),
        InteractionKind::ApplicationCommand => {
            let command = match &interaction.data {
                Some(InteractionData::Command(c)) => c,
                _ => return Step::Fail(RequestError::Shape(ShapeError::UnexpectedData)),
            };
            let member = match interaction.member {
                Some(m) => m,
                None => return Step::Fail(RequestError::Shape(ShapeError::MissingMember)),
            };
            let user_id = match member.user_id {
                Some(u) => u,
                None => return Step::Fail(RequestError::Shape(ShapeError::MissingUser)),
            };
            let guild_id = match interaction.guild_id {
                Some(g) => g,
                None => return Step::Fail(RequestError::Shape(ShapeError::MissingGuild)),
            };
            bookmark(command, guild_id, user_id)
        },
        InteractionKind::MessageComponent => {
            let component = match &interaction.data {
                Some(InteractionData::Component(c)) => c,
                _ => return Step::Fail(RequestError::Shape(ShapeError::UnexpectedData)),
            };
            let expected = String::from_str(DELETE_ACTION);
            if component.custom_id != expected {
                return Step::Fail(RequestError::Shape(ShapeError::UnknownAction));
            }
            let channel_id = match interaction.channel_id {
                Some(c) => c,
                None => return Step::Fail(RequestError::Shape(ShapeError::MissingChannel)),
            };
            let message_id = match interaction.message_id {
                Some(m) => m,
                None => return Step::Fail(RequestError::Shape(ShapeError::MissingMessage)),
            };
            Step::Call(ApiCall::DeleteMessage { channel_id, message_id }, Pending::Deleting)
        },
        InteractionKind::Other => Step::Fail(RequestError::Shape(ShapeError::UnsupportedKind)),
    }
}

/// The reply once the bookmark is in private channel `channel_id` as message
/// `message_id`.
pub fn bookmarked_reply(channel_id: u64, message_id: u64) -> (r: Step)
    ensures
        is_bookmarked_reply(r, channel_id, message_id),
{
    let mut buttons: Vec<Button> = Vec::new();
    buttons.push(visit_button(direct_message_link(channel_id, message_id)));
    let mut rows: Vec<ActionRow> = Vec::new();
    rows.push(ActionRow { buttons });
    Step::Respond(
        InteractionResponse::ChannelMessage(
            ResponseData {
                flags: EPHEMERAL,
                content: String::from_str(BOOKMARKED),
                components: Some(rows),
            },
        ),
    )
}

/// The reply when the user does not accept direct messages.
pub fn not_delivered_reply() -> (r: Step)
    ensures
        is_not_delivered_reply(r),
{
    Step::Respond(
        InteractionResponse::ChannelMessage(
            ResponseData { flags: EPHEMERAL, content: String::from_str(NOT_DELIVERED), components: None },
        ),
    )
}

/// Continues a request with the result of the call it was waiting for.
pub fn resume(pending: Pending, event: &ApiEvent) -> (r: Step)
    ensures
        match pending {
            Pending::OpeningChannel { message } => match created_outcome(*event) {
                Ok(channel_id) => r == Step::Call(
                    ApiCall::PostMessage { channel_id, message },
                    Pending::Delivering { channel_id },
                ),
                Err(e) => r == Step::Fail(RequestError::Api(e)),
            },
            Pending::Delivering { channel_id } => match delivery_outcome(channel_id, *event) {
                Ok(DeliveryOutcome::Delivered { channel_id, message_id }) => is_bookmarked_reply(
                    r,
                    channel_id,
                    message_id,
                ),
                Ok(DeliveryOutcome::Blocked) => is_not_delivered_reply(r),
                Err(e) => r == Step::Fail(RequestError::Api(e)),
            },
            _ => match done_outcome(*event) {
                Ok(()) => r == Step::Respond(InteractionResponse::Acknowledge),
                Err(e) => r == Step::Fail(RequestError::Api(e)),
            },
        },
{
    match pending {
        Pending::OpeningChannel { message } => match check_created(event) {
            Ok(channel_id) => Step::Call(
                ApiCall::PostMessage { channel_id, message },
                Pending::Delivering { channel_id },
            ),
            Err(e) => Step::Fail(RequestError::Api(e)),
        },
        Pending::Delivering { channel_id } => match classify_delivery(channel_id, event) {
            Ok(DeliveryOutcome::Delivered { channel_id, message_id }) => bookmarked_reply(
                channel_id,
                message_id,
            ),
            Ok(DeliveryOutcome::Blocked) => not_delivered_reply(),
            Err(e) => Step::Fail(RequestError::Api(e)),
        },
        _ => match check_done(event) {
            Ok(()) => Step::Respond(InteractionResponse::Acknowledge),
            Err(e) => Step::Fail(RequestError::Api(e)),
        },
    }
}

/// The bookmark command: a message command, usable in guilds only.
pub fn bookmark_command() -> (r: CommandDefinition)
    ensures
        is_bookmark_command(r),
{
    proof {
        reveal_strlit("");
    }
    let r = CommandDefinition {
        name: String::from_str(COMMAND_NAME),
        description: String::from_str(""),
        kind: CommandKind::Message,
        dm_permission: false,
    };
    assert(r.description@ =~= ""@);
    r
}

/// Registers the bookmark command, in guild `guild_id` or, without one, for
/// every guild.
pub fn register(guild_id: Option<u64>) -> (r: Step)
    ensures
        match r {
            Step::Call(ApiCall::RegisterCommands { guild_id: g, commands }, Pending::Registering) => {
                &&& g == guild_id
                &&& commands@.len() == 1
                &&& is_bookmark_command(commands@[0])
            },
            _ => false,
        },
{
    let mut commands: Vec<CommandDefinition> = Vec::new();
    commands.push(bookmark_command());
    Step::Call(ApiCall::RegisterCommands { guild_id, commands }, Pending::Registering)
}

} // verus!
