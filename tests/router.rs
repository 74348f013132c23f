use std::collections::HashMap;

use bookmarker::{
    dispatch, register, resume, ApiCall, ApiError, ApiEvent, ApiResponse, Author, ButtonStyle,
    CommandData, CommandKind, ComponentData, Interaction, InteractionData, InteractionKind,
    InteractionResponse, Member, Pending, RequestError, ResolvedMessage, ShapeError, Step,
};

fn resolved(id: u64) -> ResolvedMessage {
    ResolvedMessage {
        id,
        channel_id: 500,
        content: "remember me".to_string(),
        author: Author { id: 9, name: "ana".to_string(), avatar: Some("abc".to_string()), discriminator: 1 },
    }
}

fn command(name: &str, kind: CommandKind, target: Option<u64>, present: &[u64]) -> CommandData {
    let mut map = HashMap::new();
    for id in present {
        map.insert(*id, resolved(*id));
    }
    CommandData { name: name.to_string(), kind, target_id: target, resolved: Some(map) }
}

fn command_interaction(data: CommandData) -> Interaction {
    Interaction {
        kind: InteractionKind::ApplicationCommand,
        data: Some(InteractionData::Command(data)),
        member: Some(Member { user_id: Some(42) }),
        guild_id: Some(7),
        channel_id: Some(500),
        message_id: None,
    }
}

fn component_interaction(custom_id: &str, channel: Option<u64>, message: Option<u64>) -> Interaction {
    Interaction {
        kind: InteractionKind::MessageComponent,
        data: Some(InteractionData::Component(ComponentData { custom_id: custom_id.to_string() })),
        member: None,
        guild_id: None,
        channel_id: channel,
        message_id: message,
    }
}

fn shape(step: Step) -> Option<ShapeError> {
    match step {
        Step::Fail(RequestError::Shape(e)) => Some(e),
        _ => None,
    }
}

fn responded(status: u16, id: Option<u64>, error_code: Option<u64>) -> ApiEvent {
    ApiEvent::Responded(ApiResponse { status, id, error_code })
}

#[test]
fn ping_yields_pong() {
    let i = Interaction {
        kind: InteractionKind::Ping,
        data: None,
        member: None,
        guild_id: None,
        channel_id: None,
        message_id: None,
    };
    assert!(matches!(dispatch(&i), Step::Respond(InteractionResponse::Pong)));
}

#[test]
fn unsupported_kind_is_refused() {
    let i = Interaction {
        kind: InteractionKind::Other,
        data: None,
        member: None,
        guild_id: None,
        channel_id: None,
        message_id: None,
    };
    assert_eq!(shape(dispatch(&i)), Some(ShapeError::UnsupportedKind));
}

#[test]
fn wrong_command_name_is_refused() {
    let i = command_interaction(command("Pin message", CommandKind::Message, Some(1), &[1]));
    assert_eq!(shape(dispatch(&i)), Some(ShapeError::UnknownCommand));
}

#[test]
fn wrong_command_kind_is_refused() {
    let i = command_interaction(command("Bookmark message", CommandKind::User, Some(1), &[1]));
    assert_eq!(shape(dispatch(&i)), Some(ShapeError::WrongCommandKind));
    let i = command_interaction(command("Bookmark message", CommandKind::ChatInput, Some(1), &[1]));
    assert_eq!(shape(dispatch(&i)), Some(ShapeError::WrongCommandKind));
}

#[test]
fn unresolved_target_is_refused() {
    let i = command_interaction(command("Bookmark message", CommandKind::Message, Some(2), &[1]));
    assert_eq!(shape(dispatch(&i)), Some(ShapeError::UnresolvedTarget));
    let i = command_interaction(command("Bookmark message", CommandKind::Message, None, &[1]));
    assert_eq!(shape(dispatch(&i)), Some(ShapeError::MissingTarget));
    let mut data = command("Bookmark message", CommandKind::Message, Some(1), &[1]);
    data.resolved = None;
    assert_eq!(shape(dispatch(&command_interaction(data))), Some(ShapeError::MissingResolved));
}

#[test]
fn command_context_is_required() {
    let mut i = command_interaction(command("Bookmark message", CommandKind::Message, Some(1), &[1]));
    i.guild_id = None;
    assert_eq!(shape(dispatch(&i)), Some(ShapeError::MissingGuild));
    i.member = Some(Member { user_id: None });
    assert_eq!(shape(dispatch(&i)), Some(ShapeError::MissingUser));
    i.member = None;
    assert_eq!(shape(dispatch(&i)), Some(ShapeError::MissingMember));
    i.data = Some(InteractionData::Component(ComponentData { custom_id: "delete".to_string() }));
    assert_eq!(shape(dispatch(&i)), Some(ShapeError::UnexpectedData));
}

#[test]
fn bookmark_opens_channel_then_posts() {
    let i = command_interaction(command("Bookmark message", CommandKind::Message, Some(1), &[1, 3]));
    let (call, pending) = match dispatch(&i) {
        Step::Call(c, p) => (c, p),
        other => panic!("expected a call, got {:?}", other),
    };
    assert!(matches!(call, ApiCall::OpenDirectChannel { recipient_id: 42 }));
    let step = resume(pending, &responded(200, Some(900), None));
    let (call, pending) = match step {
        Step::Call(c, p) => (c, p),
        other => panic!("expected a call, got {:?}", other),
    };
    match call {
        ApiCall::PostMessage { channel_id, message } => {
            assert_eq!(channel_id, 900);
            let embeds = message.embeds.unwrap();
            assert_eq!(embeds[0].description, "remember me");
            assert_eq!(embeds[0].author.url, "https://discord.com/channels/7/500/1");
        }
        other => panic!("expected a post, got {:?}", other),
    }
    assert!(matches!(pending, Pending::Delivering { channel_id: 900 }));
    match resume(pending, &responded(200, Some(901), None)) {
        Step::Respond(InteractionResponse::ChannelMessage(d)) => {
            assert_eq!(d.flags, 64);
            assert_eq!(d.content, "\u{1F516} Message bookmarked");
            let rows = d.components.unwrap();
            assert_eq!(rows[0].buttons.len(), 1);
            assert_eq!(rows[0].buttons[0].style, ButtonStyle::Link);
            assert_eq!(
                rows[0].buttons[0].url.as_deref(),
                Some("https://discord.com/channels/@me/900/901")
            );
        }
        other => panic!("expected a reply, got {:?}", other),
    }
}

#[test]
fn blocked_delivery_gives_informative_reply() {
    let step = resume(Pending::Delivering { channel_id: 900 }, &responded(403, None, Some(50007)));
    match step {
        Step::Respond(InteractionResponse::ChannelMessage(d)) => {
            assert_eq!(d.flags, 64);
            assert!(d.content.contains("Could not bookmark"));
            assert!(d.components.is_none());
        }
        other => panic!("expected a reply, got {:?}", other),
    }
}

#[test]
fn other_client_error_propagates() {
    let step = resume(Pending::Delivering { channel_id: 900 }, &responded(403, None, Some(50001)));
    assert!(matches!(
        step,
        Step::Fail(RequestError::Api(ApiError::Rejected { status: 403, code: Some(50001) }))
    ));
    let step = resume(Pending::Delivering { channel_id: 900 }, &responded(400, None, None));
    assert!(matches!(step, Step::Fail(RequestError::Api(ApiError::Rejected { status: 400, code: None }))));
}

#[test]
fn failed_channel_opening_propagates() {
    let i = command_interaction(command("Bookmark message", CommandKind::Message, Some(1), &[1]));
    let pending = match dispatch(&i) {
        Step::Call(_, p) => p,
        other => panic!("expected a call, got {:?}", other),
    };
    let step = resume(pending, &ApiEvent::TransportFailed);
    assert!(matches!(step, Step::Fail(RequestError::Api(ApiError::Transport))));
}

#[test]
fn delete_button_deletes_that_message() {
    let i = component_interaction("delete", Some(11), Some(12));
    match dispatch(&i) {
        Step::Call(ApiCall::DeleteMessage { channel_id, message_id }, Pending::Deleting) => {
            assert_eq!((channel_id, message_id), (11, 12));
        }
        other => panic!("expected a deletion, got {:?}", other),
    }
    let done = resume(Pending::Deleting, &responded(204, None, None));
    assert!(matches!(done, Step::Respond(InteractionResponse::Acknowledge)));
    let failed = resume(Pending::Deleting, &responded(404, None, Some(10008)));
    assert!(matches!(failed, Step::Fail(RequestError::Api(ApiError::Rejected { status: 404, .. }))));
}

#[test]
fn delete_needs_channel_and_message() {
    assert_eq!(shape(dispatch(&component_interaction("delete", None, Some(12)))), Some(ShapeError::MissingChannel));
    assert_eq!(shape(dispatch(&component_interaction("delete", Some(11), None))), Some(ShapeError::MissingMessage));
}

#[test]
fn unknown_action_is_refused() {
    assert_eq!(shape(dispatch(&component_interaction("remove", Some(11), Some(12)))), Some(ShapeError::UnknownAction));
    assert_eq!(shape(dispatch(&component_interaction("", Some(11), Some(12)))), Some(ShapeError::UnknownAction));
}

#[test]
fn request_error_status() {
    assert_eq!(RequestError::Shape(ShapeError::UnknownAction).status(), 400);
    assert_eq!(RequestError::Api(ApiError::Transport).status(), 500);
}

#[test]
fn registration_plans_one_command() {
    match register(Some(5)) {
        Step::Call(ApiCall::RegisterCommands { guild_id, commands }, Pending::Registering) => {
            assert_eq!(guild_id, Some(5));
            assert_eq!(commands.len(), 1);
            assert_eq!(commands[0].name, "Bookmark message");
            assert_eq!(commands[0].description, "");
            assert_eq!(commands[0].kind, CommandKind::Message);
            assert!(!commands[0].dm_permission);
        }
        other => panic!("expected a registration, got {:?}", other),
    }
    assert!(matches!(resume(Pending::Registering, &responded(500, None, None)), Step::Fail(_)));
}

#[test]
fn target_lookup() {
    let data = command("Bookmark message", CommandKind::Message, Some(3), &[1, 3]);
    let found = bookmarker::find_target(&data).unwrap();
    assert_eq!(found.id, 3);
    assert_eq!(found.content, "remember me");
    let data = command("Bookmark message", CommandKind::Message, Some(4), &[1, 3]);
    assert_eq!(bookmarker::find_target(&data).err(), Some(ShapeError::UnresolvedTarget));
}

#[test]
fn bookmark_handler_plans_channel_opening() {
    let data = command("Bookmark message", CommandKind::Message, Some(1), &[1]);
    match bookmarker::bookmark(&data, 7, 42) {
        Step::Call(ApiCall::OpenDirectChannel { recipient_id }, Pending::OpeningChannel { message }) => {
            assert_eq!(recipient_id, 42);
            assert_eq!(message.flags, Some(4096));
            assert_eq!(message.components.unwrap()[0].buttons.len(), 2);
        }
        other => panic!("expected a call, got {:?}", other),
    }
    let data = command("bookmark message", CommandKind::Message, Some(1), &[1]);
    assert_eq!(shape(bookmarker::bookmark(&data, 7, 42)), Some(ShapeError::UnknownCommand));
}

#[test]
fn redirect_is_not_a_deletion() {
    let step = resume(Pending::Deleting, &responded(302, None, None));
    assert!(matches!(step, Step::Fail(RequestError::Api(ApiError::Rejected { status: 302, code: None }))));
    let step = resume(Pending::Registering, &responded(304, None, None));
    assert!(matches!(step, Step::Fail(RequestError::Api(ApiError::Rejected { status: 304, code: None }))));
}
