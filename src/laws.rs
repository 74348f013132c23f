use vstd::prelude::*;
use crate::client::{
    ApiCall, ApiError, ApiEvent, ApiResponse, CANNOT_MESSAGE_USER, CommandDefinition,
    DeliveryOutcome, call_path, delivery_outcome,
};
use crate::interaction::{CommandKind, Interaction, InteractionData};
use crate::message::DELETE_ACTION;
use crate::router::{COMMAND_NAME, ShapeError, command_request, delete_request};
use crate::signature::{
    AuthError, auth_outcome, ed25519_verifies, hex_bytes, is_hex_text, public_key_valid,
    signature_shaped,
};
use crate::text::decimal;

verus! {

/// A command interaction whose name is not the bookmark command's, or whose
/// sub-kind is not a message command, is refused as malformed: no call is
/// planned for it.
pub proof fn lemma_wrong_command_refused(i: Interaction)
    requires
        i.data matches Some(InteractionData::Command(c)) && (c.name@ != COMMAND_NAME@ || c.kind
            != CommandKind::Message),
    ensures
        command_request(i) is Err,
{
}

/// A command whose target is not among its resolved messages is refused as
/// malformed.
pub proof fn lemma_unresolved_target_refused(i: Interaction)
    requires
        i.data matches Some(InteractionData::Command(c)) && c.target_id matches Some(t) && (
        c.resolved is None || !c.resolved.unwrap()@.contains_key(t)),
    ensures
        command_request(i) is Err,
{
}

/// A client error whose body carries the "cannot message this user" code is
/// the `Blocked` outcome, whatever the status within the client range.
pub proof fn lemma_blocked_recognized(channel_id: u64, status: u16, id: Option<u64>)
    requires
        400 <= status < 500,
    ensures
        delivery_outcome(
            channel_id,
            ApiEvent::Responded(ApiResponse { status, id, error_code: Some(CANNOT_MESSAGE_USER) }),
        ) == Ok::<DeliveryOutcome, ApiError>(DeliveryOutcome::Blocked),
{
}

/// A client error with any other code, or with no readable code, is a
/// rejection that propagates, never `Blocked`.
pub proof fn lemma_other_rejection_propagates(
    channel_id: u64,
    status: u16,
    id: Option<u64>,
    code: Option<u64>,
)
    requires
        400 <= status < 500,
        code != Some(CANNOT_MESSAGE_USER),
    ensures
        delivery_outcome(channel_id, ApiEvent::Responded(ApiResponse { status, id, error_code: code }))
            == Err::<DeliveryOutcome, ApiError>(ApiError::Rejected { status, code }),
{
}

/// A delete button pressed on a message with known channel and id plans
/// exactly the deletion of that message, at its path.
pub proof fn lemma_delete_targets_message(i: Interaction, channel_id: u64, message_id: u64)
    requires
        i.data matches Some(InteractionData::Component(c)) && c.custom_id@ == DELETE_ACTION@,
        i.channel_id == Some(channel_id),
        i.message_id == Some(message_id),
    ensures
        delete_request(i) == Ok::<(u64, u64), ShapeError>((channel_id, message_id)),
        forall|app: Seq<char>|
            call_path(app, ApiCall::DeleteMessage { channel_id, message_id }) == "/channels/"@
                + decimal(channel_id as nat) + "/messages/"@ + decimal(message_id as nat),
{
}

/// A component interaction with any identifier but the delete action is
/// refused as an unknown action.
pub proof fn lemma_unknown_action_refused(i: Interaction)
    requires
        i.data matches Some(InteractionData::Component(c)) && c.custom_id@ != DELETE_ACTION@,
    ensures
        delete_request(i) == Err::<(u64, u64), ShapeError>(ShapeError::UnknownAction),
{
}

/// Registration for a guild goes to that guild's command path; without a
/// guild it goes to the application's global command path; the two differ.
pub proof fn lemma_registration_scope(app: Seq<char>, guild_id: u64, commands: Vec<CommandDefinition>)
    ensures
        call_path(app, ApiCall::RegisterCommands { guild_id: Some(guild_id), commands })
            == "/applications/"@ + app + "/guilds/"@ + decimal(guild_id as nat) + "/commands"@,
        call_path(app, ApiCall::RegisterCommands { guild_id: None, commands }) == "/applications/"@
            + app + "/commands"@,
        call_path(app, ApiCall::RegisterCommands { guild_id: Some(guild_id), commands })
            != call_path(app, ApiCall::RegisterCommands { guild_id: None, commands }),
{
    reveal_strlit("/guilds/");
    let g = call_path(app, ApiCall::RegisterCommands { guild_id: Some(guild_id), commands });
    let n = call_path(app, ApiCall::RegisterCommands { guild_id: None, commands });
    assert(g.len() > n.len());
}

/// With a well-formed key and signature, a request is accepted exactly when
/// the Ed25519 check holds over the timestamp followed by the body, and is
/// otherwise refused as a mismatch. Whether a signature made with the key's
/// secret half passes that check is a property of Ed25519, not stated here.
pub proof fn lemma_signature_decides(
    timestamp: Seq<u8>,
    body: Seq<u8>,
    signature_hex: Seq<char>,
    public_key_hex: Seq<char>,
)
    requires
        is_hex_text(public_key_hex),
        public_key_valid(hex_bytes(public_key_hex)),
        is_hex_text(signature_hex),
        signature_shaped(hex_bytes(signature_hex)),
    ensures
        ed25519_verifies(hex_bytes(public_key_hex), timestamp + body, hex_bytes(signature_hex))
            ==> auth_outcome(timestamp, body, signature_hex, public_key_hex) == Ok::<
            (),
            AuthError,
        >(()),
        !ed25519_verifies(hex_bytes(public_key_hex), timestamp + body, hex_bytes(signature_hex))
            ==> auth_outcome(timestamp, body, signature_hex, public_key_hex) == Err::<
            (),
            AuthError,
        >(AuthError::Mismatch),
{
}

} // verus!
