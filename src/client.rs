use vstd::prelude::*;
use crate::interaction::CommandKind;
use crate::message::CreateMessage;
use crate::text::{decimal, decimal_string};

verus! {

/// Base of the platform's REST interface.
pub const API: &'static str = "https://discord.com/api/v10";

/// The platform's error code for "cannot send messages to this user".
pub const CANNOT_MESSAGE_USER: u64 = 50007;

/// The HTTP method of an outbound call.
#[derive(Debug, Clone, Copy, PartialEq, Eq, Structural)]
pub enum Method {
    Put,
    Post,
    Delete,
}

/// A command to register with the platform.
#[derive(Debug, Clone)]
pub struct CommandDefinition {
    pub name: String,
    pub description: String,
    pub kind: CommandKind,
    /// Whether the command may be used in private channels.
    pub dm_permission: bool,
}

/// One outbound REST operation.
#[derive(Debug, Clone)]
pub enum ApiCall {
    /// Replace the whole set of commands of the application, for one guild or
    /// everywhere.
    RegisterCommands { guild_id: Option<u64>, commands: Vec<CommandDefinition> },
    /// Open (or fetch) the private channel with a user.
    OpenDirectChannel { recipient_id: u64 },
    /// Post a message into a channel.
    PostMessage { channel_id: u64, message: CreateMessage },
    /// Delete a message of a channel.
    DeleteMessage { channel_id: u64, message_id: u64 },
}

/// What came back from an outbound call, reduced to what the decisions read:
/// the status, the `id` of a returned object, and the `code` of an error body.
#[derive(Debug, Clone, Copy, PartialEq, Eq)]
pub struct ApiResponse {
    pub status: u16,
    pub id: Option<u64>,
    pub error_code: Option<u64>,
}

/// The result of performing an outbound call.
#[derive(Debug, Clone, Copy, PartialEq, Eq)]
pub enum ApiEvent {
    /// No response was had (name resolution, TLS, connection).
    TransportFailed,
    Responded(ApiResponse),
}

/// Why an outbound call failed.
#[derive(Debug, Clone, Copy, PartialEq, Eq)]
pub enum ApiError {
    Transport,
    ServerFault { status: u16 },
    Rejected { status: u16, code: Option<u64> },
    /// A success status whose body lacked the expected object.
    InvalidBody { status: u16 },
}

/// The business outcome of delivering a direct message.
#[derive(Debug, Clone, Copy, PartialEq, Eq)]
pub enum DeliveryOutcome {
    Delivered { channel_id: u64, message_id: u64 },
    /// The recipient does not accept direct messages.
    Blocked,
}

pub open spec fn is_client_error(status: u16) -> bool {
    400 <= status < 500
}

pub open spec fn is_server_error(status: u16) -> bool {
    500 <= status < 600
}

pub open spec fn is_success(status: u16) -> bool {
    200 <= status < 300
}

/// The path of a call below the REST base, for application `app`.
pub open spec fn call_path(app: Seq<char>, call: ApiCall) -> Seq<char> {
    match call {
        ApiCall::RegisterCommands { guild_id: None, .. } => "/applications/"@ + app + "/commands"@,
        ApiCall::RegisterCommands { guild_id: Some(g), .. } => "/applications/"@ + app
            + "/guilds/"@ + decimal(g as nat) + "/commands"@,
        ApiCall::OpenDirectChannel { .. } => "/users/@me/channels"@,
        ApiCall::PostMessage { channel_id, .. } => "/channels/"@ + decimal(channel_id as nat)
            + "/messages"@,
        ApiCall::DeleteMessage { channel_id, message_id } => "/channels/"@ + decimal(
            channel_id as nat,
        ) + "/messages/"@ + decimal(message_id as nat),
    }
}

pub open spec fn call_method(call: ApiCall) -> Method {
    match call {
        ApiCall::RegisterCommands { .. } => Method::Put,
        ApiCall::OpenDirectChannel { .. } => Method::Post,
        ApiCall::PostMessage { .. } => Method::Post,
        ApiCall::DeleteMessage { .. } => Method::Delete,
    }
}

/// The outcome of a call that returns nothing the caller reads: only a
/// success status succeeds, any other status is a rejection.
pub open spec fn done_outcome(event: ApiEvent) -> Result<(), ApiError> {
    match event {
        ApiEvent::TransportFailed => Err(ApiError::Transport),
        ApiEvent::Responded(r) => if !is_success(r.status) {
            Err(ApiError::Rejected { status: r.status, code: r.error_code })
        } else {
            Ok(())
        },
    }
}

/// The outcome of a call that returns a created object whose id is read.
pub open spec fn created_outcome(event: ApiEvent) -> Result<u64, ApiError> {
    match event {
        ApiEvent::TransportFailed => Err(ApiError::Transport),
        ApiEvent::Responded(r) => if !is_success(r.status) {
            Err(ApiError::Rejected { status: r.status, code: r.error_code })
        } else if r.id.is_none() {
            Err(ApiError::InvalidBody { status: r.status })
        } else {
            Ok(r.id.unwrap())
        },
    }
}

/// The outcome of posting a direct message into `channel_id`: a server error
/// is a fault, a client error is `Blocked` exactly when its code says the
/// user cannot be messaged, a success yields the posted message, and any
/// other status is a rejection.
pub open spec fn delivery_outcome(channel_id: u64, event: ApiEvent) -> Result<DeliveryOutcome, ApiError> {
    match event {
        ApiEvent::TransportFailed => Err(ApiError::Transport),
        ApiEvent::Responded(r) => if is_server_error(r.status) {
            Err(ApiError::ServerFault { status: r.status })
        } else if is_client_error(r.status) {
            if r.error_code == Some(CANNOT_MESSAGE_USER) {
                Ok(DeliveryOutcome::Blocked)
            } else {
                Err(ApiError::Rejected { status: r.status, code: r.error_code })
            }
        } else if !is_success(r.status) {
            Err(ApiError::Rejected { status: r.status, code: r.error_code })
        } else if r.id.is_none() {
            Err(ApiError::InvalidBody { status: r.status })
        } else {
            Ok(DeliveryOutcome::Delivered { channel_id, message_id: r.id.unwrap() })
        },
    }
}

fn success_status(status: u16) -> (r: bool)
    ensures
        r == is_success(status),
{
    200 <= status && status < 300
}

/// Classifies the response to a call whose body is not read.
pub fn check_done(event: &ApiEvent) -> (r: Result<(), ApiError>)
    ensures
        r == done_outcome(*event),
{
    match event {
        ApiEvent::TransportFailed => Err(ApiError::Transport),
        ApiEvent::Responded(resp) => if !success_status(resp.status) {
            Err(ApiError::Rejected { status: resp.status, code: resp.error_code })
        } else {
            Ok(())
        },
    }
}

/// Classifies the response to a call that creates an object, giving its id.
pub fn check_created(event: &ApiEvent) -> (r: Result<u64, ApiError>)
    ensures
        r == created_outcome(*event),
{
    match event {
        ApiEvent::TransportFailed => Err(ApiError::Transport),
        ApiEvent::Responded(resp) => if !success_status(resp.status) {
            Err(ApiError::Rejected { status: resp.status, code: resp.error_code })
        } else {
            match resp.id {
                Some(id) => Ok(id),
                None => Err(ApiError::InvalidBody { status: resp.status }),
            }
        },
    }
}

/// Classifies the response to posting a direct message into `channel_id`.
pub fn classify_delivery(channel_id: u64, event: &ApiEvent) -> (r: Result<DeliveryOutcome, ApiError>)
    ensures
        r == delivery_outcome(channel_id, *event),
{
    match event {
        ApiEvent::TransportFailed => Err(ApiError::Transport),
        ApiEvent::Responded(resp) => {
            if 500 <= resp.status && resp.status < 600 {
                Err(ApiError::ServerFault { status: resp.status })
            } else if 400 <= resp.status && resp.status < 500 {
                match resp.error_code {
                    Some(code) => if code == CANNOT_MESSAGE_USER {
                        Ok(DeliveryOutcome::Blocked)
                    } else {
                        Err(ApiError::Rejected { status: resp.status, code: resp.error_code })
                    },
                    None => Err(ApiError::Rejected { status: resp.status, code: None }),
                }
            } else if !success_status(resp.status) {
                Err(ApiError::Rejected { status: resp.status, code: resp.error_code })
            } else {
                match resp.id {
                    Some(id) => Ok(DeliveryOutcome::Delivered { channel_id, message_id: id }),
                    None => Err(ApiError::InvalidBody { status: resp.status }),
                }
            }
        },
    }
}

/// The credentials and identity with which outbound calls are made.
#[derive(Debug, Clone)]
pub struct Client {
    /// The value of the `Authorization` header.
    pub authorization: String,
    /// The application id, as configured.
    pub application_id: String,
}

impl Client {
    /// A client for application `application_id` authenticating as the bot
    /// whose token is `token`.
    pub fn new(application_id: &str, token: &str) -> (r: Client)
        ensures
            r.authorization@ == "Bot "@ + token@,
            r.application_id@ == application_id@,
    {
        let mut authorization = String::from_str("Bot ");
        authorization.append(token);
        Client { authorization, application_id: String::from_str(application_id) }
    }

    pub fn method(call: &ApiCall) -> (r: Method)
        ensures
            r == call_method(*call),
    {
        match call {
            ApiCall::RegisterCommands { .. } => Method::Put,
            ApiCall::OpenDirectChannel { .. } => Method::Post,
            ApiCall::PostMessage { .. } => Method::Post,
            ApiCall::DeleteMessage { .. } => Method::Delete,
        }
    }

    /// The path of `call` below the REST base.
    pub fn path(&self, call: &ApiCall) -> (r: String)
        ensures
            r@ == call_path(self.application_id@, *call),
    {
        match call {
            ApiCall::RegisterCommands { guild_id, .. } => {
                let mut s = String::from_str("/applications/");
                s.append(self.application_id.as_str());
                match guild_id {
                    Some(g) => {
                        s.append("/guilds/");
                        s.append(decimal_string(*g).as_str());
                    },
                    None => {},
                }
                s.append("/commands");
                s
            },
            ApiCall::OpenDirectChannel { .. } => String::from_str("/users/@me/channels"),
            ApiCall::PostMessage { channel_id, .. } => {
                let mut s = String::from_str("/channels/");
                s.append(decimal_string(*channel_id).as_str());
                s.append("/messages");
                s
            },
            ApiCall::DeleteMessage { channel_id, message_id } => {
                let mut s = String::from_str("/channels/");
                s.append(decimal_string(*channel_id).as_str());
                s.append("/messages/");
                s.append(decimal_string(*message_id).as_str());
                s
            },
        }
    }

    /// The full address of `call`.
    pub fn url(&self, call: &ApiCall) -> (r: String)
        ensures
            r@ == API@ + call_path(self.application_id@, *call),
    {
        let mut s = String::from_str(API);
        let path = self.path(call);
        s.append(path.as_str());
        s
    }
}

/// The JSON body that opens a private channel with `recipient_id`.
pub fn recipient_body(recipient_id: u64) -> (r: String)
    ensures
        r@ == "{\"recipient_id\":\""@ + decimal(recipient_id as nat) + "\"}"@,
{
    let mut s = String::from_str("{\"recipient_id\":\"");
    s.append(decimal_string(recipient_id).as_str());
    s.append("\"}");
    s
}

} // verus!
