//! A webhook core that bookmarks chat messages: it authenticates signed
//! interaction requests, dispatches them, and decides every outbound call and
//! the final reply, while the surrounding runtime performs the I/O.

pub mod client;
pub mod interaction;
pub mod laws;
pub mod message;
pub mod router;
pub mod signature;
pub mod text;

pub use client::{
    check_created, check_done, classify_delivery, recipient_body, ApiCall, ApiError, ApiEvent,
    ApiResponse, Client, CommandDefinition, DeliveryOutcome, Method,
};
pub use interaction::{
    Author, CommandData, CommandKind, ComponentData, Interaction, InteractionData, InteractionKind,
    Member, ResolvedMessage,
};
pub use message::{
    author_avatar_url, bookmark_message, creation_time, direct_message_link, guild_message_link,
    ActionRow, Button, ButtonStyle, CreateMessage, Embed, EmbedAuthor,
};
pub use router::{
    bookmark, bookmark_command, bookmarked_reply, dispatch, find_target, not_delivered_reply,
    register, resume, InteractionResponse, Pending, RequestError, ResponseData, ShapeError, Step,
    COMMAND_NAME,
};
pub use signature::{authenticate, verify_signature, AuthError};
pub use text::decimal_string;
