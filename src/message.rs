use vstd::prelude::*;
use crate::interaction::{Author, ResolvedMessage};
use crate::text::{decimal, decimal_string};

verus! {

/// Base of the platform's content delivery network, where avatars live.
pub const CDN: &'static str = "https://cdn.discordapp.com";

/// Base of the platform's web client, where message links point.
pub const DISCORD: &'static str = "https://discord.com";

/// The identifier that the delete button carries back in its interaction.
pub const DELETE_ACTION: &'static str = "delete";

pub const VISIT_LABEL: &'static str = "Visit";

pub const DELETE_LABEL: &'static str = "Delete";

/// The wastebasket emoji shown on the delete button.
pub const DELETE_EMOJI: &'static str = "\u{1F5D1}";

/// Message flag: deliver without a notification.
pub const SUPPRESS_NOTIFICATIONS: u64 = 4096;

/// Message flag: visible only to the user who triggered the interaction.
pub const EPHEMERAL: u64 = 64;

/// The platform's epoch, in Unix milliseconds: the first instant of 2015.
pub const PLATFORM_EPOCH_MS: u64 = 1420070400000;

/// The author line of an embed.
#[derive(Debug, Clone)]
pub struct EmbedAuthor {
    pub name: String,
    pub icon_url: String,
    pub url: String,
}

/// A rich embed: an author line, a description and a timestamp in Unix seconds.
#[derive(Debug, Clone)]
pub struct Embed {
    pub author: EmbedAuthor,
    pub description: String,
    pub timestamp_secs: i64,
}

#[derive(Debug, Clone, Copy, PartialEq, Eq, Structural)]
pub enum ButtonStyle {
    /// Opens `url`; sends no interaction.
    Link,
    /// A red button that sends an interaction with its `custom_id`.
    Danger,
}

#[derive(Debug, Clone)]
pub struct Button {
    pub style: ButtonStyle,
    pub label: String,
    pub url: Option<String>,
    pub custom_id: Option<String>,
    pub emoji: Option<String>,
}

/// One row of buttons under a message.
#[derive(Debug, Clone)]
pub struct ActionRow {
    pub buttons: Vec<Button>,
}

/// The body of a message to create; absent parts are left out.
#[derive(Debug, Clone)]
pub struct CreateMessage {
    pub embeds: Option<Vec<Embed>>,
    pub components: Option<Vec<ActionRow>>,
    pub flags: Option<u64>,
}

impl CreateMessage {
    /// A message with no embeds, components or flags.
    pub fn new() -> (r: Self)
        ensures
            r.embeds.is_none(),
            r.components.is_none(),
            r.flags.is_none(),
    {
        CreateMessage { embeds: None, components: None, flags: None }
    }

    pub fn embeds(self, embeds: Vec<Embed>) -> (r: Self)
        ensures
            r.embeds == Some(embeds),
            r.components == self.components,
            r.flags == self.flags,
    {
        CreateMessage { embeds: Some(embeds), ..self }
    }

    pub fn components(self, components: Vec<ActionRow>) -> (r: Self)
        ensures
            r.components == Some(components),
            r.embeds == self.embeds,
            r.flags == self.flags,
    {
        CreateMessage { components: Some(components), ..self }
    }

    pub fn flags(self, flags: u64) -> (r: Self)
        ensures
            r.flags == Some(flags),
            r.embeds == self.embeds,
            r.components == self.components,
    {
        CreateMessage { flags: Some(flags), ..self }
    }
}

/// The creation time, in Unix seconds, encoded in the top bits of an id.
pub open spec fn creation_secs(id: u64) -> int {
    ((id >> 22u64) as int + PLATFORM_EPOCH_MS as int) / 1000
}

/// The avatar image of an author; without an avatar hash, one of the five
/// default avatars chosen by the discriminator.
pub open spec fn avatar_url(author: Author) -> Seq<char> {
    match author.avatar {
        Some(hash) => CDN@ + "/avatars/"@ + decimal(author.id as nat) + "/"@ + hash@ + ".webp"@,
        None => CDN@ + "/embed/avatars/"@ + decimal((author.discriminator % 5) as nat) + ".png"@,
    }
}

/// The link to a message of a guild channel.
pub open spec fn message_link(guild_id: u64, channel_id: u64, message_id: u64) -> Seq<char> {
    DISCORD@ + "/channels/"@ + decimal(guild_id as nat) + "/"@ + decimal(channel_id as nat) + "/"@
        + decimal(message_id as nat)
}

/// The link to a message of a private channel.
pub open spec fn direct_link(channel_id: u64, message_id: u64) -> Seq<char> {
    DISCORD@ + "/channels/@me/"@ + decimal(channel_id as nat) + "/"@ + decimal(message_id as nat)
}

pub open spec fn is_link_button(b: Button, url: Seq<char>) -> bool {
    &&& b.style == ButtonStyle::Link
    &&& b.label@ == VISIT_LABEL@
    &&& b.url.is_some() && b.url.unwrap()@ == url
    &&& b.custom_id.is_none()
    &&& b.emoji.is_none()
}

pub open spec fn is_delete_button(b: Button) -> bool {
    &&& b.style == ButtonStyle::Danger
    &&& b.label@ == DELETE_LABEL@
    &&& b.custom_id.is_some() && b.custom_id.unwrap()@ == DELETE_ACTION@
    &&& b.emoji.is_some() && b.emoji.unwrap()@ == DELETE_EMOJI@
    &&& b.url.is_none()
}

/// The embed that shows `msg`, sent in guild `guild_id`.
pub open spec fn is_embed_of(e: Embed, guild_id: u64, msg: ResolvedMessage) -> bool {
    &&& e.author.name@ == msg.author.name@
    &&& e.author.icon_url@ == avatar_url(msg.author)
    &&& e.author.url@ == message_link(guild_id, msg.channel_id, msg.id)
    &&& e.description@ == msg.content@
    &&& e.timestamp_secs == creation_secs(msg.id)
}

/// The bookmark copy of `msg`: its embed, a row with a link back to it and a
/// delete button, delivered without a notification.
pub open spec fn is_bookmark_of(m: CreateMessage, guild_id: u64, msg: ResolvedMessage) -> bool {
    &&& m.flags == Some(SUPPRESS_NOTIFICATIONS)
    &&& m.embeds.is_some() && m.embeds.unwrap()@.len() == 1
    &&& is_embed_of(m.embeds.unwrap()@[0], guild_id, msg)
    &&& m.components.is_some() && m.components.unwrap()@.len() == 1
    &&& m.components.unwrap()@[0].buttons@.len() == 2
    &&& is_link_button(
        m.components.unwrap()@[0].buttons@[0],
        message_link(guild_id, msg.channel_id, msg.id),
    )
    &&& is_delete_button(m.components.unwrap()@[0].buttons@[1])
}

/// The creation time of an id, in Unix seconds.
pub fn creation_time(id: u64) -> (r: i64)
    ensures
        r == creation_secs(id),
{
    let high: u64 = id >> 22u64;
    assert(high <= 0x3ff_ffff_ffffu64) by (bit_vector)
        requires
            high == id >> 22u64,
    ;
    ((high + PLATFORM_EPOCH_MS) / 1000) as i64
}

/// Builds the avatar image address of an author.
pub fn author_avatar_url(author: &Author) -> (r: String)
    ensures
        r@ == avatar_url(*author),
{
    let mut s = String::from_str(CDN);
    match &author.avatar {
        Some(hash) => {
            s.append("/avatars/");
            s.append(decimal_string(author.id).as_str());
            s.append("/");
            s.append(hash.as_str());
            s.append(".webp");
        },
        None => {
            s.append("/embed/avatars/");
            s.append(decimal_string((author.discriminator % 5) as u64).as_str());
            s.append(".png");
        },
    }
    s
}

/// Builds the link to a message of a guild channel.
pub fn guild_message_link(guild_id: u64, channel_id: u64, message_id: u64) -> (r: String)
    ensures
        r@ == message_link(guild_id, channel_id, message_id),
{
    let mut s = String::from_str(DISCORD);
    s.append("/channels/");
    s.append(decimal_string(guild_id).as_str());
    s.append("/");
    s.append(decimal_string(channel_id).as_str());
    s.append("/");
    s.append(decimal_string(message_id).as_str());
    s
}

/// Builds the link to a message of a private channel.
pub fn direct_message_link(channel_id: u64, message_id: u64) -> (r: String)
    ensures
        r@ == direct_link(channel_id, message_id),
{
    let mut s = String::from_str(DISCORD);
    s.append("/channels/@me/");
    s.append(decimal_string(channel_id).as_str());
    s.append("/");
    s.append(decimal_string(message_id).as_str());
    s
}

/// A link button labelled "Visit".
pub fn visit_button(url: String) -> (r: Button)
    ensures
        is_link_button(r, url@),
{
    Button {
        style: ButtonStyle::Link,
        label: String::from_str(VISIT_LABEL),
        url: Some(url),
        custom_id: None,
        emoji: None,
    }
}

/// The button that asks for a bookmark copy to be deleted.
pub fn delete_button() -> (r: Button)
    ensures
        is_delete_button(r),
{
    Button {
        style: ButtonStyle::Danger,
        label: String::from_str(DELETE_LABEL),
        url: None,
        custom_id: Some(String::from_str(DELETE_ACTION)),
        emoji: Some(String::from_str(DELETE_EMOJI)),
    }
}

/// Builds the bookmark copy of a message that was posted in guild `guild_id`.
pub fn bookmark_message(guild_id: u64, msg: &ResolvedMessage) -> (r: CreateMessage)
    ensures
        is_bookmark_of(r, guild_id, *msg),
{
    let link = guild_message_link(guild_id, msg.channel_id, msg.id);
    let embed = Embed {
        author: EmbedAuthor {
            name: msg.author.name.clone(),
            icon_url: author_avatar_url(&msg.author),
            url: link.clone(),
        },
        description: msg.content.clone(),
        timestamp_secs: creation_time(msg.id),
    };
    let mut embeds: Vec<Embed> = Vec::new();
    embeds.push(embed);
    let mut buttons: Vec<Button> = Vec::new();
    buttons.push(visit_button(link));
    buttons.push(delete_button());
    let mut rows: Vec<ActionRow> = Vec::new();
    rows.push(ActionRow { buttons });
    CreateMessage::new().embeds(embeds).components(rows).flags(SUPPRESS_NOTIFICATIONS)
}

} // verus!
