//! Rows of the shared database that the services read and write, as plain values.
//! Instants are microseconds since the Unix epoch (UTC); row identifiers are UUIDs held as
//! their 128-bit values; Discord snowflakes are the `i64` the database stores.

use vstd::prelude::*;

verus! {

/// A chat message (`messages` table).
pub struct Message {
    pub message_id: i64,
    pub channel_id: i64,
    pub sent_by: i64,
    pub content: String,
    pub sent_at: i64,
    pub last_edited: Option<i64>,
    pub deleted_at: Option<i64>,
    pub in_reply_to: Option<i64>,
    pub added_at: i64,
}

/// The kind of a guild channel as the database records it (`discord_channels.channel_type`).
#[derive(PartialEq, Eq, Structural, Clone, Copy, Debug)]
pub enum DiscordChannelType {
    Text,
    Voice,
    Category,
    News,
    NewsThread,
    PublicThread,
    PrivateThread,
    Stage,
    Directory,
    Forum,
}

/// A guild channel (`discord_channels` table).
pub struct DiscordChannel {
    pub channel_id: i64,
    pub name: String,
    pub channel_type: DiscordChannelType,
    pub parent_channel_id: Option<i64>,
}

/// A person known to the system (`vestibule_users` table); the columns that ingestion
/// leaves empty are not held.
pub struct VestibuleUser {
    pub id: u128,
    pub nickname: Option<String>,
}

/// The Discord account of a person (`discord_accounts` table).
pub struct DiscordAccount {
    pub discord_user_id: i64,
    pub vestibule_user_id: u128,
    pub username: String,
    pub display_name: String,
}

/// A stored media object (`media_assets` table); the embedding column is left empty.
pub struct MediaAsset {
    pub id: u128,
    pub content_type: String,
    pub object_key: String,
    pub size_bytes: Option<i64>,
    pub content_hash: Option<String>,
}

/// A media object attached to a message (`message_attachments` table), never deleted on insert.
pub struct MessageAttachment {
    pub id: u128,
    pub message_id: i64,
    pub asset_id: u128,
    pub added_at: i64,
}

/// An emoji used in reactions (`discord_emojis` table).
pub struct DiscordEmoji {
    pub id: u128,
    pub discord_emoji_id: String,
    pub from_guild: Option<String>,
    pub emoji_display_name: Option<String>,
    pub is_animated: bool,
    pub emoji_url: Option<String>,
    pub asset_id: Option<u128>,
}

/// A reaction of a user to a message (`message_reactions` table).
pub struct MessageReaction {
    pub id: u128,
    pub message_id: i64,
    pub user_id: i64,
    pub emoji_id: Option<u128>,
    pub reacted_at: i64,
}

/// An earlier version of an edited message (`message_edits` table).
pub struct MessageEdit {
    pub id: u128,
    pub message_id: i64,
    pub old_content: String,
    pub edited_at: i64,
}

} // verus!
