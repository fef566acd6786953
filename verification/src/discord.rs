//! What the steps ask of Discord. The services only read from Discord — its API and its
//! file CDN — and never create, change or delete anything there.

use vstd::prelude::*;
use crate::channels::ChannelAction;
use crate::edits::EditAction;
use crate::emoji::EmojiAction;
use crate::ingest::IngestAction;
use crate::media::{ItemAction, MediaAction};
use crate::reactions::ReactionAction;
use crate::scan::PageAction;
use crate::users::UserAction;

verus! {

/// How a step uses Discord: reading from it, or changing something on it.
#[derive(PartialEq, Eq, Structural, Clone, Copy, Debug)]
pub enum DiscordAccess {
    Read,
    Write,
}

/// How a step of storing a message uses Discord, directly or through the steps it hands
/// on (a channel, a user, a replied-to message, media, reactions); `None` for steps that
/// only use the database.
pub open spec fn ingest_access(a: IngestAction) -> Option<DiscordAccess> {
    match a {
        IngestAction::EnsureChannel(_) => Some(DiscordAccess::Read),
        IngestAction::EnsureAuthor => Some(DiscordAccess::Read),
        IngestAction::FetchParent(_, _) => Some(DiscordAccess::Read),
        IngestAction::IngestParent => Some(DiscordAccess::Read),
        IngestAction::StoreMedia => Some(DiscordAccess::Read),
        IngestAction::StoreReactions => Some(DiscordAccess::Read),
        _ => None,
    }
}

/// How a step of recording a channel uses Discord: fetching a channel reads it.
pub open spec fn channel_access(a: ChannelAction) -> Option<DiscordAccess> {
    match a {
        ChannelAction::FetchChannel(_) => Some(DiscordAccess::Read),
        _ => None,
    }
}

/// How a step of storing a user uses Discord: downloading the avatar reads the CDN.
pub open spec fn user_access(a: UserAction) -> Option<DiscordAccess> {
    match a {
        UserAction::Download(_) => Some(DiscordAccess::Read),
        _ => None,
    }
}

/// How a step of storing a media object uses Discord: downloading it reads the CDN.
pub open spec fn media_access(a: MediaAction) -> Option<DiscordAccess> {
    match a {
        MediaAction::Download => Some(DiscordAccess::Read),
        _ => None,
    }
}

/// How a step of handling a media item uses Discord: storing it downloads it.
pub open spec fn item_access(a: ItemAction) -> Option<DiscordAccess> {
    match a {
        ItemAction::StoreMedia(_) => Some(DiscordAccess::Read),
        _ => None,
    }
}

/// How a step of resolving an emoji uses Discord: storing its image downloads it.
pub open spec fn emoji_access(a: EmojiAction) -> Option<DiscordAccess> {
    match a {
        EmojiAction::StoreImage(_) => Some(DiscordAccess::Read),
        _ => None,
    }
}

/// How a step of handling a reaction uses Discord: fetching its message, and what storing
/// that message and resolving the emoji read.
pub open spec fn reaction_access(a: ReactionAction) -> Option<DiscordAccess> {
    match a {
        ReactionAction::FetchMessage(_, _) => Some(DiscordAccess::Read),
        ReactionAction::IngestMessage => Some(DiscordAccess::Read),
        ReactionAction::ResolveEmoji => Some(DiscordAccess::Read),
        _ => None,
    }
}

/// How a step of handling an edit uses Discord: what storing the message reads.
pub open spec fn edit_access(a: EditAction) -> Option<DiscordAccess> {
    match a {
        EditAction::IngestMessage => Some(DiscordAccess::Read),
        _ => None,
    }
}

/// How a step of walking a listing uses Discord: requesting a page reads it.
pub open spec fn page_access(a: PageAction) -> Option<DiscordAccess> {
    match a {
        PageAction::Fetch(_) => Some(DiscordAccess::Read),
        PageAction::Finish => None,
    }
}

/// The services only read from Discord: whatever step any of them decides — storing a
/// message, a channel, a user, media, an emoji, a reaction or an edit, or walking a
/// listing — a step that uses Discord reads from it, and none writes to it.
pub proof fn law_read_only_on_discord(
    ia: IngestAction,
    ca: ChannelAction,
    ua: UserAction,
    ma: MediaAction,
    ta: ItemAction,
    ea: EmojiAction,
    ra: ReactionAction,
    da: EditAction,
    pa: PageAction,
)
    ensures
        ingest_access(ia) != Some(DiscordAccess::Write),
        channel_access(ca) != Some(DiscordAccess::Write),
        user_access(ua) != Some(DiscordAccess::Write),
        media_access(ma) != Some(DiscordAccess::Write),
        item_access(ta) != Some(DiscordAccess::Write),
        emoji_access(ea) != Some(DiscordAccess::Write),
        reaction_access(ra) != Some(DiscordAccess::Write),
        edit_access(da) != Some(DiscordAccess::Write),
        page_access(pa) != Some(DiscordAccess::Write),
        ia is FetchParent ==> ingest_access(ia) == Some(DiscordAccess::Read),
        ca is FetchChannel ==> channel_access(ca) == Some(DiscordAccess::Read),
        ra is FetchMessage ==> reaction_access(ra) == Some(DiscordAccess::Read),
        pa is Fetch ==> page_access(pa) == Some(DiscordAccess::Read),
{
}

} // verus!
