//! Emojis used in reactions: the key an emoji is known by, where Discord serves a custom
//! emoji, and the steps that find or record it.
//!
//! Database calls and the storing of the emoji image are performed by the caller; the
//! decisions between them are made by [`emoji_step`].

use vstd::prelude::*;
use crate::text::{nat_text, u64_text};
use crate::ids::{new_uuid, is_v4_uuid, uuid_text, uuid_string};
use crate::media::{concat, MediaRequest};
use crate::model::DiscordEmoji;

verus! {

/// The emoji of a reaction.
pub enum ReactionEmoji {
    /// A guild's own emoji.
    Custom { animated: bool, id: u64, name: Option<String> },
    /// A standard emoji, by its characters.
    Unicode(String),
    /// A kind of reaction this library does not know.
    Other,
}

/// The key an emoji is known by: a custom emoji's id in decimal, a standard emoji's
/// characters; `None` for a reaction of unknown kind.
pub open spec fn emoji_key(e: ReactionEmoji) -> Option<Seq<char>> {
    match e {
        ReactionEmoji::Custom { id, .. } => Some(nat_text(id as nat)),
        ReactionEmoji::Unicode(s) => Some(s@),
        ReactionEmoji::Other => None,
    }
}

/// The key an emoji is known by.
pub fn emoji_key_text(e: &ReactionEmoji) -> (r: Option<String>)
    ensures
        r is None <==> emoji_key(*e) is None,
        r matches Some(k) ==> emoji_key(*e) == Some(k@),
{
    match e {
        ReactionEmoji::Custom { id, .. } => Some(u64_text(*id)),
        ReactionEmoji::Unicode(s) => Some(s.clone()),
        ReactionEmoji::Other => None,
    }
}

/// Where Discord serves a custom emoji: always as WebP, animated ones with
/// `?animated=true`.
pub open spec fn custom_emoji_url_text(id: u64, animated: bool) -> Seq<char> {
    let base = "https://cdn.discordapp.com/emojis/"@ + nat_text(id as nat) + ".webp"@;
    if animated {
        base + "?animated=true"@
    } else {
        base
    }
}

/// Where Discord serves a custom emoji.
pub fn custom_emoji_url(id: u64, animated: bool) -> (r: String)
    ensures
        r@ == custom_emoji_url_text(id, animated),
{
    let mut s = String::from_str("https://cdn.discordapp.com/emojis/");
    let k = u64_text(id);
    s.append(k.as_str());
    s.append(".webp");
    if animated {
        s.append("?animated=true");
    }
    s
}

/// Object key of a custom emoji's image: `emojis/{id}/{image id}.webp`.
pub open spec fn emoji_image_key(id: u64, image: u128) -> Seq<char> {
    "emojis/"@ + nat_text(id as nat) + "/"@ + uuid_text(image) + ".webp"@
}

/// The object key of a custom emoji's image.
pub fn emoji_object_key(id: u64, image: u128) -> (r: String)
    ensures
        r@ == emoji_image_key(id, image),
{
    let mut s = String::from_str("emojis/");
    let k = u64_text(id);
    s.append(k.as_str());
    s.append("/");
    let u = uuid_string(image);
    s.append(u.as_str());
    s.append(".webp");
    s
}

/// The content type custom emoji images are stored under.
pub const EMOJI_CONTENT_TYPE: &'static str = "image/webp";

/// The text views of an optional string.
pub open spec fn opt_view(o: Option<String>) -> Option<Seq<char>> {
    match o {
        Some(t) => Some(t@),
        None => None,
    }
}

/// The decimal text of an optional guild id.
pub open spec fn guild_text(guild: Option<u64>) -> Option<Seq<char>> {
    match guild {
        Some(g) => Some(nat_text(g as nat)),
        None => None,
    }
}

/// `row` records the emoji `e`, seen in guild `guild`, with a fresh v4 id. A custom emoji
/// records the guild, its name, animation and URL, and the image id `image` (the id its
/// object key names); a standard emoji records only its characters.
pub open spec fn is_new_emoji(row: DiscordEmoji, e: ReactionEmoji, guild: Option<u64>, image: u128) -> bool {
    &&& is_v4_uuid(row.id)
    &&& emoji_key(e) == Some(row.discord_emoji_id@)
    &&& match e {
        ReactionEmoji::Custom { animated, id, name } => {
            &&& opt_view(row.from_guild) == guild_text(guild)
            &&& opt_view(row.emoji_display_name) == opt_view(name)
            &&& row.is_animated == animated
            &&& opt_view(row.emoji_url) == Some(custom_emoji_url_text(id, animated))
            &&& row.asset_id == Some(image)
        },
        _ => {
            &&& row.from_guild is None
            &&& row.emoji_display_name is None
            &&& !row.is_animated
            &&& row.emoji_url is None
            &&& row.asset_id is None
        },
    }
}

/// Why resolving an emoji failed: the step just performed failed, and its error is the one
/// to report.
#[derive(PartialEq, Eq, Structural, Clone, Copy, Debug)]
pub struct EmojiFailure;

/// Where the resolving of an emoji stands.
pub enum EmojiStage {
    Start,
    Looking,
    /// The custom emoji's image is being stored; its row waits.
    StoringImage(DiscordEmoji),
    /// The new emoji row with this id is being inserted.
    Recording(u128),
    Done(Result<Option<u128>, EmojiFailure>),
}

/// What the step just performed answered.
pub enum EmojiEvent {
    Begin,
    /// The lookup by key answered the id of the emoji row with that key.
    Found(Option<u128>),
    Succeeded,
    Failed,
}

/// The next step to perform.
pub enum EmojiAction {
    /// Look up an emoji row by key.
    FindEmoji(String),
    /// Store the custom emoji's image (see [`crate::media::media_step`]).
    StoreImage(MediaRequest),
    InsertEmoji(DiscordEmoji),
    /// Finished: the id of the emoji row (`None` for a reaction of unknown kind), or the
    /// failure.
    Finish(Result<Option<u128>, EmojiFailure>),
}

/// Ending with `r`.
pub open spec fn emoji_finishes(r: Result<Option<u128>, EmojiFailure>, next: EmojiStage, action: EmojiAction) -> bool {
    &&& next == EmojiStage::Done(r)
    &&& action == EmojiAction::Finish(r)
}

/// One step of resolving the emoji `e` of a reaction seen in guild `guild` to the id of
/// its row. A known emoji answers its row's id. An unknown standard emoji gets a new row;
/// an unknown custom emoji first has its image stored (a failure there fails the
/// resolving) under a fresh image id, then gets a new row. A failure to insert the new
/// row is not a failure: its id is answered all the same. A reaction of unknown kind
/// answers `None`.
pub open spec fn emoji_step_spec(
    e: ReactionEmoji,
    guild: Option<u64>,
    stage: EmojiStage,
    event: EmojiEvent,
    next: EmojiStage,
    action: EmojiAction,
) -> bool {
    let failed = emoji_finishes(Err(EmojiFailure), next, action);
    match stage {
        EmojiStage::Start => match emoji_key(e) {
            Some(k) => {
                &&& next == EmojiStage::Looking
                &&& action matches EmojiAction::FindEmoji(t) && t@ == k
            },
            None => emoji_finishes(Ok(None), next, action),
        },
        EmojiStage::Looking => match event {
            EmojiEvent::Found(Some(id)) => emoji_finishes(Ok(Some(id)), next, action),
            EmojiEvent::Found(None) => match e {
                ReactionEmoji::Custom { animated, id, .. } => {
                    &&& next matches EmojiStage::StoringImage(row)
                    &&& action matches EmojiAction::StoreImage(req)
                    &&& is_v4_uuid(next->StoringImage_0.asset_id->0)
                    &&& is_new_emoji(next->StoringImage_0, e, guild, next->StoringImage_0.asset_id->0)
                    &&& action->StoreImage_0.url@ == custom_emoji_url_text(id, animated)
                    &&& action->StoreImage_0.object_key@ == emoji_image_key(
                        id,
                        next->StoringImage_0.asset_id->0,
                    )
                    &&& action->StoreImage_0.content_type@ == EMOJI_CONTENT_TYPE@
                },
                ReactionEmoji::Unicode(_) => {
                    &&& next matches EmojiStage::Recording(id)
                    &&& action matches EmojiAction::InsertEmoji(row) && row.id == id
                        && is_new_emoji(row, e, guild, 0)
                },
                ReactionEmoji::Other => failed,
            },
            _ => failed,
        },
        EmojiStage::StoringImage(row) => match event {
            EmojiEvent::Succeeded => next == EmojiStage::Recording(row.id) && action
                == EmojiAction::InsertEmoji(row),
            _ => failed,
        },
        EmojiStage::Recording(id) => emoji_finishes(Ok(Some(id)), next, action),
        EmojiStage::Done(r) => emoji_finishes(r, next, action),
    }
}

fn emoji_finish(r: Result<Option<u128>, EmojiFailure>) -> (out: (EmojiStage, EmojiAction))
    ensures
        emoji_finishes(r, out.0, out.1),
{
    (EmojiStage::Done(r), EmojiAction::Finish(r))
}

fn copy_text(o: &Option<String>) -> (r: Option<String>)
    ensures
        opt_view(r) == opt_view(*o),
{
    match o {
        Some(t) => Some(t.clone()),
        None => None,
    }
}

/// One step of resolving the emoji `e` of a reaction seen in guild `guild`: from `stage`,
/// on the answer `event` of the step last performed, the next stage and the next step.
pub fn emoji_step(e: &ReactionEmoji, guild: Option<u64>, stage: EmojiStage, event: EmojiEvent) -> (out: (
    EmojiStage,
    EmojiAction,
))
    ensures
        emoji_step_spec(*e, guild, stage, event, out.0, out.1),
{
    match stage {
        EmojiStage::Start => match emoji_key_text(e) {
            Some(k) => (EmojiStage::Looking, EmojiAction::FindEmoji(k)),
            None => emoji_finish(Ok(None)),
        },
        EmojiStage::Looking => match event {
            EmojiEvent::Found(Some(id)) => emoji_finish(Ok(Some(id))),
            EmojiEvent::Found(None) => match e {
                ReactionEmoji::Custom { animated, id, name } => {
                    let url = custom_emoji_url(*id, *animated);
                    let image = new_uuid();
                    let req = MediaRequest {
                        url: url.clone(),
                        object_key: emoji_object_key(*id, image),
                        content_type: String::from_str(EMOJI_CONTENT_TYPE),
                    };
                    let from_guild = match guild {
                        Some(g) => Some(u64_text(g)),
                        None => None,
                    };
                    let row = DiscordEmoji {
                        id: new_uuid(),
                        discord_emoji_id: u64_text(*id),
                        from_guild,
                        emoji_display_name: copy_text(name),
                        is_animated: *animated,
                        emoji_url: Some(url),
                        asset_id: Some(image),
                    };
                    (EmojiStage::StoringImage(row), EmojiAction::StoreImage(req))
                },
                ReactionEmoji::Unicode(s) => {
                    let id = new_uuid();
                    let row = DiscordEmoji {
                        id,
                        discord_emoji_id: s.clone(),
                        from_guild: None,
                        emoji_display_name: None,
                        is_animated: false,
                        emoji_url: None,
                        asset_id: None,
                    };
                    (EmojiStage::Recording(id), EmojiAction::InsertEmoji(row))
                },
                ReactionEmoji::Other => emoji_finish(Err(EmojiFailure)),
            },
            _ => emoji_finish(Err(EmojiFailure)),
        },
        EmojiStage::StoringImage(row) => match event {
            EmojiEvent::Succeeded => {
                let id = row.id;
                (EmojiStage::Recording(id), EmojiAction::InsertEmoji(row))
            },
            _ => emoji_finish(Err(EmojiFailure)),
        },
        EmojiStage::Recording(id) => emoji_finish(Ok(Some(id))),
        EmojiStage::Done(r) => emoji_finish(r),
    }
}

/// A known emoji is not recorded again: when the lookup by key finds its row, resolving
/// answers that row's id and inserts nothing.
pub proof fn law_known_emoji_reused(
    e: ReactionEmoji,
    guild: Option<u64>,
    id: u128,
    next: EmojiStage,
    action: EmojiAction,
)
    requires
        emoji_step_spec(e, guild, EmojiStage::Looking, EmojiEvent::Found(Some(id)), next, action),
    ensures
        action == EmojiAction::Finish(Ok::<Option<u128>, EmojiFailure>(Some(id))),
{
}

/// The image of a new custom emoji is stored under the image id its row records, and the
/// row inserted after the image is stored is that row, answered by its id.
pub proof fn law_custom_emoji_row_names_its_image(
    e: ReactionEmoji,
    guild: Option<u64>,
    s1: EmojiStage,
    a1: EmojiAction,
    s2: EmojiStage,
    a2: EmojiAction,
    s3: EmojiStage,
    a3: EmojiAction,
)
    requires
        e is Custom,
        emoji_step_spec(e, guild, EmojiStage::Looking, EmojiEvent::Found(None), s1, a1),
        emoji_step_spec(e, guild, s1, EmojiEvent::Succeeded, s2, a2),
        emoji_step_spec(e, guild, s2, EmojiEvent::Succeeded, s3, a3),
    ensures
        a1 matches EmojiAction::StoreImage(req) && a2 matches EmojiAction::InsertEmoji(row) && {
            &&& row.asset_id matches Some(image) && req.object_key@ == emoji_image_key(
                e->Custom_id,
                image,
            )
            &&& is_new_emoji(row, e, guild, row.asset_id->0)
            &&& a3 == EmojiAction::Finish(Ok::<Option<u128>, EmojiFailure>(Some(row.id)))
        },
{
}

} // verus!
