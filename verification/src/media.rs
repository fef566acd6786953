//! Media of messages (attachments and stickers): where each object is stored, under which
//! content type, and the steps that download, deduplicate, upload and record it.
//!
//! Downloads, uploads and database calls are performed by the caller; the decisions
//! between them are made by [`media_step`] and [`item_step`].

use vstd::prelude::*;
use crate::text::{nat_text, int_text, u64_text, i64_text};
use crate::hash::{content_hash, hex_lower, sha256_digest};
use crate::ids::{new_uuid, is_v4_uuid};
use crate::ingest::{db_key, to_db_key};
use crate::model::{MediaAsset, MessageAttachment};

verus! {

/// `a` followed by `b`.
pub(crate) fn concat(a: &str, b: &str) -> (r: String)
    ensures
        r@ == a@ + b@,
{
    let mut s = String::from_str(a);
    s.append(b);
    s
}

/// Object key of an attachment: `discord/attachments/{message id}/{attachment key}`.
pub open spec fn attachment_key(message_id: u64, attachment_id: u64) -> Seq<char> {
    "discord/attachments/"@ + nat_text(message_id as nat) + "/"@ + int_text(
        db_key(attachment_id) as int,
    )
}

/// The object key under which an attachment of a message is stored.
pub fn attachment_object_key(message_id: u64, attachment_id: u64) -> (r: String)
    ensures
        r@ == attachment_key(message_id, attachment_id),
{
    let mut s = String::from_str("discord/attachments/");
    let m = u64_text(message_id);
    s.append(m.as_str());
    s.append("/");
    let a = i64_text(to_db_key(attachment_id));
    s.append(a.as_str());
    s
}

/// The content type recorded for an object whose type Discord does not give.
pub const DEFAULT_CONTENT_TYPE: &'static str = "application/octet-stream";

/// The content type of an attachment: the one Discord gives, else the default.
pub fn attachment_content_type(declared: &Option<String>) -> (r: String)
    ensures
        r@ == match declared {
            Some(t) => t@,
            None => DEFAULT_CONTENT_TYPE@,
        },
{
    match declared {
        Some(t) => t.clone(),
        None => String::from_str(DEFAULT_CONTENT_TYPE),
    }
}

/// The file format of a sticker (its wire code names it).
#[derive(PartialEq, Eq, Structural, Clone, Copy, Debug)]
pub enum StickerFormat {
    Png,
    Apng,
    Lottie,
    Gif,
    /// A format this library does not know, with its code.
    Unknown(u8),
}

/// The sticker format with wire code `code`.
pub open spec fn sticker_format_of(code: u8) -> StickerFormat {
    match code {
        1 => StickerFormat::Png,
        2 => StickerFormat::Apng,
        3 => StickerFormat::Lottie,
        4 => StickerFormat::Gif,
        _ => StickerFormat::Unknown(code),
    }
}

/// The sticker format with wire code `code`.
pub fn sticker_format_from_code(code: u8) -> (f: StickerFormat)
    ensures
        f == sticker_format_of(code),
{
    match code {
        1 => StickerFormat::Png,
        2 => StickerFormat::Apng,
        3 => StickerFormat::Lottie,
        4 => StickerFormat::Gif,
        _ => StickerFormat::Unknown(code),
    }
}

/// The file extension a sticker is stored under; `None` for a format that is not stored.
pub open spec fn sticker_ext(f: StickerFormat) -> Option<Seq<char>> {
    match f {
        StickerFormat::Png | StickerFormat::Apng => Some("png"@),
        StickerFormat::Lottie => Some("json"@),
        StickerFormat::Gif => Some("gif"@),
        StickerFormat::Unknown(_) => None,
    }
}

/// The file extension a sticker is stored under, if its format is stored at all.
pub fn sticker_extension(f: StickerFormat) -> (r: Option<&'static str>)
    ensures
        r is None <==> sticker_ext(f) is None,
        r matches Some(e) ==> sticker_ext(f) == Some(e@),
{
    match f {
        StickerFormat::Png | StickerFormat::Apng => Some("png"),
        StickerFormat::Lottie => Some("json"),
        StickerFormat::Gif => Some("gif"),
        StickerFormat::Unknown(_) => None,
    }
}

/// The pattern (SQL `LIKE`) that matches the object keys of a sticker in any format.
pub open spec fn sticker_pattern(sticker_id: u64) -> Seq<char> {
    "discord/stickers/"@ + int_text(db_key(sticker_id) as int) + ".%"@
}

/// The pattern that matches the object keys of a sticker in any format.
pub fn sticker_key_pattern(sticker_id: u64) -> (r: String)
    ensures
        r@ == sticker_pattern(sticker_id),
{
    let mut s = String::from_str("discord/stickers/");
    let k = i64_text(to_db_key(sticker_id));
    s.append(k.as_str());
    s.append(".%");
    s
}

/// Where Discord serves a sticker in a format with extension `ext`.
pub open spec fn sticker_url_text(sticker_id: u64, ext: Seq<char>) -> Seq<char> {
    "https://cdn.discordapp.com/stickers/"@ + nat_text(sticker_id as nat) + "."@ + ext
}

/// Where Discord serves a sticker.
pub fn sticker_url(sticker_id: u64, ext: &str) -> (r: String)
    ensures
        r@ == sticker_url_text(sticker_id, ext@),
{
    let mut s = String::from_str("https://cdn.discordapp.com/stickers/");
    let k = u64_text(sticker_id);
    s.append(k.as_str());
    s.append(".");
    s.append(ext);
    s
}

/// Object key of a sticker: `discord/stickers/{id}.{ext}`.
pub open spec fn sticker_key(sticker_id: u64, ext: Seq<char>) -> Seq<char> {
    "discord/stickers/"@ + nat_text(sticker_id as nat) + "."@ + ext
}

/// The object key under which a sticker is stored.
pub fn sticker_object_key(sticker_id: u64, ext: &str) -> (r: String)
    ensures
        r@ == sticker_key(sticker_id, ext@),
{
    let mut s = String::from_str("discord/stickers/");
    let k = u64_text(sticker_id);
    s.append(k.as_str());
    s.append(".");
    s.append(ext);
    s
}

/// The content type of a stored sticker: Lottie animations are JSON, the others images.
pub open spec fn sticker_type(f: StickerFormat) -> Seq<char> {
    match f {
        StickerFormat::Lottie => "application/json"@,
        _ => "image/"@ + sticker_ext(f)->0,
    }
}

/// The content type of a stored sticker.
pub fn sticker_content_type(f: StickerFormat) -> (r: String)
    requires
        sticker_ext(f) is Some,
    ensures
        r@ == sticker_type(f),
{
    match f {
        StickerFormat::Lottie => String::from_str("application/json"),
        StickerFormat::Png | StickerFormat::Apng => concat("image/", "png"),
        StickerFormat::Gif => concat("image/", "gif"),
        StickerFormat::Unknown(_) => String::new(),
    }
}

/// What to download and where to store it.
pub struct MediaRequest {
    pub url: String,
    pub object_key: String,
    pub content_type: String,
}

/// Where the storing of one media object stands.
pub enum MediaStage {
    Start,
    Downloading,
    /// The object was downloaded; its content hash is being looked up.
    CheckingHash(String, Vec<u8>),
    /// No stored object has this content; it is being uploaded. Holds its content hash
    /// and size.
    Uploading(String, i64),
    /// The object was uploaded; its asset row (with this id) is being inserted.
    Recording(u128),
    /// Finished: the asset id, or `None` when a step failed.
    Done(Option<u128>),
}

/// What the step just performed answered.
pub enum MediaEvent {
    Begin,
    Downloaded(Vec<u8>),
    /// The lookup of the content hash answered the id of the asset with that content.
    Found(Option<u128>),
    Succeeded,
    Failed,
}

/// The next step to perform.
pub enum MediaAction {
    /// Download the request's URL.
    Download,
    /// Look up an asset by content hash.
    LookUpHash(String),
    /// Upload these bytes under the request's object key and content type.
    Upload(Vec<u8>),
    InsertAsset(MediaAsset),
    /// Finished: the id of the asset holding the content, or `None` on failure.
    Finish(Option<u128>),
}

/// Ending with `r`.
pub open spec fn media_finishes(r: Option<u128>, next: MediaStage, action: MediaAction) -> bool {
    &&& next == MediaStage::Done(r)
    &&& action == MediaAction::Finish(r)
}

/// `row` is the new asset row `id` of an uploaded object with content hash `hash` and
/// `size` bytes.
pub open spec fn is_new_asset(row: MediaAsset, id: u128, req: MediaRequest, hash: Seq<char>, size: i64) -> bool {
    &&& row.id == id
    &&& row.content_type@ == req.content_type@
    &&& row.object_key@ == req.object_key@
    &&& row.size_bytes == Some(size)
    &&& row.content_hash matches Some(h) && h@ == hash
}

/// One step of storing a media object: download it, look up its content hash, and reuse
/// the asset holding the same content; else upload it and insert a new asset row with a
/// fresh v4 id. Any failed step ends it with `None`.
pub open spec fn media_step_spec(
    req: MediaRequest,
    stage: MediaStage,
    event: MediaEvent,
    next: MediaStage,
    action: MediaAction,
) -> bool {
    let failed = media_finishes(None, next, action);
    match stage {
        MediaStage::Start => next == MediaStage::Downloading && action == MediaAction::Download,
        MediaStage::Downloading => match event {
            MediaEvent::Downloaded(bytes) => {
                &&& next matches MediaStage::CheckingHash(h, b) && b@ == bytes@ && h@ == hex_lower(
                    sha256_digest(bytes@),
                )
                &&& action matches MediaAction::LookUpHash(h) && h@ == hex_lower(
                    sha256_digest(bytes@),
                )
            },
            _ => failed,
        },
        MediaStage::CheckingHash(hash, bytes) => match event {
            MediaEvent::Found(Some(id)) => media_finishes(Some(id), next, action),
            MediaEvent::Found(None) => {
                &&& next matches MediaStage::Uploading(h, size) && h@ == hash@ && size == bytes@.len() as i64
                &&& action matches MediaAction::Upload(b) && b@ == bytes@
            },
            _ => failed,
        },
        MediaStage::Uploading(hash, size) => match event {
            MediaEvent::Succeeded => {
                &&& next matches MediaStage::Recording(id) && is_v4_uuid(id)
                &&& action matches MediaAction::InsertAsset(row) && is_new_asset(
                    row,
                    next->Recording_0,
                    req,
                    hash@,
                    size,
                )
            },
            _ => failed,
        },
        MediaStage::Recording(id) => match event {
            MediaEvent::Succeeded => media_finishes(Some(id), next, action),
            _ => failed,
        },
        MediaStage::Done(r) => media_finishes(r, next, action),
    }
}

fn media_finish(r: Option<u128>) -> (out: (MediaStage, MediaAction))
    ensures
        media_finishes(r, out.0, out.1),
{
    (MediaStage::Done(r), MediaAction::Finish(r))
}

/// One step of storing the media object `req`: from `stage`, on the answer `event` of the
/// step last performed, the next stage and the next step to perform.
pub fn media_step(req: &MediaRequest, stage: MediaStage, event: MediaEvent) -> (out: (
    MediaStage,
    MediaAction,
))
    ensures
        media_step_spec(*req, stage, event, out.0, out.1),
{
    match stage {
        MediaStage::Start => (MediaStage::Downloading, MediaAction::Download),
        MediaStage::Downloading => match event {
            MediaEvent::Downloaded(bytes) => {
                let hash = content_hash(bytes.as_slice());
                let key = hash.clone();
                (MediaStage::CheckingHash(hash, bytes), MediaAction::LookUpHash(key))
            },
            _ => media_finish(None),
        },
        MediaStage::CheckingHash(hash, bytes) => match event {
            MediaEvent::Found(Some(id)) => media_finish(Some(id)),
            MediaEvent::Found(None) => {
                let size = bytes.len() as i64;
                (MediaStage::Uploading(hash, size), MediaAction::Upload(bytes))
            },
            _ => media_finish(None),
        },
        MediaStage::Uploading(hash, size) => match event {
            MediaEvent::Succeeded => {
                let id = new_uuid();
                let row = MediaAsset {
                    id,
                    content_type: req.content_type.clone(),
                    object_key: req.object_key.clone(),
                    size_bytes: Some(size),
                    content_hash: Some(hash),
                };
                (MediaStage::Recording(id), MediaAction::InsertAsset(row))
            },
            _ => media_finish(None),
        },
        MediaStage::Recording(id) => match event {
            MediaEvent::Succeeded => media_finish(Some(id)),
            _ => media_finish(None),
        },
        MediaStage::Done(r) => media_finish(r),
    }
}

/// A media item of a message.
pub enum MediaItem {
    /// A file attached to the message, with the content type Discord declares for it.
    Attachment { id: u64, url: String, content_type: Option<String> },
    Sticker { id: u64, format: StickerFormat },
}

/// How the handling of one media item ended.
#[derive(PartialEq, Eq, Structural, Clone, Copy, Debug)]
pub enum ItemOutcome {
    /// An attachment row for the item was inserted.
    Recorded,
    /// The item was already attached, is not stored, or one of its steps failed; the
    /// other items go on.
    Skipped,
    /// A lookup for a sticker failed; the remaining stickers are not handled.
    Aborted,
}

/// Where the handling of one media item stands.
pub enum ItemStage {
    Start,
    CheckingAttached,
    FindingAsset,
    Storing,
    Recording,
    Done(ItemOutcome),
}

/// What the step just performed answered.
pub enum ItemEvent {
    Begin,
    /// A lookup answered whether the item is already attached to the message.
    Found(bool),
    /// An asset lookup, or the storing of the media, answered this asset id.
    Asset(Option<u128>),
    Succeeded,
    Failed,
}

/// The next step to perform.
pub enum ItemAction {
    /// Look for an attachment row of message `.0` whose asset has object key `.1`.
    FindAttached(i64, String),
    /// Look for an attachment row of message `.0` whose asset's object key matches the
    /// `LIKE` pattern `.1`.
    FindAttachedLike(i64, String),
    /// Look up an asset by object key.
    FindAsset(String),
    /// Store the media object (see [`media_step`]) and answer its asset id.
    StoreMedia(MediaRequest),
    InsertAttachment(MessageAttachment),
    Finish(ItemOutcome),
}

/// `row` attaches asset `asset` to message `message_id`, with a fresh v4 id, at `now`.
pub open spec fn is_attachment_row(row: MessageAttachment, message_id: u64, asset: u128, now: i64) -> bool {
    &&& is_v4_uuid(row.id)
    &&& row.message_id == db_key(message_id)
    &&& row.asset_id == asset
    &&& row.added_at == now
}

/// The attachment row that attaches `asset` to message `message_id` at `now`.
pub fn attachment_row(message_id: u64, asset: u128, now: i64) -> (row: MessageAttachment)
    ensures
        is_attachment_row(row, message_id, asset, now),
{
    MessageAttachment { id: new_uuid(), message_id: to_db_key(message_id), asset_id: asset, added_at: now }
}

/// `req` stores attachment `id` of message `message_id` from `url`.
pub open spec fn is_attachment_request(
    req: MediaRequest,
    message_id: u64,
    id: u64,
    url: Seq<char>,
    declared: Option<String>,
) -> bool {
    &&& req.url@ == url
    &&& req.object_key@ == attachment_key(message_id, id)
    &&& req.content_type@ == match declared {
        Some(t) => t@,
        None => DEFAULT_CONTENT_TYPE@,
    }
}

/// `req` stores sticker `id` in format `f` from Discord's sticker CDN.
pub open spec fn is_sticker_request(req: MediaRequest, id: u64, f: StickerFormat) -> bool {
    &&& req.url@ == sticker_url_text(id, sticker_ext(f)->0)
    &&& req.object_key@ == sticker_key(id, sticker_ext(f)->0)
    &&& req.content_type@ == sticker_type(f)
}

/// Ending with `o`.
pub open spec fn item_finishes(o: ItemOutcome, next: ItemStage, action: ItemAction) -> bool {
    &&& next == ItemStage::Done(o)
    &&& action == ItemAction::Finish(o)
}

/// Attaching asset `asset` to the message.
pub open spec fn item_attaches(
    message_id: u64,
    asset: u128,
    now: i64,
    next: ItemStage,
    action: ItemAction,
) -> bool {
    &&& next == ItemStage::Recording
    &&& action matches ItemAction::InsertAttachment(row) && is_attachment_row(
        row,
        message_id,
        asset,
        now,
    )
}

/// One step of handling media item `item` of message `message_id` (decided at `now`).
/// An item already attached is skipped. An attachment is stored from its URL; a sticker
/// of a stored format reuses the asset under its object key, else is stored from Discord's
/// CDN. The stored asset is then attached to the message. A failed lookup for a sticker
/// aborts; any other failure skips the item.
pub open spec fn item_step_spec(
    message_id: u64,
    item: MediaItem,
    stage: ItemStage,
    event: ItemEvent,
    now: i64,
    next: ItemStage,
    action: ItemAction,
) -> bool {
    let on_failure = match item {
        MediaItem::Attachment { .. } => item_finishes(ItemOutcome::Skipped, next, action),
        MediaItem::Sticker { .. } => item_finishes(ItemOutcome::Aborted, next, action),
    };
    match stage {
        ItemStage::Start => match item {
            MediaItem::Attachment { id, .. } => {
                &&& next == ItemStage::CheckingAttached
                &&& action matches ItemAction::FindAttached(m, k) && m == db_key(message_id)
                    && k@ == attachment_key(message_id, id)
            },
            MediaItem::Sticker { id, .. } => {
                &&& next == ItemStage::CheckingAttached
                &&& action matches ItemAction::FindAttachedLike(m, k) && m == db_key(message_id)
                    && k@ == sticker_pattern(id)
            },
        },
        ItemStage::CheckingAttached => match event {
            ItemEvent::Found(true) => item_finishes(ItemOutcome::Skipped, next, action),
            ItemEvent::Found(false) => match item {
                MediaItem::Attachment { id, url, content_type } => {
                    &&& next == ItemStage::Storing
                    &&& action matches ItemAction::StoreMedia(req) && is_attachment_request(
                        req,
                        message_id,
                        id,
                        url@,
                        content_type,
                    )
                },
                MediaItem::Sticker { id, format } => match sticker_ext(format) {
                    Some(ext) => {
                        &&& next == ItemStage::FindingAsset
                        &&& action matches ItemAction::FindAsset(k) && k@ == sticker_key(id, ext)
                    },
                    None => item_finishes(ItemOutcome::Skipped, next, action),
                },
            },
            _ => on_failure,
        },
        ItemStage::FindingAsset => match item {
            MediaItem::Sticker { id, format } => match event {
                ItemEvent::Asset(Some(a)) => item_attaches(message_id, a, now, next, action),
                ItemEvent::Asset(None) => {
                    &&& next == ItemStage::Storing
                    &&& action matches ItemAction::StoreMedia(req) && is_sticker_request(
                        req,
                        id,
                        format,
                    )
                },
                _ => item_finishes(ItemOutcome::Aborted, next, action),
            },
            _ => item_finishes(ItemOutcome::Skipped, next, action),
        },
        ItemStage::Storing => match event {
            ItemEvent::Asset(Some(a)) => item_attaches(message_id, a, now, next, action),
            _ => item_finishes(ItemOutcome::Skipped, next, action),
        },
        ItemStage::Recording => match event {
            ItemEvent::Succeeded => item_finishes(ItemOutcome::Recorded, next, action),
            _ => item_finishes(ItemOutcome::Skipped, next, action),
        },
        ItemStage::Done(o) => item_finishes(o, next, action),
    }
}

/// The stages at which a sticker's format is known to be stored.
pub open spec fn item_stage_ok(item: MediaItem, stage: ItemStage) -> bool {
    stage == ItemStage::FindingAsset && item is Sticker ==> sticker_ext(item->format) is Some
}

fn item_finish(o: ItemOutcome) -> (out: (ItemStage, ItemAction))
    ensures
        item_finishes(o, out.0, out.1),
{
    (ItemStage::Done(o), ItemAction::Finish(o))
}

fn attach(message_id: u64, asset: u128, now: i64) -> (out: (ItemStage, ItemAction))
    ensures
        item_attaches(message_id, asset, now, out.0, out.1),
{
    (ItemStage::Recording, ItemAction::InsertAttachment(attachment_row(message_id, asset, now)))
}

/// One step of handling media item `item` of message `message_id`: from `stage`, on the
/// answer `event` of the step last performed, the next stage and the next step.
pub fn item_step(message_id: u64, item: &MediaItem, stage: ItemStage, event: ItemEvent, now: i64) -> (out: (
    ItemStage,
    ItemAction,
))
    requires
        item_stage_ok(*item, stage),
    ensures
        item_step_spec(message_id, *item, stage, event, now, out.0, out.1),
        item_stage_ok(*item, out.0),
{
    let failure = match item {
        MediaItem::Attachment { .. } => ItemOutcome::Skipped,
        MediaItem::Sticker { .. } => ItemOutcome::Aborted,
    };
    match stage {
        ItemStage::Start => match item {
            MediaItem::Attachment { id, .. } => (
                ItemStage::CheckingAttached,
                ItemAction::FindAttached(to_db_key(message_id), attachment_object_key(message_id, *id)),
            ),
            MediaItem::Sticker { id, .. } => (
                ItemStage::CheckingAttached,
                ItemAction::FindAttachedLike(to_db_key(message_id), sticker_key_pattern(*id)),
            ),
        },
        ItemStage::CheckingAttached => match event {
            ItemEvent::Found(true) => item_finish(ItemOutcome::Skipped),
            ItemEvent::Found(false) => match item {
                MediaItem::Attachment { id, url, content_type } => {
                    let req = MediaRequest {
                        url: url.clone(),
                        object_key: attachment_object_key(message_id, *id),
                        content_type: attachment_content_type(content_type),
                    };
                    (ItemStage::Storing, ItemAction::StoreMedia(req))
                },
                MediaItem::Sticker { id, format } => match sticker_extension(*format) {
                    Some(ext) => (ItemStage::FindingAsset, ItemAction::FindAsset(
                        sticker_object_key(*id, ext),
                    )),
                    None => item_finish(ItemOutcome::Skipped),
                },
            },
            _ => item_finish(failure),
        },
        ItemStage::FindingAsset => match item {
            MediaItem::Sticker { id, format } => match event {
                ItemEvent::Asset(Some(a)) => attach(message_id, a, now),
                ItemEvent::Asset(None) => {
                    let ext = match sticker_extension(*format) {
                        Some(e) => e,
                        None => "",
                    };
                    let req = MediaRequest {
                        url: sticker_url(*id, ext),
                        object_key: sticker_object_key(*id, ext),
                        content_type: sticker_content_type(*format),
                    };
                    (ItemStage::Storing, ItemAction::StoreMedia(req))
                },
                _ => item_finish(ItemOutcome::Aborted),
            },
            _ => item_finish(ItemOutcome::Skipped),
        },
        ItemStage::Storing => match event {
            ItemEvent::Asset(Some(a)) => attach(message_id, a, now),
            _ => item_finish(ItemOutcome::Skipped),
        },
        ItemStage::Recording => match event {
            ItemEvent::Succeeded => item_finish(ItemOutcome::Recorded),
            _ => item_finish(ItemOutcome::Skipped),
        },
        ItemStage::Done(o) => item_finish(o),
    }
}

/// Content that is already stored is not uploaded again: when the content hash names an
/// asset, storing ends with that asset's id; an upload is only ever asked for after the
/// lookup found no asset with that content, and an asset row is only recorded after its
/// upload succeeded (a failure in between leaves at worst an unrecorded object).
pub proof fn law_same_content_stored_once(
    req: MediaRequest,
    stage: MediaStage,
    event: MediaEvent,
    next: MediaStage,
    action: MediaAction,
)
    requires
        media_step_spec(req, stage, event, next, action),
    ensures
        stage is CheckingHash ==> (event matches MediaEvent::Found(Some(id)) ==> action
            == MediaAction::Finish(Some(id))),
        action is Upload ==> stage is CheckingHash && event == MediaEvent::Found(None),
        action is InsertAsset ==> stage is Uploading && event is Succeeded,
{
}

/// The asset row recorded for a new object describes the downloaded bytes: through
/// download, lookup, upload and recording, the row carries the content hash and the
/// size of those bytes, the request's key and type, and a fresh v4 id, which is also the
/// id the storing ends with.
pub proof fn law_recorded_asset_describes_download(
    req: MediaRequest,
    bytes: Vec<u8>,
    s1: MediaStage,
    a1: MediaAction,
    s2: MediaStage,
    a2: MediaAction,
    s3: MediaStage,
    a3: MediaAction,
    s4: MediaStage,
    a4: MediaAction,
)
    requires
        media_step_spec(req, MediaStage::Downloading, MediaEvent::Downloaded(bytes), s1, a1),
        media_step_spec(req, s1, MediaEvent::Found(None), s2, a2),
        media_step_spec(req, s2, MediaEvent::Succeeded, s3, a3),
        media_step_spec(req, s3, MediaEvent::Succeeded, s4, a4),
    ensures
        a2 matches MediaAction::Upload(b) && b@ == bytes@,
        a3 matches MediaAction::InsertAsset(row) && {
            &&& row.content_hash matches Some(h) && h@ == hex_lower(sha256_digest(bytes@))
            &&& row.size_bytes == Some(bytes@.len() as i64)
            &&& row.object_key@ == req.object_key@
            &&& row.content_type@ == req.content_type@
            &&& is_v4_uuid(row.id)
            &&& a4 == MediaAction::Finish(Some(row.id))
        },
{
}

/// A media item already attached to its message is not stored again, and only a failed
/// lookup for a sticker stops the handling of the other items.
pub proof fn law_items_attached_once(
    message_id: u64,
    item: MediaItem,
    stage: ItemStage,
    event: ItemEvent,
    now: i64,
    next: ItemStage,
    action: ItemAction,
)
    requires
        item_step_spec(message_id, item, stage, event, now, next, action),
    ensures
        stage == ItemStage::CheckingAttached && event == ItemEvent::Found(true) ==> action
            == ItemAction::Finish(ItemOutcome::Skipped),
        action == ItemAction::Finish(ItemOutcome::Aborted) && !(stage is Done) ==> item is Sticker,
        action is StoreMedia ==> (stage == ItemStage::CheckingAttached && event == ItemEvent::Found(false))
            || (stage == ItemStage::FindingAsset && event == ItemEvent::Asset(None)),
{
}

} // verus!
