use sentience::media::{
    attachment_content_type, attachment_object_key, item_step, media_step, sticker_content_type,
    sticker_extension, sticker_format_from_code, sticker_key_pattern, sticker_object_key,
    sticker_url, ItemAction, ItemEvent, ItemOutcome, ItemStage, MediaAction, MediaEvent,
    MediaItem, MediaRequest, MediaStage, StickerFormat, DEFAULT_CONTENT_TYPE,
};

fn request() -> MediaRequest {
    MediaRequest {
        url: "https://cdn.example/x.png".to_string(),
        object_key: "discord/attachments/1/2".to_string(),
        content_type: "image/png".to_string(),
    }
}

#[test]
fn attachment_keys_and_types() {
    assert_eq!(attachment_object_key(1234, 5678), "discord/attachments/1234/5678");
    assert_eq!(attachment_object_key(1, u64::MAX), "discord/attachments/1/-1");
    assert_eq!(attachment_content_type(&Some("video/mp4".to_string())), "video/mp4");
    assert_eq!(attachment_content_type(&None), "application/octet-stream");
    assert_eq!(DEFAULT_CONTENT_TYPE, "application/octet-stream");
}

#[test]
fn sticker_formats_extensions_and_types() {
    assert_eq!(sticker_format_from_code(1), StickerFormat::Png);
    assert_eq!(sticker_format_from_code(2), StickerFormat::Apng);
    assert_eq!(sticker_format_from_code(3), StickerFormat::Lottie);
    assert_eq!(sticker_format_from_code(4), StickerFormat::Gif);
    assert_eq!(sticker_format_from_code(9), StickerFormat::Unknown(9));
    assert_eq!(sticker_extension(StickerFormat::Png), Some("png"));
    assert_eq!(sticker_extension(StickerFormat::Apng), Some("png"));
    assert_eq!(sticker_extension(StickerFormat::Lottie), Some("json"));
    assert_eq!(sticker_extension(StickerFormat::Gif), Some("gif"));
    assert_eq!(sticker_extension(StickerFormat::Unknown(0)), None);
    assert_eq!(sticker_content_type(StickerFormat::Lottie), "application/json");
    assert_eq!(sticker_content_type(StickerFormat::Apng), "image/png");
    assert_eq!(sticker_content_type(StickerFormat::Gif), "image/gif");
    assert_eq!(sticker_url(42, "gif"), "https://cdn.discordapp.com/stickers/42.gif");
    assert_eq!(sticker_object_key(42, "json"), "discord/stickers/42.json");
    assert_eq!(sticker_key_pattern(42), "discord/stickers/42.%");
}

#[test]
fn new_content_is_hashed_uploaded_and_recorded() {
    let req = request();
    let (s, a) = media_step(&req, MediaStage::Start, MediaEvent::Begin);
    assert!(matches!(a, MediaAction::Download));
    let (s, a) = media_step(&req, s, MediaEvent::Downloaded(b"abc".to_vec()));
    match &a {
        MediaAction::LookUpHash(h) => {
            assert_eq!(h, "ba7816bf8f01cfea414140de5dae2223b00361a396177a9cb410ff61f20015ad")
        }
        _ => panic!("expected a hash lookup"),
    }
    let (s, a) = media_step(&req, s, MediaEvent::Found(None));
    match &a {
        MediaAction::Upload(bytes) => assert_eq!(bytes, b"abc"),
        _ => panic!("expected an upload"),
    }
    let (s, a) = media_step(&req, s, MediaEvent::Succeeded);
    let id = match &a {
        MediaAction::InsertAsset(row) => {
            assert_eq!(row.object_key, "discord/attachments/1/2");
            assert_eq!(row.content_type, "image/png");
            assert_eq!(row.size_bytes, Some(3));
            assert_eq!(
                row.content_hash.as_deref(),
                Some("ba7816bf8f01cfea414140de5dae2223b00361a396177a9cb410ff61f20015ad")
            );
            assert_eq!((row.id >> 76) & 0xf, 4);
            row.id
        }
        _ => panic!("expected an asset row"),
    };
    let (_, a) = media_step(&req, s, MediaEvent::Succeeded);
    assert!(matches!(a, MediaAction::Finish(Some(x)) if x == id));
}

#[test]
fn known_content_reuses_its_asset() {
    let req = request();
    let (s, _) = media_step(&req, MediaStage::Downloading, MediaEvent::Downloaded(vec![1, 2, 3]));
    let (_, a) = media_step(&req, s, MediaEvent::Found(Some(77)));
    assert!(matches!(a, MediaAction::Finish(Some(77))));
}

#[test]
fn failed_media_steps_give_no_asset() {
    let req = request();
    let (_, a) = media_step(&req, MediaStage::Downloading, MediaEvent::Failed);
    assert!(matches!(a, MediaAction::Finish(None)));
    let (_, a) = media_step(&req, MediaStage::Uploading("h".to_string(), 3), MediaEvent::Failed);
    assert!(matches!(a, MediaAction::Finish(None)));
    let (_, a) = media_step(&req, MediaStage::Recording(5), MediaEvent::Failed);
    assert!(matches!(a, MediaAction::Finish(None)));
    let (_, a) = media_step(&req, MediaStage::CheckingHash("h".to_string(), vec![]), MediaEvent::Failed);
    assert!(matches!(a, MediaAction::Finish(None)));
}

fn run_item(item: &MediaItem, answers: Vec<ItemEvent>) -> Vec<ItemAction> {
    let mut stage = ItemStage::Start;
    let mut event = ItemEvent::Begin;
    let mut out = Vec::new();
    let mut answers = answers.into_iter();
    loop {
        let (next, action) = item_step(99, item, stage, event, 7);
        let done = matches!(action, ItemAction::Finish(_));
        out.push(action);
        if done {
            return out;
        }
        stage = next;
        event = answers.next().expect("an answer for every step");
    }
}

fn item_outcome(actions: &[ItemAction]) -> ItemOutcome {
    match actions.last() {
        Some(ItemAction::Finish(o)) => *o,
        _ => panic!("not finished"),
    }
}

#[test]
fn attachment_is_stored_and_attached() {
    let item = MediaItem::Attachment { id: 5, url: "https://cdn/a.txt".to_string(), content_type: None };
    let actions = run_item(&item, vec![ItemEvent::Found(false), ItemEvent::Asset(Some(321)), ItemEvent::Succeeded]);
    match &actions[0] {
        ItemAction::FindAttached(m, k) => {
            assert_eq!(*m, 99);
            assert_eq!(k, "discord/attachments/99/5");
        }
        _ => panic!("expected a lookup"),
    }
    match &actions[1] {
        ItemAction::StoreMedia(req) => {
            assert_eq!(req.url, "https://cdn/a.txt");
            assert_eq!(req.object_key, "discord/attachments/99/5");
            assert_eq!(req.content_type, "application/octet-stream");
        }
        _ => panic!("expected storing"),
    }
    match &actions[2] {
        ItemAction::InsertAttachment(row) => {
            assert_eq!(row.message_id, 99);
            assert_eq!(row.asset_id, 321);
            assert_eq!(row.added_at, 7);
        }
        _ => panic!("expected an attachment row"),
    }
    assert_eq!(item_outcome(&actions), ItemOutcome::Recorded);
}

#[test]
fn attached_item_is_skipped_and_attachment_failures_skip() {
    let item = MediaItem::Attachment { id: 5, url: "u".to_string(), content_type: Some("image/png".to_string()) };
    assert_eq!(item_outcome(&run_item(&item, vec![ItemEvent::Found(true)])), ItemOutcome::Skipped);
    assert_eq!(item_outcome(&run_item(&item, vec![ItemEvent::Failed])), ItemOutcome::Skipped);
    assert_eq!(item_outcome(&run_item(&item, vec![ItemEvent::Found(false), ItemEvent::Failed])), ItemOutcome::Skipped);
    assert_eq!(
        item_outcome(&run_item(&item, vec![ItemEvent::Found(false), ItemEvent::Asset(Some(1)), ItemEvent::Failed])),
        ItemOutcome::Skipped
    );
}

#[test]
fn sticker_reuses_the_asset_under_its_key() {
    let item = MediaItem::Sticker { id: 42, format: StickerFormat::Gif };
    let actions = run_item(&item, vec![ItemEvent::Found(false), ItemEvent::Asset(Some(8)), ItemEvent::Succeeded]);
    match &actions[0] {
        ItemAction::FindAttachedLike(m, p) => {
            assert_eq!(*m, 99);
            assert_eq!(p, "discord/stickers/42.%");
        }
        _ => panic!("expected a pattern lookup"),
    }
    match &actions[1] {
        ItemAction::FindAsset(k) => assert_eq!(k, "discord/stickers/42.gif"),
        _ => panic!("expected an asset lookup"),
    }
    assert!(matches!(&actions[2], ItemAction::InsertAttachment(row) if row.asset_id == 8));
    assert!(!actions.iter().any(|a| matches!(a, ItemAction::StoreMedia(_))));
    assert_eq!(item_outcome(&actions), ItemOutcome::Recorded);
}

#[test]
fn new_sticker_is_stored_from_the_cdn() {
    let item = MediaItem::Sticker { id: 42, format: StickerFormat::Lottie };
    let actions = run_item(&item, vec![ItemEvent::Found(false), ItemEvent::Asset(None), ItemEvent::Asset(Some(9)), ItemEvent::Succeeded]);
    match &actions[2] {
        ItemAction::StoreMedia(req) => {
            assert_eq!(req.url, "https://cdn.discordapp.com/stickers/42.json");
            assert_eq!(req.object_key, "discord/stickers/42.json");
            assert_eq!(req.content_type, "application/json");
        }
        _ => panic!("expected storing"),
    }
    assert_eq!(item_outcome(&actions), ItemOutcome::Recorded);
}

#[test]
fn sticker_lookup_failures_abort_and_unknown_formats_skip() {
    let gif = MediaItem::Sticker { id: 1, format: StickerFormat::Gif };
    assert_eq!(item_outcome(&run_item(&gif, vec![ItemEvent::Failed])), ItemOutcome::Aborted);
    assert_eq!(item_outcome(&run_item(&gif, vec![ItemEvent::Found(false), ItemEvent::Failed])), ItemOutcome::Aborted);
    assert_eq!(
        item_outcome(&run_item(&gif, vec![ItemEvent::Found(false), ItemEvent::Asset(None), ItemEvent::Failed])),
        ItemOutcome::Skipped
    );
    let odd = MediaItem::Sticker { id: 1, format: StickerFormat::Unknown(7) };
    assert_eq!(item_outcome(&run_item(&odd, vec![ItemEvent::Found(false)])), ItemOutcome::Skipped);
}
