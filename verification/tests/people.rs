use sentience::channels::{
    channel_row, channel_step, channel_type_from_code, rows_root_first, ChannelAction,
    ChannelError, ChannelEvent, ChannelStage, GuildChannelInfo,
};
use sentience::edits::{edit_row, edit_step, EditAction, EditError, EditEvent, EditStage};
use sentience::emoji::{
    custom_emoji_url, emoji_key_text, emoji_object_key, emoji_step, EmojiAction, EmojiEvent,
    EmojiFailure, EmojiStage, ReactionEmoji,
};
use sentience::ids::uuid_string;
use sentience::ingest::IncomingMessage;
use sentience::messages::MessageKind;
use sentience::model::DiscordChannelType;
use sentience::reactions::{
    reaction_row, reaction_step, ReactionAction, ReactionChange, ReactionEvent, ReactionFailure,
    ReactionInfo, ReactionStage,
};
use sentience::scan::{from_our_guild, next_page_cursor, oldest_first, page_step, PageAction, PageEvent, PageStage};
use sentience::users::{
    avatar_content_type, avatar_object_key, display_name, new_user_rows, user_step,
    DiscordUserInfo, UserAction, UserEvent, UserPolicy, UserStage,
};

fn user(global: Option<&str>, avatar: bool, bot: bool) -> DiscordUserInfo {
    DiscordUserInfo {
        id: 123,
        name: "ada_l".to_string(),
        global_name: global.map(|s| s.to_string()),
        is_bot: bot,
        avatar_hash: if avatar { Some("a_abc".to_string()) } else { None },
        avatar_url: if avatar {
            Some("https://cdn.discordapp.com/avatars/123/a_abc.gif?size=1024".to_string())
        } else {
            None
        },
    }
}

fn run_user(p: UserPolicy, u: &DiscordUserInfo, answers: Vec<UserEvent>) -> Vec<UserAction> {
    let mut stage = UserStage::Start;
    let mut event = UserEvent::Begin;
    let mut out = Vec::new();
    let mut answers = answers.into_iter();
    loop {
        let (next, action) = user_step(p, u, stage, event);
        let done = matches!(action, UserAction::Finish(_));
        out.push(action);
        if done {
            return out;
        }
        stage = next;
        event = answers.next().expect("an answer for every step");
    }
}

fn user_ok(actions: &[UserAction]) -> bool {
    match actions.last() {
        Some(UserAction::Finish(ok)) => *ok,
        _ => panic!("not finished"),
    }
}

#[test]
fn users_are_shown_by_display_name_else_user_name() {
    assert_eq!(display_name(&user(Some("Ada"), false, false)), "Ada");
    assert_eq!(display_name(&user(None, false, false)), "ada_l");
    let (person, account) = new_user_rows(&user(Some("Ada"), false, false));
    assert_eq!(person.nickname.as_deref(), Some("Ada"));
    assert_eq!(account.vestibule_user_id, person.id);
    assert_eq!(account.discord_user_id, 123);
    assert_eq!(account.username, "ada_l");
    assert_eq!(account.display_name, "Ada");
    assert_eq!((person.id >> 76) & 0xf, 4);
}

#[test]
fn avatar_keys_and_types() {
    let u = user(None, true, false);
    assert_eq!(avatar_object_key(UserPolicy::AnyUser, &u), "discord/avatars/123/a_abc");
    assert_eq!(avatar_object_key(UserPolicy::AnyUser, &user(None, false, false)), "discord/avatars/123/default");
    assert_eq!(avatar_content_type(UserPolicy::AnyUser, "https://x/a.gif?size=1"), "image/gif");
    assert_eq!(avatar_content_type(UserPolicy::AnyUser, "https://x/a.webp?size=1"), "image/webp");
    assert_eq!(avatar_content_type(UserPolicy::MessageAuthor, "https://x/a.webp"), "image/png");
}

#[test]
fn new_user_with_avatar_is_recorded_then_avatar_stored() {
    let u = user(Some("Ada"), true, false);
    let actions = run_user(
        UserPolicy::AnyUser,
        &u,
        vec![
            UserEvent::Found(false),
            UserEvent::Succeeded,
            UserEvent::Failed,
            UserEvent::Found(false),
            UserEvent::Downloaded(b"abc".to_vec()),
            UserEvent::Failed,
            UserEvent::Failed,
        ],
    );
    assert!(matches!(actions[0], UserAction::FindAccount(123)));
    let person_id = match &actions[1] {
        UserAction::InsertPerson(p) => p.id,
        _ => panic!("expected a person"),
    };
    assert!(matches!(&actions[2], UserAction::InsertAccount(a) if a.vestibule_user_id == person_id));
    assert!(matches!(&actions[3], UserAction::FindAvatar(k) if k == "discord/avatars/123/a_abc"));
    assert!(matches!(&actions[4], UserAction::Download(url) if url.contains("a_abc.gif")));
    match &actions[5] {
        UserAction::Upload(bytes, key, ty) => {
            assert_eq!(bytes, b"abc");
            assert_eq!(key, "discord/avatars/123/a_abc");
            assert_eq!(ty, "image/gif");
        }
        _ => panic!("expected an upload"),
    }
    match &actions[6] {
        UserAction::InsertAsset(row) => {
            assert_eq!(row.size_bytes, Some(3));
            assert_eq!(row.content_type, "image/gif");
            assert_eq!(
                row.content_hash.as_deref(),
                Some("ba7816bf8f01cfea414140de5dae2223b00361a396177a9cb410ff61f20015ad")
            );
        }
        _ => panic!("expected an asset row"),
    }
    // failures to insert the account, upload or record the avatar do not fail the user
    assert!(user_ok(&actions));
}

#[test]
fn known_user_and_stored_avatar_are_left_alone() {
    let u = user(None, true, false);
    let actions = run_user(UserPolicy::AnyUser, &u, vec![UserEvent::Found(true), UserEvent::Found(true)]);
    assert_eq!(actions.len(), 3);
    assert!(user_ok(&actions));
    let plain = user(None, false, false);
    let actions = run_user(UserPolicy::AnyUser, &plain, vec![UserEvent::Found(true)]);
    assert_eq!(actions.len(), 2);
    assert!(user_ok(&actions));
}

#[test]
fn user_failures() {
    let u = user(None, true, false);
    assert!(!user_ok(&run_user(UserPolicy::AnyUser, &u, vec![UserEvent::Failed])));
    assert!(!user_ok(&run_user(UserPolicy::AnyUser, &u, vec![UserEvent::Found(false), UserEvent::Failed])));
    assert!(!user_ok(&run_user(UserPolicy::AnyUser, &u, vec![UserEvent::Found(true), UserEvent::Failed])));
    // a failed download ends quietly
    assert!(user_ok(&run_user(UserPolicy::AnyUser, &u, vec![UserEvent::Found(true), UserEvent::Found(false), UserEvent::Failed])));
}

#[test]
fn author_bots_are_skipped_but_any_user_bots_are_not() {
    let bot = user(None, false, true);
    let actions = run_user(UserPolicy::MessageAuthor, &bot, vec![]);
    assert_eq!(actions.len(), 1);
    assert!(user_ok(&actions));
    let actions = run_user(UserPolicy::AnyUser, &bot, vec![UserEvent::Found(true)]);
    assert!(matches!(actions[0], UserAction::FindAccount(123)));
}

fn run_emoji(e: &ReactionEmoji, answers: Vec<EmojiEvent>) -> Vec<EmojiAction> {
    let mut stage = EmojiStage::Start;
    let mut event = EmojiEvent::Begin;
    let mut out = Vec::new();
    let mut answers = answers.into_iter();
    loop {
        let (next, action) = emoji_step(e, Some(777), stage, event);
        let done = matches!(action, EmojiAction::Finish(_));
        out.push(action);
        if done {
            return out;
        }
        stage = next;
        event = answers.next().expect("an answer for every step");
    }
}

#[test]
fn emoji_keys_urls_and_object_keys() {
    let custom = ReactionEmoji::Custom { animated: true, id: 555, name: Some("party".to_string()) };
    assert_eq!(emoji_key_text(&custom), Some("555".to_string()));
    assert_eq!(emoji_key_text(&ReactionEmoji::Unicode("👍".to_string())), Some("👍".to_string()));
    assert_eq!(emoji_key_text(&ReactionEmoji::Other), None);
    assert_eq!(custom_emoji_url(555, false), "https://cdn.discordapp.com/emojis/555.webp");
    assert_eq!(custom_emoji_url(555, true), "https://cdn.discordapp.com/emojis/555.webp?animated=true");
    let image: u128 = 0x550e8400e29b41d4a716446655440000;
    assert_eq!(emoji_object_key(555, image), "emojis/555/550e8400-e29b-41d4-a716-446655440000.webp");
}

#[test]
fn known_emoji_answers_its_row() {
    let e = ReactionEmoji::Unicode("👍".to_string());
    let actions = run_emoji(&e, vec![EmojiEvent::Found(Some(9))]);
    assert!(matches!(&actions[0], EmojiAction::FindEmoji(k) if k == "👍"));
    assert!(matches!(actions[1], EmojiAction::Finish(Ok(Some(9)))));
}

#[test]
fn new_custom_emoji_stores_its_image_then_its_row() {
    let e = ReactionEmoji::Custom { animated: false, id: 555, name: Some("party".to_string()) };
    let actions = run_emoji(&e, vec![EmojiEvent::Found(None), EmojiEvent::Succeeded, EmojiEvent::Failed]);
    let image_key = match &actions[1] {
        EmojiAction::StoreImage(req) => {
            assert_eq!(req.url, "https://cdn.discordapp.com/emojis/555.webp");
            assert_eq!(req.content_type, "image/webp");
            req.object_key.clone()
        }
        _ => panic!("expected the image"),
    };
    let row_id = match &actions[2] {
        EmojiAction::InsertEmoji(row) => {
            assert_eq!(row.discord_emoji_id, "555");
            assert_eq!(row.from_guild.as_deref(), Some("777"));
            assert_eq!(row.emoji_display_name.as_deref(), Some("party"));
            assert!(!row.is_animated);
            assert_eq!(row.emoji_url.as_deref(), Some("https://cdn.discordapp.com/emojis/555.webp"));
            let image = row.asset_id.expect("an image id");
            assert_eq!(image_key, format!("emojis/555/{}.webp", uuid_string(image)));
            row.id
        }
        _ => panic!("expected the emoji row"),
    };
    // a failed row insert still answers the new id
    assert!(matches!(actions[3], EmojiAction::Finish(Ok(Some(id))) if id == row_id));
}

#[test]
fn new_unicode_emoji_and_unknown_reactions() {
    let e = ReactionEmoji::Unicode("🎉".to_string());
    let actions = run_emoji(&e, vec![EmojiEvent::Found(None), EmojiEvent::Succeeded]);
    match &actions[1] {
        EmojiAction::InsertEmoji(row) => {
            assert_eq!(row.discord_emoji_id, "🎉");
            assert_eq!(row.from_guild, None);
            assert_eq!(row.emoji_url, None);
            assert_eq!(row.asset_id, None);
        }
        _ => panic!("expected the emoji row"),
    }
    let other = run_emoji(&ReactionEmoji::Other, vec![]);
    assert!(matches!(other[0], EmojiAction::Finish(Ok(None))));
    let failed = run_emoji(&e, vec![EmojiEvent::Failed]);
    assert!(matches!(failed[1], EmojiAction::Finish(Err(EmojiFailure))));
    let custom = ReactionEmoji::Custom { animated: true, id: 1, name: None };
    let failed = run_emoji(&custom, vec![EmojiEvent::Found(None), EmojiEvent::Failed]);
    assert!(matches!(failed[2], EmojiAction::Finish(Err(EmojiFailure))));
}

fn reaction(user: Option<u64>, emoji: ReactionEmoji) -> ReactionInfo {
    ReactionInfo { channel_id: 55, message_id: 1001, user_id: user, guild_id: Some(777), emoji }
}

fn run_reaction(change: ReactionChange, r: &ReactionInfo, answers: Vec<ReactionEvent>) -> Vec<ReactionAction> {
    let mut stage = ReactionStage::Start;
    let mut event = ReactionEvent::Begin;
    let mut out = Vec::new();
    let mut answers = answers.into_iter();
    loop {
        let (next, action) = reaction_step(change, r, stage, event, 31);
        let done = matches!(action, ReactionAction::Finish(_));
        out.push(action);
        if done {
            return out;
        }
        stage = next;
        event = answers.next().expect("an answer for every step");
    }
}

#[test]
fn added_reaction_is_recorded_after_its_message() {
    let r = reaction(Some(123), ReactionEmoji::Unicode("👍".to_string()));
    let actions = run_reaction(
        ReactionChange::Added,
        &r,
        vec![ReactionEvent::Succeeded, ReactionEvent::Succeeded, ReactionEvent::Emoji(Some(9)), ReactionEvent::Succeeded],
    );
    assert!(matches!(actions[0], ReactionAction::FetchMessage(55, 1001)));
    assert!(matches!(actions[1], ReactionAction::IngestMessage));
    assert!(matches!(actions[2], ReactionAction::ResolveEmoji));
    match &actions[3] {
        ReactionAction::InsertReaction(row) => {
            assert_eq!(row.message_id, 1001);
            assert_eq!(row.user_id, 123);
            assert_eq!(row.emoji_id, Some(9));
            assert_eq!(row.reacted_at, 31);
        }
        _ => panic!("expected the reaction row"),
    }
    assert!(matches!(actions[4], ReactionAction::Finish(Ok(()))));
}

#[test]
fn removed_reaction_deletes_matching_rows() {
    let r = reaction(Some(123), ReactionEmoji::Custom { animated: false, id: 555, name: None });
    let actions = run_reaction(
        ReactionChange::Removed,
        &r,
        vec![ReactionEvent::Succeeded, ReactionEvent::Succeeded, ReactionEvent::Emoji(Some(9)), ReactionEvent::Succeeded],
    );
    assert!(matches!(&actions[2], ReactionAction::FindEmoji(k) if k == "555"));
    assert!(matches!(actions[3], ReactionAction::DeleteReaction(1001, 123, 9)));
    assert!(matches!(actions[4], ReactionAction::Finish(Ok(()))));
    let unknown = run_reaction(
        ReactionChange::Removed,
        &r,
        vec![ReactionEvent::Succeeded, ReactionEvent::Succeeded, ReactionEvent::Emoji(None)],
    );
    assert!(matches!(unknown[3], ReactionAction::Finish(Ok(()))));
    let other = reaction(Some(123), ReactionEmoji::Other);
    let skipped = run_reaction(ReactionChange::Removed, &other, vec![ReactionEvent::Succeeded, ReactionEvent::Succeeded]);
    assert!(matches!(skipped[2], ReactionAction::Finish(Ok(()))));
}

#[test]
fn reactions_without_user_are_ignored_and_failures_fail() {
    let r = reaction(None, ReactionEmoji::Other);
    let actions = run_reaction(ReactionChange::Added, &r, vec![]);
    assert!(matches!(actions[0], ReactionAction::Finish(Ok(()))));
    let r = reaction(Some(1), ReactionEmoji::Other);
    let failed = run_reaction(ReactionChange::Added, &r, vec![ReactionEvent::Failed]);
    assert!(matches!(failed[1], ReactionAction::Finish(Err(ReactionFailure))));
    let failed = run_reaction(ReactionChange::Added, &r, vec![ReactionEvent::Succeeded, ReactionEvent::Succeeded, ReactionEvent::Emoji(None), ReactionEvent::Failed]);
    assert!(matches!(failed[4], ReactionAction::Finish(Err(ReactionFailure))));
    let row = reaction_row(1, 2, None, 3);
    assert_eq!((row.message_id, row.user_id, row.emoji_id, row.reacted_at), (1, 2, None, 3));
}

fn edited(edited_at: Option<i64>) -> IncomingMessage {
    IncomingMessage {
        id: 1001,
        channel_id: 55,
        author_id: 77,
        author_name: "ada".to_string(),
        kind: MessageKind::Regular,
        content: "new text".to_string(),
        sent_at: 1,
        edited_at,
        reply_to: None,
        has_attachments: false,
        has_reactions: false,
    }
}

fn run_edit(m: &IncomingMessage, answers: Vec<EditEvent>) -> Vec<EditAction> {
    let mut stage = EditStage::Start;
    let mut event = EditEvent::Begin;
    let mut out = Vec::new();
    let mut answers = answers.into_iter();
    loop {
        let (next, action) = edit_step(m, stage, event);
        let done = matches!(action, EditAction::Finish(_));
        out.push(action);
        if done {
            return out;
        }
        stage = next;
        event = answers.next().expect("an answer for every step");
    }
}

#[test]
fn edit_keeps_the_old_content_then_updates() {
    let m = edited(Some(500));
    let actions = run_edit(
        &m,
        vec![EditEvent::Succeeded, EditEvent::Content(Some("old text".to_string())), EditEvent::Succeeded, EditEvent::Succeeded],
    );
    assert!(matches!(actions[0], EditAction::IngestMessage));
    assert!(matches!(actions[1], EditAction::FindContent(1001)));
    match &actions[2] {
        EditAction::InsertEdit(row) => {
            assert_eq!(row.message_id, 1001);
            assert_eq!(row.old_content, "old text");
            assert_eq!(row.edited_at, 500);
        }
        _ => panic!("expected the edit row"),
    }
    assert!(matches!(&actions[3], EditAction::UpdateMessage(1001, c, 500) if c == "new text"));
    assert!(matches!(actions[4], EditAction::Finish(Ok(()))));
}

#[test]
fn edits_without_instant_or_row() {
    let actions = run_edit(&edited(None), vec![EditEvent::Succeeded]);
    assert!(matches!(actions[1], EditAction::Finish(Ok(()))));
    let actions = run_edit(&edited(Some(5)), vec![EditEvent::Succeeded, EditEvent::Content(None)]);
    assert!(matches!(actions[2], EditAction::Finish(Err(EditError::NotStored))));
    let actions = run_edit(&edited(Some(5)), vec![EditEvent::Failed]);
    assert!(matches!(actions[1], EditAction::Finish(Err(EditError::StepFailed))));
    let row = edit_row(9, "x".to_string(), 4);
    assert_eq!((row.message_id, row.old_content.as_str(), row.edited_at), (9, "x", 4));
}

fn channel(id: u64, kind: u8, parent: Option<u64>) -> GuildChannelInfo {
    GuildChannelInfo { id, name: format!("ch{id}"), kind, parent_id: parent }
}

#[test]
fn channel_types_and_rows() {
    assert_eq!(channel_type_from_code(0), DiscordChannelType::Text);
    assert_eq!(channel_type_from_code(2), DiscordChannelType::Voice);
    assert_eq!(channel_type_from_code(4), DiscordChannelType::Category);
    assert_eq!(channel_type_from_code(11), DiscordChannelType::PublicThread);
    assert_eq!(channel_type_from_code(15), DiscordChannelType::Forum);
    assert_eq!(channel_type_from_code(1), DiscordChannelType::Text);
    assert_eq!(channel_type_from_code(200), DiscordChannelType::Text);
    let row = channel_row(&channel(3, 11, Some(2)));
    assert_eq!(row.channel_id, 3);
    assert_eq!(row.name, "ch3");
    assert_eq!(row.channel_type, DiscordChannelType::PublicThread);
    assert_eq!(row.parent_channel_id, Some(2));
}

#[test]
fn channel_chain_is_recorded_root_first() {
    let (s, a) = channel_step(3, ChannelStage::Start, ChannelEvent::Begin);
    assert!(matches!(a, ChannelAction::FindChannel(3)));
    let (s, a) = channel_step(3, s, ChannelEvent::Found(false));
    assert!(matches!(a, ChannelAction::FetchChannel(3)));
    let (s, a) = channel_step(3, s, ChannelEvent::Fetched(Some(channel(3, 11, Some(2)))));
    assert!(matches!(a, ChannelAction::FetchChannel(2)));
    let (s, a) = channel_step(3, s, ChannelEvent::Fetched(Some(channel(2, 0, Some(1)))));
    assert!(matches!(a, ChannelAction::FetchChannel(1)));
    let (s, a) = channel_step(3, s, ChannelEvent::Fetched(Some(channel(1, 4, None))));
    match &a {
        ChannelAction::InsertAll(rows) => {
            assert_eq!(rows.iter().map(|r| r.channel_id).collect::<Vec<_>>(), vec![1, 2, 3]);
            assert_eq!(rows[0].parent_channel_id, None);
            assert_eq!(rows[1].parent_channel_id, Some(1));
            assert_eq!(rows[2].parent_channel_id, Some(2));
        }
        _ => panic!("expected the inserts"),
    }
    let (_, a) = channel_step(3, s, ChannelEvent::Failed);
    assert!(matches!(a, ChannelAction::Finish(Ok(()))));
}

#[test]
fn channel_walk_stops_at_an_unreachable_parent() {
    let (s, _) = channel_step(3, ChannelStage::FetchingChannel, ChannelEvent::Fetched(Some(channel(3, 0, Some(2)))));
    let (_, a) = channel_step(3, s, ChannelEvent::Failed);
    assert!(matches!(&a, ChannelAction::InsertAll(rows) if rows.len() == 1 && rows[0].channel_id == 3));
    let (_, a) = channel_step(3, ChannelStage::Checking, ChannelEvent::Found(true));
    assert!(matches!(a, ChannelAction::Finish(Ok(()))));
    let (_, a) = channel_step(3, ChannelStage::FetchingChannel, ChannelEvent::Fetched(None));
    assert!(matches!(a, ChannelAction::Finish(Err(ChannelError::NotGuildChannel))));
    let (_, a) = channel_step(3, ChannelStage::FetchingChannel, ChannelEvent::Failed);
    assert!(matches!(a, ChannelAction::Finish(Err(ChannelError::StepFailed))));
    let rows = rows_root_first(&vec![channel(9, 0, Some(8)), channel(8, 4, None)]);
    assert_eq!(rows.iter().map(|r| r.channel_id).collect::<Vec<_>>(), vec![8, 9]);
}

#[test]
fn events_guild_filter_and_listing_pages() {
    assert!(from_our_guild(Some(5), 5));
    assert!(!from_our_guild(Some(6), 5));
    assert!(!from_our_guild(None, 5));
    assert_eq!(next_page_cursor(&vec![30, 20, 10]), Some(10));
    assert_eq!(next_page_cursor(&vec![]), None);
    assert_eq!(oldest_first(vec![30, 20, 10]), vec![10, 20, 30]);
    assert_eq!(oldest_first(Vec::<u8>::new()), Vec::<u8>::new());
}

#[test]
fn listings_are_walked_page_by_page() {
    let (s, a) = page_step(PageStage::Start, PageEvent::Begin);
    assert_eq!((s, a), (PageStage::Fetching, PageAction::Fetch(None)));
    let (s, a) = page_step(s, PageEvent::Page(vec![30, 20, 10]));
    assert_eq!((s, a), (PageStage::Fetching, PageAction::Fetch(Some(10))));
    let (s, a) = page_step(s, PageEvent::Page(vec![9, 8]));
    assert_eq!(a, PageAction::Fetch(Some(8)));
    let (s, a) = page_step(s, PageEvent::Page(vec![]));
    assert_eq!((s, a), (PageStage::Done, PageAction::Finish));
    let (_, a) = page_step(s, PageEvent::Page(vec![1]));
    assert_eq!(a, PageAction::Finish);
    let (s, a) = page_step(PageStage::Fetching, PageEvent::Failed);
    assert_eq!((s, a), (PageStage::Done, PageAction::Finish));
}
