use sentience::ingest::{
    fetch_failure_event, ingest_step, placeholder_parent, stored_message, to_db_key,
    IncomingMessage, IngestAction, IngestError, IngestEvent, IngestOutcome, IngestStage,
    DELETED_CONTENT,
};
use sentience::messages::{kind_from_code, system_message_content, MessageKind};

fn incoming(kind: MessageKind, reply_to: Option<u64>, has_attachments: bool) -> IncomingMessage {
    IncomingMessage {
        id: 1001,
        channel_id: 55,
        author_id: 77,
        author_name: "ada".to_string(),
        kind,
        content: "hello there".to_string(),
        sent_at: 1_700_000_000_000_000,
        edited_at: Some(1_700_000_100_000_000),
        reply_to,
        has_attachments,
        has_reactions: false,
    }
}

/// Runs the steps with the given answers; returns the actions taken, in order.
fn run(m: &IncomingMessage, answers: &[IngestEvent]) -> Vec<IngestAction> {
    let mut stage = IngestStage::Start;
    let mut event = IngestEvent::Begin;
    let mut actions = Vec::new();
    let mut answers = answers.iter();
    loop {
        let (next, action) = ingest_step(m, stage, event, 42);
        let done = matches!(action, IngestAction::Finish(_));
        actions.push(action);
        if done {
            return actions;
        }
        stage = next;
        event = *answers.next().expect("an answer for every step");
    }
}

fn outcome(actions: &[IngestAction]) -> IngestOutcome {
    match actions.last() {
        Some(IngestAction::Finish(o)) => *o,
        _ => panic!("not finished"),
    }
}

#[test]
fn message_kinds_from_wire_codes() {
    assert_eq!(kind_from_code(0), MessageKind::Regular);
    assert_eq!(kind_from_code(7), MessageKind::MemberJoin);
    assert_eq!(kind_from_code(19), MessageKind::InlineReply);
    assert_eq!(kind_from_code(44), MessageKind::PurchaseNotification);
    assert_eq!(kind_from_code(13), MessageKind::Unknown(13));
    assert_eq!(kind_from_code(255), MessageKind::Unknown(255));
}

#[test]
fn system_messages_get_synthetic_content() {
    assert_eq!(system_message_content(MessageKind::MemberJoin, "ada"), Some("user ada joined the server".to_string()));
    assert_eq!(system_message_content(MessageKind::PinsAdd, "ada"), Some("ada pinned a message".to_string()));
    assert_eq!(
        system_message_content(MessageKind::NitroTier2, "ada"),
        Some("the server reached Nitro Boost tier 2".to_string())
    );
    assert_eq!(
        system_message_content(MessageKind::GuildIncidentReportRaid, "x"),
        Some("[incident report: raid]".to_string())
    );
    assert_eq!(system_message_content(MessageKind::Regular, "ada"), None);
    assert_eq!(system_message_content(MessageKind::InlineReply, "ada"), None);
    assert_eq!(system_message_content(MessageKind::ChatInputCommand, "ada"), None);
    assert_eq!(system_message_content(MessageKind::Unknown(99), "ada"), None);
}

#[test]
fn stored_row_of_a_message() {
    let m = incoming(MessageKind::InlineReply, Some(900), false);
    let row = stored_message(&m, 42);
    assert_eq!(row.message_id, 1001);
    assert_eq!(row.channel_id, 55);
    assert_eq!(row.sent_by, 77);
    assert_eq!(row.content, "hello there");
    assert_eq!(row.sent_at, 1_700_000_000_000_000);
    assert_eq!(row.last_edited, Some(1_700_000_100_000_000));
    assert_eq!(row.deleted_at, None);
    assert_eq!(row.in_reply_to, Some(900));
    assert_eq!(row.added_at, 42);
    let joined = stored_message(&incoming(MessageKind::MemberJoin, None, false), 42);
    assert_eq!(joined.content, "user ada joined the server");
    assert_eq!(joined.in_reply_to, None);
}

#[test]
fn snowflakes_keep_their_bits_as_database_keys() {
    assert_eq!(to_db_key(5), 5);
    assert_eq!(to_db_key(u64::MAX), -1);
    assert_eq!(to_db_key(1 << 63), i64::MIN);
}

#[test]
fn placeholder_for_a_deleted_parent() {
    let row = placeholder_parent(900, 55, 42);
    assert_eq!(row.message_id, 900);
    assert_eq!(row.channel_id, 55);
    assert_eq!(row.sent_by, 0);
    assert_eq!(row.content, DELETED_CONTENT);
    assert_eq!(DELETED_CONTENT, "[deleted message]");
    assert_eq!(row.sent_at, 0);
    assert_eq!(row.last_edited, None);
    assert_eq!(row.deleted_at, Some(0));
    assert_eq!(row.in_reply_to, None);
    assert_eq!(row.added_at, 42);
}

#[test]
fn only_a_404_means_the_parent_is_gone() {
    assert_eq!(fetch_failure_event(Some(404)), IngestEvent::NotFound);
    assert_eq!(fetch_failure_event(Some(403)), IngestEvent::Failed);
    assert_eq!(fetch_failure_event(Some(500)), IngestEvent::Failed);
    assert_eq!(fetch_failure_event(None), IngestEvent::Failed);
}

#[test]
fn plain_message_is_stored_after_channel_and_author() {
    let m = incoming(MessageKind::Regular, None, false);
    let actions = run(&m, &[IngestEvent::Found(false), IngestEvent::Succeeded, IngestEvent::Succeeded, IngestEvent::Succeeded]);
    assert!(matches!(actions[0], IngestAction::LookUpMessage(1001)));
    assert!(matches!(actions[1], IngestAction::EnsureChannel(55)));
    assert!(matches!(actions[2], IngestAction::EnsureAuthor));
    match &actions[3] {
        IngestAction::InsertMessage(row) => assert_eq!(row.message_id, 1001),
        _ => panic!("expected the message row"),
    }
    assert_eq!(actions.len(), 5);
    assert_eq!(outcome(&actions), IngestOutcome::Stored);
}

#[test]
fn stored_message_is_not_stored_again() {
    let m = incoming(MessageKind::Regular, Some(900), true);
    let actions = run(&m, &[IngestEvent::Found(true)]);
    assert_eq!(actions.len(), 2);
    assert_eq!(outcome(&actions), IngestOutcome::AlreadyStored);
}

#[test]
fn missing_parent_is_fetched_and_stored_first() {
    let m = incoming(MessageKind::InlineReply, Some(900), true);
    let actions = run(
        &m,
        &[
            IngestEvent::Found(false),
            IngestEvent::Succeeded,
            IngestEvent::Succeeded,
            IngestEvent::Found(false),
            IngestEvent::Succeeded,
            IngestEvent::Succeeded,
            IngestEvent::Succeeded,
            IngestEvent::Failed,
        ],
    );
    assert!(matches!(actions[3], IngestAction::LookUpParent(900)));
    assert!(matches!(actions[4], IngestAction::FetchParent(55, 900)));
    assert!(matches!(actions[5], IngestAction::IngestParent));
    assert!(matches!(actions[6], IngestAction::InsertMessage(_)));
    assert!(matches!(actions[7], IngestAction::StoreMedia));
    // a media failure does not fail the message
    assert_eq!(outcome(&actions), IngestOutcome::Stored);
}

#[test]
fn parent_gone_from_discord_gets_a_placeholder() {
    let m = incoming(MessageKind::InlineReply, Some(900), false);
    let actions = run(
        &m,
        &[
            IngestEvent::Found(false),
            IngestEvent::Succeeded,
            IngestEvent::Succeeded,
            IngestEvent::Found(false),
            IngestEvent::NotFound,
            IngestEvent::Succeeded,
            IngestEvent::Succeeded,
        ],
    );
    match &actions[5] {
        IngestAction::InsertPlaceholder(row) => {
            assert_eq!(row.message_id, 900);
            assert_eq!(row.content, "[deleted message]");
            assert_eq!(row.deleted_at, Some(0));
        }
        _ => panic!("expected a placeholder"),
    }
    assert!(matches!(actions[6], IngestAction::InsertMessage(_)));
    assert_eq!(outcome(&actions), IngestOutcome::Stored);
}

#[test]
fn stored_parent_is_not_fetched() {
    let m = incoming(MessageKind::InlineReply, Some(900), false);
    let actions = run(&m, &[IngestEvent::Found(false), IngestEvent::Succeeded, IngestEvent::Succeeded, IngestEvent::Found(true), IngestEvent::Succeeded]);
    assert!(matches!(actions[4], IngestAction::InsertMessage(_)));
    assert!(!actions.iter().any(|a| matches!(a, IngestAction::FetchParent(..))));
    assert_eq!(outcome(&actions), IngestOutcome::Stored);
}

#[test]
fn failures_before_the_row_is_stored_fail_the_message() {
    let m = incoming(MessageKind::Regular, Some(900), false);
    assert_eq!(outcome(&run(&m, &[IngestEvent::Failed])), IngestOutcome::Failed(IngestError::StepFailed));
    assert_eq!(
        outcome(&run(&m, &[IngestEvent::Found(false), IngestEvent::Failed])),
        IngestOutcome::Failed(IngestError::StepFailed)
    );
    assert_eq!(
        outcome(&run(&m, &[IngestEvent::Found(false), IngestEvent::Succeeded, IngestEvent::Failed])),
        IngestOutcome::Failed(IngestError::StepFailed)
    );
    let fetch_failed = run(
        &m,
        &[IngestEvent::Found(false), IngestEvent::Succeeded, IngestEvent::Succeeded, IngestEvent::Found(false), IngestEvent::Failed],
    );
    assert_eq!(outcome(&fetch_failed), IngestOutcome::Failed(IngestError::StepFailed));
    assert!(!fetch_failed.iter().any(|a| matches!(a, IngestAction::InsertMessage(_))));
}

#[test]
fn reply_key_out_of_range_fails() {
    let m = incoming(MessageKind::InlineReply, Some(u64::MAX), false);
    let actions = run(&m, &[IngestEvent::Found(false), IngestEvent::Succeeded, IngestEvent::Succeeded, IngestEvent::Found(false)]);
    assert_eq!(outcome(&actions), IngestOutcome::Failed(IngestError::ReplyIdOutOfRange));
}

#[test]
fn finished_stays_finished() {
    let m = incoming(MessageKind::Regular, None, false);
    let (stage, action) = ingest_step(&m, IngestStage::Done(IngestOutcome::AlreadyStored), IngestEvent::Succeeded, 1);
    assert_eq!(stage, IngestStage::Done(IngestOutcome::AlreadyStored));
    assert!(matches!(action, IngestAction::Finish(IngestOutcome::AlreadyStored)));
}

#[test]
fn every_run_finishes_within_eleven_actions_and_inserts_once() {
    let answers = [
        IngestEvent::Found(false),
        IngestEvent::Succeeded,
        IngestEvent::NotFound,
        IngestEvent::Found(true),
        IngestEvent::Failed,
    ];
    for reply in [None, Some(900u64)] {
        for (media, reacted) in [(false, false), (true, false), (false, true), (true, true)] {
            let mut m = incoming(MessageKind::InlineReply, reply, media);
            m.has_reactions = reacted;
            for start in 0..answers.len() {
                for pick in 0..answers.len() {
                    let script: Vec<IngestEvent> = (0..20)
                        .map(|k| if k % 2 == 0 { answers[(start + k) % answers.len()] } else { answers[pick] })
                        .collect();
                    let actions = run(&m, &script);
                    assert!(actions.len() <= 11);
                    let inserts = actions.iter().filter(|a| matches!(a, IngestAction::InsertMessage(_))).count();
                    assert!(inserts <= 1);
                }
            }
        }
    }
}

#[test]
fn reactions_are_stored_after_the_row_and_media() {
    let mut m = incoming(MessageKind::Regular, None, true);
    m.has_reactions = true;
    let actions = run(
        &m,
        &[
            IngestEvent::Found(false),
            IngestEvent::Succeeded,
            IngestEvent::Succeeded,
            IngestEvent::Succeeded,
            IngestEvent::Succeeded,
            IngestEvent::Failed,
        ],
    );
    assert!(matches!(actions[3], IngestAction::InsertMessage(_)));
    assert!(matches!(actions[4], IngestAction::StoreMedia));
    assert!(matches!(actions[5], IngestAction::StoreReactions));
    // a failure while storing reactions does not fail the message
    assert_eq!(outcome(&actions), IngestOutcome::Stored);

    let mut plain = incoming(MessageKind::Regular, None, false);
    plain.has_reactions = true;
    let actions = run(&plain, &[IngestEvent::Found(false), IngestEvent::Succeeded, IngestEvent::Succeeded, IngestEvent::Succeeded, IngestEvent::Succeeded]);
    assert!(matches!(actions[4], IngestAction::StoreReactions));
    assert_eq!(outcome(&actions), IngestOutcome::Stored);
}
