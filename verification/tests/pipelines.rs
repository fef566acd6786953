use sentience::extraction::{
    extraction_step, ExtractionAction, ExtractionError, ExtractionEvent, ExtractionOutcome,
    ExtractionStage,
};
use sentience::facts::{ExtractedRecord, RecordKind, RECORDS_SCHEMA_NAME};
use sentience::model::Message;
use sentience::sorting::{sorting_step, SortAction, SortError, SortEvent, SortOutcome, SortStage};
use sentience::topics::GROUPS_SCHEMA_NAME;

fn msg(id: i64, content: &str, sent_at: i64, reply: Option<i64>) -> Message {
    Message {
        message_id: id,
        channel_id: 5,
        sent_by: 9,
        content: content.to_string(),
        sent_at,
        last_edited: None,
        deleted_at: None,
        in_reply_to: reply,
        added_at: 0,
    }
}

fn record() -> ExtractedRecord {
    ExtractedRecord {
        kind: RecordKind::Fact,
        type_str: "location".to_string(),
        value: "Vienna".to_string(),
        reasoning: "lives there".to_string(),
        started_at: None,
        ended_at: None,
        level: None,
        is_current: None,
    }
}

#[test]
fn extraction_gathers_context_without_the_reply_target() {
    let focal = msg(10, "I moved to Vienna", 100, Some(4));
    let (s, a) = extraction_step(&focal, "m", "S", ExtractionStage::Start, ExtractionEvent::Begin);
    assert!(matches!(a, ExtractionAction::FindAuthor(9)));
    let (s, a) = extraction_step(&focal, "m", "S", s, ExtractionEvent::Author(77));
    assert!(matches!(a, ExtractionAction::FindReplyTarget(4)));
    let target = msg(4, "where do you live?", 50, None);
    let (s, a) = extraction_step(&focal, "m", "S", s, ExtractionEvent::ReplyTarget(Some(target)));
    assert!(matches!(a, ExtractionAction::FetchContext(5, 100, 10)));
    let before = vec![msg(4, "where do you live?", 50, None), msg(3, "hi", 40, None)];
    let after = vec![msg(11, "nice", 110, None)];
    let (s, a) = extraction_step(&focal, "m", "S", s, ExtractionEvent::Context(before, after));
    assert!(matches!(a, ExtractionAction::CheckAttachments(10)));
    match &s {
        ExtractionStage::CheckingAttachments(person, Some(t), context) => {
            assert_eq!(*person, 77);
            assert_eq!(t.message_id, 4);
            assert_eq!(context.iter().map(|m| m.message_id).collect::<Vec<_>>(), vec![3, 11]);
        }
        _ => panic!("expected the attachment check"),
    }
    let (s, a) = extraction_step(&focal, "m", "S", s, ExtractionEvent::Attachments(true));
    assert!(matches!(a, ExtractionAction::FindChannelName(5)));
    let (s, a) = extraction_step(&focal, "m", "S", s, ExtractionEvent::ChannelName(Some("moving".to_string())));
    match &a {
        ExtractionAction::Ask(req) => {
            assert_eq!(req.model, "m");
            assert_eq!(req.user, "I moved to Vienna");
            assert_eq!(req.schema_name, RECORDS_SCHEMA_NAME);
            assert!(req.system.contains("[4] sent_by=9 at 1970-01-01T00:00:00Z: where do you live?"));
            assert!(req.system.contains("[3] sent_by=9 at 1970-01-01T00:00:00Z: hi\n[11] sent_by=9"));
            assert!(req.system.contains("# Attachments present"));
            assert!(req.system.contains("sent in the Discord channel named \"moving\""));
        }
        _ => panic!("expected the request"),
    }
    let (s, a) = extraction_step(&focal, "m", "S", s, ExtractionEvent::Records(vec![record()]));
    match &a {
        ExtractionAction::StoreRows(rows) => {
            assert_eq!(rows.len(), 1);
            assert_eq!(rows[0].0.user_id, 77);
            assert_eq!(rows[0].0.value, "Vienna");
            assert_eq!(rows[0].1.message_id, 10);
            assert_eq!(rows[0].1.fact_or_activity_id, rows[0].0.id);
        }
        _ => panic!("expected the rows"),
    }
    let (_, a) = extraction_step(&focal, "m", "S", s, ExtractionEvent::Succeeded);
    assert!(matches!(a, ExtractionAction::Finish(Ok(ExtractionOutcome::Stored))));
}

#[test]
fn extraction_without_reply_or_findings() {
    let focal = msg(10, "hello everyone", 100, None);
    let (s, _) = extraction_step(&focal, "m", "S", ExtractionStage::Start, ExtractionEvent::Begin);
    let (s, a) = extraction_step(&focal, "m", "S", s, ExtractionEvent::Author(1));
    assert!(matches!(a, ExtractionAction::FetchContext(5, 100, 10)));
    let (s, _) = extraction_step(&focal, "m", "S", s, ExtractionEvent::Context(vec![], vec![]));
    let (s, _) = extraction_step(&focal, "m", "S", s, ExtractionEvent::Attachments(false));
    let (s, a) = extraction_step(&focal, "m", "S", s, ExtractionEvent::ChannelName(None));
    assert!(matches!(&a, ExtractionAction::Ask(req) if !req.system.contains("# Surrounding messages") && !req.system.contains("# Discord channel name")));
    let (_, a) = extraction_step(&focal, "m", "S", s, ExtractionEvent::Records(vec![]));
    assert!(matches!(a, ExtractionAction::Finish(Ok(ExtractionOutcome::NothingFound))));
}

#[test]
fn extraction_failures() {
    let focal = msg(10, "x", 100, None);
    let (s, _) = extraction_step(&focal, "m", "S", ExtractionStage::Start, ExtractionEvent::Begin);
    let (_, a) = extraction_step(&focal, "m", "S", s, ExtractionEvent::Failed);
    assert!(matches!(a, ExtractionAction::Finish(Err(ExtractionError::StepFailed))));
    let odd = vec![msg(3, "far future", i64::MAX, None)];
    let (_, a) = extraction_step(
        &focal,
        "m",
        "S",
        ExtractionStage::FindingChannel(1, None, odd, false),
        ExtractionEvent::ChannelName(None),
    );
    assert!(matches!(a, ExtractionAction::Finish(Err(ExtractionError::UnwritableTime))));
    let (_, a) = extraction_step(&focal, "m", "S", ExtractionStage::Storing, ExtractionEvent::Failed);
    assert!(matches!(a, ExtractionAction::Finish(Err(ExtractionError::StepFailed))));
}

#[test]
fn sorting_asks_with_context_in_time_order_and_files_only_batch_ids() {
    let batch = vec![msg(20, "deploy failed", 300, None), msg(21, "rolling back", 200, None)];
    let (s, a) = sorting_step(5, &batch, "m", SortStage::Start, SortEvent::Begin);
    assert!(matches!(a, SortAction::FetchContext(5, 200)));
    let newest_first = vec![(12i64, "b".to_string(), None), (11i64, "a".to_string(), Some("deploy".to_string()))];
    let (s, a) = sorting_step(5, &batch, "m", s, SortEvent::Context(newest_first));
    assert!(matches!(a, SortAction::FetchTopics));
    let (s, a) = sorting_step(5, &batch, "m", s, SortEvent::Topics(vec!["deploy".to_string()]));
    match &a {
        SortAction::Ask(req) => {
            assert_eq!(req.model, "m");
            assert_eq!(req.schema_name, GROUPS_SCHEMA_NAME);
            assert!(req.system.ends_with("Existing topics:\n- deploy\n\nEarlier messages for context:\n[11] (topic: deploy): a\n[12]: b\n\n"));
            assert_eq!(req.user, "New messages to classify:\n[20]: deploy failed\n[21]: rolling back\n");
        }
        _ => panic!("expected the request"),
    }
    let groups = vec![("deploy failure".to_string(), vec![20, 21, 999])];
    let (s, a) = sorting_step(5, &batch, "m", s, SortEvent::Groups(groups));
    match &a {
        SortAction::FileAssignments(assignments) => {
            assert_eq!(assignments.len(), 1);
            assert_eq!(assignments[0].topic, "deploy failure");
            assert_eq!(assignments[0].message_ids, vec![20, 21]);
        }
        _ => panic!("expected the assignments"),
    }
    let (_, a) = sorting_step(5, &batch, "m", s, SortEvent::Succeeded);
    assert!(matches!(a, SortAction::Finish(Ok(SortOutcome::Filed))));
}

#[test]
fn sorting_edge_cases() {
    let (_, a) = sorting_step(5, &vec![], "m", SortStage::Start, SortEvent::Begin);
    assert!(matches!(a, SortAction::Finish(Err(SortError::EmptyBatch))));
    let batch = vec![msg(20, "x", 1, None)];
    let (_, a) = sorting_step(5, &batch, "m", SortStage::Asking, SortEvent::Groups(vec![]));
    assert!(matches!(a, SortAction::Finish(Ok(SortOutcome::NothingGrouped))));
    let (_, a) = sorting_step(5, &batch, "m", SortStage::FetchingContext, SortEvent::Failed);
    assert!(matches!(a, SortAction::Finish(Err(SortError::StepFailed))));
}
