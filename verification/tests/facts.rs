use sentience::batch::{settle_batch, BatchSettlement};
use sentience::facts::{
    build_extract_llm_request, build_fact, build_system_prompt, exclude_message, FactSource,
    CHANNEL_NAME_INTRO, CHANNEL_NAME_NOTE,
    extraction_prompt_at, fact_rows, fact_timeline, fact_with_id, merge_context, ExtractedRecord,
    FactTimeline, RecordKind, ATTACHMENTS_NOTE, CONTEXT_HEADER, CONTEXT_HEADER_END,
    CURRENT_TIME_LABEL, EXTRACTION_INSTRUCTIONS, RECORDS_SCHEMA, RECORDS_SCHEMA_NAME, REPLY_HEADER,
    SERVER_NAME_INTRO, SERVER_NAME_NOTE, TODAY_LABEL,
};
use sentience::llm::{first_choice_content, ReplyError};
use sentience::model::Message;

fn msg(id: i64, by: i64, content: &str, sent_at: i64) -> Message {
    Message {
        message_id: id,
        channel_id: 1,
        sent_by: by,
        content: content.to_string(),
        sent_at,
        last_edited: None,
        deleted_at: None,
        in_reply_to: None,
        added_at: 0,
    }
}

fn record(kind: RecordKind) -> ExtractedRecord {
    ExtractedRecord {
        kind,
        type_str: "programming_language".to_string(),
        value: "Rust".to_string(),
        reasoning: "says so".to_string(),
        started_at: None,
        ended_at: Some(500),
        level: Some(14),
        is_current: None,
    }
}

#[test]
fn timelines_by_kind() {
    let sent = 1_000;
    assert_eq!(
        fact_timeline(&record(RecordKind::Activity), sent),
        FactTimeline { started_at: Some(sent), ended_at: Some(500), level: None, is_current: None }
    );
    assert_eq!(
        fact_timeline(&record(RecordKind::Skill), sent),
        FactTimeline { started_at: Some(sent), ended_at: None, level: Some(10), is_current: Some(true) }
    );
    let mut low = record(RecordKind::Skill);
    low.level = Some(-3);
    low.started_at = Some(7);
    low.is_current = Some(false);
    assert_eq!(
        fact_timeline(&low, sent),
        FactTimeline { started_at: Some(7), ended_at: None, level: Some(0), is_current: Some(false) }
    );
    for kind in [RecordKind::Fact, RecordKind::Emotion] {
        assert_eq!(
            fact_timeline(&record(kind), sent),
            FactTimeline { started_at: None, ended_at: None, level: None, is_current: Some(true) }
        );
    }
}

#[test]
fn facts_carry_the_record() {
    let r = record(RecordKind::Skill);
    let f = fact_with_id(5, 6, 77, 1_000, &r);
    assert_eq!((f.id, f.created_at, f.user_id), (5, 6, 77));
    assert_eq!(f.record_type, RecordKind::Skill);
    assert_eq!(f.type_str, "programming_language");
    assert_eq!(f.value, "Rust");
    assert_eq!(f.source, FactSource::LlmExtraction);
    let g = build_fact(77, 1_000, &r);
    assert_eq!((g.id >> 76) & 0xf, 4);
    assert_eq!(g.timeline, f.timeline);
    assert!(g.created_at > 1_600_000_000_000_000);
}

#[test]
fn fact_rows_pair_each_fact_with_its_evidence() {
    let m = msg(42, 9, "I write Rust", 1_000);
    let rows = fact_rows(3, &m, &vec![record(RecordKind::Skill), record(RecordKind::Fact)]);
    assert_eq!(rows.len(), 2);
    for (fact, ev) in &rows {
        assert_eq!(ev.fact_or_activity_id, fact.id);
        assert_eq!(ev.message_id, 42);
        assert_eq!(ev.reasoning, "says so");
        assert_eq!(fact.user_id, 3);
    }
    assert_eq!(rows[0].0.record_type, RecordKind::Skill);
    assert_eq!(rows[1].0.record_type, RecordKind::Fact);
    assert_ne!(rows[0].0.id, rows[1].0.id);
    assert!(fact_rows(3, &m, &vec![]).is_empty());
}

#[test]
fn context_is_merged_in_time_order_without_the_reply_target() {
    let before = vec![msg(3, 1, "c", 3), msg(2, 1, "b", 2), msg(1, 1, "a", 1)];
    let after = vec![msg(5, 1, "e", 5), msg(6, 1, "f", 6)];
    let all = merge_context(before, after);
    assert_eq!(all.iter().map(|m| m.message_id).collect::<Vec<_>>(), vec![1, 2, 3, 5, 6]);
    let rest = exclude_message(all, 3);
    assert_eq!(rest.iter().map(|m| m.message_id).collect::<Vec<_>>(), vec![1, 2, 5, 6]);
    assert_eq!(exclude_message(vec![], 3).len(), 0);
}

#[test]
fn extraction_prompt_without_extras() {
    let focal = msg(10, 9, "hello", 0);
    let p = extraction_prompt_at(0, &vec![], None, &focal, false, "Vestibule", None);
    let expected = format!(
        "{}{}1970-01-01T00:00:00Z{}Thursday, January 1, 1970{}Vestibule{}",
        EXTRACTION_INSTRUCTIONS, CURRENT_TIME_LABEL, TODAY_LABEL, SERVER_NAME_INTRO, SERVER_NAME_NOTE
    );
    assert_eq!(p, expected);
    assert!(p.contains("\nCurrent time: 1970-01-01T00:00:00Z\nToday: Thursday, January 1, 1970\n\n# Discord server name\nThe Discord server you are operating on is named \"Vestibule\". This string may appear"));
    assert!(p.ends_with("never as a fact, skill, or activity about the author.\n"));
}

#[test]
fn extraction_prompt_with_attachments_reply_and_context() {
    let focal = msg(10, 9, "hello", 0);
    let reply = msg(4, 8, "what do\nyou do?", 1_700_000_000_000_000);
    let context = vec![msg(2, 8, "one", 0), msg(3, 9, "two\nlines", 1_000_000)];
    let p = extraction_prompt_at(0, &context, Some(&reply), &focal, true, "S", Some("general"));
    let expected = format!(
        "{}{}1970-01-01T00:00:00Z{}Thursday, January 1, 1970{}S{}{}general{}{}{}[4] sent_by=8 at 2023-11-14T22:13:20Z: what do you do?\n{}9{}[2] sent_by=8 at 1970-01-01T00:00:00Z: one\n[3] sent_by=9 at 1970-01-01T00:00:01Z: two lines\n",
        EXTRACTION_INSTRUCTIONS,
        CURRENT_TIME_LABEL,
        TODAY_LABEL,
        SERVER_NAME_INTRO,
        SERVER_NAME_NOTE,
        CHANNEL_NAME_INTRO,
        CHANNEL_NAME_NOTE,
        ATTACHMENTS_NOTE,
        REPLY_HEADER,
        CONTEXT_HEADER,
        CONTEXT_HEADER_END
    );
    assert_eq!(p, expected);
}

#[test]
fn system_prompt_and_request_at_the_current_time() {
    let focal = msg(10, 9, "I moved to Vienna", 0);
    let p = build_system_prompt(&vec![], None, &focal, false, "Vestibule", None);
    assert!(p.starts_with(EXTRACTION_INSTRUCTIONS));
    assert!(p.ends_with(SERVER_NAME_NOTE));
    assert!(!p.contains("# Attachments present"));
    let r = build_extract_llm_request("model-1", &focal, &vec![], None, true, "Vestibule", Some("intros"));
    assert!(r.system.contains("# Discord channel name\nThe focal message was sent in the Discord channel named \"intros\"."));
    assert_eq!(r.model, "model-1");
    assert_eq!(r.user, "I moved to Vienna");
    assert_eq!(r.schema_name, RECORDS_SCHEMA_NAME);
    assert_eq!(r.schema, RECORDS_SCHEMA);
    assert!(r.system.contains(ATTACHMENTS_NOTE));
}

#[test]
fn only_successful_messages_are_recorded_as_attempted() {
    match settle_batch(&vec![1, 2, 3, 4], &vec![true, false, true, false]) {
        BatchSettlement::Record(v) => assert_eq!(v, vec![1, 3]),
        BatchSettlement::Idle => panic!("expected a record"),
    }
    assert!(matches!(settle_batch(&vec![1, 2], &vec![false, false]), BatchSettlement::Idle));
    assert!(matches!(settle_batch(&vec![], &vec![]), BatchSettlement::Idle));
}

#[test]
fn first_choice_content_of_a_reply() {
    assert_eq!(first_choice_content(vec![Some("x".to_string()), None]), Ok("x".to_string()));
    assert_eq!(first_choice_content(vec![None, Some("y".to_string())]), Err(ReplyError::NoContent));
    assert_eq!(first_choice_content(vec![]), Err(ReplyError::NoContent));
}
