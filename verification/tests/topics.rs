use sentience::model::Message;
use sentience::topics::{
    assign_topics, chat_completions_url, check_status, chronological, classify_request,
    classify_user_message, earliest_sent_at, extract_json, first_choice, group_by_channel,
    keep_multi_message_groups, sorter_request, sorter_system_message, sorter_user_message,
    ClassifyError, CLASSIFIER_INSTRUCTIONS, GROUPS_SCHEMA, GROUPS_SCHEMA_NAME, SORTER_INSTRUCTIONS,
};

fn msg(id: i64, channel: i64, content: &str, sent_at: i64) -> Message {
    Message {
        message_id: id,
        channel_id: channel,
        sent_by: 7,
        content: content.to_string(),
        sent_at,
        last_edited: None,
        deleted_at: None,
        in_reply_to: None,
        added_at: 0,
    }
}

#[test]
fn extract_json_cuts_the_object_out_of_prose_and_fences() {
    assert_eq!(extract_json("  ```json\n{\"groups\": []}\n```  "), "{\"groups\": []}");
    assert_eq!(extract_json("Sure! {\"a\": {\"b\": 1}} hope that helps"), "{\"a\": {\"b\": 1}}");
    assert_eq!(extract_json("  no json here \n"), "no json here");
    assert_eq!(extract_json("} backwards {"), "} backwards {");
    assert_eq!(extract_json("{ unclosed"), "{ unclosed");
    assert_eq!(extract_json(""), "");
}

#[test]
fn extract_json_twice_is_extract_json_once() {
    for s in [" x {\"k\": [1, 2]} y ", "plain", " {}}{ ", "{{}}", "\t{ } }\n"] {
        let once = extract_json(s);
        assert_eq!(extract_json(once), once);
    }
}

#[test]
fn classify_user_message_lists_topics_context_and_new_messages() {
    let topics = vec!["rust".to_string(), "lunch".to_string()];
    let context = vec![
        (1i64, "hi\nthere".to_string(), Some("greetings".to_string())),
        (2i64, "yo".to_string(), None),
    ];
    let new = vec![(3i64, "new\nmsg".to_string())];
    assert_eq!(
        classify_user_message(&context, &new, &topics),
        "Existing topics:\n- rust\n- lunch\n\nEarlier context:\n[1] (topic: greetings): hi there\n[2]: yo\n\nNew messages to classify:\n[3]: new msg\n"
    );
    assert_eq!(
        classify_user_message(&[], &[(-5, "a".to_string())], &[]),
        "New messages to classify:\n[-5]: a\n"
    );
}

#[test]
fn classify_request_carries_model_and_instructions() {
    let r = classify_request("gpt-x", &[], &[(1, "a".to_string())], &[]);
    assert_eq!(r.model, "gpt-x");
    assert_eq!(r.system, CLASSIFIER_INSTRUCTIONS);
    assert_eq!(r.user, "New messages to classify:\n[1]: a\n");
}

#[test]
fn completions_url_ignores_trailing_slashes() {
    assert_eq!(chat_completions_url("https://api.example.com/v1/"), "https://api.example.com/v1/chat/completions");
    assert_eq!(chat_completions_url("https://api.example.com/v1"), "https://api.example.com/v1/chat/completions");
    assert_eq!(chat_completions_url("http://h//"), "http://h/chat/completions");
}

#[test]
fn status_and_choices_errors() {
    assert_eq!(check_status(200), Ok(()));
    assert_eq!(check_status(299), Ok(()));
    assert_eq!(check_status(199), Err(ClassifyError::Status(199)));
    assert_eq!(check_status(300), Err(ClassifyError::Status(300)));
    assert_eq!(check_status(429), Err(ClassifyError::Status(429)));
    assert_eq!(first_choice(vec!["a".to_string(), "b".to_string()]), Ok("a".to_string()));
    assert_eq!(first_choice(vec![]), Err(ClassifyError::NoChoices));
}

#[test]
fn singleton_groups_are_dropped() {
    let groups = vec![
        ("a".to_string(), vec![1, 2]),
        ("b".to_string(), vec![3]),
        ("c".to_string(), vec![]),
        ("d".to_string(), vec![4, 5, 6]),
    ];
    let kept = keep_multi_message_groups(groups);
    assert_eq!(kept, vec![("a".to_string(), vec![1, 2]), ("d".to_string(), vec![4, 5, 6])]);
    assert!(kept.iter().all(|g| g.1.len() >= 2));
}

#[test]
fn batches_split_by_channel_in_order() {
    let batch = vec![msg(1, 10, "a", 5), msg(2, 20, "b", 6), msg(3, 10, "c", 7), msg(4, 30, "d", 1)];
    let groups = group_by_channel(batch);
    assert_eq!(groups.len(), 3);
    let ids = |c: i64| {
        groups
            .iter()
            .find(|g| g.channel_id == c)
            .map(|g| g.messages.iter().map(|m| m.message_id).collect::<Vec<_>>())
            .unwrap()
    };
    assert_eq!(ids(10), vec![1, 3]);
    assert_eq!(ids(20), vec![2]);
    assert_eq!(ids(30), vec![4]);
    assert!(group_by_channel(vec![]).is_empty());
}

#[test]
fn earliest_send_time_of_a_batch() {
    assert_eq!(earliest_sent_at(&vec![msg(1, 1, "", 50), msg(2, 1, "", -3), msg(3, 1, "", 9)]), Some(-3));
    assert_eq!(earliest_sent_at(&vec![]), None);
}

#[test]
fn sorter_prompts() {
    let topics = vec!["deploy failure".to_string()];
    let context = vec![(8i64, "rolling back".to_string(), Some("deploy failure".to_string()))];
    assert_eq!(
        sorter_system_message(&topics, &context),
        format!("{}\nExisting topics:\n- deploy failure\n\nEarlier messages for context:\n[8] (topic: deploy failure): rolling back\n\n", SORTER_INSTRUCTIONS)
    );
    assert_eq!(sorter_system_message(&vec![], &vec![]), format!("{}\n", SORTER_INSTRUCTIONS));
    let msgs = vec![msg(11, 1, "line one\nline two", 0), msg(12, 1, "x", 1)];
    assert_eq!(sorter_user_message(&msgs), "New messages to classify:\n[11]: line one line two\n[12]: x\n");
    let r = sorter_request("m", &topics, &context, &msgs);
    assert_eq!(r.model, "m");
    assert_eq!(r.schema_name, GROUPS_SCHEMA_NAME);
    assert_eq!(r.schema, GROUPS_SCHEMA);
    assert_eq!(r.user, sorter_user_message(&msgs));
}

#[test]
fn earlier_messages_are_turned_to_time_order() {
    let newest_first = vec![(3i64, "c".to_string(), None), (2, "b".to_string(), None), (1, "a".to_string(), None)];
    let r = chronological(newest_first);
    assert_eq!(r.iter().map(|e| e.0).collect::<Vec<_>>(), vec![1, 2, 3]);
}

#[test]
fn invented_ids_are_never_assigned() {
    let msgs = vec![msg(1, 1, "a", 0), msg(2, 1, "b", 0), msg(3, 1, "c", 0)];
    let groups = vec![("x".to_string(), vec![1, 99, 3]), ("y".to_string(), vec![42])];
    let r = assign_topics(groups, &msgs);
    assert_eq!(r.len(), 2);
    assert_eq!(r[0].topic, "x");
    assert_eq!(r[0].message_ids, vec![1, 3]);
    assert_eq!(r[1].topic, "y");
    assert!(r[1].message_ids.is_empty());
}
