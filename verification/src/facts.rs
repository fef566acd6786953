//! Extraction of durable facts, activities and skills about message authors: the prompt sent
//! to the LLM, and the records built from its answer.

use vstd::prelude::*;
use crate::ids::{is_v4_uuid, new_uuid};
use crate::llm::ChatRequest;
use crate::model::Message;
use crate::text::{i64_text, int_text, one_line, one_line_text};
use crate::time::{
    long_date, long_date_text, now_micros, representable, rfc3339_seconds, rfc3339_seconds_text,
};

verus! {

/// Instructions that open every extraction prompt; the reference time follows them.
pub const EXTRACTION_INSTRUCTIONS: &'static str = r#"
Return JSON matching the schema below. No prose, no markdown code fences, JSON only.

You extract durable facts, activities, and skills about the AUTHOR of a single chat message, for long-term memory storage.

# Abstention rule (read first)
When in doubt, do NOT emit a record. False positives are worse than false negatives — they corrupt long-term memory. Prefer an empty `records` array over guessing. If a claim is plausible but not clearly supported, drop it.

# Scope
- Extract ONLY information about the message author (first person). Never extract facts about friends, family, coworkers, or third parties mentioned in the message.
- Skip greetings, banter, jokes, opinions about external topics, hypotheticals, questions, and unrelated chatter.
- Preferences ARE extractable as facts ("I prefer Vim", "I'm vegetarian"). Opinions about external things are NOT ("React is overrated").
- Return an empty `records` array if nothing durable is present.

# Record kinds

## fact — stable knowledge about the user
Use for: location, timezone, occupation, employer, real name, languages spoken, dietary preferences, tool/format preferences, demographic info, ongoing health conditions. You should also create your own categories here if the fact does not fit into any of these.
- `started_at`, `ended_at`, `level`, `is_current`: If you can infer these from the message, populate them with the appropriate value, otherwise always null.
- Example `type` values (use snake_case; generate a new `type`value when none of the listed values fit):
  `location`, `timezone`, `occupation`, `employer`, `real_name`, `language_spoken`, `dietary_preference`, `tool_preference`, `format_preference`, `relationship_status`, `health_condition`.

## activity — something the user did, with a timeline
Use for: job changes, trips, events attended, projects completed, life milestones, races run, courses taken.
- `started_at`: when the activity began (or occurred, if a point event). Null if unknown.
- `ended_at`: when it concluded. Null if ongoing or unknown.
- `is_current`: true if still ongoing as of the reference time, false if concluded, null if unknown.
- `level`: always null.
- Canonical `type` values: `job_change`, `travel`, `event_attended`, `project_completed`, `course_taken`, `race_completed`, `relocation`, `life_milestone`.

## skill — a competency the user has
Use for: programming languages, instruments, crafts, sports, spoken languages, professional skills.
- `level`: 0–10 proficiency, REQUIRED (see rubric below).
- `is_current`: true if actively practiced or still known, false if rusty/abandoned, null if unclear.
- `started_at`: when they began learning, if stated. Null otherwise.
- `ended_at`: only if they explicitly stopped practicing.
- Canonical `type` values: `programming_language`, `natural_language`, `instrument`, `craft`, `sport`, `professional_skill`, `software_tool`.

# Date format
All dates use RFC 3339 UTC: `YYYY-MM-DDTHH:MM:SSZ`.
- "March 2024" → `2024-03-01T00:00:00Z`
- "last year" → `<previous year>-01-01T00:00:00Z`
- "yesterday" / "this morning" → resolve against reference time, use `00:00:00Z` if no specific hour.
- "a few years ago", "when I was younger", or anything vaguer than a year → null.
- Never invent precision the message doesn't support.

# Confidence rubric (0.0–1.0)
- 0.95–1.0: Explicit, unambiguous statement ("I live in Berlin", "I'm a nurse").
- 0.75–0.94: Strong implication, single reasonable reading ("Heading home to Berlin after this trip").
- 0.65–0.74: Plausible inference with minor ambiguity.
- Below 0.65: Do not emit. The author may not even mean it.

# Skill level rubric (0–10)
- 1–2: Dabbled, beginner, just started.
- 3–4: Functional, can complete basic tasks.
- 5–6: Competent, works professionally or seriously hobbyist.
- 7–8: Advanced, deep experience, mentors others.
- 9–10: Expert, recognized authority. Reserve for explicit signals (decades of work, professional acclaim).
- Self-claimed levels can be taken at face value but cap INFERRED levels at 6 unless evidence is strong. When unsure, prefer the lower bound.

# Updates and negations
- "I quit my job at Acme" → emit an `activity` of type `job_change` with `ended_at` set and `is_current: true` (because the event of the user leaving their job just happened and has not been overwritten by something else e.g. taking a new job). Do not emit a fact contradicting a previous one; the consumer handles reconciliation.
- "I no longer play guitar" → emit a `skill` with `is_current: false`. Set `level` based on past proficiency if stated, otherwise estimate conservatively.

# The `reasoning` field
Provide a brief (one sentence) paraphrase of the exact span in the message that supports the record. This is for auditing, not chain-of-thought.

# Examples

## Example 1
Reference time: 2026-05-08T12:00:00Z
Message: "Just finished my third marathon in Vienna last Sunday! Living here for 3 years now and still loving it."

Output:
{
  "records": [
    {
      "kind": "activity",
      "type": "race_completed",
      "value": "Vienna marathon (third marathon)",
      "confidence": 0.97,
      "reasoning": "Author states they finished their third marathon in Vienna last Sunday.",
      "started_at": "2026-05-03T00:00:00Z",
      "ended_at": "2026-05-03T00:00:00Z",
      "level": null,
      "is_current": false
    },
    {
      "kind": "fact",
      "type": "location",
      "value": "Vienna",
      "confidence": 0.95,
      "reasoning": "Author says they have been living in Vienna for 3 years.",
      "started_at": null,
      "ended_at": null,
      "level": null,
      "is_current": null
    }
  ]
}

## Example 2
Reference time: 2026-05-08T12:00:00Z
Message: "lol my buddy just got promoted to staff engineer at Google, so jealous"

Output:
{ "records": [] }

(Information is about someone else, not the author. Author's jealousy is an emotion, not durable.)

## Example 3
Reference time: 2026-05-08T12:00:00Z
Message: "Been writing Rust professionally since 2021, mostly backend stuff. Picked up a bit of Zig last month for fun but I'm still really bad at it."

Output:
{
  "records": [
    {
      "kind": "skill",
      "type": "programming_language",
      "value": "Rust",
      "confidence": 0.97,
      "reasoning": "Author has written Rust professionally since 2021.",
      "started_at": "2021-01-01T00:00:00Z",
      "ended_at": null,
      "level": 7,
      "is_current": true
    },
    {
      "kind": "skill",
      "type": "programming_language",
      "value": "Zig",
      "confidence": 0.9,
      "reasoning": "Author picked up Zig last month and self-describes as bad at it.",
      "started_at": "2026-04-01T00:00:00Z",
      "ended_at": null,
      "level": 2,
      "is_current": true
    }
  ]
}

# The current reference time is:"#;

/// Opens the line that names the current time.
pub const CURRENT_TIME_LABEL: &'static str = "\nCurrent time: ";

/// Opens the line that names the current day.
pub const TODAY_LABEL: &'static str = "\nToday: ";

/// Opens the section that names the Discord server.
pub const SERVER_NAME_INTRO: &'static str =
    "\n\n# Discord server name\nThe Discord server you are operating on is named \"";

/// Closes the section that names the Discord server.
pub const SERVER_NAME_NOTE: &'static str = "\". This string may appear in messages or other contexts and should ONLY be interpreted as the name of the Discord server \u{2014} never as a fact, skill, or activity about the author.\n";

/// Opens the section that names the Discord channel of the focal message.
pub const CHANNEL_NAME_INTRO: &'static str =
    "\n# Discord channel name\nThe focal message was sent in the Discord channel named \"";

/// Closes the section that names the Discord channel of the focal message.
pub const CHANNEL_NAME_NOTE: &'static str = "\". Use it only to understand what the conversation is about \u{2014} never as a fact, skill, or activity about the author.\n";

/// Added when the focal message has attachments the model cannot see.
pub const ATTACHMENTS_NOTE: &'static str = r#"# Attachments present
             The focal message has one or more attachments (image, video, file, etc.) that you cannot see.
             The author may be captioning, describing, or reacting to the attachment rather than making a first-person claim about themselves or anyone else.
             When something the author says could plausibly be a description of the attachment instead of a durable fact about them, abstain — do NOT emit a record."#;

/// Opens the section that shows the message the focal message replies to.
pub const REPLY_HEADER: &'static str = "\n# Replying to\nThe focal message is a reply to the message below. The author may be addressing or referencing it directly \u{2014} facts in the focal message may only make sense in light of it. Do NOT extract facts from the replied-to message itself.\n";

/// Opens the section of surrounding messages; the focal author's id follows it.
pub const CONTEXT_HEADER: &'static str = "\n# Surrounding messages (context only \u{2014} do NOT extract from these)\nNearby messages from the same channel. Use them only to disambiguate references in the focal message. Extract facts ONLY about the focal author (sent_by=";

/// Closes the heading of the section of surrounding messages.
pub const CONTEXT_HEADER_END: &'static str = ").\n\n";


/// One message as the prompt shows it: `[id] sent_by=author at time: content` on one line.
pub open spec fn message_line(m: Message) -> Seq<char> {
    "["@ + int_text(m.message_id as int) + "] sent_by="@ + int_text(m.sent_by as int) + " at "@
        + rfc3339_seconds_text(m.sent_at) + ": "@ + one_line(m.content@) + "\n"@
}

/// The lines of several messages, in order.
pub open spec fn message_lines(ms: Seq<Message>) -> Seq<char>
    decreases ms.len(),
{
    if ms.len() == 0 {
        seq![]
    } else {
        message_lines(ms.drop_last()) + message_line(ms.last())
    }
}

/// The message an optional reference points to.
pub open spec fn owned_message(m: Option<&Message>) -> Option<Message> {
    match m {
        Some(x) => Some(*x),
        None => None,
    }
}

/// Every message of `ms` carries a time that can be written.
pub open spec fn all_representable(ms: Seq<Message>) -> bool {
    forall|i: int| 0 <= i < ms.len() ==> representable(#[trigger] ms[i].sent_at as int)
}

/// The section that names the focal message's channel; empty when its name is not known.
pub open spec fn channel_section(channel_name: Option<Seq<char>>) -> Seq<char> {
    match channel_name {
        Some(c) => CHANNEL_NAME_INTRO@ + c + CHANNEL_NAME_NOTE@,
        None => seq![],
    }
}

/// The text of an optional string slice.
pub open spec fn opt_text(o: Option<&str>) -> Option<Seq<char>> {
    match o {
        Some(t) => Some(t@),
        None => None,
    }
}

/// The system prompt of a fact extraction at the instant `now`.
pub open spec fn extraction_prompt(
    now: i64,
    context: Seq<Message>,
    reply_target: Option<Message>,
    focal_sent_by: i64,
    has_attachments: bool,
    server_name: Seq<char>,
    channel_name: Option<Seq<char>>,
) -> Seq<char> {
    EXTRACTION_INSTRUCTIONS@ + CURRENT_TIME_LABEL@ + rfc3339_seconds_text(now) + TODAY_LABEL@
        + long_date_text(now) + SERVER_NAME_INTRO@ + server_name + SERVER_NAME_NOTE@
        + channel_section(channel_name) + (
    if has_attachments {
        ATTACHMENTS_NOTE@
    } else {
        seq![]
    }) + (match reply_target {
        Some(rt) => REPLY_HEADER@ + message_line(rt),
        None => seq![],
    }) + (if context.len() > 0 {
        CONTEXT_HEADER@ + int_text(focal_sent_by as int) + CONTEXT_HEADER_END@ + message_lines(
            context,
        )
    } else {
        seq![]
    })
}

/// Writes one message as a prompt line.
pub fn message_line_text(m: &Message) -> (r: String)
    requires
        representable(m.sent_at as int),
    ensures
        r@ == message_line(*m),
{
    let mut r = String::new();
    r.append("[");
    let id = i64_text(m.message_id);
    r.append(id.as_str());
    r.append("] sent_by=");
    let by = i64_text(m.sent_by);
    r.append(by.as_str());
    r.append(" at ");
    let at = rfc3339_seconds(m.sent_at);
    r.append(at.as_str());
    r.append(": ");
    let c = one_line_text(m.content.as_str());
    r.append(c.as_str());
    r.append("\n");
    assert(r@ =~= message_line(*m));
    r
}

/// Appends the lines of `ms` to `out`.
fn append_message_lines(out: &mut String, ms: &Vec<Message>)
    requires
        all_representable(ms@),
    ensures
        final(out)@ == old(out)@ + message_lines(ms@),
{
    let ghost start = out@;
    let mut i: usize = 0;
    while i < ms.len()
        invariant
            all_representable(ms@),
            i <= ms@.len(),
            out@ == start + message_lines(ms@.subrange(0, i as int)),
        decreases ms.len() - i,
    {
        assert(representable(ms@[i as int].sent_at as int));
        let line = message_line_text(&ms[i]);
        out.append(line.as_str());
        proof {
            assert(ms@.subrange(0, i + 1).drop_last() =~= ms@.subrange(0, i as int));
            assert(ms@.subrange(0, i + 1).last() == ms@[i as int]);
        }
        i += 1;
    }
    assert(ms@.subrange(0, ms@.len() as int) =~= ms@);
}

/// The system prompt of a fact extraction at the instant `now`: instructions, current time
/// and day, the server name, the channel name when known, a note on unseen attachments, the replied-to message and the
/// surrounding messages.
pub fn extraction_prompt_at(
    now: i64,
    context: &Vec<Message>,
    reply_target: Option<&Message>,
    focal_msg: &Message,
    has_attachments: bool,
    server_name: &str,
    channel_name: Option<&str>,
) -> (r: String)
    requires
        representable(now as int),
        all_representable(context@),
        reply_target matches Some(rt) ==> representable(rt.sent_at as int),
    ensures
        r@ == extraction_prompt(
            now,
            context@,
            owned_message(reply_target),
            focal_msg.sent_by,
            has_attachments,
            server_name@,
            opt_text(channel_name),
        ),
{
    let mut p = String::from_str(EXTRACTION_INSTRUCTIONS);
    p.append(CURRENT_TIME_LABEL);
    let t = rfc3339_seconds(now);
    p.append(t.as_str());
    p.append(TODAY_LABEL);
    let d = long_date(now);
    p.append(d.as_str());
    p.append(SERVER_NAME_INTRO);
    p.append(server_name);
    p.append(SERVER_NAME_NOTE);
    let ghost head = p@;
    match channel_name {
        Some(c) => {
            p.append(CHANNEL_NAME_INTRO);
            p.append(c);
            p.append(CHANNEL_NAME_NOTE);
        },
        None => {},
    }
    let ghost base = p@;
    assert(base =~= head + channel_section(opt_text(channel_name)));
    if has_attachments {
        p.append(ATTACHMENTS_NOTE);
    }
    let ghost with_attachments = p@;
    assert(with_attachments =~= base + (if has_attachments {
        ATTACHMENTS_NOTE@
    } else {
        seq![]
    }));
    match reply_target {
        Some(rt) => {
            p.append(REPLY_HEADER);
            let line = message_line_text(rt);
            p.append(line.as_str());
        },
        None => {},
    }
    let ghost with_reply = p@;
    assert(with_reply =~= with_attachments + (match owned_message(reply_target) {
        Some(rt) => REPLY_HEADER@ + message_line(rt),
        None => seq![],
    }));
    if context.len() > 0 {
        p.append(CONTEXT_HEADER);
        let by = i64_text(focal_msg.sent_by);
        p.append(by.as_str());
        p.append(CONTEXT_HEADER_END);
        append_message_lines(&mut p, context);
    }
    assert(p@ =~= with_reply + (if context@.len() > 0 {
        CONTEXT_HEADER@ + int_text(focal_msg.sent_by as int) + CONTEXT_HEADER_END@ + message_lines(
            context@,
        )
    } else {
        seq![]
    }));
    assert(p@ =~= extraction_prompt(
        now,
        context@,
        owned_message(reply_target),
        focal_msg.sent_by,
        has_attachments,
        server_name@,
        opt_text(channel_name),
    ));
    p
}

/// The system prompt of a fact extraction at the current time.
pub fn build_system_prompt(
    context: &Vec<Message>,
    reply_target: Option<&Message>,
    focal_msg: &Message,
    has_attachments: bool,
    server_name: &str,
    channel_name: Option<&str>,
) -> (r: String)
    requires
        all_representable(context@),
        reply_target matches Some(rt) ==> representable(rt.sent_at as int),
    ensures
        exists|now: i64|
            representable(now as int) && r@ == #[trigger] extraction_prompt(
                now,
                context@,
                owned_message(reply_target),
                focal_msg.sent_by,
                has_attachments,
                server_name@,
                opt_text(channel_name),
            ),
{
    let now = now_micros();
    extraction_prompt_at(now, context, reply_target, focal_msg, has_attachments, server_name, channel_name)
}


/// What kind of knowledge a record carries (`ActivityRecordType`).
#[derive(PartialEq, Eq, Structural, Clone, Copy, Debug)]
pub enum RecordKind {
    Fact,
    Activity,
    Skill,
    Emotion,
}

/// One record as the model returned it; its confidence stays with the caller, which stores
/// it as the record's confidence and as the weight of its evidence.
pub struct ExtractedRecord {
    pub kind: RecordKind,
    pub type_str: String,
    pub value: String,
    pub reasoning: String,
    pub started_at: Option<i64>,
    pub ended_at: Option<i64>,
    pub level: Option<i16>,
    pub is_current: Option<bool>,
}

/// The time line and level under which a record is stored.
#[derive(PartialEq, Eq, Structural, Clone, Copy, Debug)]
pub struct FactTimeline {
    pub started_at: Option<i64>,
    pub ended_at: Option<i64>,
    pub level: Option<i16>,
    pub is_current: Option<bool>,
}

/// `l` limited to `lo..=hi`.
pub open spec fn clamped(l: i16, lo: i16, hi: i16) -> i16 {
    if l < lo {
        lo
    } else if l > hi {
        hi
    } else {
        l
    }
}

/// How a record of kind `kind` is stored: activities start when they say or else when the
/// message was sent and carry no level; skills start likewise, never end, carry their level
/// limited to 0..=10 and count as current unless the model said otherwise; facts and
/// emotions carry no time line or level and count as current unless said otherwise.
pub open spec fn timeline_of(
    kind: RecordKind,
    started_at: Option<i64>,
    ended_at: Option<i64>,
    level: Option<i16>,
    is_current: Option<bool>,
    message_sent_at: i64,
) -> FactTimeline {
    match kind {
        RecordKind::Activity => FactTimeline {
            started_at: Some(started_at.unwrap_or(message_sent_at)),
            ended_at: ended_at,
            level: None,
            is_current: None,
        },
        RecordKind::Skill => FactTimeline {
            started_at: Some(started_at.unwrap_or(message_sent_at)),
            ended_at: None,
            level: match level {
                Some(l) => Some(clamped(l, 0, 10)),
                None => None,
            },
            is_current: Some(is_current.unwrap_or(true)),
        },
        _ => FactTimeline {
            started_at: None,
            ended_at: None,
            level: None,
            is_current: Some(is_current.unwrap_or(true)),
        },
    }
}

/// The stored time line of a record found in a message sent at `message_sent_at`.
pub fn fact_timeline(record: &ExtractedRecord, message_sent_at: i64) -> (r: FactTimeline)
    ensures
        r == timeline_of(
            record.kind,
            record.started_at,
            record.ended_at,
            record.level,
            record.is_current,
            message_sent_at,
        ),
{
    let current = match record.is_current {
        Some(c) => c,
        None => true,
    };
    let started = match record.started_at {
        Some(t) => t,
        None => message_sent_at,
    };
    match record.kind {
        RecordKind::Activity => FactTimeline {
            started_at: Some(started),
            ended_at: record.ended_at,
            level: None,
            is_current: None,
        },
        RecordKind::Skill => FactTimeline {
            started_at: Some(started),
            ended_at: None,
            level: match record.level {
                Some(l) => Some(
                    if l < 0 {
                        0
                    } else if l > 10 {
                        10
                    } else {
                        l
                    },
                ),
                None => None,
            },
            is_current: Some(current),
        },
        _ => FactTimeline { started_at: None, ended_at: None, level: None, is_current: Some(current) },
    }
}

/// Where a stored fact, activity or skill comes from (`ActivitySource`).
#[derive(PartialEq, Eq, Structural, Clone, Copy, Debug)]
pub enum FactSource {
    /// Extracted from a chat message by the language model.
    LlmExtraction,
}

/// A stored fact, activity or skill of a user (`user_facts_and_activities`), as extracted by
/// the LLM; its confidence is added by the caller.
pub struct UserFact {
    pub id: u128,
    pub user_id: u128,
    pub record_type: RecordKind,
    /// Where the record comes from.
    pub source: FactSource,
    pub type_str: String,
    pub value: String,
    pub timeline: FactTimeline,
    pub created_at: i64,
}

/// The message that supports a stored record (`fact_and_activity_evidence`); its weight is
/// the record's confidence, added by the caller.
pub struct FactEvidence {
    pub id: u128,
    pub fact_or_activity_id: u128,
    pub message_id: i64,
    pub reasoning: String,
}

/// The stored form of `record`, found in a message of `user_id` sent at `message_sent_at`,
/// recorded as extracted by the language model.
pub open spec fn fact_matches(
    f: UserFact,
    user_id: u128,
    message_sent_at: i64,
    record: ExtractedRecord,
) -> bool {
    &&& f.user_id == user_id
    &&& f.record_type == record.kind
    &&& f.source == FactSource::LlmExtraction
    &&& f.type_str@ == record.type_str@
    &&& f.value@ == record.value@
    &&& f.timeline == timeline_of(
        record.kind,
        record.started_at,
        record.ended_at,
        record.level,
        record.is_current,
        message_sent_at,
    )
}

/// Builds the stored form of `record` with the given id and creation time.
pub fn fact_with_id(
    id: u128,
    created_at: i64,
    user_id: u128,
    message_sent_at: i64,
    record: &ExtractedRecord,
) -> (f: UserFact)
    ensures
        f.id == id,
        f.created_at == created_at,
        fact_matches(f, user_id, message_sent_at, *record),
{
    UserFact {
        id,
        user_id,
        record_type: record.kind,
        source: FactSource::LlmExtraction,
        type_str: record.type_str.clone(),
        value: record.value.clone(),
        timeline: fact_timeline(record, message_sent_at),
        created_at,
    }
}

/// Builds the stored form of `record` under a fresh id, created now.
pub fn build_fact(user_id: u128, message_sent_at: i64, record: &ExtractedRecord) -> (f: UserFact)
    ensures
        is_v4_uuid(f.id),
        representable(f.created_at as int),
        fact_matches(f, user_id, message_sent_at, *record),
{
    let id = new_uuid();
    let now = now_micros();
    fact_with_id(id, now, user_id, message_sent_at, record)
}

/// `rows` store `records`, found in `msg` of user `user_id`: one fact and one piece of
/// evidence per record, in order, each under a fresh v4 id, each evidence pointing at its
/// fact and at `msg` and carrying the record's reasoning.
pub open spec fn are_fact_rows(
    rows: Seq<(UserFact, FactEvidence)>,
    user_id: u128,
    msg: Message,
    records: Seq<ExtractedRecord>,
) -> bool {
    &&& rows.len() == records.len()
    &&& forall|i: int|
        0 <= i < rows.len() ==> {
            &&& fact_matches(#[trigger] rows[i].0, user_id, msg.sent_at, records[i])
            &&& is_v4_uuid(rows[i].0.id)
            &&& is_v4_uuid(rows[i].1.id)
            &&& rows[i].1.fact_or_activity_id == rows[i].0.id
            &&& rows[i].1.message_id == msg.message_id
            &&& rows[i].1.reasoning@ == records[i].reasoning@
        }
}

/// The rows that store the records the model found in `msg`: one fact and one piece of
/// evidence per record, in order, each under a fresh v4 id, each evidence pointing at its
/// fact and at `msg`.
pub fn fact_rows(user_id: u128, msg: &Message, records: &Vec<ExtractedRecord>) -> (r: Vec<
    (UserFact, FactEvidence),
>)
    ensures
        are_fact_rows(r@, user_id, *msg, records@),
{
    let mut rows: Vec<(UserFact, FactEvidence)> = Vec::new();
    let mut i: usize = 0;
    while i < records.len()
        invariant
            i <= records@.len(),
            rows@.len() == i,
            forall|k: int|
                0 <= k < i ==> {
                    &&& fact_matches(#[trigger] rows@[k].0, user_id, msg.sent_at, records@[k])
                    &&& is_v4_uuid(rows@[k].0.id)
                    &&& is_v4_uuid(rows@[k].1.id)
                    &&& rows@[k].1.fact_or_activity_id == rows@[k].0.id
                    &&& rows@[k].1.message_id == msg.message_id
                    &&& rows@[k].1.reasoning@ == records@[k].reasoning@
                },
        decreases records.len() - i,
    {
        let fact = build_fact(user_id, msg.sent_at, &records[i]);
        let evidence = FactEvidence {
            id: new_uuid(),
            fact_or_activity_id: fact.id,
            message_id: msg.message_id,
            reasoning: records[i].reasoning.clone(),
        };
        rows.push((fact, evidence));
        i += 1;
    }
    rows
}

/// The messages around a focal one in time order: the earlier ones arrive newest first and
/// are turned around, the later ones arrive oldest first and follow them.
pub fn merge_context(before_newest_first: Vec<Message>, after_oldest_first: Vec<Message>) -> (r:
    Vec<Message>)
    ensures
        r@ == before_newest_first@.reverse() + after_oldest_first@,
{
    let mut before = before_newest_first;
    let mut after = after_oldest_first;
    let ghost orig = before@;
    let mut all: Vec<Message> = Vec::new();
    while before.len() > 0
        invariant
            orig.len() == before@.len() + all@.len(),
            before@ == orig.subrange(0, before@.len() as int),
            all@ == orig.subrange(before@.len() as int, orig.len() as int).reverse(),
        decreases before.len(),
    {
        let ghost n = before@.len();
        let m = before.pop().unwrap();
        all.push(m);
        proof {
            assert(orig.subrange(n - 1, orig.len() as int).reverse() =~= orig.subrange(
                n as int,
                orig.len() as int,
            ).reverse().push(orig[n - 1]));
            assert(before@ =~= orig.subrange(0, before@.len() as int));
        }
    }
    assert(orig.subrange(0, orig.len() as int) =~= orig);
    let ghost all_before = all@;
    all.append(&mut after);
    all
}

/// Keeps the messages whose id is not `id`.
pub open spec fn other_than(id: i64) -> spec_fn(Message) -> bool {
    |m: Message| m.message_id != id
}

/// The context without the message with id `id` (the replied-to message, which the prompt
/// shows on its own).
pub fn exclude_message(context: Vec<Message>, id: i64) -> (r: Vec<Message>)
    ensures
        r@ == context@.filter(other_than(id)),
{
    let ghost orig = context@;
    let ghost keep = other_than(id);
    let total = context.len();
    let mut rest = context;
    let mut kept: Vec<Message> = Vec::new();
    let mut k: usize = 0;
    while rest.len() > 0
        invariant
            k <= orig.len(),
            orig.len() == total,
            keep == other_than(id),
            k + rest@.len() == orig.len(),
            rest@ == orig.subrange(k as int, orig.len() as int),
            kept@ == orig.subrange(0, k as int).filter(keep),
        decreases rest.len(),
    {
        let ghost old_rest = rest@;
        let m = rest.remove(0);
        let ghost gm = m;
        proof {
            assert(old_rest[0] == orig[k as int]);
        }
        if m.message_id != id {
            kept.push(m);
        }
        proof {
            let s0 = orig.subrange(0, k as int);
            assert(orig.subrange(0, k + 1) =~= s0.push(orig[k as int]));
            s0.lemma_filter_push(orig[k as int], keep);
            assert(gm == orig[k as int]);
            assert(rest@ =~= orig.subrange(k + 1, orig.len() as int));
        }
        k += 1;
    }
    assert(orig.subrange(0, orig.len() as int) =~= orig);
    kept
}


/// The replied-to message is never among the surrounding messages shown: after it is
/// excluded, no message of the context has its id, and every other message stays, in order.
pub proof fn law_reply_target_excluded(context: Seq<Message>, id: i64)
    ensures
        forall|i: int|
            0 <= i < context.filter(other_than(id)).len() ==> (#[trigger] context.filter(
                other_than(id),
            )[i]).message_id != id,
        forall|i: int|
            0 <= i < context.len() && (#[trigger] context[i]).message_id != id ==> context.filter(
                other_than(id),
            ).contains(context[i]),
{
    assert forall|i: int| 0 <= i < context.filter(other_than(id)).len() implies (#[trigger] context.filter(
        other_than(id),
    )[i]).message_id != id by {
        context.lemma_filter_pred(other_than(id), i);
    }
    assert forall|i: int| 0 <= i < context.len() && (#[trigger] context[i]).message_id != id implies context.filter(
        other_than(id),
    ).contains(context[i]) by {
        context.lemma_filter_contains(other_than(id), i);
    }
}

/// Every stored record has a well-formed time line: an activity or a skill always has a
/// start (the message's time when the model gave none), a skill's level lies in 0..=10
/// and a skill never ends, and only activities leave the current flag empty.
pub proof fn law_timeline_well_formed(
    kind: RecordKind,
    started_at: Option<i64>,
    ended_at: Option<i64>,
    level: Option<i16>,
    is_current: Option<bool>,
    message_sent_at: i64,
)
    ensures
        ({
            let t = timeline_of(kind, started_at, ended_at, level, is_current, message_sent_at);
            &&& (kind == RecordKind::Activity || kind == RecordKind::Skill) ==> t.started_at
                == Some(started_at.unwrap_or(message_sent_at))
            &&& (t.level matches Some(l) ==> 0 <= l <= 10)
            &&& kind == RecordKind::Skill ==> t.ended_at is None
            &&& (t.is_current is None <==> kind == RecordKind::Activity)
        }),
{
}

/// Name of the answer schema of a fact extraction.
pub const RECORDS_SCHEMA_NAME: &'static str = "extracted_records";

/// JSON schema of the answer of a fact extraction: an object whose `records` each carry a
/// kind, a type, a value, a confidence in 0..=1, a reasoning, optional start and end times,
/// an optional level in 0..=10 and an optional current flag.
pub const RECORDS_SCHEMA: &'static str = r#"{"type":"object","properties":{"records":{"type":"array","items":{"type":"object","properties":{"kind":{"type":"string","enum":["fact","activity","skill"]},"type":{"type":"string"},"value":{"type":"string"},"confidence":{"type":"number","minimum":0,"maximum":1},"reasoning":{"type":"string"},"started_at":{"type":["string","null"],"format":"date-time"},"ended_at":{"type":["string","null"],"format":"date-time"},"level":{"type":["integer","null"],"minimum":0,"maximum":10},"is_current":{"type":["boolean","null"]}},"required":["kind","type","value","confidence","reasoning","started_at","ended_at","level","is_current"],"additionalProperties":false}}},"required":["records"],"additionalProperties":false}"#;

/// `r` asks the model `model` for the records in `focal_msg`: the system prompt at some
/// writable instant (the time it was made), the message's content as the user message, and
/// the records schema.
pub open spec fn is_extraction_request(
    r: ChatRequest,
    model: Seq<char>,
    focal_msg: Message,
    context: Seq<Message>,
    reply_target: Option<Message>,
    has_attachments: bool,
    server_name: Seq<char>,
    channel_name: Option<Seq<char>>,
) -> bool {
    &&& r.model@ == model
    &&& r.user@ == focal_msg.content@
    &&& r.schema_name@ == RECORDS_SCHEMA_NAME@
    &&& r.schema@ == RECORDS_SCHEMA@
    &&& exists|now: i64|
        representable(now as int) && r.system@ == #[trigger] extraction_prompt(
            now,
            context,
            reply_target,
            focal_msg.sent_by,
            has_attachments,
            server_name,
            channel_name,
        )
}

/// The request that asks the model for the records in `focal_msg`: the system prompt at the
/// current time, the message's content as the user message, and the records schema.
pub fn build_extract_llm_request(
    model: &str,
    focal_msg: &Message,
    context: &Vec<Message>,
    reply_target: Option<&Message>,
    has_attachments: bool,
    server_name: &str,
    channel_name: Option<&str>,
) -> (r: ChatRequest)
    requires
        all_representable(context@),
        reply_target matches Some(rt) ==> representable(rt.sent_at as int),
    ensures
        is_extraction_request(
            r,
            model@,
            *focal_msg,
            context@,
            owned_message(reply_target),
            has_attachments,
            server_name@,
            opt_text(channel_name),
        ),
{
    ChatRequest {
        model: String::from_str(model),
        system: build_system_prompt(
            context,
            reply_target,
            focal_msg,
            has_attachments,
            server_name,
            channel_name,
        ),
        user: focal_msg.content.clone(),
        schema_name: String::from_str(RECORDS_SCHEMA_NAME),
        schema: String::from_str(RECORDS_SCHEMA),
    }
}

/// A skill keeps the level the model gave whenever it lies in 0..=10, and a level outside
/// that range is brought to its nearest end: the stored level is the given one clamped to
/// 0..=10, and no level is invented when none was given.
pub proof fn law_skill_level_kept_or_clamped(
    started_at: Option<i64>,
    ended_at: Option<i64>,
    level: Option<i16>,
    is_current: Option<bool>,
    message_sent_at: i64,
)
    ensures
        ({
            let stored = timeline_of(
                RecordKind::Skill,
                started_at,
                ended_at,
                level,
                is_current,
                message_sent_at,
            ).level;
            &&& level is None ==> stored is None
            &&& level matches Some(l) ==> stored matches Some(s) && {
                &&& (0 <= l <= 10 ==> s == l)
                &&& (l < 0 ==> s == 0)
                &&& (l > 10 ==> s == 10)
            }
        }),
{
}

} // verus!
