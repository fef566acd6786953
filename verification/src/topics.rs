//! Topic grouping of chat messages: prompt text, response framing and group filtering.

use vstd::prelude::*;
use crate::llm::ChatRequest;
use crate::model::Message;
use crate::text::{
    chars_of, find_char, first_index, is_first_index, is_last_index, last_index,
    lemma_first_index_is, lemma_last_index_is, lemma_trim_idempotent, lemma_trim_of_unpadded,
    rfind_char, trim, trim_bounds, i64_text, int_text, one_line, one_line_text, strip_trailing,
    trim_end_char,
};

verus! {

/// The JSON object that `text` carries: the trimmed text from its first `{` to its last `}`
/// when both exist in that order, otherwise the trimmed text itself.
pub open spec fn json_span(text: Seq<char>) -> Seq<char> {
    let t = trim(text);
    let start = first_index(t, '{');
    let end = last_index(t, '}');
    if start >= 0 && end >= start {
        t.subrange(start, end + 1)
    } else {
        t
    }
}

/// Cuts the JSON object out of an LLM reply that may wrap it in prose or code fences.
pub fn extract_json(text: &str) -> (r: &str)
    ensures
        r@ == json_span(text@),
{
    let all = chars_of(text);
    let (a, b) = trim_bounds(&all);
    let t = text.substring_char(a, b);
    let tc = chars_of(t);
    match (find_char(&tc, '{'), rfind_char(&tc, '}')) {
        (Some(start), Some(end)) => {
            if end >= start {
                t.substring_char(start, end + 1)
            } else {
                t
            }
        },
        _ => t,
    }
}

/// Framing a reply twice gives what framing it once gave.
pub proof fn law_json_span_idempotent(text: Seq<char>)
    ensures
        json_span(json_span(text)) == json_span(text),
{
    let t = trim(text);
    let start = first_index(t, '{');
    let end = last_index(t, '}');
    if start >= 0 && end >= start {
        if exists|i: int| is_first_index(t, '{', i) {
            assert(is_first_index(t, '{', start));
        }
        if exists|i: int| is_last_index(t, '}', i) {
            assert(is_last_index(t, '}', end));
        }
        let r = t.subrange(start, end + 1);
        assert(r[0] == '{');
        assert(r.last() == '}');
        lemma_trim_of_unpadded(r);
        assert(is_first_index(r, '{', 0));
        lemma_first_index_is(r, '{', 0);
        assert(is_last_index(r, '}', r.len() - 1));
        lemma_last_index_is(r, '}', r.len() - 1);
        assert(r.subrange(0, r.len() as int) =~= r);
    } else {
        lemma_trim_idempotent(text);
    }
}


/// Instructions of the single-request topic classifier.
pub const CLASSIFIER_INSTRUCTIONS: &'static str = "You are a topic classifier for Discord chat messages.
You receive earlier channel context (some messages already labeled with a topic) and a batch of new messages.
Group messages that discuss the same coherent topic into a single group.
A group may span context and new messages, and may bridge interjections from unrelated chatter —
if a topic is dropped and picked back up later, put both stretches in the same group.
Reuse existing topic names when new messages continue a known topic.
New topic names must be concise (3-7 words).
Skip messages that don't clearly belong to any multi-message topic (acknowledgments, system messages, one-off remarks).
Only emit a group when at least two messages share that topic across the whole window —
never emit a singleton group.
Return JSON of the form: {\"groups\": [{\"topic\": string, \"message_ids\": [number, ...]}]}.";

/// Instructions of the channel-batch topic sorter.
pub const SORTER_INSTRUCTIONS: &'static str = r#"
Return JSON only. No prose, no code fences.

Group chat messages by topic.

Rules:
- Topic labels: 1–5 words, lowercase, descriptive not restating. E.g. "rust borrow checker", "lunch logistics".
- Reuse the same label for continuations of one topic; don't invent variants.
- Skip greetings, acknowledgments, jokes, one-offs, system messages.
- Only emit a group with 2+ messages. Never emit singletons.
- Each message belongs to at most one group. Group by topic, not adjacency — interleaved threads still group together.
- `message_ids` must use the exact integer IDs from the input. Don't invent, reorder, or omit.

Schema:
{
  "groups": [
    { "topic": "<string, 1-5 words lowercase>", "message_ids": [<int>, <int>, ...] }
  ]
}

If nothing groups, return: { "groups": [] }
No other keys. No null, comments, or trailing commas.

Good example:
Input:
1: "ramen spot near the office?"
2: "morning all"
3: "ichiran on 5th is solid"
4: "deploy failed last night"
5: "migration didn't run"
6: "tonkotsu at menya is better"
7: "thanks!"
8: "rolling back the migration"

Output:
{"groups":[{"topic":"ramen recommendations","message_ids":[1,3,6]},{"topic":"deploy failure","message_ids":[4,5,8]}]}"#;

/// Name of the answer schema of the topic sorter.
pub const GROUPS_SCHEMA_NAME: &'static str = "topic_groups";

/// JSON schema of the topic sorter's answer: `groups`, each a topic and its message ids.
pub const GROUPS_SCHEMA: &'static str = r#"{"type":"object","properties":{"groups":{"type":"array","items":{"type":"object","properties":{"topic":{"type":"string"},"message_ids":{"type":"array","items":{"type":"integer"}}},"required":["topic","message_ids"],"additionalProperties":false}}},"required":["groups"],"additionalProperties":false}"#;

/// The known topics, one `- topic` line each.
pub open spec fn topic_lines(topics: Seq<String>) -> Seq<char>
    decreases topics.len(),
{
    if topics.len() == 0 {
        seq![]
    } else {
        topic_lines(topics.drop_last()) + "- "@ + topics.last()@ + "\n"@
    }
}

/// The section that lists the known topics; empty when there are none.
pub open spec fn topics_section(topics: Seq<String>) -> Seq<char> {
    if topics.len() > 0 {
        "Existing topics:\n"@ + topic_lines(topics) + "\n"@
    } else {
        seq![]
    }
}

/// An earlier message as the prompt shows it, with its topic when it has one.
pub open spec fn context_line(e: (i64, String, Option<String>)) -> Seq<char> {
    "["@ + int_text(e.0 as int) + match e.2 {
        Some(t) => "] (topic: "@ + t@ + "): "@,
        None => "]: "@,
    } + one_line(e.1@) + "\n"@
}

/// The lines of several earlier messages, in order.
pub open spec fn context_lines(ctx: Seq<(i64, String, Option<String>)>) -> Seq<char>
    decreases ctx.len(),
{
    if ctx.len() == 0 {
        seq![]
    } else {
        context_lines(ctx.drop_last()) + context_line(ctx.last())
    }
}

/// A message to classify as the prompt shows it.
pub open spec fn new_line(id: i64, content: Seq<char>) -> Seq<char> {
    "["@ + int_text(id as int) + "]: "@ + one_line(content) + "\n"@
}

/// The lines of the messages to classify, in order.
pub open spec fn new_lines(ms: Seq<(i64, String)>) -> Seq<char>
    decreases ms.len(),
{
    if ms.len() == 0 {
        seq![]
    } else {
        new_lines(ms.drop_last()) + new_line(ms.last().0, ms.last().1@)
    }
}

/// The user message of a classification request: known topics, earlier context, then the
/// messages to classify.
pub open spec fn classify_prompt(
    context: Seq<(i64, String, Option<String>)>,
    new: Seq<(i64, String)>,
    topics: Seq<String>,
) -> Seq<char> {
    topics_section(topics) + (if context.len() > 0 {
        "Earlier context:\n"@ + context_lines(context) + "\n"@
    } else {
        seq![]
    }) + "New messages to classify:\n"@ + new_lines(new)
}

fn append_topic_lines(out: &mut String, topics: &[String])
    ensures
        final(out)@ == old(out)@ + topic_lines(topics@),
{
    let ghost start = out@;
    let mut i: usize = 0;
    while i < topics.len()
        invariant
            i <= topics@.len(),
            out@ == start + topic_lines(topics@.subrange(0, i as int)),
        decreases topics.len() - i,
    {
        out.append("- ");
        out.append(topics[i].as_str());
        out.append("\n");
        proof {
            assert(topics@.subrange(0, i + 1).drop_last() =~= topics@.subrange(0, i as int));
        }
        i += 1;
    }
    assert(topics@.subrange(0, topics@.len() as int) =~= topics@);
}

fn append_context_lines(out: &mut String, ctx: &[(i64, String, Option<String>)])
    ensures
        final(out)@ == old(out)@ + context_lines(ctx@),
{
    let ghost start = out@;
    let mut i: usize = 0;
    while i < ctx.len()
        invariant
            i <= ctx@.len(),
            out@ == start + context_lines(ctx@.subrange(0, i as int)),
        decreases ctx.len() - i,
    {
        let ghost before = out@;
        out.append("[");
        let id = i64_text(ctx[i].0);
        out.append(id.as_str());
        match &ctx[i].2 {
            Some(t) => {
                out.append("] (topic: ");
                out.append(t.as_str());
                out.append("): ");
            },
            None => {
                out.append("]: ");
            },
        }
        let c = one_line_text(ctx[i].1.as_str());
        out.append(c.as_str());
        out.append("\n");
        proof {
            assert(out@ =~= before + context_line(ctx@[i as int]));
            assert(ctx@.subrange(0, i + 1).drop_last() =~= ctx@.subrange(0, i as int));
        }
        i += 1;
    }
    assert(ctx@.subrange(0, ctx@.len() as int) =~= ctx@);
}

fn append_new_lines(out: &mut String, ms: &[(i64, String)])
    ensures
        final(out)@ == old(out)@ + new_lines(ms@),
{
    let ghost start = out@;
    let mut i: usize = 0;
    while i < ms.len()
        invariant
            i <= ms@.len(),
            out@ == start + new_lines(ms@.subrange(0, i as int)),
        decreases ms.len() - i,
    {
        let ghost before = out@;
        out.append("[");
        let id = i64_text(ms[i].0);
        out.append(id.as_str());
        out.append("]: ");
        let c = one_line_text(ms[i].1.as_str());
        out.append(c.as_str());
        out.append("\n");
        proof {
            assert(out@ =~= before + new_line(ms@[i as int].0, ms@[i as int].1@));
            assert(ms@.subrange(0, i + 1).drop_last() =~= ms@.subrange(0, i as int));
        }
        i += 1;
    }
    assert(ms@.subrange(0, ms@.len() as int) =~= ms@);
}

/// Writes the user message of a classification request.
pub fn classify_user_message(
    context: &[(i64, String, Option<String>)],
    new: &[(i64, String)],
    topics: &[String],
) -> (r: String)
    ensures
        r@ == classify_prompt(context@, new@, topics@),
{
    let mut user = String::new();
    if topics.len() > 0 {
        user.append("Existing topics:\n");
        append_topic_lines(&mut user, topics);
        user.append("\n");
    }
    let ghost after_topics = user@;
    if context.len() > 0 {
        user.append("Earlier context:\n");
        append_context_lines(&mut user, context);
        user.append("\n");
    }
    let ghost after_context = user@;
    user.append("New messages to classify:\n");
    append_new_lines(&mut user, new);
    assert(user@ =~= classify_prompt(context@, new@, topics@));
    user
}

/// The chat completions endpoint under an OpenAI-compatible base URL.
pub open spec fn completions_url(base_url: Seq<char>) -> Seq<char> {
    strip_trailing(base_url, '/') + "/chat/completions"@
}

/// The chat completions endpoint under `base_url`, ignoring trailing slashes of the base.
pub fn chat_completions_url(base_url: &str) -> (r: String)
    ensures
        r@ == completions_url(base_url@),
{
    let base = trim_end_char(base_url, '/');
    let mut url = String::from_str(base);
    url.append("/chat/completions");
    url
}

/// A plain chat request of the classifier: model, system message, user message.
pub struct ClassifyRequest {
    pub model: String,
    pub system: String,
    pub user: String,
}

/// The classifier's request for `new` given earlier `context` and known `topics`.
pub fn classify_request(
    model: &str,
    context: &[(i64, String, Option<String>)],
    new: &[(i64, String)],
    topics: &[String],
) -> (r: ClassifyRequest)
    ensures
        r.model@ == model@,
        r.system@ == CLASSIFIER_INSTRUCTIONS@,
        r.user@ == classify_prompt(context@, new@, topics@),
{
    ClassifyRequest {
        model: String::from_str(model),
        system: String::from_str(CLASSIFIER_INSTRUCTIONS),
        user: classify_user_message(context, new, topics),
    }
}

/// Why a classification failed.
#[derive(PartialEq, Eq, Structural, Clone, Copy, Debug)]
pub enum ClassifyError {
    /// The API answered with a status outside 200..=299.
    Status(u16),
    /// The API's answer had no choices.
    NoChoices,
}

/// An HTTP status in the success class 200..=299.
pub open spec fn success_status(code: u16) -> bool {
    200 <= code <= 299
}

/// Accepts the API's answer when its status is a success.
pub fn check_status(code: u16) -> (r: Result<(), ClassifyError>)
    ensures
        r == if success_status(code) {
            Ok::<(), ClassifyError>(())
        } else {
            Err(ClassifyError::Status(code))
        },
{
    if 200 <= code && code <= 299 {
        Ok(())
    } else {
        Err(ClassifyError::Status(code))
    }
}

/// The content of the first choice of the API's answer, given its choices' contents.
pub fn first_choice(contents: Vec<String>) -> (r: Result<String, ClassifyError>)
    ensures
        contents@.len() > 0 ==> r == Ok::<String, ClassifyError>(contents@[0]),
        contents@.len() == 0 ==> r == Err::<String, ClassifyError>(ClassifyError::NoChoices),
{
    let mut contents = contents;
    if contents.len() == 0 {
        Err(ClassifyError::NoChoices)
    } else {
        Ok(contents.swap_remove(0))
    }
}

/// The groups with at least two messages, in order: singleton groups are never emitted.
pub open spec fn multi_message_groups(groups: Seq<(String, Vec<i64>)>) -> Seq<(String, Vec<i64>)> {
    groups.filter(|g: (String, Vec<i64>)| g.1@.len() >= 2)
}

/// Drops the groups that hold fewer than two messages.
pub fn keep_multi_message_groups(groups: Vec<(String, Vec<i64>)>) -> (r: Vec<(String, Vec<i64>)>)
    ensures
        r@ == multi_message_groups(groups@),
{
    let ghost orig = groups@;
    let ghost keep = |g: (String, Vec<i64>)| g.1@.len() >= 2;
    let total = groups.len();
    let mut rest = groups;
    let mut kept: Vec<(String, Vec<i64>)> = Vec::new();
    let mut k: usize = 0;
    while rest.len() > 0
        invariant
            orig.len() == total,
            keep == (|g: (String, Vec<i64>)| g.1@.len() >= 2),
            k + rest@.len() == orig.len(),
            rest@ == orig.subrange(k as int, orig.len() as int),
            kept@ == orig.subrange(0, k as int).filter(keep),
        decreases rest.len(),
    {
        let ghost old_rest = rest@;
        let g = rest.remove(0);
        let ghost gg = g;
        proof {
            assert(old_rest[0] == orig[k as int]);
        }
        if g.1.len() >= 2 {
            kept.push(g);
        }
        proof {
            let s0 = orig.subrange(0, k as int);
            assert(orig.subrange(0, k + 1) =~= s0.push(orig[k as int]));
            s0.lemma_filter_push(orig[k as int], keep);
            assert(rest@ =~= orig.subrange(k + 1, orig.len() as int));
        }
        k += 1;
    }
    assert(orig.subrange(0, orig.len() as int) =~= orig);
    kept
}

/// Every group kept holds at least two messages, and each group of the answer with at least
/// two messages is kept.
pub proof fn law_no_singleton_groups(groups: Seq<(String, Vec<i64>)>)
    ensures
        forall|i: int|
            0 <= i < multi_message_groups(groups).len() ==> #[trigger] multi_message_groups(
                groups,
            )[i].1@.len() >= 2,
        forall|i: int|
            0 <= i < groups.len() && groups[i].1@.len() >= 2 ==> multi_message_groups(
                groups,
            ).contains(#[trigger] groups[i]),
{
    let keep = |g: (String, Vec<i64>)| g.1@.len() >= 2;
    assert forall|i: int|
        0 <= i < multi_message_groups(groups).len() implies #[trigger] multi_message_groups(
        groups,
    )[i].1@.len() >= 2 by {
        groups.lemma_filter_pred(keep, i);
    }
    assert forall|i: int|
        0 <= i < groups.len() && groups[i].1@.len() >= 2 implies multi_message_groups(
        groups,
    ).contains(#[trigger] groups[i]) by {
        groups.lemma_filter_contains(keep, i);
    }
}


/// The messages of one channel within a batch.
pub struct ChannelBatch {
    pub channel_id: i64,
    pub messages: Vec<Message>,
}

/// Keeps the messages of channel `c`.
pub open spec fn in_channel(c: i64) -> spec_fn(Message) -> bool {
    |m: Message| m.channel_id == c
}

/// `groups` splits `batch` by channel: one group per channel that occurs, each holding that
/// channel's messages in batch order.
pub open spec fn splits_by_channel(groups: Seq<ChannelBatch>, batch: Seq<Message>) -> bool {
    &&& forall|j: int|
        0 <= j < groups.len() ==> #[trigger] groups[j].messages@ == batch.filter(
            in_channel(groups[j].channel_id),
        )
    &&& forall|j1: int, j2: int|
        0 <= j1 < groups.len() && 0 <= j2 < groups.len() && j1 != j2 ==> #[trigger] groups[j1].channel_id
            != #[trigger] groups[j2].channel_id
    &&& forall|i: int| 0 <= i < batch.len() ==> has_group(groups, #[trigger] batch[i].channel_id)
}

/// Some group holds channel `c`.
pub open spec fn has_group(groups: Seq<ChannelBatch>, c: i64) -> bool {
    exists|j: int| 0 <= j < groups.len() && groups[j].channel_id == c
}

/// Position of the group of channel `c`, if there is one.
fn find_channel(groups: &Vec<ChannelBatch>, c: i64) -> (r: Option<usize>)
    ensures
        r matches Some(j) ==> j < groups@.len() && groups@[j as int].channel_id == c,
        r is None ==> forall|j: int| 0 <= j < groups@.len() ==> groups@[j].channel_id != c,
{
    let mut j: usize = 0;
    while j < groups.len()
        invariant
            j <= groups@.len(),
            forall|k: int| 0 <= k < j ==> groups@[k].channel_id != c,
        decreases groups.len() - j,
    {
        if groups[j].channel_id == c {
            return Some(j);
        }
        j += 1;
    }
    None
}

/// Splits a batch into per-channel groups, each in batch order.
pub fn group_by_channel(batch: Vec<Message>) -> (r: Vec<ChannelBatch>)
    ensures
        splits_by_channel(r@, batch@),
{
    let ghost orig = batch@;
    let total = batch.len();
    let mut rest = batch;
    let mut groups: Vec<ChannelBatch> = Vec::new();
    let mut k: usize = 0;
    while rest.len() > 0
        invariant
            orig.len() == total,
            k + rest@.len() == orig.len(),
            rest@ == orig.subrange(k as int, orig.len() as int),
            splits_by_channel(groups@, orig.subrange(0, k as int)),
        decreases rest.len(),
    {
        let ghost old_rest = rest@;
        let ghost prev = groups@;
        let ghost s0 = orig.subrange(0, k as int);
        let m = rest.remove(0);
        let ghost gm = m;
        proof {
            assert(old_rest[0] == orig[k as int]);
            assert(orig.subrange(0, k + 1) =~= s0.push(gm));
            assert(rest@ =~= orig.subrange(k + 1, orig.len() as int));
        }
        let c = m.channel_id;
        match find_channel(&groups, c) {
            Some(j) => {
                let mut g = groups.remove(j);
                g.messages.push(m);
                groups.insert(j, g);
                proof {
                    assert forall|x: int| 0 <= x < groups@.len() implies #[trigger] groups@[x].messages@
                        == s0.push(gm).filter(in_channel(groups@[x].channel_id)) by {
                        s0.lemma_filter_push(gm, in_channel(groups@[x].channel_id));
                        if x != j {
                            assert(groups@[x] == prev[x]);
                        }
                    }
                    assert forall|i: int| 0 <= i < s0.push(gm).len() implies has_group(
                        groups@,
                        #[trigger] s0.push(gm)[i].channel_id,
                    ) by {
                        if i < s0.len() {
                            assert(has_group(prev, s0[i].channel_id));
                            let y = choose|y: int| 0 <= y < prev.len() && prev[y].channel_id == s0[i].channel_id;
                            assert(groups@[y].channel_id == prev[y].channel_id);
                        } else {
                            assert(groups@[j as int].channel_id == c);
                        }
                    }
                    assert forall|j1: int, j2: int|
                        0 <= j1 < groups@.len() && 0 <= j2 < groups@.len() && j1 != j2 implies #[trigger] groups@[j1].channel_id
                            != #[trigger] groups@[j2].channel_id by {
                        assert(groups@[j1].channel_id == prev[j1].channel_id);
                        assert(groups@[j2].channel_id == prev[j2].channel_id);
                    }
                }
            },
            None => {
                assert(forall|y: int| 0 <= y < prev.len() ==> prev[y].channel_id != c);
                let mut msgs: Vec<Message> = Vec::new();
                msgs.push(m);
                groups.push(ChannelBatch { channel_id: c, messages: msgs });
                proof {
                    assert forall|i: int| 0 <= i < s0.len() implies !(#[trigger] in_channel(c)(s0[i])) by {
                        if in_channel(c)(s0[i]) {
                            assert(has_group(prev, s0[i].channel_id));
                            let y = choose|y: int| 0 <= y < prev.len() && #[trigger] prev[y].channel_id == s0[i].channel_id;
                            assert(prev[y].channel_id == c);
                        }
                    }
                    s0.lemma_all_neg_filter_empty(in_channel(c));
                    assert forall|x: int| 0 <= x < groups@.len() implies #[trigger] groups@[x].messages@
                        == s0.push(gm).filter(in_channel(groups@[x].channel_id)) by {
                        s0.lemma_filter_push(gm, in_channel(groups@[x].channel_id));
                        if x < prev.len() {
                            assert(groups@[x] == prev[x]);
                        } else {
                            assert(groups@[x].messages@ =~= seq![gm]);
                            assert(s0.filter(in_channel(c)).push(gm) =~= seq![gm]);
                        }
                    }
                    assert forall|i: int| 0 <= i < s0.push(gm).len() implies has_group(
                        groups@,
                        #[trigger] s0.push(gm)[i].channel_id,
                    ) by {
                        if i < s0.len() {
                            assert(has_group(prev, s0[i].channel_id));
                            let y = choose|y: int| 0 <= y < prev.len() && prev[y].channel_id == s0[i].channel_id;
                            assert(groups@[y].channel_id == prev[y].channel_id);
                        } else {
                            assert(groups@[prev.len() as int].channel_id == c);
                        }
                    }
                    assert forall|j1: int, j2: int|
                        0 <= j1 < groups@.len() && 0 <= j2 < groups@.len() && j1 != j2 implies #[trigger] groups@[j1].channel_id
                            != #[trigger] groups@[j2].channel_id by {
                        if j1 < prev.len() && j2 < prev.len() {
                            assert(groups@[j1].channel_id == prev[j1].channel_id);
                            assert(groups@[j2].channel_id == prev[j2].channel_id);
                        }
                    }
                }
            },
        }
        assert(splits_by_channel(groups@, s0.push(gm)));
        k += 1;
    }
    assert(orig.subrange(0, orig.len() as int) =~= orig);
    groups
}

/// The earliest send time among `msgs`.
pub open spec fn is_earliest(msgs: Seq<Message>, t: i64) -> bool {
    &&& exists|i: int| 0 <= i < msgs.len() && #[trigger] msgs[i].sent_at == t
    &&& forall|i: int| 0 <= i < msgs.len() ==> t <= #[trigger] msgs[i].sent_at
}

/// The earliest send time of a batch; `None` for an empty batch.
pub fn earliest_sent_at(msgs: &Vec<Message>) -> (r: Option<i64>)
    ensures
        r matches Some(t) ==> is_earliest(msgs@, t),
        r is None <==> msgs@.len() == 0,
{
    if msgs.len() == 0 {
        return None;
    }
    let mut best = msgs[0].sent_at;
    let mut i: usize = 1;
    while i < msgs.len()
        invariant
            1 <= i <= msgs@.len(),
            exists|k: int| 0 <= k < i && #[trigger] msgs@[k].sent_at == best,
            forall|k: int| 0 <= k < i ==> best <= #[trigger] msgs@[k].sent_at,
        decreases msgs.len() - i,
    {
        if msgs[i].sent_at < best {
            best = msgs[i].sent_at;
        }
        i += 1;
    }
    Some(best)
}

/// The system message of the topic sorter: instructions, known topics, and the earlier
/// messages of the channel with their topics.
pub open spec fn sorter_prompt(topics: Seq<String>, context: Seq<(i64, String, Option<String>)>) -> Seq<
    char,
> {
    SORTER_INSTRUCTIONS@ + "\n"@ + topics_section(topics) + (if context.len() > 0 {
        "Earlier messages for context:\n"@ + context_lines(context) + "\n"@
    } else {
        seq![]
    })
}

/// The lines of a batch of messages to classify, in order.
pub open spec fn batch_lines(ms: Seq<Message>) -> Seq<char>
    decreases ms.len(),
{
    if ms.len() == 0 {
        seq![]
    } else {
        batch_lines(ms.drop_last()) + new_line(ms.last().message_id, ms.last().content@)
    }
}

/// Writes the topic sorter's system message.
pub fn sorter_system_message(topics: &Vec<String>, context: &Vec<(i64, String, Option<String>)>) -> (r:
    String)
    ensures
        r@ == sorter_prompt(topics@, context@),
{
    let mut sys = String::from_str(SORTER_INSTRUCTIONS);
    sys.append("\n");
    if topics.len() > 0 {
        sys.append("Existing topics:\n");
        append_topic_lines(&mut sys, topics.as_slice());
        sys.append("\n");
    }
    let ghost after_topics = sys@;
    if context.len() > 0 {
        sys.append("Earlier messages for context:\n");
        append_context_lines(&mut sys, context.as_slice());
        sys.append("\n");
    }
    assert(sys@ =~= sorter_prompt(topics@, context@));
    sys
}

/// Writes the topic sorter's user message: the batch's messages, one per line.
pub fn sorter_user_message(msgs: &Vec<Message>) -> (r: String)
    ensures
        r@ == "New messages to classify:\n"@ + batch_lines(msgs@),
{
    let mut user = String::new();
    user.append("New messages to classify:\n");
    let ghost start = user@;
    let mut i: usize = 0;
    while i < msgs.len()
        invariant
            i <= msgs@.len(),
            user@ == start + batch_lines(msgs@.subrange(0, i as int)),
        decreases msgs.len() - i,
    {
        let ghost before = user@;
        user.append("[");
        let id = i64_text(msgs[i].message_id);
        user.append(id.as_str());
        user.append("]: ");
        let c = one_line_text(msgs[i].content.as_str());
        user.append(c.as_str());
        user.append("\n");
        proof {
            assert(user@ =~= before + new_line(msgs@[i as int].message_id, msgs@[i as int].content@));
            assert(msgs@.subrange(0, i + 1).drop_last() =~= msgs@.subrange(0, i as int));
        }
        i += 1;
    }
    assert(msgs@.subrange(0, msgs@.len() as int) =~= msgs@);
    user
}

/// The earlier messages in time order, given newest first as the database returns them.
pub fn chronological(newest_first: Vec<(i64, String, Option<String>)>) -> (r: Vec<
    (i64, String, Option<String>),
>)
    ensures
        r@ == newest_first@.reverse(),
{
    let ghost orig = newest_first@;
    let mut rest = newest_first;
    let mut out: Vec<(i64, String, Option<String>)> = Vec::new();
    while rest.len() > 0
        invariant
            orig.len() == rest@.len() + out@.len(),
            rest@ == orig.subrange(0, rest@.len() as int),
            out@ == orig.subrange(rest@.len() as int, orig.len() as int).reverse(),
        decreases rest.len(),
    {
        let ghost n = rest@.len();
        let e = rest.pop().unwrap();
        out.push(e);
        proof {
            assert(orig.subrange(n - 1, orig.len() as int).reverse() =~= orig.subrange(
                n as int,
                orig.len() as int,
            ).reverse().push(orig[n - 1]));
            assert(rest@ =~= orig.subrange(0, rest@.len() as int));
        }
    }
    assert(orig.subrange(0, orig.len() as int) =~= orig);
    out
}

/// `r` asks the model `model` to group the batch `msgs`, shown the known `topics` and the
/// earlier `context`, with the groups schema.
pub open spec fn is_sorter_request(
    r: ChatRequest,
    model: Seq<char>,
    topics: Seq<String>,
    context: Seq<(i64, String, Option<String>)>,
    msgs: Seq<Message>,
) -> bool {
    &&& r.model@ == model
    &&& r.system@ == sorter_prompt(topics, context)
    &&& r.user@ == "New messages to classify:\n"@ + batch_lines(msgs)
    &&& r.schema_name@ == GROUPS_SCHEMA_NAME@
    &&& r.schema@ == GROUPS_SCHEMA@
}

/// The topic sorter's request for one channel batch.
pub fn sorter_request(
    model: &str,
    topics: &Vec<String>,
    context: &Vec<(i64, String, Option<String>)>,
    msgs: &Vec<Message>,
) -> (r: ChatRequest)
    ensures
        is_sorter_request(r, model@, topics@, context@, msgs@),
{
    ChatRequest {
        model: String::from_str(model),
        system: sorter_system_message(topics, context),
        user: sorter_user_message(msgs),
        schema_name: String::from_str(GROUPS_SCHEMA_NAME),
        schema: String::from_str(GROUPS_SCHEMA),
    }
}

/// A topic and the messages of the batch to file under it.
pub struct TopicAssignment {
    pub topic: String,
    pub message_ids: Vec<i64>,
}

/// Keeps the ids of messages that are in the batch.
pub open spec fn in_batch(msgs: Seq<Message>) -> spec_fn(i64) -> bool {
    |x: i64| exists|j: int| 0 <= j < msgs.len() && #[trigger] msgs[j].message_id == x
}

/// Whether a message with id `x` is in the batch.
fn batch_has(msgs: &Vec<Message>, x: i64) -> (r: bool)
    ensures
        r == in_batch(msgs@)(x),
{
    let mut j: usize = 0;
    while j < msgs.len()
        invariant
            j <= msgs@.len(),
            forall|k: int| 0 <= k < j ==> msgs@[k].message_id != x,
        decreases msgs.len() - j,
    {
        if msgs[j].message_id == x {
            return true;
        }
        j += 1;
    }
    false
}

/// The ids of one group that belong to the batch, in order.
fn batch_ids_of(ids: &Vec<i64>, msgs: &Vec<Message>) -> (r: Vec<i64>)
    ensures
        r@ == ids@.filter(in_batch(msgs@)),
{
    let ghost keep = in_batch(msgs@);
    let mut out: Vec<i64> = Vec::new();
    let mut i: usize = 0;
    while i < ids.len()
        invariant
            keep == in_batch(msgs@),
            i <= ids@.len(),
            out@ == ids@.subrange(0, i as int).filter(keep),
        decreases ids.len() - i,
    {
        let x = ids[i];
        if batch_has(msgs, x) {
            out.push(x);
        }
        proof {
            let s0 = ids@.subrange(0, i as int);
            assert(ids@.subrange(0, i + 1) =~= s0.push(x));
            s0.lemma_filter_push(x, keep);
        }
        i += 1;
    }
    assert(ids@.subrange(0, ids@.len() as int) =~= ids@);
    out
}

/// `r` files the groups the model returned: every group's topic, in order, with the
/// group's ids that belong to the batch.
pub open spec fn are_assignments(
    r: Seq<TopicAssignment>,
    groups: Seq<(String, Vec<i64>)>,
    msgs: Seq<Message>,
) -> bool {
    &&& r.len() == groups.len()
    &&& forall|i: int|
        0 <= i < r.len() ==> {
            &&& (#[trigger] r[i]).topic@ == groups[i].0@
            &&& r[i].message_ids@ == groups[i].1@.filter(in_batch(msgs))
        }
}

/// What to store for the groups the model returned: every group's topic, in order, with the
/// group's ids that belong to the batch; ids the model invented are dropped.
pub fn assign_topics(groups: Vec<(String, Vec<i64>)>, msgs: &Vec<Message>) -> (r: Vec<
    TopicAssignment,
>)
    ensures
        are_assignments(r@, groups@, msgs@),
{
    let mut out: Vec<TopicAssignment> = Vec::new();
    let mut i: usize = 0;
    while i < groups.len()
        invariant
            i <= groups@.len(),
            out@.len() == i,
            forall|k: int|
                0 <= k < i ==> {
                    &&& (#[trigger] out@[k]).topic@ == groups@[k].0@
                    &&& out@[k].message_ids@ == groups@[k].1@.filter(in_batch(msgs@))
                },
        decreases groups.len() - i,
    {
        let ids = batch_ids_of(&groups[i].1, msgs);
        out.push(TopicAssignment { topic: groups[i].0.clone(), message_ids: ids });
        i += 1;
    }
    out
}

/// No message is filed under a topic unless it is in the batch.
pub proof fn law_assigned_ids_in_batch(ids: Seq<i64>, msgs: Seq<Message>, x: i64)
    requires
        ids.filter(in_batch(msgs)).contains(x),
    ensures
        exists|j: int| 0 <= j < msgs.len() && msgs[j].message_id == x,
{
    let k = choose|k: int| 0 <= k < ids.filter(in_batch(msgs)).len() && ids.filter(in_batch(msgs))[k] == x;
    ids.lemma_filter_pred(in_batch(msgs), k);
}

/// Filing drops exactly the ids the model invented: an id of a returned group is filed
/// under that group's topic if and only if some message of the batch has that id,
/// whatever else that message holds (a reply, an edit, any content).
pub proof fn law_batch_ids_all_filed(
    r: Seq<TopicAssignment>,
    groups: Seq<(String, Vec<i64>)>,
    msgs: Seq<Message>,
    i: int,
    x: i64,
)
    requires
        are_assignments(r, groups, msgs),
        0 <= i < groups.len(),
    ensures
        r[i].message_ids@.contains(x) <==> (groups[i].1@.contains(x) && exists|j: int|
            0 <= j < msgs.len() && msgs[j].message_id == x),
{
    let ids = groups[i].1@;
    let keep = in_batch(msgs);
    if r[i].message_ids@.contains(x) {
        let k = choose|k: int| 0 <= k < ids.filter(keep).len() && ids.filter(keep)[k] == x;
        ids.lemma_filter_pred(keep, k);
        ids.lemma_filter_contains_rev(keep, x);
    }
    if ids.contains(x) && exists|j: int| 0 <= j < msgs.len() && msgs[j].message_id == x {
        let k = choose|k: int| 0 <= k < ids.len() && ids[k] == x;
        let j = choose|j: int| 0 <= j < msgs.len() && msgs[j].message_id == x;
        assert(keep(ids[k]));
        ids.lemma_filter_contains(keep, k);
    }
}

} // verus!
