//! The extraction of facts from one message: the steps that gather what the model is shown,
//! ask it, and store what it found.
//!
//! Database calls and the model request are performed by the caller; the decisions
//! between them are made by [`extraction_step`].

use vstd::prelude::*;
use crate::facts::{
    are_fact_rows, build_extract_llm_request, exclude_message, fact_rows, is_extraction_request,
    merge_context, other_than, all_representable, ExtractedRecord, FactEvidence, UserFact,
};
use crate::llm::ChatRequest;
use crate::model::Message;
use crate::emoji::opt_view;
use crate::time::{is_representable, representable};

verus! {

/// How an extraction ended well.
#[derive(PartialEq, Eq, Structural, Clone, Copy, Debug)]
pub enum ExtractionOutcome {
    /// The model found nothing durable; nothing was stored.
    NothingFound,
    /// The records the model found were stored.
    Stored,
}

/// Why an extraction failed.
#[derive(PartialEq, Eq, Structural, Clone, Copy, Debug)]
pub enum ExtractionError {
    /// The step just performed failed; its own error is the one to report.
    StepFailed,
    /// A message to show has a time outside what can be written.
    UnwritableTime,
}

/// Where the extraction stands.
pub enum ExtractionStage {
    Start,
    FindingAuthor,
    /// The author's person is known; the replied-to message is being looked up.
    FindingReplyTarget(u128),
    /// The surrounding messages are being fetched.
    FetchingContext(u128, Option<Message>),
    /// Whether the message has attachments is being looked up.
    CheckingAttachments(u128, Option<Message>, Vec<Message>),
    /// The name of the message's channel is being looked up; whether attachments are
    /// present is known.
    FindingChannel(u128, Option<Message>, Vec<Message>, bool),
    /// The model is being asked.
    Asking(u128),
    Storing,
    Done(Result<ExtractionOutcome, ExtractionError>),
}

/// What the step just performed answered.
pub enum ExtractionEvent {
    Begin,
    /// The person the author's account belongs to.
    Author(u128),
    /// The replied-to message, when it is stored and not deleted.
    ReplyTarget(Option<Message>),
    /// The surrounding messages: the earlier ones newest first, the later ones oldest first.
    Context(Vec<Message>, Vec<Message>),
    /// Whether the message has attachments that are not deleted.
    Attachments(bool),
    /// The name of the message's channel, when the channel is stored.
    ChannelName(Option<String>),
    /// The records the model returned.
    Records(Vec<ExtractedRecord>),
    Succeeded,
    Failed,
}

/// The next step to perform.
pub enum ExtractionAction {
    /// Find the person of the account with this key.
    FindAuthor(i64),
    /// Find the message with this id, unless it is deleted.
    FindReplyTarget(i64),
    /// Fetch the messages of channel `.0` sent before and after instant `.1`, other than
    /// message `.2` and not deleted, the nearest first on each side.
    FetchContext(i64, i64, i64),
    /// Look up whether message `.0` has attachments that are not deleted.
    CheckAttachments(i64),
    /// Look up the name of the channel with this key.
    FindChannelName(i64),
    Ask(ChatRequest),
    /// Store these rows together, all or none.
    StoreRows(Vec<(UserFact, FactEvidence)>),
    Finish(Result<ExtractionOutcome, ExtractionError>),
}

/// Ending with `r`.
pub open spec fn extraction_finishes(
    r: Result<ExtractionOutcome, ExtractionError>,
    next: ExtractionStage,
    action: ExtractionAction,
) -> bool {
    &&& next == ExtractionStage::Done(r)
    &&& action == ExtractionAction::Finish(r)
}

/// The surrounding messages shown: in time order, without the replied-to message.
pub open spec fn shown_context(before: Seq<Message>, after: Seq<Message>, reply_target: Option<Message>) -> Seq<Message> {
    let all = before.reverse() + after;
    match reply_target {
        Some(t) => all.filter(other_than(t.message_id)),
        None => all,
    }
}

/// Moving on to fetch the surrounding messages of `msg`.
pub open spec fn fetches_context(
    msg: Message,
    person: u128,
    reply_target: Option<Message>,
    next: ExtractionStage,
    action: ExtractionAction,
) -> bool {
    &&& next == ExtractionStage::FetchingContext(person, reply_target)
    &&& action == ExtractionAction::FetchContext(msg.channel_id, msg.sent_at, msg.message_id)
}

/// One step of extracting facts from `msg` with model `model` on the server `server_name`.
/// The author's person is found first, then the replied-to message (when there is one),
/// then the surrounding messages, which are shown in time order without the replied-to
/// one, whether attachments are present, and the name of the message's channel. The model is then asked; when it finds
/// nothing, nothing is stored; otherwise one fact and one piece of evidence per record are
/// stored together. Any failed step fails the extraction.
pub open spec fn extraction_step_spec(
    msg: Message,
    model: Seq<char>,
    server_name: Seq<char>,
    stage: ExtractionStage,
    event: ExtractionEvent,
    next: ExtractionStage,
    action: ExtractionAction,
) -> bool {
    let failed = extraction_finishes(Err(ExtractionError::StepFailed), next, action);
    match stage {
        ExtractionStage::Start => next == ExtractionStage::FindingAuthor && action
            == ExtractionAction::FindAuthor(msg.sent_by),
        ExtractionStage::FindingAuthor => match event {
            ExtractionEvent::Author(person) => match msg.in_reply_to {
                Some(r) => next == ExtractionStage::FindingReplyTarget(person) && action
                    == ExtractionAction::FindReplyTarget(r),
                None => fetches_context(msg, person, None, next, action),
            },
            _ => failed,
        },
        ExtractionStage::FindingReplyTarget(person) => match event {
            ExtractionEvent::ReplyTarget(rt) => fetches_context(msg, person, rt, next, action),
            _ => failed,
        },
        ExtractionStage::FetchingContext(person, rt) => match event {
            ExtractionEvent::Context(before, after) => {
                &&& next matches ExtractionStage::CheckingAttachments(p, t, c) && p == person && t
                    == rt && c@ == shown_context(before@, after@, rt)
                &&& action == ExtractionAction::CheckAttachments(msg.message_id)
            },
            _ => failed,
        },
        ExtractionStage::CheckingAttachments(person, rt, context) => match event {
            ExtractionEvent::Attachments(has) => {
                &&& next matches ExtractionStage::FindingChannel(p, t, c, h) && p == person && t
                    == rt && c@ == context@ && h == has
                &&& action == ExtractionAction::FindChannelName(msg.channel_id)
            },
            _ => failed,
        },
        ExtractionStage::FindingChannel(person, rt, context, has) => match event {
            ExtractionEvent::ChannelName(channel) => {
                let writable = all_representable(context@) && (rt matches Some(t)
                    ==> representable(t.sent_at as int));
                if writable {
                    &&& next == ExtractionStage::Asking(person)
                    &&& action matches ExtractionAction::Ask(req) && is_extraction_request(
                        req,
                        model,
                        msg,
                        context@,
                        rt,
                        has,
                        server_name,
                        opt_view(channel),
                    )
                } else {
                    extraction_finishes(Err(ExtractionError::UnwritableTime), next, action)
                }
            },
            _ => failed,
        },
        ExtractionStage::Asking(person) => match event {
            ExtractionEvent::Records(records) => if records@.len() == 0 {
                extraction_finishes(Ok(ExtractionOutcome::NothingFound), next, action)
            } else {
                &&& next == ExtractionStage::Storing
                &&& action matches ExtractionAction::StoreRows(rows) && are_fact_rows(
                    rows@,
                    person,
                    msg,
                    records@,
                )
            },
            _ => failed,
        },
        ExtractionStage::Storing => match event {
            ExtractionEvent::Succeeded => extraction_finishes(
                Ok(ExtractionOutcome::Stored),
                next,
                action,
            ),
            _ => failed,
        },
        ExtractionStage::Done(r) => extraction_finishes(r, next, action),
    }
}

fn extraction_finish(r: Result<ExtractionOutcome, ExtractionError>) -> (out: (ExtractionStage, ExtractionAction))
    ensures
        extraction_finishes(r, out.0, out.1),
{
    (ExtractionStage::Done(r), ExtractionAction::Finish(r))
}

fn fetch_context(msg: &Message, person: u128, rt: Option<Message>) -> (out: (ExtractionStage, ExtractionAction))
    ensures
        fetches_context(*msg, person, rt, out.0, out.1),
{
    (
        ExtractionStage::FetchingContext(person, rt),
        ExtractionAction::FetchContext(msg.channel_id, msg.sent_at, msg.message_id),
    )
}

/// Whether every message of `ms` has a time that can be written.
fn all_writable(ms: &Vec<Message>) -> (r: bool)
    ensures
        r == all_representable(ms@),
{
    let mut i: usize = 0;
    while i < ms.len()
        invariant
            i <= ms@.len(),
            forall|k: int| 0 <= k < i ==> representable(#[trigger] ms@[k].sent_at as int),
        decreases ms.len() - i,
    {
        if !is_representable(ms[i].sent_at) {
            return false;
        }
        i += 1;
    }
    true
}

/// One step of extracting facts from `msg` with model `model` on the server `server_name`:
/// from `stage`, on the answer `event` of the step last performed, the next stage and the
/// next step to perform.
pub fn extraction_step(
    msg: &Message,
    model: &str,
    server_name: &str,
    stage: ExtractionStage,
    event: ExtractionEvent,
) -> (out: (ExtractionStage, ExtractionAction))
    ensures
        extraction_step_spec(*msg, model@, server_name@, stage, event, out.0, out.1),
{
    match stage {
        ExtractionStage::Start => (ExtractionStage::FindingAuthor, ExtractionAction::FindAuthor(msg.sent_by)),
        ExtractionStage::FindingAuthor => match event {
            ExtractionEvent::Author(person) => match msg.in_reply_to {
                Some(r) => (ExtractionStage::FindingReplyTarget(person), ExtractionAction::FindReplyTarget(r)),
                None => fetch_context(msg, person, None),
            },
            _ => extraction_finish(Err(ExtractionError::StepFailed)),
        },
        ExtractionStage::FindingReplyTarget(person) => match event {
            ExtractionEvent::ReplyTarget(rt) => fetch_context(msg, person, rt),
            _ => extraction_finish(Err(ExtractionError::StepFailed)),
        },
        ExtractionStage::FetchingContext(person, rt) => match event {
            ExtractionEvent::Context(before, after) => {
                let all = merge_context(before, after);
                let context = match &rt {
                    Some(t) => exclude_message(all, t.message_id),
                    None => all,
                };
                (
                    ExtractionStage::CheckingAttachments(person, rt, context),
                    ExtractionAction::CheckAttachments(msg.message_id),
                )
            },
            _ => extraction_finish(Err(ExtractionError::StepFailed)),
        },
        ExtractionStage::CheckingAttachments(person, rt, context) => match event {
            ExtractionEvent::Attachments(has) => (
                ExtractionStage::FindingChannel(person, rt, context, has),
                ExtractionAction::FindChannelName(msg.channel_id),
            ),
            _ => extraction_finish(Err(ExtractionError::StepFailed)),
        },
        ExtractionStage::FindingChannel(person, rt, context, has) => match event {
            ExtractionEvent::ChannelName(channel) => {
                let target_writable = match &rt {
                    Some(t) => is_representable(t.sent_at),
                    None => true,
                };
                if all_writable(&context) && target_writable {
                    let channel_name = match &channel {
                        Some(c) => Some(c.as_str()),
                        None => None,
                    };
                    let req = build_extract_llm_request(
                        model,
                        msg,
                        &context,
                        rt.as_ref(),
                        has,
                        server_name,
                        channel_name,
                    );
                    (ExtractionStage::Asking(person), ExtractionAction::Ask(req))
                } else {
                    extraction_finish(Err(ExtractionError::UnwritableTime))
                }
            },
            _ => extraction_finish(Err(ExtractionError::StepFailed)),
        },
        ExtractionStage::Asking(person) => match event {
            ExtractionEvent::Records(records) => if records.len() == 0 {
                extraction_finish(Ok(ExtractionOutcome::NothingFound))
            } else {
                let rows = fact_rows(person, msg, &records);
                (ExtractionStage::Storing, ExtractionAction::StoreRows(rows))
            },
            _ => extraction_finish(Err(ExtractionError::StepFailed)),
        },
        ExtractionStage::Storing => match event {
            ExtractionEvent::Succeeded => extraction_finish(Ok(ExtractionOutcome::Stored)),
            _ => extraction_finish(Err(ExtractionError::StepFailed)),
        },
        ExtractionStage::Done(r) => extraction_finish(r),
    }
}

/// The model is only shown a message's surroundings in time order and without the message
/// it replies to, and when it finds nothing, nothing is stored.
pub proof fn law_extraction_shows_and_stores(
    msg: Message,
    model: Seq<char>,
    server_name: Seq<char>,
    stage: ExtractionStage,
    event: ExtractionEvent,
    next: ExtractionStage,
    action: ExtractionAction,
)
    requires
        extraction_step_spec(msg, model, server_name, stage, event, next, action),
    ensures
        next matches ExtractionStage::CheckingAttachments(p, Some(t), c) ==> forall|i: int|
            0 <= i < c@.len() ==> (#[trigger] c@[i]).message_id != t.message_id,
        event matches ExtractionEvent::Records(rs) && stage is Asking && rs@.len() == 0 ==> action
            == ExtractionAction::Finish(Ok::<ExtractionOutcome, ExtractionError>(ExtractionOutcome::NothingFound)),
        action is StoreRows ==> stage is Asking,
{
    match (next, event) {
        (ExtractionStage::CheckingAttachments(_, Some(t), _), ExtractionEvent::Context(before, after)) => {
            crate::facts::law_reply_target_excluded(before@.reverse() + after@, t.message_id);
        },
        _ => {},
    }
}

} // verus!
