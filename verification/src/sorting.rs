//! The topic sorting of one channel's batch: the steps that gather what the model is shown,
//! ask it, and file the messages under the topics it returned.
//!
//! Database calls and the model request are performed by the caller; the decisions
//! between them are made by [`sorting_step`].

use vstd::prelude::*;
use crate::llm::ChatRequest;
use crate::model::Message;
use crate::topics::{
    are_assignments, assign_topics, chronological, earliest_sent_at, in_batch, is_earliest,
    is_sorter_request, sorter_request, TopicAssignment,
};

verus! {

/// How a sorting ended well.
#[derive(PartialEq, Eq, Structural, Clone, Copy, Debug)]
pub enum SortOutcome {
    /// The model returned no groups; nothing was filed.
    NothingGrouped,
    /// The groups the model returned were filed.
    Filed,
}

/// Why a sorting failed.
#[derive(PartialEq, Eq, Structural, Clone, Copy, Debug)]
pub enum SortError {
    /// The batch has no messages.
    EmptyBatch,
    /// The step just performed failed; its own error is the one to report.
    StepFailed,
}

/// Where the sorting stands.
pub enum SortStage {
    Start,
    FetchingContext,
    /// The known topics are being fetched; the earlier messages are in time order.
    FetchingTopics(Vec<(i64, String, Option<String>)>),
    Asking,
    Filing,
    Done(Result<SortOutcome, SortError>),
}

/// What the step just performed answered.
pub enum SortEvent {
    Begin,
    /// The earlier messages of the channel with their topics, newest first.
    Context(Vec<(i64, String, Option<String>)>),
    /// The names of the known topics.
    Topics(Vec<String>),
    /// The groups the model returned.
    Groups(Vec<(String, Vec<i64>)>),
    Succeeded,
    Failed,
}

/// The next step to perform.
pub enum SortAction {
    /// Fetch the messages of channel `.0` sent before instant `.1` with their topics, the
    /// newest first.
    FetchContext(i64, i64),
    FetchTopics,
    Ask(ChatRequest),
    /// Create each topic unless it exists and file its messages under it, in order; a
    /// message already filed under a topic stays there.
    FileAssignments(Vec<TopicAssignment>),
    Finish(Result<SortOutcome, SortError>),
}

/// Ending with `r`.
pub open spec fn sort_finishes(r: Result<SortOutcome, SortError>, next: SortStage, action: SortAction) -> bool {
    &&& next == SortStage::Done(r)
    &&& action == SortAction::Finish(r)
}

/// One step of sorting the batch `msgs` of channel `channel_id` with model `model`. An
/// empty batch fails. The channel's messages before the batch's earliest are fetched and
/// shown in time order, with the known topics; the model is asked, and the groups it
/// returned are filed with the ids it invented dropped. No groups files nothing. Any failed
/// step fails the sorting.
pub open spec fn sort_step_spec(
    channel_id: i64,
    msgs: Seq<Message>,
    model: Seq<char>,
    stage: SortStage,
    event: SortEvent,
    next: SortStage,
    action: SortAction,
) -> bool {
    let failed = sort_finishes(Err(SortError::StepFailed), next, action);
    match stage {
        SortStage::Start => if msgs.len() == 0 {
            sort_finishes(Err(SortError::EmptyBatch), next, action)
        } else {
            &&& next == SortStage::FetchingContext
            &&& action matches SortAction::FetchContext(c, t) && c == channel_id && is_earliest(
                msgs,
                t,
            )
        },
        SortStage::FetchingContext => match event {
            SortEvent::Context(newest_first) => {
                &&& next matches SortStage::FetchingTopics(ctx) && ctx@ == newest_first@.reverse()
                &&& action == SortAction::FetchTopics
            },
            _ => failed,
        },
        SortStage::FetchingTopics(ctx) => match event {
            SortEvent::Topics(topics) => {
                &&& next == SortStage::Asking
                &&& action matches SortAction::Ask(req) && is_sorter_request(
                    req,
                    model,
                    topics@,
                    ctx@,
                    msgs,
                )
            },
            _ => failed,
        },
        SortStage::Asking => match event {
            SortEvent::Groups(groups) => if groups@.len() == 0 {
                sort_finishes(Ok(SortOutcome::NothingGrouped), next, action)
            } else {
                &&& next == SortStage::Filing
                &&& action matches SortAction::FileAssignments(a) && are_assignments(
                    a@,
                    groups@,
                    msgs,
                )
            },
            _ => failed,
        },
        SortStage::Filing => match event {
            SortEvent::Succeeded => sort_finishes(Ok(SortOutcome::Filed), next, action),
            _ => failed,
        },
        SortStage::Done(r) => sort_finishes(r, next, action),
    }
}

fn sort_finish(r: Result<SortOutcome, SortError>) -> (out: (SortStage, SortAction))
    ensures
        sort_finishes(r, out.0, out.1),
{
    (SortStage::Done(r), SortAction::Finish(r))
}

/// One step of sorting the batch `msgs` of channel `channel_id` with model `model`: from
/// `stage`, on the answer `event` of the step last performed, the next stage and the next
/// step to perform.
pub fn sorting_step(
    channel_id: i64,
    msgs: &Vec<Message>,
    model: &str,
    stage: SortStage,
    event: SortEvent,
) -> (out: (SortStage, SortAction))
    ensures
        sort_step_spec(channel_id, msgs@, model@, stage, event, out.0, out.1),
{
    match stage {
        SortStage::Start => match earliest_sent_at(msgs) {
            None => sort_finish(Err(SortError::EmptyBatch)),
            Some(t) => (SortStage::FetchingContext, SortAction::FetchContext(channel_id, t)),
        },
        SortStage::FetchingContext => match event {
            SortEvent::Context(newest_first) => (
                SortStage::FetchingTopics(chronological(newest_first)),
                SortAction::FetchTopics,
            ),
            _ => sort_finish(Err(SortError::StepFailed)),
        },
        SortStage::FetchingTopics(ctx) => match event {
            SortEvent::Topics(topics) => (
                SortStage::Asking,
                SortAction::Ask(sorter_request(model, &topics, &ctx, msgs)),
            ),
            _ => sort_finish(Err(SortError::StepFailed)),
        },
        SortStage::Asking => match event {
            SortEvent::Groups(groups) => if groups.len() == 0 {
                sort_finish(Ok(SortOutcome::NothingGrouped))
            } else {
                (SortStage::Filing, SortAction::FileAssignments(assign_topics(groups, msgs)))
            },
            _ => sort_finish(Err(SortError::StepFailed)),
        },
        SortStage::Filing => match event {
            SortEvent::Succeeded => sort_finish(Ok(SortOutcome::Filed)),
            _ => sort_finish(Err(SortError::StepFailed)),
        },
        SortStage::Done(r) => sort_finish(r),
    }
}

/// Every id filed by the assignments `a` is the id of a message of the batch `msgs`.
pub open spec fn only_batch_ids(a: Seq<TopicAssignment>, msgs: Seq<Message>) -> bool {
    forall|i: int, k: int|
        0 <= i < a.len() && 0 <= k < a[i].message_ids@.len() ==> in_batch(msgs)(
            #[trigger] a[i].message_ids@[k],
        )
}

/// Only messages of the batch are ever filed: every id of every assignment handed out is
/// the id of a message of the batch, whatever the model returned.
pub proof fn law_only_batch_messages_filed(
    channel_id: i64,
    msgs: Seq<Message>,
    model: Seq<char>,
    stage: SortStage,
    event: SortEvent,
    next: SortStage,
    action: SortAction,
)
    requires
        sort_step_spec(channel_id, msgs, model, stage, event, next, action),
    ensures
        action matches SortAction::FileAssignments(a) ==> only_batch_ids(a@, msgs),
{
    if let SortAction::FileAssignments(a) = action {
        if let SortEvent::Groups(groups) = event {
            assert forall|i: int, k: int|
                0 <= i < a@.len() && 0 <= k < a@[i].message_ids@.len() implies in_batch(msgs)(
                    #[trigger] a@[i].message_ids@[k],
                ) by {
                groups@[i].1@.lemma_filter_pred(in_batch(msgs), k);
            }
        }
    }
}

} // verus!
