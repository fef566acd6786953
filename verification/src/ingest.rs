//! Storing one Discord message: the rows it becomes and the order of the steps that
//! store it (channel, author, replied-to message, the message itself, its media).
//!
//! The steps that talk to the database or to Discord are performed by the caller; the
//! decisions between them are made by [`ingest_step`], one event at a time.

use vstd::prelude::*;
use crate::model::Message;
use crate::messages::{MessageKind, system_text, system_message_content};

verus! {

/// The database key of a Discord snowflake: its 64 bits read as a signed integer.
pub open spec fn db_key(id: u64) -> i64 {
    id as i64
}

/// The database key of a Discord snowflake.
pub fn to_db_key(id: u64) -> (k: i64)
    ensures
        k == db_key(id),
{
    id as i64
}

/// A Discord message as it arrives, reduced to what is stored of it.
/// Instants are microseconds since the Unix epoch.
pub struct IncomingMessage {
    pub id: u64,
    pub channel_id: u64,
    pub author_id: u64,
    pub author_name: String,
    pub kind: MessageKind,
    pub content: String,
    pub sent_at: i64,
    pub edited_at: Option<i64>,
    /// The message this one replies to, when it references one.
    pub reply_to: Option<u64>,
    pub has_attachments: bool,
    /// Whether anyone reacted to the message.
    pub has_reactions: bool,
}

/// The content stored for a message: the synthetic text of a system message, else its own.
pub open spec fn stored_content(m: IncomingMessage) -> Seq<char> {
    match system_text(m.kind, m.author_name@) {
        Some(t) => t,
        None => m.content@,
    }
}

/// `row` is the row stored for `m`, added at `now`.
pub open spec fn is_stored_row(row: Message, m: IncomingMessage, now: i64) -> bool {
    &&& row.message_id == db_key(m.id)
    &&& row.channel_id == db_key(m.channel_id)
    &&& row.sent_by == db_key(m.author_id)
    &&& row.content@ == stored_content(m)
    &&& row.sent_at == m.sent_at
    &&& row.last_edited == m.edited_at
    &&& row.deleted_at is None
    &&& row.in_reply_to == (match m.reply_to {
        Some(p) => Some(db_key(p)),
        None => None::<i64>,
    })
    &&& row.added_at == now
}

/// The row stored for `m`, added at `now`.
pub fn stored_message(m: &IncomingMessage, now: i64) -> (row: Message)
    ensures
        is_stored_row(row, *m, now),
{
    let content = match system_message_content(m.kind, m.author_name.as_str()) {
        Some(s) => s,
        None => m.content.clone(),
    };
    let in_reply_to = match m.reply_to {
        Some(p) => Some(to_db_key(p)),
        None => None,
    };
    Message {
        message_id: to_db_key(m.id),
        channel_id: to_db_key(m.channel_id),
        sent_by: to_db_key(m.author_id),
        content,
        sent_at: m.sent_at,
        last_edited: m.edited_at,
        deleted_at: None,
        in_reply_to,
        added_at: now,
    }
}

/// The content of the row that stands in for a replied-to message Discord no longer has.
pub const DELETED_CONTENT: &'static str = "[deleted message]";

/// `row` stands in for the deleted message `parent` of channel `channel_id`: sent by the
/// reserved account 0 at the epoch, deleted at the epoch, added at `now`.
pub open spec fn is_placeholder_row(row: Message, parent: i64, channel_id: u64, now: i64) -> bool {
    &&& row.message_id == parent
    &&& row.channel_id == db_key(channel_id)
    &&& row.sent_by == 0
    &&& row.content@ == DELETED_CONTENT@
    &&& row.sent_at == 0
    &&& row.last_edited is None
    &&& row.deleted_at == Some(0i64)
    &&& row.in_reply_to is None
    &&& row.added_at == now
}

/// The row that stands in for the deleted message `parent`.
pub fn placeholder_parent(parent: i64, channel_id: u64, now: i64) -> (row: Message)
    ensures
        is_placeholder_row(row, parent, channel_id, now),
{
    Message {
        message_id: parent,
        channel_id: to_db_key(channel_id),
        sent_by: 0,
        content: String::from_str(DELETED_CONTENT),
        sent_at: 0,
        last_edited: None,
        deleted_at: Some(0),
        in_reply_to: None,
        added_at: now,
    }
}

/// Where the storing of a message stands.
#[derive(PartialEq, Eq, Structural, Clone, Copy, Debug)]
pub enum IngestStage {
    Start,
    CheckingStored,
    EnsuringChannel,
    EnsuringAuthor,
    CheckingParent,
    FetchingParent,
    IngestingParent,
    InsertingPlaceholder,
    InsertingMessage,
    StoringMedia,
    StoringReactions,
    Done(IngestOutcome),
}

/// Why storing a message failed.
#[derive(PartialEq, Eq, Structural, Clone, Copy, Debug)]
pub enum IngestError {
    /// The step just performed failed; its own error is the one to report.
    StepFailed,
    /// The replied-to message's key does not name a Discord message (it is negative).
    ReplyIdOutOfRange,
}

/// How storing a message ended.
#[derive(PartialEq, Eq, Structural, Clone, Copy, Debug)]
pub enum IngestOutcome {
    /// The message was stored now.
    Stored,
    /// The message was stored before; nothing was done.
    AlreadyStored,
    Failed(IngestError),
}

/// What the step just performed answered.
#[derive(PartialEq, Eq, Structural, Clone, Copy, Debug)]
pub enum IngestEvent {
    /// Nothing was performed yet.
    Begin,
    /// A lookup answered whether the row exists.
    Found(bool),
    Succeeded,
    Failed,
    /// Discord answered that the replied-to message does not exist.
    NotFound,
}

/// The next step to perform.
pub enum IngestAction {
    /// Look up whether a message row with this key exists.
    LookUpMessage(i64),
    /// Make sure the channel with this id (and its parents) is stored.
    EnsureChannel(u64),
    /// Make sure the message's author is stored.
    EnsureAuthor,
    /// Look up whether the replied-to message is stored.
    LookUpParent(i64),
    /// Fetch the replied-to message `.1` of channel `.0` from Discord.
    FetchParent(u64, u64),
    /// Store the fetched replied-to message (the same procedure, for that message).
    IngestParent,
    InsertPlaceholder(Message),
    InsertMessage(Message),
    /// Store the message's attachments and stickers; their failures are only reported.
    StoreMedia,
    /// Fetch the users of each of the message's reactions, and store each user and a
    /// reaction row per user and emoji; their failures are only reported.
    StoreReactions,
    Finish(IngestOutcome),
}

/// The event that a failed fetch of the replied-to message gives: `NotFound` exactly when
/// Discord answered with HTTP status 404 (`status` is the status of an unsuccessful
/// request, `None` for any other failure).
pub open spec fn fetch_failure(status: Option<u16>) -> IngestEvent {
    if status == Some(404u16) {
        IngestEvent::NotFound
    } else {
        IngestEvent::Failed
    }
}

/// The event that a failed fetch of the replied-to message gives.
pub fn fetch_failure_event(status: Option<u16>) -> (e: IngestEvent)
    ensures
        e == fetch_failure(status),
{
    match status {
        Some(code) => if code == 404 {
            IngestEvent::NotFound
        } else {
            IngestEvent::Failed
        },
        None => IngestEvent::Failed,
    }
}

/// Moving on to insert the message row.
pub open spec fn inserts_message(
    m: IncomingMessage,
    now: i64,
    next: IngestStage,
    action: IngestAction,
) -> bool {
    &&& next == IngestStage::InsertingMessage
    &&& action matches IngestAction::InsertMessage(row) && is_stored_row(row, m, now)
}

/// After the media: storing the reactions when there are any, else ending as stored.
pub open spec fn after_media(m: IncomingMessage, next: IngestStage, action: IngestAction) -> bool {
    if m.has_reactions {
        next == IngestStage::StoringReactions && action == IngestAction::StoreReactions
    } else {
        finishes(IngestOutcome::Stored, next, action)
    }
}

/// Ending with `outcome`.
pub open spec fn finishes(outcome: IngestOutcome, next: IngestStage, action: IngestAction) -> bool {
    &&& next == IngestStage::Done(outcome)
    &&& action == IngestAction::Finish(outcome)
}

/// One step of storing `m`: from `stage`, on `event`, the next stage and action (decided at
/// instant `now`). A step answers anything but its expected events with a failure.
pub open spec fn step_spec(
    m: IncomingMessage,
    stage: IngestStage,
    event: IngestEvent,
    now: i64,
    next: IngestStage,
    action: IngestAction,
) -> bool {
    let failed = finishes(IngestOutcome::Failed(IngestError::StepFailed), next, action);
    match stage {
        IngestStage::Start => next == IngestStage::CheckingStored && action
            == IngestAction::LookUpMessage(db_key(m.id)),
        IngestStage::CheckingStored => match event {
            IngestEvent::Found(true) => finishes(IngestOutcome::AlreadyStored, next, action),
            IngestEvent::Found(false) => next == IngestStage::EnsuringChannel && action
                == IngestAction::EnsureChannel(m.channel_id),
            _ => failed,
        },
        IngestStage::EnsuringChannel => match event {
            IngestEvent::Succeeded => next == IngestStage::EnsuringAuthor && action
                == IngestAction::EnsureAuthor,
            _ => failed,
        },
        IngestStage::EnsuringAuthor => match event {
            IngestEvent::Succeeded => match m.reply_to {
                Some(p) => next == IngestStage::CheckingParent && action
                    == IngestAction::LookUpParent(db_key(p)),
                None => inserts_message(m, now, next, action),
            },
            _ => failed,
        },
        IngestStage::CheckingParent => match event {
            IngestEvent::Found(true) => inserts_message(m, now, next, action),
            IngestEvent::Found(false) => {
                let key = db_key(m.reply_to->0);
                if key < 0 {
                    finishes(IngestOutcome::Failed(IngestError::ReplyIdOutOfRange), next, action)
                } else {
                    next == IngestStage::FetchingParent && action == IngestAction::FetchParent(
                        m.channel_id,
                        key as u64,
                    )
                }
            },
            _ => failed,
        },
        IngestStage::FetchingParent => match event {
            IngestEvent::Succeeded => next == IngestStage::IngestingParent && action
                == IngestAction::IngestParent,
            IngestEvent::NotFound => {
                &&& next == IngestStage::InsertingPlaceholder
                &&& action matches IngestAction::InsertPlaceholder(row) && is_placeholder_row(
                    row,
                    db_key(m.reply_to->0),
                    m.channel_id,
                    now,
                )
            },
            _ => failed,
        },
        IngestStage::IngestingParent | IngestStage::InsertingPlaceholder => match event {
            IngestEvent::Succeeded => inserts_message(m, now, next, action),
            _ => failed,
        },
        IngestStage::InsertingMessage => match event {
            IngestEvent::Succeeded => if m.has_attachments {
                next == IngestStage::StoringMedia && action == IngestAction::StoreMedia
            } else {
                after_media(m, next, action)
            },
            _ => failed,
        },
        IngestStage::StoringMedia => after_media(m, next, action),
        IngestStage::StoringReactions => finishes(IngestOutcome::Stored, next, action),
        IngestStage::Done(outcome) => finishes(outcome, next, action),
    }
}

/// Stages that expect the replied-to message to be known.
pub open spec fn stage_needs_reply(stage: IngestStage) -> bool {
    stage == IngestStage::CheckingParent || stage == IngestStage::FetchingParent
}

fn finish(outcome: IngestOutcome) -> (r: (IngestStage, IngestAction))
    ensures
        finishes(outcome, r.0, r.1),
{
    (IngestStage::Done(outcome), IngestAction::Finish(outcome))
}

fn failure() -> (r: (IngestStage, IngestAction))
    ensures
        finishes(IngestOutcome::Failed(IngestError::StepFailed), r.0, r.1),
{
    finish(IngestOutcome::Failed(IngestError::StepFailed))
}

fn to_reactions(m: &IncomingMessage) -> (r: (IngestStage, IngestAction))
    ensures
        after_media(*m, r.0, r.1),
{
    if m.has_reactions {
        (IngestStage::StoringReactions, IngestAction::StoreReactions)
    } else {
        finish(IngestOutcome::Stored)
    }
}

fn insert_message(m: &IncomingMessage, now: i64) -> (r: (IngestStage, IngestAction))
    ensures
        inserts_message(*m, now, r.0, r.1),
{
    (IngestStage::InsertingMessage, IngestAction::InsertMessage(stored_message(m, now)))
}

/// One step of storing `m`: from `stage`, on the answer `event` of the step last performed,
/// the next stage and the next step to perform. The replied-to stages are only reached
/// for a message that replies to one.
pub fn ingest_step(m: &IncomingMessage, stage: IngestStage, event: IngestEvent, now: i64) -> (r: (
    IngestStage,
    IngestAction,
))
    requires
        stage_needs_reply(stage) ==> m.reply_to is Some,
    ensures
        step_spec(*m, stage, event, now, r.0, r.1),
        stage_needs_reply(r.0) ==> m.reply_to is Some,
{
    match stage {
        IngestStage::Start => (IngestStage::CheckingStored, IngestAction::LookUpMessage(
            to_db_key(m.id),
        )),
        IngestStage::CheckingStored => match event {
            IngestEvent::Found(true) => finish(IngestOutcome::AlreadyStored),
            IngestEvent::Found(false) => (
                IngestStage::EnsuringChannel,
                IngestAction::EnsureChannel(m.channel_id),
            ),
            _ => failure(),
        },
        IngestStage::EnsuringChannel => match event {
            IngestEvent::Succeeded => (IngestStage::EnsuringAuthor, IngestAction::EnsureAuthor),
            _ => failure(),
        },
        IngestStage::EnsuringAuthor => match event {
            IngestEvent::Succeeded => match m.reply_to {
                Some(p) => (IngestStage::CheckingParent, IngestAction::LookUpParent(to_db_key(p))),
                None => insert_message(m, now),
            },
            _ => failure(),
        },
        IngestStage::CheckingParent => match event {
            IngestEvent::Found(true) => insert_message(m, now),
            IngestEvent::Found(false) => {
                let p = match m.reply_to {
                    Some(p) => p,
                    None => 0,
                };
                let key = to_db_key(p);
                if key < 0 {
                    finish(IngestOutcome::Failed(IngestError::ReplyIdOutOfRange))
                } else {
                    (IngestStage::FetchingParent, IngestAction::FetchParent(m.channel_id, key as u64))
                }
            },
            _ => failure(),
        },
        IngestStage::FetchingParent => match event {
            IngestEvent::Succeeded => (IngestStage::IngestingParent, IngestAction::IngestParent),
            IngestEvent::NotFound => {
                let p = match m.reply_to {
                    Some(p) => p,
                    None => 0,
                };
                let row = placeholder_parent(to_db_key(p), m.channel_id, now);
                (IngestStage::InsertingPlaceholder, IngestAction::InsertPlaceholder(row))
            },
            _ => failure(),
        },
        IngestStage::IngestingParent | IngestStage::InsertingPlaceholder => match event {
            IngestEvent::Succeeded => insert_message(m, now),
            _ => failure(),
        },
        IngestStage::InsertingMessage => match event {
            IngestEvent::Succeeded => if m.has_attachments {
                (IngestStage::StoringMedia, IngestAction::StoreMedia)
            } else {
                to_reactions(m)
            },
            _ => failure(),
        },
        IngestStage::StoringMedia => to_reactions(m),
        IngestStage::StoringReactions => finish(IngestOutcome::Stored),
        IngestStage::Done(outcome) => finish(outcome),
    }
}

/// The position of a stage in the order in which the steps are taken.
pub open spec fn stage_rank(stage: IngestStage) -> int {
    match stage {
        IngestStage::Start => 0,
        IngestStage::CheckingStored => 1,
        IngestStage::EnsuringChannel => 2,
        IngestStage::EnsuringAuthor => 3,
        IngestStage::CheckingParent => 4,
        IngestStage::FetchingParent => 5,
        IngestStage::IngestingParent => 6,
        IngestStage::InsertingPlaceholder => 6,
        IngestStage::InsertingMessage => 7,
        IngestStage::StoringMedia => 8,
        IngestStage::StoringReactions => 9,
        IngestStage::Done(_) => 10,
    }
}

/// Every step moves forward: until it is done, each step leaves for a later stage, so a
/// message is stored in at most ten steps and no step is taken twice; once done, it
/// stays done with the same outcome.
pub proof fn law_ingest_steps_advance(
    m: IncomingMessage,
    stage: IngestStage,
    event: IngestEvent,
    now: i64,
    next: IngestStage,
    action: IngestAction,
)
    requires
        step_spec(m, stage, event, now, next, action),
    ensures
        !(stage is Done) ==> stage_rank(next) > stage_rank(stage),
        stage is Done ==> next == stage,
{
}

/// A step that fails before the message row is stored ends the storing with that failure;
/// once the row is stored, failures to store the media or the reactions do not fail it:
/// the storing goes on to the reactions or ends as stored.
pub proof fn law_ingest_failures(m: IncomingMessage, stage: IngestStage, now: i64, next: IngestStage, action: IngestAction)
    requires
        step_spec(m, stage, IngestEvent::Failed, now, next, action),
        !(stage is Start),
        !(stage is Done),
    ensures
        stage == IngestStage::StoringMedia || stage == IngestStage::StoringReactions ==> action
            == IngestAction::Finish(IngestOutcome::Stored) || action == IngestAction::StoreReactions,
        stage != IngestStage::StoringMedia && stage != IngestStage::StoringReactions ==> action
            == IngestAction::Finish(IngestOutcome::Failed(IngestError::StepFailed)),
{
}

/// A message found already stored is not stored again: the step ends at once, with
/// nothing inserted.
pub proof fn law_stored_message_untouched(m: IncomingMessage, now: i64, next: IngestStage, action: IngestAction)
    requires
        step_spec(m, IngestStage::CheckingStored, IngestEvent::Found(true), now, next, action),
    ensures
        action == IngestAction::Finish(IngestOutcome::AlreadyStored),
        next == IngestStage::Done(IngestOutcome::AlreadyStored),
{
}

/// A stand-in row for the replied-to message is inserted only when Discord answered that
/// the message does not exist, and it is a deleted row with the replied-to key.
pub proof fn law_placeholder_only_for_missing_parent(
    m: IncomingMessage,
    stage: IngestStage,
    event: IngestEvent,
    now: i64,
    next: IngestStage,
    action: IngestAction,
)
    requires
        step_spec(m, stage, event, now, next, action),
        stage_needs_reply(stage) ==> m.reply_to is Some,
        action is InsertPlaceholder,
    ensures
        stage == IngestStage::FetchingParent,
        event == IngestEvent::NotFound,
        m.reply_to is Some,
        is_placeholder_row(action->InsertPlaceholder_0, db_key(m.reply_to->0), m.channel_id, now),
        action->InsertPlaceholder_0.deleted_at is Some,
{
}

/// The message row is inserted only after its channel and author were stored and, for a
/// reply, the replied-to message was found, stored or stood in for; the row inserted is
/// the message's own row.
pub proof fn law_message_row_after_its_references(
    m: IncomingMessage,
    stage: IngestStage,
    event: IngestEvent,
    now: i64,
    next: IngestStage,
    action: IngestAction,
)
    requires
        step_spec(m, stage, event, now, next, action),
        action is InsertMessage,
    ensures
        stage_rank(stage) >= stage_rank(IngestStage::EnsuringAuthor),
        event == IngestEvent::Succeeded || event == IngestEvent::Found(true),
        stage == IngestStage::EnsuringAuthor ==> m.reply_to is None,
        is_stored_row(action->InsertMessage_0, m, now),
{
}

/// `stages` and `actions` are a run of the storing of `m`: it starts at the start, and each
/// step goes from `stages[k]`, on `events[k]`, to `stages[k + 1]` with `actions[k]`.
pub open spec fn is_ingest_run(
    m: IncomingMessage,
    events: Seq<IngestEvent>,
    now: i64,
    stages: Seq<IngestStage>,
    actions: Seq<IngestAction>,
) -> bool {
    &&& stages.len() == events.len() + 1
    &&& actions.len() == events.len()
    &&& stages[0] == IngestStage::Start
    &&& forall|k: int|
        0 <= k < events.len() ==> #[trigger] step_spec(
            m,
            stages[k],
            events[k],
            now,
            stages[k + 1],
            actions[k],
        )
}

/// Along a run, stages only move forward: from position `i` to position `j`, the run is
/// done or has climbed at least `j - i` ranks.
proof fn lemma_run_climbs(
    m: IncomingMessage,
    events: Seq<IngestEvent>,
    now: i64,
    stages: Seq<IngestStage>,
    actions: Seq<IngestAction>,
    i: int,
    j: int,
)
    requires
        is_ingest_run(m, events, now, stages, actions),
        0 <= i <= j <= events.len(),
    ensures
        stages[j] is Done || stage_rank(stages[j]) >= stage_rank(stages[i]) + (j - i),
    decreases j - i,
{
    if i < j {
        let k = j - 1;
        lemma_run_climbs(m, events, now, stages, actions, i, k);
        assert(step_spec(m, stages[k], events[k], now, stages[k + 1], actions[k]));
        law_ingest_steps_advance(m, stages[k], events[k], now, stages[k + 1], actions[k]);
    }
}

/// Whatever Discord and the database answer, storing a message is done after at most ten
/// steps, and the message row is inserted at most once.
pub proof fn law_ingest_run_bounded(
    m: IncomingMessage,
    events: Seq<IngestEvent>,
    now: i64,
    stages: Seq<IngestStage>,
    actions: Seq<IngestAction>,
)
    requires
        is_ingest_run(m, events, now, stages, actions),
    ensures
        forall|j: int| 10 <= j <= events.len() ==> (#[trigger] stages[j]) is Done,
        forall|i: int, j: int|
            0 <= i < j < events.len() && (#[trigger] actions[i]) is InsertMessage ==> !((
            #[trigger] actions[j]) is InsertMessage),
{
    assert forall|j: int| 10 <= j <= events.len() implies (#[trigger] stages[j]) is Done by {
        lemma_run_climbs(m, events, now, stages, actions, 0, j);
    }
    assert forall|i: int, j: int|
        0 <= i < j < events.len() && (#[trigger] actions[i]) is InsertMessage implies !((
        #[trigger] actions[j]) is InsertMessage) by {
        assert(step_spec(m, stages[i], events[i], now, stages[i + 1], actions[i]));
        assert(step_spec(m, stages[j], events[j], now, stages[j + 1], actions[j]));
        assert(stages[i + 1] == IngestStage::InsertingMessage);
        lemma_run_climbs(m, events, now, stages, actions, i + 1, j);
    }
}

/// A message with reactions has them stored along with it: once its row and media are
/// stored, the next step stores its reactions, and only then does the storing end; a
/// message without reactions ends as stored.
pub proof fn law_reactions_stored_with_message(
    m: IncomingMessage,
    stage: IngestStage,
    event: IngestEvent,
    now: i64,
    next: IngestStage,
    action: IngestAction,
)
    requires
        step_spec(m, stage, event, now, next, action),
        stage == IngestStage::StoringMedia || (stage == IngestStage::InsertingMessage && event
            == IngestEvent::Succeeded && !m.has_attachments),
    ensures
        m.has_reactions ==> action == IngestAction::StoreReactions,
        !m.has_reactions ==> action == IngestAction::Finish(IngestOutcome::Stored),
{
}

} // verus!
