//! Edited messages: the earlier version kept for an edit, and the steps that keep it and
//! bring the stored message up to date.
//!
//! Database calls are performed by the caller; the decisions between them are made by
//! [`edit_step`].

use vstd::prelude::*;
use crate::ids::{new_uuid, is_v4_uuid};
use crate::ingest::{IncomingMessage, db_key, to_db_key};
use crate::model::MessageEdit;

verus! {

/// `row` keeps the earlier content `old` of message `message_id`, edited at `edited_at`,
/// under a fresh v4 id.
pub open spec fn is_edit_row(row: MessageEdit, message_id: u64, old: Seq<char>, edited_at: i64) -> bool {
    &&& is_v4_uuid(row.id)
    &&& row.message_id == db_key(message_id)
    &&& row.old_content@ == old
    &&& row.edited_at == edited_at
}

/// The row that keeps the earlier content of an edited message.
pub fn edit_row(message_id: u64, old: String, edited_at: i64) -> (row: MessageEdit)
    ensures
        is_edit_row(row, message_id, old@, edited_at),
{
    MessageEdit { id: new_uuid(), message_id: to_db_key(message_id), old_content: old, edited_at }
}

/// Why handling an edit failed.
#[derive(PartialEq, Eq, Structural, Clone, Copy, Debug)]
pub enum EditError {
    /// The step just performed failed; its own error is the one to report.
    StepFailed,
    /// The edited message has no stored row.
    NotStored,
}

/// Where the handling of an edit stands.
pub enum EditStage {
    Start,
    IngestingMessage,
    FindingContent,
    InsertingEdit,
    Updating,
    Done(Result<(), EditError>),
}

/// What the step just performed answered.
pub enum EditEvent {
    Begin,
    Succeeded,
    Failed,
    /// The lookup answered the stored content of the message, if it is stored.
    Content(Option<String>),
}

/// The next step to perform.
pub enum EditAction {
    /// Store the message if it is not stored yet (see [`crate::ingest::ingest_step`]).
    IngestMessage,
    /// Look up the stored content of the message with this key.
    FindContent(i64),
    InsertEdit(MessageEdit),
    /// Set the content of message `.0` to `.1` and its last edit to `.2`.
    UpdateMessage(i64, String, i64),
    Finish(Result<(), EditError>),
}

/// Ending with `r`.
pub open spec fn edit_finishes(r: Result<(), EditError>, next: EditStage, action: EditAction) -> bool {
    &&& next == EditStage::Done(r)
    &&& action == EditAction::Finish(r)
}

/// One step of handling the edit of message `m`. The message is stored first. When it
/// carries an edit instant, the stored content is kept as an earlier version with that
/// instant, and the stored message then takes the new content and edit instant. A message
/// without an edit instant changes nothing more. Any failed step fails the handling, and
/// so does a message that is still not stored.
pub open spec fn edit_step_spec(
    m: IncomingMessage,
    stage: EditStage,
    event: EditEvent,
    next: EditStage,
    action: EditAction,
) -> bool {
    let failed = edit_finishes(Err(EditError::StepFailed), next, action);
    match stage {
        EditStage::Start => next == EditStage::IngestingMessage && action == EditAction::IngestMessage,
        EditStage::IngestingMessage => match event {
            EditEvent::Succeeded => match m.edited_at {
                Some(_) => next == EditStage::FindingContent && action == EditAction::FindContent(
                    db_key(m.id),
                ),
                None => edit_finishes(Ok(()), next, action),
            },
            _ => failed,
        },
        EditStage::FindingContent => match event {
            EditEvent::Content(Some(old)) => {
                &&& next == EditStage::InsertingEdit
                &&& action matches EditAction::InsertEdit(row) && is_edit_row(
                    row,
                    m.id,
                    old@,
                    m.edited_at->0,
                )
            },
            EditEvent::Content(None) => edit_finishes(Err(EditError::NotStored), next, action),
            _ => failed,
        },
        EditStage::InsertingEdit => match event {
            EditEvent::Succeeded => {
                &&& next == EditStage::Updating
                &&& action matches EditAction::UpdateMessage(k, c, t) && k == db_key(m.id) && c@
                    == m.content@ && t == m.edited_at->0
            },
            _ => failed,
        },
        EditStage::Updating => match event {
            EditEvent::Succeeded => edit_finishes(Ok(()), next, action),
            _ => failed,
        },
        EditStage::Done(r) => edit_finishes(r, next, action),
    }
}

/// The stages at which the message is known to carry an edit instant.
pub open spec fn edit_stage_ok(m: IncomingMessage, stage: EditStage) -> bool {
    (stage is FindingContent || stage is InsertingEdit || stage is Updating) ==> m.edited_at is Some
}

fn edit_finish(r: Result<(), EditError>) -> (out: (EditStage, EditAction))
    ensures
        edit_finishes(r, out.0, out.1),
{
    (EditStage::Done(r), EditAction::Finish(r))
}

/// One step of handling the edit of message `m`: from `stage`, on the answer `event` of the
/// step last performed, the next stage and the next step to perform.
pub fn edit_step(m: &IncomingMessage, stage: EditStage, event: EditEvent) -> (out: (EditStage, EditAction))
    requires
        edit_stage_ok(*m, stage),
    ensures
        edit_step_spec(*m, stage, event, out.0, out.1),
        edit_stage_ok(*m, out.0),
{
    let edited_at = match m.edited_at {
        Some(t) => t,
        None => 0,
    };
    match stage {
        EditStage::Start => (EditStage::IngestingMessage, EditAction::IngestMessage),
        EditStage::IngestingMessage => match event {
            EditEvent::Succeeded => match m.edited_at {
                Some(_) => (EditStage::FindingContent, EditAction::FindContent(to_db_key(m.id))),
                None => edit_finish(Ok(())),
            },
            _ => edit_finish(Err(EditError::StepFailed)),
        },
        EditStage::FindingContent => match event {
            EditEvent::Content(Some(old)) => (
                EditStage::InsertingEdit,
                EditAction::InsertEdit(edit_row(m.id, old, edited_at)),
            ),
            EditEvent::Content(None) => edit_finish(Err(EditError::NotStored)),
            _ => edit_finish(Err(EditError::StepFailed)),
        },
        EditStage::InsertingEdit => match event {
            EditEvent::Succeeded => (
                EditStage::Updating,
                EditAction::UpdateMessage(to_db_key(m.id), m.content.clone(), edited_at),
            ),
            _ => edit_finish(Err(EditError::StepFailed)),
        },
        EditStage::Updating => match event {
            EditEvent::Succeeded => edit_finish(Ok(())),
            _ => edit_finish(Err(EditError::StepFailed)),
        },
        EditStage::Done(r) => edit_finish(r),
    }
}

/// An edit keeps what it replaces: the earlier version inserted is the content that was
/// stored, and only after it is kept does the stored message take the new content and
/// the edit instant.
pub proof fn law_edit_keeps_earlier_version(
    m: IncomingMessage,
    old: String,
    s1: EditStage,
    a1: EditAction,
    s2: EditStage,
    a2: EditAction,
)
    requires
        edit_stage_ok(m, EditStage::FindingContent),
        edit_step_spec(m, EditStage::FindingContent, EditEvent::Content(Some(old)), s1, a1),
        edit_step_spec(m, s1, EditEvent::Succeeded, s2, a2),
    ensures
        a1 matches EditAction::InsertEdit(row) && is_edit_row(row, m.id, old@, m.edited_at->0),
        a2 matches EditAction::UpdateMessage(k, c, t) && k == db_key(m.id) && c@ == m.content@
            && t == m.edited_at->0,
{
}

/// The stored message is only updated after its earlier version was kept, and a message
/// without an edit instant is only stored, nothing more.
pub proof fn law_update_only_after_keeping(
    m: IncomingMessage,
    stage: EditStage,
    event: EditEvent,
    next: EditStage,
    action: EditAction,
)
    requires
        edit_step_spec(m, stage, event, next, action),
    ensures
        action is UpdateMessage ==> stage is InsertingEdit && event is Succeeded,
        m.edited_at is None && stage is IngestingMessage ==> action is Finish,
{
}

} // verus!
