//! Reactions to messages: the row recorded for a reaction, and the steps that record an
//! added reaction or forget a removed one.
//!
//! Database calls and Discord requests are performed by the caller; the decisions between
//! them are made by [`reaction_step`].

use vstd::prelude::*;
use crate::ids::{new_uuid, is_v4_uuid};
use crate::ingest::{db_key, to_db_key};
use crate::emoji::{ReactionEmoji, emoji_key, emoji_key_text};
use crate::model::MessageReaction;

verus! {

/// `row` records that user `user_id` reacted to message `message_id` with the emoji row
/// `emoji` at `now`, under a fresh v4 id.
pub open spec fn is_reaction_row(row: MessageReaction, message_id: u64, user_id: u64, emoji: Option<u128>, now: i64) -> bool {
    &&& is_v4_uuid(row.id)
    &&& row.message_id == db_key(message_id)
    &&& row.user_id == db_key(user_id)
    &&& row.emoji_id == emoji
    &&& row.reacted_at == now
}

/// The row that records a reaction.
pub fn reaction_row(message_id: u64, user_id: u64, emoji: Option<u128>, now: i64) -> (row: MessageReaction)
    ensures
        is_reaction_row(row, message_id, user_id, emoji, now),
{
    MessageReaction {
        id: new_uuid(),
        message_id: to_db_key(message_id),
        user_id: to_db_key(user_id),
        emoji_id: emoji,
        reacted_at: now,
    }
}

/// A reaction event as it arrives.
pub struct ReactionInfo {
    pub channel_id: u64,
    pub message_id: u64,
    /// The reacting user; Discord may leave it out.
    pub user_id: Option<u64>,
    pub guild_id: Option<u64>,
    pub emoji: ReactionEmoji,
}

/// Whether a reaction was added or removed.
#[derive(PartialEq, Eq, Structural, Clone, Copy, Debug)]
pub enum ReactionChange {
    Added,
    Removed,
}

/// Why handling a reaction failed: the step just performed failed, and its error is the one
/// to report.
#[derive(PartialEq, Eq, Structural, Clone, Copy, Debug)]
pub struct ReactionFailure;

/// Where the handling of a reaction stands.
pub enum ReactionStage {
    Start,
    FetchingMessage,
    IngestingMessage,
    ResolvingEmoji,
    FindingEmoji,
    Changing,
    Done(Result<(), ReactionFailure>),
}

/// What the step just performed answered.
pub enum ReactionEvent {
    Begin,
    Succeeded,
    Failed,
    /// The emoji was resolved (or looked up) to this emoji row id.
    Emoji(Option<u128>),
}

/// The next step to perform.
pub enum ReactionAction {
    /// Fetch message `.1` of channel `.0` from Discord.
    FetchMessage(u64, u64),
    /// Store the fetched message (see [`crate::ingest::ingest_step`]).
    IngestMessage,
    /// Resolve the reaction's emoji to its row, recording it if new (see
    /// [`crate::emoji::emoji_step`]).
    ResolveEmoji,
    /// Look up the emoji row with this key, without recording it.
    FindEmoji(String),
    InsertReaction(MessageReaction),
    /// Delete the reactions of user `.1` to message `.0` with emoji row `.2`.
    DeleteReaction(i64, i64, u128),
    Finish(Result<(), ReactionFailure>),
}

/// Ending with `r`.
pub open spec fn reaction_finishes(r: Result<(), ReactionFailure>, next: ReactionStage, action: ReactionAction) -> bool {
    &&& next == ReactionStage::Done(r)
    &&& action == ReactionAction::Finish(r)
}

/// One step of handling reaction `r` (decided at `now`). A reaction without a user is
/// ignored. Otherwise its message is fetched and stored first. An added reaction then has
/// its emoji resolved (recorded if new) and a reaction row inserted. A removed reaction
/// has its emoji looked up by key (a reaction of unknown kind, or an emoji never
/// recorded, leaves nothing to delete) and the matching reaction rows deleted. Any failed
/// step fails the handling.
pub open spec fn reaction_step_spec(
    change: ReactionChange,
    r: ReactionInfo,
    stage: ReactionStage,
    event: ReactionEvent,
    now: i64,
    next: ReactionStage,
    action: ReactionAction,
) -> bool {
    let failed = reaction_finishes(Err(ReactionFailure), next, action);
    match stage {
        ReactionStage::Start => match r.user_id {
            None => reaction_finishes(Ok(()), next, action),
            Some(_) => next == ReactionStage::FetchingMessage && action
                == ReactionAction::FetchMessage(r.channel_id, r.message_id),
        },
        ReactionStage::FetchingMessage => match event {
            ReactionEvent::Succeeded => next == ReactionStage::IngestingMessage && action
                == ReactionAction::IngestMessage,
            _ => failed,
        },
        ReactionStage::IngestingMessage => match event {
            ReactionEvent::Succeeded => match change {
                ReactionChange::Added => next == ReactionStage::ResolvingEmoji && action
                    == ReactionAction::ResolveEmoji,
                ReactionChange::Removed => match emoji_key(r.emoji) {
                    Some(k) => {
                        &&& next == ReactionStage::FindingEmoji
                        &&& action matches ReactionAction::FindEmoji(t) && t@ == k
                    },
                    None => reaction_finishes(Ok(()), next, action),
                },
            },
            _ => failed,
        },
        ReactionStage::ResolvingEmoji => match event {
            ReactionEvent::Emoji(e) => {
                &&& next == ReactionStage::Changing
                &&& action matches ReactionAction::InsertReaction(row) && is_reaction_row(
                    row,
                    r.message_id,
                    r.user_id->0,
                    e,
                    now,
                )
            },
            _ => failed,
        },
        ReactionStage::FindingEmoji => match event {
            ReactionEvent::Emoji(Some(e)) => next == ReactionStage::Changing && action
                == ReactionAction::DeleteReaction(db_key(r.message_id), db_key(r.user_id->0), e),
            ReactionEvent::Emoji(None) => reaction_finishes(Ok(()), next, action),
            _ => failed,
        },
        ReactionStage::Changing => match event {
            ReactionEvent::Succeeded => reaction_finishes(Ok(()), next, action),
            _ => failed,
        },
        ReactionStage::Done(res) => reaction_finishes(res, next, action),
    }
}

/// The stages that are reached: all after the start know the reacting user; an added
/// reaction resolves its emoji, a removed one finds it.
pub open spec fn reaction_stage_ok(change: ReactionChange, r: ReactionInfo, stage: ReactionStage) -> bool {
    &&& !(stage is Start || stage is Done) ==> r.user_id is Some
    &&& stage is ResolvingEmoji ==> change == ReactionChange::Added
    &&& stage is FindingEmoji ==> change == ReactionChange::Removed
}

fn reaction_finish(res: Result<(), ReactionFailure>) -> (out: (ReactionStage, ReactionAction))
    ensures
        reaction_finishes(res, out.0, out.1),
{
    (ReactionStage::Done(res), ReactionAction::Finish(res))
}

/// One step of handling reaction `r`: from `stage`, on the answer `event` of the step last
/// performed, the next stage and the next step to perform.
pub fn reaction_step(
    change: ReactionChange,
    r: &ReactionInfo,
    stage: ReactionStage,
    event: ReactionEvent,
    now: i64,
) -> (out: (ReactionStage, ReactionAction))
    requires
        reaction_stage_ok(change, *r, stage),
    ensures
        reaction_step_spec(change, *r, stage, event, now, out.0, out.1),
        reaction_stage_ok(change, *r, out.0),
{
    let user = match r.user_id {
        Some(u) => u,
        None => 0,
    };
    match stage {
        ReactionStage::Start => match r.user_id {
            None => reaction_finish(Ok(())),
            Some(_) => (ReactionStage::FetchingMessage, ReactionAction::FetchMessage(
                r.channel_id,
                r.message_id,
            )),
        },
        ReactionStage::FetchingMessage => match event {
            ReactionEvent::Succeeded => (ReactionStage::IngestingMessage, ReactionAction::IngestMessage),
            _ => reaction_finish(Err(ReactionFailure)),
        },
        ReactionStage::IngestingMessage => match event {
            ReactionEvent::Succeeded => match change {
                ReactionChange::Added => (ReactionStage::ResolvingEmoji, ReactionAction::ResolveEmoji),
                ReactionChange::Removed => match emoji_key_text(&r.emoji) {
                    Some(k) => (ReactionStage::FindingEmoji, ReactionAction::FindEmoji(k)),
                    None => reaction_finish(Ok(())),
                },
            },
            _ => reaction_finish(Err(ReactionFailure)),
        },
        ReactionStage::ResolvingEmoji => match event {
            ReactionEvent::Emoji(e) => (
                ReactionStage::Changing,
                ReactionAction::InsertReaction(reaction_row(r.message_id, user, e, now)),
            ),
            _ => reaction_finish(Err(ReactionFailure)),
        },
        ReactionStage::FindingEmoji => match event {
            ReactionEvent::Emoji(Some(e)) => (
                ReactionStage::Changing,
                ReactionAction::DeleteReaction(to_db_key(r.message_id), to_db_key(user), e),
            ),
            ReactionEvent::Emoji(None) => reaction_finish(Ok(())),
            _ => reaction_finish(Err(ReactionFailure)),
        },
        ReactionStage::Changing => match event {
            ReactionEvent::Succeeded => reaction_finish(Ok(())),
            _ => reaction_finish(Err(ReactionFailure)),
        },
        ReactionStage::Done(res) => reaction_finish(res),
    }
}

/// A reaction is recorded or forgotten only after its message is stored: the reaction row
/// is inserted, or deleted, only at the stages that follow storing the message, and an
/// inserted row names the reaction's message and user.
pub proof fn law_reaction_after_message(
    change: ReactionChange,
    r: ReactionInfo,
    stage: ReactionStage,
    event: ReactionEvent,
    now: i64,
    next: ReactionStage,
    action: ReactionAction,
)
    requires
        reaction_step_spec(change, r, stage, event, now, next, action),
        reaction_stage_ok(change, r, stage),
        action is InsertReaction || action is DeleteReaction,
    ensures
        stage is ResolvingEmoji || stage is FindingEmoji,
        action is InsertReaction ==> change == ReactionChange::Added && stage is ResolvingEmoji
            && action->InsertReaction_0.message_id == db_key(r.message_id)
            && action->InsertReaction_0.user_id == db_key(r.user_id->0),
        action is DeleteReaction ==> change == ReactionChange::Removed,
{
}

/// A reaction without a user is ignored: handling it ends at once, successfully.
pub proof fn law_userless_reaction_ignored(
    change: ReactionChange,
    r: ReactionInfo,
    event: ReactionEvent,
    now: i64,
    next: ReactionStage,
    action: ReactionAction,
)
    requires
        reaction_step_spec(change, r, ReactionStage::Start, event, now, next, action),
        r.user_id is None,
    ensures
        action == ReactionAction::Finish(Ok::<(), ReactionFailure>(())),
{
}

} // verus!
