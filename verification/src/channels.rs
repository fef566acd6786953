//! Guild channels: the row recorded for a channel, and the steps that record a channel
//! together with the chain of its parents, root first.
//!
//! Database calls and Discord requests are performed by the caller; the decisions between
//! them are made by [`channel_step`].

use vstd::prelude::*;
use crate::ingest::{db_key, to_db_key};
use crate::model::{DiscordChannel, DiscordChannelType};

verus! {

/// A guild channel as Discord describes it, reduced to what is recorded of it.
pub struct GuildChannelInfo {
    pub id: u64,
    pub name: String,
    /// Discord's wire code of the channel's type.
    pub kind: u8,
    pub parent_id: Option<u64>,
}

/// The recorded type of a channel with Discord type code `code`; types the database does
/// not know (direct messages, group messages, unknown codes) are recorded as text.
pub open spec fn channel_type_of(code: u8) -> DiscordChannelType {
    match code {
        2 => DiscordChannelType::Voice,
        4 => DiscordChannelType::Category,
        5 => DiscordChannelType::News,
        10 => DiscordChannelType::NewsThread,
        11 => DiscordChannelType::PublicThread,
        12 => DiscordChannelType::PrivateThread,
        13 => DiscordChannelType::Stage,
        14 => DiscordChannelType::Directory,
        15 => DiscordChannelType::Forum,
        _ => DiscordChannelType::Text,
    }
}

/// The recorded type of a channel with Discord type code `code`.
pub fn channel_type_from_code(code: u8) -> (t: DiscordChannelType)
    ensures
        t == channel_type_of(code),
{
    match code {
        2 => DiscordChannelType::Voice,
        4 => DiscordChannelType::Category,
        5 => DiscordChannelType::News,
        10 => DiscordChannelType::NewsThread,
        11 => DiscordChannelType::PublicThread,
        12 => DiscordChannelType::PrivateThread,
        13 => DiscordChannelType::Stage,
        14 => DiscordChannelType::Directory,
        15 => DiscordChannelType::Forum,
        _ => DiscordChannelType::Text,
    }
}

/// `row` is the row recorded for channel `c`.
pub open spec fn is_channel_row(row: DiscordChannel, c: GuildChannelInfo) -> bool {
    &&& row.channel_id == db_key(c.id)
    &&& row.name@ == c.name@
    &&& row.channel_type == channel_type_of(c.kind)
    &&& row.parent_channel_id == match c.parent_id {
        Some(p) => Some(db_key(p)),
        None => None::<i64>,
    }
}

/// The row recorded for channel `c`.
pub fn channel_row(c: &GuildChannelInfo) -> (row: DiscordChannel)
    ensures
        is_channel_row(row, *c),
{
    DiscordChannel {
        channel_id: to_db_key(c.id),
        name: c.name.clone(),
        channel_type: channel_type_from_code(c.kind),
        parent_channel_id: match c.parent_id {
            Some(p) => Some(to_db_key(p)),
            None => None,
        },
    }
}

/// `rows` are the rows of `chain` (a channel, then its parent, then that one's parent...)
/// in the opposite order: the root first, the channel itself last.
pub open spec fn are_rows_root_first(rows: Seq<DiscordChannel>, chain: Seq<GuildChannelInfo>) -> bool {
    &&& rows.len() == chain.len()
    &&& forall|i: int| 0 <= i < rows.len() ==> is_channel_row(#[trigger] rows[i], chain[chain.len() - 1 - i])
}

/// The rows of a chain of channels, root first.
pub fn rows_root_first(chain: &Vec<GuildChannelInfo>) -> (rows: Vec<DiscordChannel>)
    ensures
        are_rows_root_first(rows@, chain@),
{
    let mut rows: Vec<DiscordChannel> = Vec::new();
    let n = chain.len();
    let mut k: usize = n;
    while k > 0
        invariant
            n == chain@.len(),
            k <= n,
            rows@.len() == n - k,
            forall|i: int| 0 <= i < rows@.len() ==> is_channel_row(#[trigger] rows@[i], chain@[n - 1 - i]),
        decreases k,
    {
        k -= 1;
        rows.push(channel_row(&chain[k]));
    }
    rows
}

/// Each channel of `chain` after the first is the parent of the one before it.
pub open spec fn is_parent_chain(chain: Seq<GuildChannelInfo>) -> bool {
    forall|j: int| 0 <= j < chain.len() - 1 ==> (#[trigger] chain[j]).parent_id == Some(chain[j + 1].id)
}

/// Recorded root first, every channel's parent is recorded before it: each row after the
/// first names the row just before it as its parent.
pub proof fn law_parents_recorded_first(chain: Seq<GuildChannelInfo>, rows: Seq<DiscordChannel>)
    requires
        is_parent_chain(chain),
        are_rows_root_first(rows, chain),
    ensures
        forall|i: int| 0 < i < rows.len() ==> (#[trigger] rows[i]).parent_channel_id == Some(rows[i - 1].channel_id),
{
    assert forall|i: int| 0 < i < rows.len() implies (#[trigger] rows[i]).parent_channel_id == Some(rows[i - 1].channel_id) by {
        let j = chain.len() - 1 - i;
        assert(is_channel_row(rows[i], chain[j]));
        assert(is_channel_row(rows[i - 1], chain[j + 1]));
        assert(chain[j].parent_id == Some(chain[j + 1].id));
    }
}

/// Why recording a channel failed.
#[derive(PartialEq, Eq, Structural, Clone, Copy, Debug)]
pub enum ChannelError {
    /// The step just performed failed; its own error is the one to report.
    StepFailed,
    /// The channel is not a guild channel.
    NotGuildChannel,
}

/// Where the recording of a channel stands.
pub enum ChannelStage {
    Start,
    Checking,
    FetchingChannel,
    /// The parent of the last channel of the chain is being fetched.
    FetchingParent(Vec<GuildChannelInfo>),
    Inserting,
    Done(Result<(), ChannelError>),
}

/// What the step just performed answered.
pub enum ChannelEvent {
    Begin,
    /// The lookup answered whether the channel's row exists.
    Found(bool),
    /// Discord answered the channel: `Some` for a guild channel, `None` for another kind.
    Fetched(Option<GuildChannelInfo>),
    Succeeded,
    Failed,
}

/// The next step to perform.
pub enum ChannelAction {
    /// Look up the channel row with this key.
    FindChannel(i64),
    /// Fetch the channel with this id from Discord.
    FetchChannel(u64),
    /// Insert these rows in order; a failed insert is only reported.
    InsertAll(Vec<DiscordChannel>),
    Finish(Result<(), ChannelError>),
}

/// Ending with `r`.
pub open spec fn channel_finishes(r: Result<(), ChannelError>, next: ChannelStage, action: ChannelAction) -> bool {
    &&& next == ChannelStage::Done(r)
    &&& action == ChannelAction::Finish(r)
}

/// Going on from the chain `chain`: fetch the parent of its last channel, or, at the root,
/// insert the chain root first.
pub open spec fn continues_chain(chain: Seq<GuildChannelInfo>, next: ChannelStage, action: ChannelAction) -> bool {
    match chain.last().parent_id {
        Some(p) => {
            &&& next matches ChannelStage::FetchingParent(c) && c@ == chain
            &&& action == ChannelAction::FetchChannel(p)
        },
        None => inserts_chain(chain, next, action),
    }
}

/// Inserting the chain `chain` root first.
pub open spec fn inserts_chain(chain: Seq<GuildChannelInfo>, next: ChannelStage, action: ChannelAction) -> bool {
    &&& next == ChannelStage::Inserting
    &&& action matches ChannelAction::InsertAll(rows) && are_rows_root_first(rows@, chain)
}

/// One step of recording channel `channel_id`. A channel already recorded is left alone.
/// Otherwise it is fetched (a failure, or a channel that is not a guild channel, fails the
/// recording), then its parents one by one up to the root; a parent that cannot be
/// fetched, or is not a guild channel, ends the chain there. The chain is then inserted
/// root first, and the recording succeeds whatever the inserts answer.
pub open spec fn channel_step_spec(
    channel_id: u64,
    stage: ChannelStage,
    event: ChannelEvent,
    next: ChannelStage,
    action: ChannelAction,
) -> bool {
    match stage {
        ChannelStage::Start => next == ChannelStage::Checking && action == ChannelAction::FindChannel(
            db_key(channel_id),
        ),
        ChannelStage::Checking => match event {
            ChannelEvent::Found(true) => channel_finishes(Ok(()), next, action),
            ChannelEvent::Found(false) => next == ChannelStage::FetchingChannel && action
                == ChannelAction::FetchChannel(channel_id),
            _ => channel_finishes(Err(ChannelError::StepFailed), next, action),
        },
        ChannelStage::FetchingChannel => match event {
            ChannelEvent::Fetched(Some(c)) => continues_chain(seq![c], next, action),
            ChannelEvent::Fetched(None) => channel_finishes(
                Err(ChannelError::NotGuildChannel),
                next,
                action,
            ),
            _ => channel_finishes(Err(ChannelError::StepFailed), next, action),
        },
        ChannelStage::FetchingParent(chain) => match event {
            ChannelEvent::Fetched(Some(c)) => continues_chain(chain@.push(c), next, action),
            _ => inserts_chain(chain@, next, action),
        },
        ChannelStage::Inserting => channel_finishes(Ok(()), next, action),
        ChannelStage::Done(r) => channel_finishes(r, next, action),
    }
}

/// The stages whose chain is not empty.
pub open spec fn channel_stage_ok(stage: ChannelStage) -> bool {
    stage matches ChannelStage::FetchingParent(chain) ==> chain@.len() > 0
}

fn channel_finish(r: Result<(), ChannelError>) -> (out: (ChannelStage, ChannelAction))
    ensures
        channel_finishes(r, out.0, out.1),
{
    (ChannelStage::Done(r), ChannelAction::Finish(r))
}

fn insert_chain(chain: Vec<GuildChannelInfo>) -> (out: (ChannelStage, ChannelAction))
    ensures
        inserts_chain(chain@, out.0, out.1),
{
    let rows = rows_root_first(&chain);
    (ChannelStage::Inserting, ChannelAction::InsertAll(rows))
}

fn continue_chain(chain: Vec<GuildChannelInfo>) -> (out: (ChannelStage, ChannelAction))
    requires
        chain@.len() > 0,
    ensures
        continues_chain(chain@, out.0, out.1),
        channel_stage_ok(out.0),
{
    let last = chain.len() - 1;
    match chain[last].parent_id {
        Some(p) => (ChannelStage::FetchingParent(chain), ChannelAction::FetchChannel(p)),
        None => insert_chain(chain),
    }
}

/// One step of recording channel `channel_id`: from `stage`, on the answer `event` of the
/// step last performed, the next stage and the next step to perform.
pub fn channel_step(channel_id: u64, stage: ChannelStage, event: ChannelEvent) -> (out: (
    ChannelStage,
    ChannelAction,
))
    requires
        channel_stage_ok(stage),
    ensures
        channel_step_spec(channel_id, stage, event, out.0, out.1),
        channel_stage_ok(out.0),
{
    match stage {
        ChannelStage::Start => (ChannelStage::Checking, ChannelAction::FindChannel(to_db_key(channel_id))),
        ChannelStage::Checking => match event {
            ChannelEvent::Found(true) => channel_finish(Ok(())),
            ChannelEvent::Found(false) => (ChannelStage::FetchingChannel, ChannelAction::FetchChannel(channel_id)),
            _ => channel_finish(Err(ChannelError::StepFailed)),
        },
        ChannelStage::FetchingChannel => match event {
            ChannelEvent::Fetched(Some(c)) => {
                let mut chain: Vec<GuildChannelInfo> = Vec::new();
                chain.push(c);
                assert(chain@ =~= seq![c]);
                continue_chain(chain)
            },
            ChannelEvent::Fetched(None) => channel_finish(Err(ChannelError::NotGuildChannel)),
            _ => channel_finish(Err(ChannelError::StepFailed)),
        },
        ChannelStage::FetchingParent(chain) => match event {
            ChannelEvent::Fetched(Some(c)) => {
                let mut chain = chain;
                chain.push(c);
                continue_chain(chain)
            },
            _ => insert_chain(chain),
        },
        ChannelStage::Inserting => channel_finish(Ok(())),
        ChannelStage::Done(r) => channel_finish(r),
    }
}

/// The Discord channel type codes the database knows.
pub open spec fn known_channel_code(code: u8) -> bool {
    code == 0 || code == 2 || code == 4 || code == 5 || (10 <= code && code <= 15)
}

/// Each channel type the database knows keeps its own recorded type: two different known
/// codes are never recorded alike, text channels (code 0) and announcement channels
/// (code 5) are recorded as text and news, and only codes the database does not know fall
/// back to text.
pub proof fn law_channel_types_kept_apart(c1: u8, c2: u8)
    ensures
        known_channel_code(c1) && known_channel_code(c2) && c1 != c2 ==> channel_type_of(c1)
            != channel_type_of(c2),
        !known_channel_code(c1) ==> channel_type_of(c1) == DiscordChannelType::Text,
        channel_type_of(0) == DiscordChannelType::Text,
        channel_type_of(5) == DiscordChannelType::News,
{
}

} // verus!
