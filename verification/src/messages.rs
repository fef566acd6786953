//! Turning Discord messages into stored message rows.

use vstd::prelude::*;
use crate::model::Message;

verus! {

/// The type of a Discord message (its wire code names it).
#[derive(PartialEq, Eq, Structural, Clone, Copy, Debug)]
pub enum MessageKind {
    Regular,
    GroupRecipientAddition,
    GroupRecipientRemoval,
    GroupCallCreation,
    GroupNameUpdate,
    GroupIconUpdate,
    PinsAdd,
    MemberJoin,
    NitroBoost,
    NitroTier1,
    NitroTier2,
    NitroTier3,
    ChannelFollowAdd,
    GuildDiscoveryDisqualified,
    GuildDiscoveryRequalified,
    GuildDiscoveryGracePeriodInitialWarning,
    GuildDiscoveryGracePeriodFinalWarning,
    ThreadCreated,
    InlineReply,
    ChatInputCommand,
    ThreadStarterMessage,
    GuildInviteReminder,
    ContextMenuCommand,
    AutoModAction,
    RoleSubscriptionPurchase,
    InteractionPremiumUpsell,
    StageStart,
    StageEnd,
    StageSpeaker,
    StageTopic,
    GuildApplicationPremiumSubscription,
    GuildIncidentAlertModeEnabled,
    GuildIncidentAlertModeDisabled,
    GuildIncidentReportRaid,
    GuildIncidentReportFalseAlarm,
    PurchaseNotification,
    /// A type this library does not know, with its code.
    Unknown(u8),
}

/// The message type with wire code `code`.
pub fn kind_from_code(code: u8) -> (k: MessageKind)
    ensures
        k == kind_of_code(code),
{
    match code {
        0 => MessageKind::Regular,
        1 => MessageKind::GroupRecipientAddition,
        2 => MessageKind::GroupRecipientRemoval,
        3 => MessageKind::GroupCallCreation,
        4 => MessageKind::GroupNameUpdate,
        5 => MessageKind::GroupIconUpdate,
        6 => MessageKind::PinsAdd,
        7 => MessageKind::MemberJoin,
        8 => MessageKind::NitroBoost,
        9 => MessageKind::NitroTier1,
        10 => MessageKind::NitroTier2,
        11 => MessageKind::NitroTier3,
        12 => MessageKind::ChannelFollowAdd,
        14 => MessageKind::GuildDiscoveryDisqualified,
        15 => MessageKind::GuildDiscoveryRequalified,
        16 => MessageKind::GuildDiscoveryGracePeriodInitialWarning,
        17 => MessageKind::GuildDiscoveryGracePeriodFinalWarning,
        18 => MessageKind::ThreadCreated,
        19 => MessageKind::InlineReply,
        20 => MessageKind::ChatInputCommand,
        21 => MessageKind::ThreadStarterMessage,
        22 => MessageKind::GuildInviteReminder,
        23 => MessageKind::ContextMenuCommand,
        24 => MessageKind::AutoModAction,
        25 => MessageKind::RoleSubscriptionPurchase,
        26 => MessageKind::InteractionPremiumUpsell,
        27 => MessageKind::StageStart,
        28 => MessageKind::StageEnd,
        29 => MessageKind::StageSpeaker,
        31 => MessageKind::StageTopic,
        32 => MessageKind::GuildApplicationPremiumSubscription,
        36 => MessageKind::GuildIncidentAlertModeEnabled,
        37 => MessageKind::GuildIncidentAlertModeDisabled,
        38 => MessageKind::GuildIncidentReportRaid,
        39 => MessageKind::GuildIncidentReportFalseAlarm,
        44 => MessageKind::PurchaseNotification,
        _ => MessageKind::Unknown(code),
    }
}

/// The message type with wire code `code`.
pub open spec fn kind_of_code(code: u8) -> MessageKind {
    match code {
        0 => MessageKind::Regular,
        1 => MessageKind::GroupRecipientAddition,
        2 => MessageKind::GroupRecipientRemoval,
        3 => MessageKind::GroupCallCreation,
        4 => MessageKind::GroupNameUpdate,
        5 => MessageKind::GroupIconUpdate,
        6 => MessageKind::PinsAdd,
        7 => MessageKind::MemberJoin,
        8 => MessageKind::NitroBoost,
        9 => MessageKind::NitroTier1,
        10 => MessageKind::NitroTier2,
        11 => MessageKind::NitroTier3,
        12 => MessageKind::ChannelFollowAdd,
        14 => MessageKind::GuildDiscoveryDisqualified,
        15 => MessageKind::GuildDiscoveryRequalified,
        16 => MessageKind::GuildDiscoveryGracePeriodInitialWarning,
        17 => MessageKind::GuildDiscoveryGracePeriodFinalWarning,
        18 => MessageKind::ThreadCreated,
        19 => MessageKind::InlineReply,
        20 => MessageKind::ChatInputCommand,
        21 => MessageKind::ThreadStarterMessage,
        22 => MessageKind::GuildInviteReminder,
        23 => MessageKind::ContextMenuCommand,
        24 => MessageKind::AutoModAction,
        25 => MessageKind::RoleSubscriptionPurchase,
        26 => MessageKind::InteractionPremiumUpsell,
        27 => MessageKind::StageStart,
        28 => MessageKind::StageEnd,
        29 => MessageKind::StageSpeaker,
        31 => MessageKind::StageTopic,
        32 => MessageKind::GuildApplicationPremiumSubscription,
        36 => MessageKind::GuildIncidentAlertModeEnabled,
        37 => MessageKind::GuildIncidentAlertModeDisabled,
        38 => MessageKind::GuildIncidentReportRaid,
        39 => MessageKind::GuildIncidentReportFalseAlarm,
        44 => MessageKind::PurchaseNotification,
        _ => MessageKind::Unknown(code),
    }
}

/// The text stored in place of a system message's content (joins, boosts, pins, ...);
/// `None` for regular messages, replies, commands and unknown types, whose own content is kept.
pub open spec fn system_text(kind: MessageKind, author: Seq<char>) -> Option<Seq<char>> {
    match kind {
        MessageKind::Regular => None,
        MessageKind::GroupRecipientAddition => Some(author + " added a recipient to the group"@),
        MessageKind::GroupRecipientRemoval => Some(author + " removed a recipient from the group"@),
        MessageKind::GroupCallCreation => Some(author + " started a call"@),
        MessageKind::GroupNameUpdate => Some(author + " changed the group name"@),
        MessageKind::GroupIconUpdate => Some(author + " changed the group icon"@),
        MessageKind::PinsAdd => Some(author + " pinned a message"@),
        MessageKind::MemberJoin => Some("user "@ + author + " joined the server"@),
        MessageKind::NitroBoost => Some(author + " boosted the server"@),
        MessageKind::NitroTier1 => Some("the server reached Nitro Boost tier 1"@),
        MessageKind::NitroTier2 => Some("the server reached Nitro Boost tier 2"@),
        MessageKind::NitroTier3 => Some("the server reached Nitro Boost tier 3"@),
        MessageKind::ChannelFollowAdd => Some(author + " followed a news channel"@),
        MessageKind::GuildDiscoveryDisqualified => Some("the server was disqualified from Discovery"@),
        MessageKind::GuildDiscoveryRequalified => Some("the server was requalified for Discovery"@),
        MessageKind::GuildDiscoveryGracePeriodInitialWarning => Some("initial Discovery grace period warning"@),
        MessageKind::GuildDiscoveryGracePeriodFinalWarning => Some("final Discovery grace period warning"@),
        MessageKind::ThreadCreated => Some(author + " created a thread"@),
        MessageKind::InlineReply => None,
        MessageKind::ChatInputCommand => None,
        MessageKind::ThreadStarterMessage => Some("[thread starter message]"@),
        MessageKind::GuildInviteReminder => Some("[guild invite reminder]"@),
        MessageKind::ContextMenuCommand => None,
        MessageKind::AutoModAction => Some("[auto-moderation action]"@),
        MessageKind::RoleSubscriptionPurchase => Some(author + " purchased a role subscription"@),
        MessageKind::InteractionPremiumUpsell => Some("[interaction premium upsell]"@),
        MessageKind::StageStart => Some("[stage started]"@),
        MessageKind::StageEnd => Some("[stage ended]"@),
        MessageKind::StageSpeaker => Some(author + " is now a stage speaker"@),
        MessageKind::StageTopic => Some("[stage topic changed]"@),
        MessageKind::GuildApplicationPremiumSubscription => Some("[application premium subscription]"@),
        MessageKind::GuildIncidentAlertModeEnabled => Some("[incident alert mode enabled]"@),
        MessageKind::GuildIncidentAlertModeDisabled => Some("[incident alert mode disabled]"@),
        MessageKind::GuildIncidentReportRaid => Some("[incident report: raid]"@),
        MessageKind::GuildIncidentReportFalseAlarm => Some("[incident report: false alarm]"@),
        MessageKind::PurchaseNotification => Some(author + " made a purchase"@),
        MessageKind::Unknown(_) => None,
    }
}

fn after_author(author: &str, rest: &str) -> (r: String)
    ensures
        r@ == author@ + rest@,
{
    let mut s = String::from_str(author);
    s.append(rest);
    s
}

fn around_author(before: &str, author: &str, after: &str) -> (r: String)
    ensures
        r@ == before@ + author@ + after@,
{
    let mut s = String::from_str(before);
    s.append(author);
    s.append(after);
    s
}

/// The synthetic content of a system message written by `author`; `None` when the
/// message's own content is to be kept.
pub fn system_message_content(kind: MessageKind, author: &str) -> (r: Option<String>)
    ensures
        match system_text(kind, author@) {
            Some(t) => r matches Some(s) && s@ == t,
            None => r is None,
        },
{
    match kind {
        MessageKind::Regular => None,
        MessageKind::GroupRecipientAddition => Some(after_author(author, " added a recipient to the group")),
        MessageKind::GroupRecipientRemoval => Some(after_author(author, " removed a recipient from the group")),
        MessageKind::GroupCallCreation => Some(after_author(author, " started a call")),
        MessageKind::GroupNameUpdate => Some(after_author(author, " changed the group name")),
        MessageKind::GroupIconUpdate => Some(after_author(author, " changed the group icon")),
        MessageKind::PinsAdd => Some(after_author(author, " pinned a message")),
        MessageKind::MemberJoin => Some(around_author("user ", author, " joined the server")),
        MessageKind::NitroBoost => Some(after_author(author, " boosted the server")),
        MessageKind::NitroTier1 => Some(String::from_str("the server reached Nitro Boost tier 1")),
        MessageKind::NitroTier2 => Some(String::from_str("the server reached Nitro Boost tier 2")),
        MessageKind::NitroTier3 => Some(String::from_str("the server reached Nitro Boost tier 3")),
        MessageKind::ChannelFollowAdd => Some(after_author(author, " followed a news channel")),
        MessageKind::GuildDiscoveryDisqualified => Some(String::from_str("the server was disqualified from Discovery")),
        MessageKind::GuildDiscoveryRequalified => Some(String::from_str("the server was requalified for Discovery")),
        MessageKind::GuildDiscoveryGracePeriodInitialWarning => Some(String::from_str("initial Discovery grace period warning")),
        MessageKind::GuildDiscoveryGracePeriodFinalWarning => Some(String::from_str("final Discovery grace period warning")),
        MessageKind::ThreadCreated => Some(after_author(author, " created a thread")),
        MessageKind::InlineReply => None,
        MessageKind::ChatInputCommand => None,
        MessageKind::ThreadStarterMessage => Some(String::from_str("[thread starter message]")),
        MessageKind::GuildInviteReminder => Some(String::from_str("[guild invite reminder]")),
        MessageKind::ContextMenuCommand => None,
        MessageKind::AutoModAction => Some(String::from_str("[auto-moderation action]")),
        MessageKind::RoleSubscriptionPurchase => Some(after_author(author, " purchased a role subscription")),
        MessageKind::InteractionPremiumUpsell => Some(String::from_str("[interaction premium upsell]")),
        MessageKind::StageStart => Some(String::from_str("[stage started]")),
        MessageKind::StageEnd => Some(String::from_str("[stage ended]")),
        MessageKind::StageSpeaker => Some(after_author(author, " is now a stage speaker")),
        MessageKind::StageTopic => Some(String::from_str("[stage topic changed]")),
        MessageKind::GuildApplicationPremiumSubscription => Some(String::from_str("[application premium subscription]")),
        MessageKind::GuildIncidentAlertModeEnabled => Some(String::from_str("[incident alert mode enabled]")),
        MessageKind::GuildIncidentAlertModeDisabled => Some(String::from_str("[incident alert mode disabled]")),
        MessageKind::GuildIncidentReportRaid => Some(String::from_str("[incident report: raid]")),
        MessageKind::GuildIncidentReportFalseAlarm => Some(String::from_str("[incident report: false alarm]")),
        MessageKind::PurchaseNotification => Some(after_author(author, " made a purchase")),
        MessageKind::Unknown(_) => None,
    }
}

/// The kinds whose text opens with the author's name.
pub open spec fn author_led(k: MessageKind) -> bool {
    ||| k == MessageKind::GroupRecipientAddition
    ||| k == MessageKind::GroupRecipientRemoval
    ||| k == MessageKind::GroupCallCreation
    ||| k == MessageKind::GroupNameUpdate
    ||| k == MessageKind::GroupIconUpdate
    ||| k == MessageKind::PinsAdd
    ||| k == MessageKind::NitroBoost
    ||| k == MessageKind::ChannelFollowAdd
    ||| k == MessageKind::ThreadCreated
    ||| k == MessageKind::RoleSubscriptionPurchase
    ||| k == MessageKind::StageSpeaker
    ||| k == MessageKind::PurchaseNotification
}

/// Which messages get a synthetic text: every system message does, and only regular
/// messages, replies, commands and kinds this library does not know keep their own
/// content. A system message that is about someone opens with that author's name (a
/// member join reads "user <name> ..."); the others read the same whoever sent them. A
/// server boost by `a` reads `a` followed by " boosted the server".
pub proof fn law_system_messages_get_text(kind: MessageKind, author: Seq<char>, other: Seq<char>)
    ensures
        system_text(kind, author) is None <==> (kind == MessageKind::Regular || kind
            == MessageKind::InlineReply || kind == MessageKind::ChatInputCommand || kind
            == MessageKind::ContextMenuCommand || kind is Unknown),
        author_led(kind) ==> system_text(kind, author)->0.subrange(0, author.len() as int)
            == author,
        kind == MessageKind::MemberJoin ==> system_text(kind, author)->0.subrange(
            0,
            ("user "@.len() + author.len()) as int,
        ) == "user "@ + author,
        !author_led(kind) && kind != MessageKind::MemberJoin ==> system_text(kind, author)
            == system_text(kind, other),
        system_text(MessageKind::NitroBoost, author) == Some(author + " boosted the server"@),
{
    assert forall|s: Seq<char>| #[trigger] (author + s).subrange(0, author.len() as int) == author by {
        assert((author + s).subrange(0, author.len() as int) =~= author);
    }
    assert forall|s: Seq<char>| #[trigger] ("user "@ + author + s).subrange(
        0,
        ("user "@.len() + author.len()) as int,
    ) == "user "@ + author by {
        assert(("user "@ + author + s).subrange(0, ("user "@.len() + author.len()) as int) =~= "user "@
            + author);
    }
}

} // verus!
