//! Discord users: the person and account rows recorded for a new user, and the storing of
//! their avatar.
//!
//! Database calls, downloads and uploads are performed by the caller; the decisions
//! between them are made by [`user_step`].

use vstd::prelude::*;
use crate::text::{nat_text, int_text, u64_text, i64_text, contains_seq, contains_text};
use crate::hash::{content_hash, hex_lower, sha256_digest};
use crate::ids::{new_uuid, is_v4_uuid};
use crate::ingest::{db_key, to_db_key};
use crate::media::concat;
use crate::model::{VestibuleUser, DiscordAccount, MediaAsset};

verus! {

/// A Discord user as it arrives, reduced to what is stored of it.
pub struct DiscordUserInfo {
    pub id: u64,
    /// The unique user name.
    pub name: String,
    /// The display name the user chose, if any.
    pub global_name: Option<String>,
    pub is_bot: bool,
    /// The text of the user's avatar hash, if the user set an avatar.
    pub avatar_hash: Option<String>,
    /// Where Discord serves the user's avatar, if it has one.
    pub avatar_url: Option<String>,
}

/// The name a user is shown under: the display name they chose, else their user name.
pub open spec fn shown_name(u: DiscordUserInfo) -> Seq<char> {
    match u.global_name {
        Some(g) => g@,
        None => u.name@,
    }
}

/// The name a user is shown under.
pub fn display_name(u: &DiscordUserInfo) -> (r: String)
    ensures
        r@ == shown_name(*u),
{
    match &u.global_name {
        Some(g) => g.clone(),
        None => u.name.clone(),
    }
}

/// `person` and `account` are the rows recorded for the new user `u`: a person with a
/// fresh v4 id, named as the user is shown, and the Discord account linked to it.
pub open spec fn is_new_user(u: DiscordUserInfo, person: VestibuleUser, account: DiscordAccount) -> bool {
    &&& is_v4_uuid(person.id)
    &&& person.nickname matches Some(n) && n@ == shown_name(u)
    &&& account.discord_user_id == db_key(u.id)
    &&& account.vestibule_user_id == person.id
    &&& account.username@ == u.name@
    &&& account.display_name@ == shown_name(u)
}

/// The person and account rows recorded for a user not yet known.
pub fn new_user_rows(u: &DiscordUserInfo) -> (r: (VestibuleUser, DiscordAccount))
    ensures
        is_new_user(*u, r.0, r.1),
{
    let id = new_uuid();
    let person = VestibuleUser { id, nickname: Some(display_name(u)) };
    let account = DiscordAccount {
        discord_user_id: to_db_key(u.id),
        vestibule_user_id: id,
        username: u.name.clone(),
        display_name: display_name(u),
    };
    (person, account)
}

/// Which service stores the user, which decides the details of the storing.
#[derive(PartialEq, Eq, Structural, Clone, Copy, Debug)]
pub enum UserPolicy {
    /// Any user met while storing messages and reactions: bots included, still avatars
    /// recorded as WebP, the object key naming the user by snowflake.
    AnyUser,
    /// The author of a message: bots are not stored, still avatars recorded as PNG, the
    /// object key naming the user by database key.
    MessageAuthor,
}

/// The file extension a still (not animated) avatar is recorded under.
pub open spec fn still_ext(p: UserPolicy) -> Seq<char> {
    match p {
        UserPolicy::AnyUser => "webp"@,
        UserPolicy::MessageAuthor => "png"@,
    }
}

/// Object key of a user's avatar: `discord/avatars/{user}/{avatar hash, or "default"}`.
pub open spec fn avatar_key(p: UserPolicy, u: DiscordUserInfo) -> Seq<char> {
    let user = match p {
        UserPolicy::AnyUser => nat_text(u.id as nat),
        UserPolicy::MessageAuthor => int_text(db_key(u.id) as int),
    };
    let hash = match u.avatar_hash {
        Some(h) => h@,
        None => "default"@,
    };
    "discord/avatars/"@ + user + "/"@ + hash
}

/// The object key under which a user's avatar is stored.
pub fn avatar_object_key(p: UserPolicy, u: &DiscordUserInfo) -> (r: String)
    ensures
        r@ == avatar_key(p, *u),
{
    let mut s = String::from_str("discord/avatars/");
    let user = match p {
        UserPolicy::AnyUser => u64_text(u.id),
        UserPolicy::MessageAuthor => i64_text(to_db_key(u.id)),
    };
    s.append(user.as_str());
    s.append("/");
    match &u.avatar_hash {
        Some(h) => s.append(h.as_str()),
        None => s.append("default"),
    }
    s
}

/// The extension an avatar served from `url` is recorded under: GIF when the URL names a
/// `.gif`, else the policy's still format.
pub open spec fn avatar_ext(p: UserPolicy, url: Seq<char>) -> Seq<char> {
    if contains_seq(url, ".gif"@) {
        "gif"@
    } else {
        still_ext(p)
    }
}

/// The content type an avatar served from `url` is recorded under: `image/{extension}`.
pub open spec fn avatar_type(p: UserPolicy, url: Seq<char>) -> Seq<char> {
    "image/"@ + avatar_ext(p, url)
}

/// The content type an avatar served from `url` is recorded under.
pub fn avatar_content_type(p: UserPolicy, url: &str) -> (r: String)
    ensures
        r@ == avatar_type(p, url@),
{
    let ext = if contains_text(url, ".gif") {
        "gif"
    } else {
        match p {
            UserPolicy::AnyUser => "webp",
            UserPolicy::MessageAuthor => "png",
        }
    };
    concat("image/", ext)
}

/// Where the storing of a user stands.
pub enum UserStage {
    Start,
    CheckingAccount,
    /// The person row is being inserted; the account row waits.
    InsertingPerson(DiscordAccount),
    InsertingAccount,
    CheckingAvatar,
    Downloading,
    /// The avatar is being uploaded; its asset row waits.
    Uploading(MediaAsset),
    Recording,
    /// Finished: whether the user was stored (or deliberately left out).
    Done(bool),
}

/// What the step just performed answered.
pub enum UserEvent {
    Begin,
    /// A lookup answered whether the row exists.
    Found(bool),
    Downloaded(Vec<u8>),
    Succeeded,
    Failed,
}

/// The next step to perform.
pub enum UserAction {
    /// Look up the Discord account with this key.
    FindAccount(i64),
    InsertPerson(VestibuleUser),
    InsertAccount(DiscordAccount),
    /// Look up an asset by object key.
    FindAvatar(String),
    /// Download from this URL.
    Download(String),
    /// Upload bytes `.0` under object key `.1` with content type `.2`.
    Upload(Vec<u8>, String, String),
    InsertAsset(MediaAsset),
    /// Finished: `true` when the user is stored, `false` when a step failed.
    Finish(bool),
}

/// Ending with `ok`.
pub open spec fn user_finishes(ok: bool, next: UserStage, action: UserAction) -> bool {
    &&& next == UserStage::Done(ok)
    &&& action == UserAction::Finish(ok)
}

/// Moving on to the avatar: look it up when the user has one, else finish.
pub open spec fn to_avatar(p: UserPolicy, u: DiscordUserInfo, next: UserStage, action: UserAction) -> bool {
    match u.avatar_url {
        Some(_) => {
            &&& next == UserStage::CheckingAvatar
            &&& action matches UserAction::FindAvatar(k) && k@ == avatar_key(p, u)
        },
        None => user_finishes(true, next, action),
    }
}

/// `row` is the new asset row of avatar bytes `bytes` of `u`.
pub open spec fn is_avatar_asset(row: MediaAsset, p: UserPolicy, u: DiscordUserInfo, bytes: Seq<u8>) -> bool {
    &&& is_v4_uuid(row.id)
    &&& row.content_type@ == avatar_type(p, u.avatar_url->0@)
    &&& row.object_key@ == avatar_key(p, u)
    &&& row.size_bytes == Some(bytes.len() as i64)
    &&& row.content_hash matches Some(h) && h@ == hex_lower(sha256_digest(bytes))
}

/// One step of storing user `u` under policy `p`. A bot is left out when the policy says
/// so. An unknown user gets a person row and an account row; a failure to insert the
/// person fails the storing, a failure to insert the account does not. Then an avatar not
/// yet stored under its object key is downloaded, uploaded and recorded; a failed download
/// ends quietly, and failures to upload or record are not failures of the storing. Failed
/// lookups fail it.
pub open spec fn user_step_spec(
    p: UserPolicy,
    u: DiscordUserInfo,
    stage: UserStage,
    event: UserEvent,
    next: UserStage,
    action: UserAction,
) -> bool {
    match stage {
        UserStage::Start => if p == UserPolicy::MessageAuthor && u.is_bot {
            user_finishes(true, next, action)
        } else {
            next == UserStage::CheckingAccount && action == UserAction::FindAccount(db_key(u.id))
        },
        UserStage::CheckingAccount => match event {
            UserEvent::Found(true) => to_avatar(p, u, next, action),
            UserEvent::Found(false) => {
                &&& next matches UserStage::InsertingPerson(account)
                &&& action matches UserAction::InsertPerson(person)
                &&& is_new_user(u, action->InsertPerson_0, next->InsertingPerson_0)
            },
            _ => user_finishes(false, next, action),
        },
        UserStage::InsertingPerson(account) => match event {
            UserEvent::Succeeded => next == UserStage::InsertingAccount && action
                == UserAction::InsertAccount(account),
            _ => user_finishes(false, next, action),
        },
        UserStage::InsertingAccount => to_avatar(p, u, next, action),
        UserStage::CheckingAvatar => match event {
            UserEvent::Found(true) => user_finishes(true, next, action),
            UserEvent::Found(false) => {
                &&& next == UserStage::Downloading
                &&& action == UserAction::Download(u.avatar_url->0)
            },
            _ => user_finishes(false, next, action),
        },
        UserStage::Downloading => match event {
            UserEvent::Downloaded(bytes) => {
                &&& next matches UserStage::Uploading(row) && is_avatar_asset(row, p, u, bytes@)
                &&& action matches UserAction::Upload(b, k, t) && b@ == bytes@ && k@ == avatar_key(
                    p,
                    u,
                ) && t@ == avatar_type(p, u.avatar_url->0@)
            },
            _ => user_finishes(true, next, action),
        },
        UserStage::Uploading(row) => next == UserStage::Recording && action
            == UserAction::InsertAsset(row),
        UserStage::Recording => user_finishes(true, next, action),
        UserStage::Done(ok) => user_finishes(ok, next, action),
    }
}

/// The stages at which the user is known to have an avatar.
pub open spec fn user_stage_ok(u: DiscordUserInfo, stage: UserStage) -> bool {
    (stage is CheckingAvatar || stage is Downloading) ==> u.avatar_url is Some
}

fn user_finish(ok: bool) -> (out: (UserStage, UserAction))
    ensures
        user_finishes(ok, out.0, out.1),
{
    (UserStage::Done(ok), UserAction::Finish(ok))
}

fn avatar_phase(p: UserPolicy, u: &DiscordUserInfo) -> (out: (UserStage, UserAction))
    ensures
        to_avatar(p, *u, out.0, out.1),
        user_stage_ok(*u, out.0),
{
    match &u.avatar_url {
        Some(_) => (UserStage::CheckingAvatar, UserAction::FindAvatar(avatar_object_key(p, u))),
        None => user_finish(true),
    }
}

/// One step of storing user `u` under policy `p`: from `stage`, on the answer `event` of
/// the step last performed, the next stage and the next step to perform.
pub fn user_step(p: UserPolicy, u: &DiscordUserInfo, stage: UserStage, event: UserEvent) -> (out: (
    UserStage,
    UserAction,
))
    requires
        user_stage_ok(*u, stage),
    ensures
        user_step_spec(p, *u, stage, event, out.0, out.1),
        user_stage_ok(*u, out.0),
{
    match stage {
        UserStage::Start => if p == UserPolicy::MessageAuthor && u.is_bot {
            user_finish(true)
        } else {
            (UserStage::CheckingAccount, UserAction::FindAccount(to_db_key(u.id)))
        },
        UserStage::CheckingAccount => match event {
            UserEvent::Found(true) => avatar_phase(p, u),
            UserEvent::Found(false) => {
                let (person, account) = new_user_rows(u);
                (UserStage::InsertingPerson(account), UserAction::InsertPerson(person))
            },
            _ => user_finish(false),
        },
        UserStage::InsertingPerson(account) => match event {
            UserEvent::Succeeded => (UserStage::InsertingAccount, UserAction::InsertAccount(account)),
            _ => user_finish(false),
        },
        UserStage::InsertingAccount => avatar_phase(p, u),
        UserStage::CheckingAvatar => match event {
            UserEvent::Found(true) => user_finish(true),
            UserEvent::Found(false) => {
                let url = match &u.avatar_url {
                    Some(url) => url.clone(),
                    None => String::new(),
                };
                (UserStage::Downloading, UserAction::Download(url))
            },
            _ => user_finish(false),
        },
        UserStage::Downloading => match event {
            UserEvent::Downloaded(bytes) => {
                let url = match &u.avatar_url {
                    Some(url) => url.as_str(),
                    None => "",
                };
                let content_type = avatar_content_type(p, url);
                let key = avatar_object_key(p, u);
                let row = MediaAsset {
                    id: new_uuid(),
                    content_type: content_type.clone(),
                    object_key: key.clone(),
                    size_bytes: Some(bytes.len() as i64),
                    content_hash: Some(content_hash(bytes.as_slice())),
                };
                (UserStage::Uploading(row), UserAction::Upload(bytes, key, content_type))
            },
            _ => user_finish(true),
        },
        UserStage::Uploading(row) => (UserStage::Recording, UserAction::InsertAsset(row)),
        UserStage::Recording => user_finish(true),
        UserStage::Done(ok) => user_finish(ok),
    }
}

/// Bots are not stored as message authors: storing one ends at once, inserting nothing.
pub proof fn law_author_bots_left_out(u: DiscordUserInfo, next: UserStage, action: UserAction)
    requires
        user_step_spec(UserPolicy::MessageAuthor, u, UserStage::Start, UserEvent::Begin, next, action),
        u.is_bot,
    ensures
        action == UserAction::Finish(true),
{
}

/// A user whose account is known gets no new person or account row, and an avatar already
/// stored under its object key is not downloaded again.
pub proof fn law_known_rows_not_recreated(
    p: UserPolicy,
    u: DiscordUserInfo,
    stage: UserStage,
    next: UserStage,
    action: UserAction,
)
    requires
        user_step_spec(p, u, stage, UserEvent::Found(true), next, action),
        stage is CheckingAccount || stage is CheckingAvatar,
    ensures
        !(action is InsertPerson),
        !(action is InsertAccount),
        !(action is Download),
{
}

/// The account recorded for a new user is linked to the person recorded just before it:
/// after the person row is inserted, the account row inserted carries the person's id,
/// the user's key and names.
pub proof fn law_new_account_links_person(
    p: UserPolicy,
    u: DiscordUserInfo,
    s1: UserStage,
    a1: UserAction,
    s2: UserStage,
    a2: UserAction,
)
    requires
        user_step_spec(p, u, UserStage::CheckingAccount, UserEvent::Found(false), s1, a1),
        user_step_spec(p, u, s1, UserEvent::Succeeded, s2, a2),
    ensures
        a1 matches UserAction::InsertPerson(person) && a2 matches UserAction::InsertAccount(account)
            && is_new_user(u, person, account),
{
}

/// Whatever the policy, an avatar is stored under a key that names its hash: the key ends
/// with "/" and the user's avatar hash, and only a user with no avatar hash gets a key
/// ending in "/default". The key always lies under "discord/avatars/".
pub proof fn law_avatar_key_names_hash(p: UserPolicy, u: DiscordUserInfo)
    ensures
        ({
            let key = avatar_key(p, u);
            let tail = match u.avatar_hash {
                Some(h) => h@,
                None => "default"@,
            };
            &&& key.len() > tail.len()
            &&& key.subrange(key.len() - tail.len(), key.len() as int) == tail
            &&& key[key.len() - tail.len() - 1] == '/'
            &&& key.subrange(0, "discord/avatars/"@.len() as int) == "discord/avatars/"@
        }),
{
    reveal_strlit("/");
    let key = avatar_key(p, u);
    let user = match p {
        UserPolicy::AnyUser => nat_text(u.id as nat),
        UserPolicy::MessageAuthor => int_text(db_key(u.id) as int),
    };
    let tail = match u.avatar_hash {
        Some(h) => h@,
        None => "default"@,
    };
    assert(key =~= "discord/avatars/"@ + user + "/"@ + tail);
    assert(key.subrange(key.len() - tail.len(), key.len() as int) =~= tail);
    assert(key.subrange(0, "discord/avatars/"@.len() as int) =~= "discord/avatars/"@);
}

} // verus!
