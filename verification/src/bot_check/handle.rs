//! Moderation decisions: what happens when a member uses banned words, and
//! how an invitation into a moderated group is screened.
use vstd::prelude::*;
use crate::bot_check::data::{count_in, count_of, group_in, remove_count, set_count, table_view, BanData};
use crate::bot_check::dynconfig::{any_match, any_pattern_finds, BanConfig};
use crate::dev_utils::contains_id;
use crate::text::{decimal_text, parse_i32, parse_i32_spec, push_decimal, same_text};

verus! {

/// A request to join a group, as the chat service reports it.
#[derive(Debug, Clone)]
pub struct GroupRequestEvent {
    /// When it happened.
    pub time: i64,
    /// The bot's account.
    pub self_id: i64,
    /// Always "request".
    pub post_type: String,
    /// Always "group".
    pub request_type: String,
    /// "add" or "invite".
    pub sub_type: String,
    /// The group.
    pub group_id: i64,
    /// Who asked.
    pub user_id: i64,
    /// The message that came with the request.
    pub comment: String,
    /// The token to answer the request with.
    pub flag: String,
}

/// A member's card in a group.
#[derive(Debug, Clone)]
pub struct GroupMemberInfo {
    pub group_id: i64,
    pub user_id: i64,
    pub nickname: String,
    pub card: String,
    /// male, female or unknown.
    pub sex: String,
    pub age: i32,
    pub area: String,
    pub join_time: i32,
    pub last_sent_time: i32,
    /// The member's level in the group, as text.
    pub level: String,
    /// owner, admin or member.
    pub role: String,
    pub unfriendly: bool,
    pub title: String,
    pub title_expire_time: i32,
    pub card_changeable: bool,
}

/// A membership an account holds.
#[derive(Debug, Clone)]
pub struct Business {
    pub icon: Option<String>,
    pub ispro: i64,
    pub isyear: i64,
    pub level: i64,
    pub name: Option<String>,
    pub business_type: i64,
}

/// What an account is doing now.
#[derive(Debug, Clone)]
pub struct StatusClass {
    /// The emoji shown.
    pub face_id: Option<i64>,
    /// The status text.
    pub message: Option<String>,
    /// The status.
    pub status_id: i64,
}

/// An account's public profile.
#[derive(Debug, Clone)]
pub struct UserInfo {
    pub age: i64,
    pub avatar: String,
    pub business: Vec<Business>,
    /// The account level.
    pub level: i64,
    pub nickname: String,
    pub q_id: Option<String>,
    pub register_time: String,
    pub sex: String,
    pub sign: String,
    pub status: StatusClass,
    pub user_id: i64,
}

/// The reply to a member whose banned words were counted, when no
/// threshold was reached.
pub const WARN_REPLY: &'static str = "爆了";

/// What to do after a chat message in a moderated group.
#[derive(Debug)]
pub enum ChatBanAction {
    /// Nothing.
    Pass,
    /// Kick the member and post the notice; `reject_add_request` bars them
    /// from asking to join again.
    Kick { reject_add_request: bool, notice: String },
    /// Mute the member for this many seconds and post the notice.
    Ban { seconds: u64, notice: String },
    /// Reply with this text.
    Warn(String),
}

/// Text pieces of the moderation notices.
pub const USER_PREFIX: &'static str = "用户";

/// Text after the member in the notices about banned words.
pub const CHAT_COUNT_TEXT: &'static str = " 因为触发违禁词达到次数";

/// Text closing the kick notice about banned words.
pub const CHAT_KICKED_TEXT: &'static str = " 已被踢出！！如需申诉请联系管理员";

/// Text after the count in the mute notice.
pub const CHAT_MUTED_TEXT: &'static str = " 已被封禁";

/// Text closing the mute notice.
pub const CHAT_MUTED_END: &'static str = "s！如需申诉请联系管理员";

/// Text after the member in the notices about invitations.
pub const INVITE_COUNT_TEXT: &'static str = " 因为邀请群成员达到次数";

/// Text closing the kick notice about invitations.
pub const INVITE_KICKED_TEXT: &'static str = " 已被踢出！如需申诉请联系管理员";

/// Text after the member in the notice that only counts invitations.
pub const INVITE_NOTE_TEXT: &'static str = " 邀请群成员达到次数";

/// `a`, the number `x`, `b`, the number `y`, then `c`.
fn notice(a: &str, x: i64, b: &str, y: i64, c: &str) -> (r: String)
    ensures
        r@ == a@ + decimal_text(x as int) + b@ + decimal_text(y as int) + c@,
{
    let mut r = String::from_str(a);
    push_decimal(&mut r, x);
    r.append(b);
    push_decimal(&mut r, y);
    r.append(c);
    r
}

/// The member's messages count against them: the group is moderated and a
/// banned-word pattern matches the text.
pub open spec fn chat_violation(cfg: BanConfig, group_id: i64, text: Seq<char>) -> bool {
    cfg.enable_group@.contains(group_id) && any_pattern_finds(cfg.chat_regex_list@, text)
}

/// The count reaches the threshold `limit`, when one is set.
pub open spec fn reaches(limit: Option<i32>, times: int) -> bool {
    limit matches Some(v) && times >= v
}

/// A threshold, once reached, stays reached: every larger count triggers the
/// action too. A set threshold is reached by a count equal to it and not by
/// one below it, and no count reaches an unset threshold.
pub proof fn law_thresholds_monotone(limit: Option<i32>, t: int, t2: int)
    ensures
        reaches(limit, t) && t <= t2 ==> reaches(limit, t2),
        limit matches Some(v) ==> reaches(limit, v as int) && !reaches(limit, v - 1),
        limit is None ==> !reaches(limit, t),
{
}

/// A chat message from `user_id` in `group_id` with the text `text`: in a
/// moderated group, a message matching a banned-word pattern is counted;
/// reaching the kick threshold kicks the member and clears their count,
/// else reaching the mute threshold mutes them, else, when either threshold
/// is set, they are warned. `None`, with nothing changed, when the count
/// already stands at the largest `i32` and cannot grow.
pub fn on_chat(cfg: &BanConfig, data: &mut BanData, group_id: i64, user_id: i64, text: &str) -> (r:
    Option<ChatBanAction>)
    ensures
        table_view(final(data).invite_action_times) == table_view(old(data).invite_action_times),
        !chat_violation(*cfg, group_id, text@) ==> (r matches Some(ChatBanAction::Pass))
            && table_view(final(data).chat_action_times) == table_view(
            old(data).chat_action_times,
        ),
        chat_violation(*cfg, group_id, text@) ==> ({
            let before = table_view(old(data).chat_action_times);
            let times = count_in(before, group_id, user_id) + 1;
            let counted = before.insert(group_id, group_in(before, group_id).insert(user_id, times as i32));
            let after = table_view(final(data).chat_action_times);
            if count_in(before, group_id, user_id) == i32::MAX {
                r is None && after == before
            } else if reaches(cfg.enable_chat_kick, times) {
                &&& after == before.insert(group_id, group_in(before, group_id).remove(user_id))
                &&& r matches Some(ChatBanAction::Kick { reject_add_request, notice })
                &&& reject_add_request == !(cfg.kick_can_request matches Some(x) && x)
                &&& notice@ == USER_PREFIX@ + decimal_text(user_id as int) + CHAT_COUNT_TEXT@
                    + decimal_text(times) + CHAT_KICKED_TEXT@
            } else if reaches(cfg.enable_chat_shut_up, times) {
                &&& after == counted
                &&& r matches Some(ChatBanAction::Ban { seconds, notice })
                &&& seconds == (if cfg.chat_shut_up_time <= 2332799 {
                    cfg.chat_shut_up_time
                } else {
                    2332799
                })
                &&& notice@ == USER_PREFIX@ + decimal_text(user_id as int) + CHAT_COUNT_TEXT@
                    + decimal_text(times) + CHAT_MUTED_TEXT@ + decimal_text(seconds as int)
                    + CHAT_MUTED_END@
            } else if cfg.enable_chat_kick is Some || cfg.enable_chat_shut_up is Some {
                after == counted && (r matches Some(ChatBanAction::Warn(s)) && s@ == WARN_REPLY@)
            } else {
                after == counted && (r matches Some(ChatBanAction::Pass))
            }
        }),
{
    if !contains_id(&cfg.enable_group, group_id) {
        return Some(ChatBanAction::Pass);
    }
    if !any_match(&cfg.chat_regex_list, text) {
        return Some(ChatBanAction::Pass);
    }
    let count = count_of(&data.chat_action_times, group_id, user_id);
    if count == i32::MAX {
        return None;
    }
    let times = count + 1;
    set_count(&mut data.chat_action_times, group_id, user_id, times);
    let kick = match cfg.enable_chat_kick {
        Some(v) => times >= v,
        None => false,
    };
    if kick {
        let ghost before = table_view(old(data).chat_action_times);
        remove_count(&mut data.chat_action_times, group_id, user_id);
        assert(group_in(before, group_id).insert(user_id, times).remove(user_id) =~= group_in(
            before,
            group_id,
        ).remove(user_id));
        assert(table_view(data.chat_action_times) =~= before.insert(
            group_id,
            group_in(before, group_id).remove(user_id),
        ));
        let n = notice(USER_PREFIX, user_id, CHAT_COUNT_TEXT, times as i64, CHAT_KICKED_TEXT);
        return Some(
            ChatBanAction::Kick { reject_add_request: !cfg.kick_can_request_or_default(), notice: n },
        );
    }
    let shut_up = match cfg.enable_chat_shut_up {
        Some(v) => times >= v,
        None => false,
    };
    if shut_up {
        let secs = cfg.chat_shut_up_duration();
        let mut n = notice(USER_PREFIX, user_id, CHAT_COUNT_TEXT, times as i64, CHAT_MUTED_TEXT);
        crate::text::push_decimal_u64(&mut n, secs);
        n.append(CHAT_MUTED_END);
        return Some(ChatBanAction::Ban { seconds: secs, notice: n });
    }
    if cfg.enable_chat_kick.is_some() || cfg.enable_chat_shut_up.is_some() {
        return Some(ChatBanAction::Warn(String::from_str(WARN_REPLY)));
    }
    Some(ChatBanAction::Pass)
}

/// The request type of a request to join a group.
pub const GROUP_REQUEST: &'static str = "group";

/// The sub type of an invitation.
pub const INVITE: &'static str = "invite";

/// Whether a request is about joining a group; others are left alone.
pub fn is_group_request(request_type: &str) -> (b: bool)
    ensures
        b == (request_type@ == GROUP_REQUEST@),
{
    same_text(request_type, GROUP_REQUEST)
}

/// A group request is an invitation into a moderated group.
pub open spec fn invite_screened(cfg: BanConfig, req: GroupRequestEvent) -> bool {
    req.sub_type@ == INVITE@ && cfg.enable_group@.contains(req.group_id)
}

/// After the inviter's member card is read, screening goes on: it is enabled,
/// and either no minimum group level is configured or the inviter's level in
/// the group reads as an `i32` below it. A level that does not read as a
/// number lets the invitation through.
pub open spec fn member_check_passes_on(cfg: BanConfig, member_level: Seq<char>) -> bool {
    cfg.enable_invite_ban matches Some(c) && match c.min_activate {
        None => true,
        Some(e) => parse_i32_spec(member_level) matches Some(l) && l < e,
    }
}

/// After the inviter's profile is read, the invitation is screened out: a
/// minimum account level is configured and theirs lies below it.
pub open spec fn account_level_low(cfg: BanConfig, user_level: i64) -> bool {
    cfg.enable_invite_ban matches Some(c) && c.min_level matches Some(e) && user_level < e
}

/// Whether a group request is an invitation into a moderated group; others
/// are left alone.
pub fn invite_in_scope(cfg: &BanConfig, req: &GroupRequestEvent) -> (b: bool)
    ensures
        b == invite_screened(*cfg, *req),
{
    same_text(req.sub_type.as_str(), INVITE) && contains_id(&cfg.enable_group, req.group_id)
}

/// Whether screening goes on once the inviter's member card is read: see
/// [`member_check_passes_on`].
pub fn member_level_passes_on(cfg: &BanConfig, member_level: &str) -> (b: bool)
    ensures
        b == member_check_passes_on(*cfg, member_level@),
{
    match cfg.enable_invite_ban {
        Some(c) => match c.min_activate {
            Some(e) => match parse_i32(member_level) {
                Some(l) => l < e,
                None => false,
            },
            None => true,
        },
        None => false,
    }
}

/// Whether the inviter is screened out once their profile is read: see
/// [`account_level_low`].
pub fn invite_level_low(cfg: &BanConfig, user_level: i64) -> (b: bool)
    ensures
        b == account_level_low(*cfg, user_level),
{
    match cfg.enable_invite_ban {
        Some(c) => match c.min_level {
            Some(e) => user_level < e as i64,
            None => false,
        },
        None => false,
    }
}

/// How far the screening of a group request has come, with what was read at
/// that point.
#[derive(Debug)]
pub enum InviteStage {
    /// A group request was received.
    Requested(GroupRequestEvent),
    /// The inviter's member card in the group was read; `level` is their
    /// level in the group, as text.
    MemberRead { group_id: i64, user_id: i64, level: String },
    /// The inviter's profile was read; `level` is their account level.
    ProfileRead { group_id: i64, user_id: i64, level: i64 },
}

/// What the screening of a group request does next.
#[derive(Debug, Clone, Copy, PartialEq, Eq)]
pub enum InviteStep {
    /// Nothing more: the request is let through.
    Stop,
    /// Read the inviter's member card in the group.
    ReadMemberCard { group_id: i64, user_id: i64 },
    /// Read the inviter's profile.
    ReadProfile { group_id: i64, user_id: i64 },
    /// Count the invitation as screened out (see [`record_invite`]).
    Count { group_id: i64, user_id: i64 },
}

/// One step of screening a group request, in this order: a group invitation
/// into a moderated group has the inviter's member card read; while their
/// group level does not pass them (see [`member_check_passes_on`]) their profile
/// is read; an account level below the minimum counts the invitation. Any
/// other outcome lets the request through.
pub fn screen_invite(cfg: &BanConfig, stage: &InviteStage) -> (next: InviteStep)
    ensures
        match *stage {
            InviteStage::Requested(req) => if req.request_type@ == GROUP_REQUEST@
                && invite_screened(*cfg, req) {
                next matches InviteStep::ReadMemberCard { group_id, user_id } && group_id
                    == req.group_id && user_id == req.user_id
            } else {
                next is Stop
            },
            InviteStage::MemberRead { group_id: g, user_id: u, level } => if member_check_passes_on(
                *cfg,
                level@,
            ) {
                next matches InviteStep::ReadProfile { group_id, user_id } && group_id == g
                    && user_id == u
            } else {
                next is Stop
            },
            InviteStage::ProfileRead { group_id: g, user_id: u, level } => if account_level_low(
                *cfg,
                level,
            ) {
                next matches InviteStep::Count { group_id, user_id } && group_id == g && user_id
                    == u
            } else {
                next is Stop
            },
        },
{
    match stage {
        InviteStage::Requested(req) => {
            if is_group_request(req.request_type.as_str()) && invite_in_scope(cfg, req) {
                InviteStep::ReadMemberCard { group_id: req.group_id, user_id: req.user_id }
            } else {
                InviteStep::Stop
            }
        },
        InviteStage::MemberRead { group_id, user_id, level } => {
            if member_level_passes_on(cfg, level.as_str()) {
                InviteStep::ReadProfile { group_id: *group_id, user_id: *user_id }
            } else {
                InviteStep::Stop
            }
        },
        InviteStage::ProfileRead { group_id, user_id, level } => {
            if invite_level_low(cfg, *level) {
                InviteStep::Count { group_id: *group_id, user_id: *user_id }
            } else {
                InviteStep::Stop
            }
        },
    }
}

/// What to do once an invitation was screened out.
#[derive(Debug)]
pub enum InviteAction {
    /// Kick the inviter and post the notice in the group; `reject_add_request`
    /// bars them from asking to join again.
    Kick { reject_add_request: bool, notice: String },
    /// Post the notice in the group.
    Notice(String),
    /// Nothing more.
    Silent,
}

/// Counts a screened-out invitation of `user_id` in `group_id`: reaching the
/// kick threshold kicks the inviter, otherwise a set threshold makes the
/// count public. `None`, with nothing changed, when the count already stands
/// at the largest `i32`.
pub fn record_invite(cfg: &BanConfig, data: &mut BanData, group_id: i64, user_id: i64) -> (r:
    Option<InviteAction>)
    ensures
        table_view(final(data).chat_action_times) == table_view(old(data).chat_action_times),
        ({
            let before = table_view(old(data).invite_action_times);
            let times = count_in(before, group_id, user_id) + 1;
            let counted = before.insert(group_id, group_in(before, group_id).insert(user_id, times as i32));
            let after = table_view(final(data).invite_action_times);
            if count_in(before, group_id, user_id) == i32::MAX {
                r is None && after == before
            } else if reaches(cfg.enable_invite_kick, times) {
                &&& after == counted
                &&& r matches Some(InviteAction::Kick { reject_add_request, notice })
                &&& reject_add_request == !(cfg.kick_can_request matches Some(x) && x)
                &&& notice@ == USER_PREFIX@ + decimal_text(user_id as int) + INVITE_COUNT_TEXT@
                    + decimal_text(times) + INVITE_KICKED_TEXT@
            } else if cfg.enable_invite_kick is Some {
                &&& after == counted
                &&& r matches Some(InviteAction::Notice(notice))
                &&& notice@ == USER_PREFIX@ + decimal_text(user_id as int) + INVITE_NOTE_TEXT@
                    + decimal_text(times)
            } else {
                after == counted && (r matches Some(InviteAction::Silent))
            }
        }),
{
    let count = count_of(&data.invite_action_times, group_id, user_id);
    if count == i32::MAX {
        return None;
    }
    let times = count + 1;
    set_count(&mut data.invite_action_times, group_id, user_id, times);
    let kick = match cfg.enable_invite_kick {
        Some(e) => times >= e,
        None => false,
    };
    if kick {
        let n = notice(USER_PREFIX, user_id, INVITE_COUNT_TEXT, times as i64, INVITE_KICKED_TEXT);
        return Some(
            InviteAction::Kick { reject_add_request: !cfg.kick_can_request_or_default(), notice: n },
        );
    }
    if cfg.enable_invite_kick.is_some() {
        let n = notice(USER_PREFIX, user_id, INVITE_NOTE_TEXT, times as i64, "");
        proof {
            reveal_strlit("");
        }
        assert(n@ =~= USER_PREFIX@ + decimal_text(user_id as int) + INVITE_NOTE_TEXT@ + decimal_text(
            times as int,
        ));
        return Some(InviteAction::Notice(n));
    }
    Some(InviteAction::Silent)
}

} // verus!
