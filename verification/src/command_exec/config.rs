//! Who may run commands, and where.
use vstd::prelude::*;
use std::collections::HashSet;
use crate::dev_utils::{init_config, ConfigError, ConfigSlot};
use crate::event::MsgInfo;
use crate::text::same_text;

verus! {

broadcast use vstd::std_specs::hash::group_hash_axioms;

/// The command plugin's configuration.
#[derive(Debug, Default)]
pub struct CommandExecConfig {
    /// The groups, or private chats by user, where commands run.
    pub allow_exec_context: HashSet<i64>,
    /// The users allowed to run privileged commands.
    pub allow_super_user: HashSet<i64>,
    /// Whether group admins may run privileged commands.
    pub is_admin_super_user: bool,
    /// Whether every user may run privileged commands.
    pub is_all_user_admin: bool,
}

/// The role a group admin has on their member card.
pub const ADMIN_ROLE: &'static str = "admin";

/// The context of a message: its group, or its sender in a private chat.
pub open spec fn context_of(ev: MsgInfo) -> i64 {
    match ev.group_id {
        Some(g) => g,
        None => ev.user_id,
    }
}

impl CommandExecConfig {
    /// The sender of the message.
    pub fn event_user(ev: &MsgInfo) -> (u: i64)
        ensures
            u == ev.user_id,
    {
        ev.user_id
    }

    /// The context of the message: its group, or its sender in a private chat.
    pub fn event_context(ev: &MsgInfo) -> (c: i64)
        ensures
            c == context_of(*ev),
    {
        match ev.group_id {
            Some(g) => g,
            None => Self::event_user(ev),
        }
    }

    /// The sender may run privileged commands by the configuration alone.
    pub open spec fn super_by_config(&self, ev: MsgInfo) -> bool {
        self.is_all_user_admin || self.allow_super_user@.contains(ev.user_id)
    }

    /// A listed super user, or anyone when every user is a super user, may run
    /// privileged commands in every context, private chats included; nobody
    /// else may by the configuration alone. Only the sender counts: two
    /// messages from the same user are judged alike.
    pub proof fn law_super_user_anywhere(&self, ev: MsgInfo, other: MsgInfo)
        ensures
            self.allow_super_user@.contains(ev.user_id) ==> self.super_by_config(ev),
            self.is_all_user_admin ==> self.super_by_config(ev),
            !self.is_all_user_admin && !self.allow_super_user@.contains(ev.user_id)
                ==> !self.super_by_config(ev),
            ev.user_id == other.user_id ==> self.super_by_config(ev) == self.super_by_config(other),
    {
    }

    /// Whether the sender may run privileged commands by the configuration alone.
    pub fn in_super_user_only_config(&self, ev: &MsgInfo) -> (b: bool)
        ensures
            b == self.super_by_config(*ev),
    {
        self.is_all_user_admin || self.allow_super_user.contains(&Self::event_user(ev))
    }

    /// The group whose member card of the sender decides whether they may run
    /// privileged commands: only when the configuration alone does not allow
    /// it, admins count, and the message came in a group.
    pub fn member_card_needed(&self, ev: &MsgInfo) -> (g: Option<i64>)
        ensures
            g == (if !self.super_by_config(*ev) && self.is_admin_super_user {
                ev.group_id
            } else {
                None
            }),
    {
        if !self.in_super_user_only_config(ev) && self.is_admin_super_user {
            ev.group_id
        } else {
            None
        }
    }

    /// Whether the sender may run privileged commands, given the role on their
    /// member card in the message's group when it could be read: by the
    /// configuration, or as a group admin when admins count.
    pub fn in_super_user(&self, ev: &MsgInfo, member_role: Option<&str>) -> (b: bool)
        ensures
            b == (self.super_by_config(*ev) || (self.is_admin_super_user && ev.group_id is Some
                && (member_role matches Some(r) && r@ == ADMIN_ROLE@))),
    {
        if self.in_super_user_only_config(ev) {
            return true;
        }
        if !self.is_admin_super_user {
            return false;
        }
        match ev.group_id {
            Some(_) => match member_role {
                Some(r) => same_text(r, ADMIN_ROLE),
                None => false,
            },
            None => false,
        }
    }

    /// Whether commands run in the message's context.
    pub fn in_context(&self, ev: &MsgInfo) -> (b: bool)
        ensures
            b == self.allow_exec_context@.contains(context_of(*ev)),
    {
        self.allow_exec_context.contains(&Self::event_context(ev))
    }

    /// Installs a loaded configuration; a second installation is refused.
    pub fn init(slot: &mut ConfigSlot<CommandExecConfig>, config: CommandExecConfig) -> (r: Result<
        (),
        ConfigError,
    >)
        ensures
            old(slot)@ is None ==> r is Ok && final(slot)@ == Some(config),
            old(slot)@ is Some ==> r == Err::<(), ConfigError>(ConfigError::AlreadySet)
                && final(slot)@ == old(slot)@,
    {
        init_config(config, slot)
    }

    /// The installed configuration, which must be there.
    pub fn get(slot: &ConfigSlot<CommandExecConfig>) -> (r: &CommandExecConfig)
        requires
            slot@ is Some,
        ensures
            slot@ == Some(*r),
    {
        slot.value()
    }
}

} // verus!
