//! The first command set of the chat plugin, with its own sleep switch and
//! shell numbering: `$shell`, `$smart`, `$hi`, `$restart` and `$kill`.
use vstd::prelude::*;
use crate::chat_message::command_exec::app::{BotCommand, BotCommandBuilder};
use crate::chat_message::command_exec::common::{SmartAction, HI_REPLY, SMART_IDLE_REPLY};
use crate::chat_message::command_exec::shell::{next_id, shell_created_reply, ShellIds, SHELL_CREATED};
use crate::text::decimal_text;

verus! {

/// Registers the names of this command set: `$shell`, `$restart` and `$kill`
/// as privileged commands, `$smart` and `$hi` as ordinary ones.
pub fn register_shell_cmd(b: &mut BotCommandBuilder)
    ensures
        final(b).super_names() == old(b).super_names().insert("$shell"@).insert(
            "$restart"@,
        ).insert("$kill"@),
        final(b).common_names() == old(b).common_names().insert("$smart"@).insert("$hi"@),
{
    b.on_super_command("$shell");
    b.on_common_command("$smart");
    b.on_common_command("$hi");
    b.on_super_command("$restart");
    b.on_super_command("$kill");
}

/// The sleep switch and shell numbering of this command set.
pub struct ShellCmdState {
    live: bool,
    ids: ShellIds,
}

impl View for ShellCmdState {
    /// Whether the cat is awake, and the next shell number.
    type V = (bool, usize);

    closed spec fn view(&self) -> (bool, usize) {
        (self.live, self.ids@)
    }
}

/// The answer to this set's `$kill`.
pub const KILL_REPLY: &'static str = "似了喵";

/// The answer to this set's `$restart`.
pub const LIVE_REPLY: &'static str = "复活了喵";

impl ShellCmdState {
    /// An awake cat whose first shell is numbered 1156.
    pub fn new() -> (s: Self)
        ensures
            s@ == (true, 1156usize),
    {
        ShellCmdState { live: true, ids: ShellIds::new() }
    }

    /// `$shell`: while awake, hands out a shell number and announces it.
    pub fn exec_shell_cmd(&mut self) -> (r: Option<String>)
        ensures
            old(self)@.0 ==> (r matches Some(s) && s@ == SHELL_CREATED@ + decimal_text(
                old(self)@.1 as int,
            )) && final(self)@ == (true, next_id(old(self)@.1)),
            !old(self)@.0 ==> r is None && final(self)@ == old(self)@,
    {
        if !self.live {
            return None;
        }
        let id = self.ids.take();
        Some(shell_created_reply(id))
    }

    /// `$hi`: greets while awake.
    pub fn exec_hi(&self) -> (r: Option<String>)
        ensures
            self@.0 ==> (r matches Some(s) && s@ == HI_REPLY@),
            !self@.0 ==> r is None,
    {
        if !self.live {
            return None;
        }
        Some(String::from_str(HI_REPLY))
    }

    /// `$kill`: puts an awake cat to sleep and says so.
    pub fn exec_kill(&mut self) -> (r: Option<String>)
        ensures
            final(self)@ == (false, old(self)@.1),
            old(self)@.0 ==> (r matches Some(s) && s@ == KILL_REPLY@),
            !old(self)@.0 ==> r is None,
    {
        if !self.live {
            return None;
        }
        let reply = String::from_str(KILL_REPLY);
        self.live = false;
        Some(reply)
    }

    /// `$restart`: wakes a sleeping cat and says so.
    pub fn exec_live(&mut self) -> (r: Option<String>)
        ensures
            final(self)@ == (true, old(self)@.1),
            !old(self)@.0 ==> (r matches Some(s) && s@ == LIVE_REPLY@),
            old(self)@.0 ==> r is None,
    {
        if self.live {
            return None;
        }
        let reply = String::from_str(LIVE_REPLY);
        self.live = true;
        Some(reply)
    }
}

/// `$smart` of this set: asks the smart model the first argument, or answers
/// [`SMART_IDLE_REPLY`] when there is none.
pub fn exec_smart(e: &BotCommand) -> (r: SmartAction)
    ensures
        e.args@.len() > 0 ==> (r matches SmartAction::Ask(q) && q@ == e.args@[0]@),
        e.args@.len() == 0 ==> (r matches SmartAction::Reply(s) && s@ == SMART_IDLE_REPLY@),
{
    if e.args.len() > 0 {
        SmartAction::Ask(e.args[0].clone())
    } else {
        SmartAction::Reply(String::from_str(SMART_IDLE_REPLY))
    }
}

} // verus!
