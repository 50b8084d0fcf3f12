//! The commands of the chat plugin: greetings, sleep and wake, the smart
//! cat, and forgetting the conversation.
use vstd::prelude::*;
use crate::chat_message::command_exec::app::{BotCommand, BotCommandBuilder};
use crate::chat_message::config::{ChatConfigContext, SyncControl};
use crate::chat_message::handlers::group_chat::NyaCatMemory;
use crate::text::{join, join_with, strings_view};

verus! {

broadcast use vstd::std_specs::hash::group_hash_axioms;

/// Registers the names of the chat plugin's commands: `$smart` and `$hi` as
/// ordinary commands, `$restart`, `$kill` and `$mem_kill` as privileged ones.
pub fn register_common_cmd(b: &mut BotCommandBuilder)
    ensures
        final(b).common_names() == old(b).common_names().insert("$smart"@).insert("$hi"@),
        final(b).super_names() == old(b).super_names().insert("$restart"@).insert(
            "$kill"@,
        ).insert("$mem_kill"@),
{
    b.on_common_command("$smart");
    b.on_common_command("$hi");
    b.on_super_command("$restart");
    b.on_super_command("$kill");
    b.on_super_command("$mem_kill");
}

/// The command came from a group the cat answers in.
pub open spec fn may_exec(e: BotCommand, cfg: ChatConfigContext) -> bool {
    e.event.group_id matches Some(g) && cfg.allow_groups@.contains(g)
}

/// Whether the command came from a group the cat answers in.
pub fn ok_exec(e: &BotCommand, cfg: &ChatConfigContext) -> (b: bool)
    ensures
        b == may_exec(*e, *cfg),
{
    match e.event.group_id {
        Some(id) => cfg.allow_groups.contains(&id),
        None => false,
    }
}

/// The answer to `$hi`.
pub const HI_REPLY: &'static str = "你好喵！我是一只猫娘喵！前面忘了中间忘了，反正我是一只猫娘喵";

/// `$hi`: greets, in an allowed group while the cat is awake.
pub fn exec_hi(e: &BotCommand, cfg: &ChatConfigContext, ctl: &SyncControl) -> (r: Option<String>)
    ensures
        may_exec(*e, *cfg) && ctl@ ==> (r matches Some(s) && s@ == HI_REPLY@),
        !(may_exec(*e, *cfg) && ctl@) ==> r is None,
{
    if !ok_exec(e, cfg) {
        return None;
    }
    if !ctl.running() {
        return None;
    }
    Some(String::from_str(HI_REPLY))
}

/// The answer to `$kill`.
pub const KILL_REPLY: &'static str = "猫娘似了喵";

/// The answer to `$restart`.
pub const LIVE_REPLY: &'static str = "猫娘复活了喵";

/// Whether the cat is awake after `$kill`, given whether the command may run
/// and whether the cat was awake.
pub open spec fn awake_after_kill(ok: bool, awake: bool) -> bool {
    if ok && awake {
        false
    } else {
        awake
    }
}

/// Whether the cat is awake after `$restart`, given whether the command may
/// run and whether the cat was awake.
pub open spec fn awake_after_live(ok: bool, awake: bool) -> bool {
    if ok && !awake {
        true
    } else {
        awake
    }
}

/// `$kill`: in an allowed group, puts an awake cat to sleep and says so.
pub fn exec_kill(e: &BotCommand, cfg: &ChatConfigContext, ctl: &mut SyncControl) -> (r: Option<
    String,
>)
    ensures
        final(ctl)@ == awake_after_kill(may_exec(*e, *cfg), old(ctl)@),
        may_exec(*e, *cfg) && old(ctl)@ ==> (r matches Some(s) && s@ == KILL_REPLY@),
        !(may_exec(*e, *cfg) && old(ctl)@) ==> r is None,
{
    if !ok_exec(e, cfg) {
        return None;
    }
    if !ctl.running() {
        return None;
    }
    let reply = String::from_str(KILL_REPLY);
    ctl.set_bot_run(false);
    Some(reply)
}

/// `$restart`: in an allowed group, wakes a sleeping cat and says so.
pub fn exec_live(e: &BotCommand, cfg: &ChatConfigContext, ctl: &mut SyncControl) -> (r: Option<
    String,
>)
    ensures
        final(ctl)@ == awake_after_live(may_exec(*e, *cfg), old(ctl)@),
        may_exec(*e, *cfg) && !old(ctl)@ ==> (r matches Some(s) && s@ == LIVE_REPLY@),
        !(may_exec(*e, *cfg) && !old(ctl)@) ==> r is None,
{
    if !ok_exec(e, cfg) {
        return None;
    }
    if ctl.running() {
        return None;
    }
    let reply = String::from_str(LIVE_REPLY);
    ctl.set_bot_run(true);
    Some(reply)
}

/// A sleeping cat is woken by `$restart` and put back to sleep by `$kill`,
/// and an awake cat that is killed comes back with `$restart`, in every group
/// where commands may run.
pub proof fn law_kill_and_restart(awake: bool)
    ensures
        awake_after_live(true, awake_after_kill(true, awake)),
        !awake_after_kill(true, awake_after_live(true, awake)),
        awake_after_kill(false, awake) == awake,
        awake_after_live(false, awake) == awake,
{
}

/// What `$smart` does.
#[derive(Debug)]
pub enum SmartAction {
    /// Nothing.
    Ignore,
    /// Ask the smart model this question and send its answer piece by piece.
    Ask(String),
    /// Answer with this text.
    Reply(String),
}

/// The answer to `$smart` without a question.
pub const SMART_IDLE_REPLY: &'static str = "聪明猫娘在这里喵！";

/// `$smart`: in an allowed group while the cat is awake, asks the smart model
/// the arguments joined by single spaces, or answers [`SMART_IDLE_REPLY`] when
/// that question is empty.
pub fn exec_smart(e: &BotCommand, cfg: &ChatConfigContext, ctl: &SyncControl) -> (r: SmartAction)
    ensures
        !(may_exec(*e, *cfg) && ctl@) ==> r is Ignore,
        may_exec(*e, *cfg) && ctl@ ==> {
            let q = join_with(strings_view(e.args@), " "@);
            if q.len() > 0 {
                r matches SmartAction::Ask(s) && s@ == q
            } else {
                r matches SmartAction::Reply(s) && s@ == SMART_IDLE_REPLY@
            }
        },
{
    if !ok_exec(e, cfg) {
        return SmartAction::Ignore;
    }
    if !ctl.running() {
        return SmartAction::Ignore;
    }
    let q = join(&e.args, " ");
    if q.as_str().unicode_len() > 0 {
        SmartAction::Ask(q)
    } else {
        SmartAction::Reply(String::from_str(SMART_IDLE_REPLY))
    }
}

/// The answer to `$mem_kill`.
pub const MEM_KILL_REPLY: &'static str = "猫娘的记忆被抹除成功了喵！";

/// `$mem_kill`: in an allowed group, forgets every conversation, whether the
/// cat is awake or not.
pub fn exec_mem_kill(e: &BotCommand, cfg: &ChatConfigContext, mem: &mut NyaCatMemory) -> (r:
    Option<String>)
    ensures
        may_exec(*e, *cfg) ==> final(mem)@ == Map::<
            i64,
            Seq<crate::chat_message::handlers::group_chat::TimedView>,
        >::empty() && (r matches Some(s) && s@ == MEM_KILL_REPLY@),
        !may_exec(*e, *cfg) ==> final(mem)@ == old(mem)@ && r is None,
{
    if !ok_exec(e, cfg) {
        return None;
    }
    mem.clean();
    Some(String::from_str(MEM_KILL_REPLY))
}

} // verus!
