//! Bot commands: a command line split into its name and arguments, and the
//! registry of command names.
use vstd::prelude::*;
use crate::command_exec::config::{context_of, CommandExecConfig, ADMIN_ROLE};
use crate::event::MsgInfo;
use crate::text::{same_text, split_whitespace, strings_view, words};

verus! {

/// A command line, split at white space: its first word names the command,
/// the others are its arguments.
#[derive(Debug, Clone)]
pub struct BotCommand {
    /// The command name, such as `$hi`.
    pub cmd: String,
    /// The arguments after the name.
    pub args: Vec<String>,
    /// The message the command came in.
    pub event: MsgInfo,
}

impl BotCommand {
    /// Splits the command line `s` at white space; `s` must hold a word.
    pub fn from_str(s: &str, e: MsgInfo) -> (r: BotCommand)
        requires
            words(s@).len() > 0,
        ensures
            r.cmd@ == words(s@)[0],
            strings_view(r.args@) == words(s@).drop_first(),
            r.event == e,
    {
        let mut ws = split_whitespace(s);
        assert(strings_view(ws@).len() == ws@.len());
        let first = ws.remove(0);
        assert(strings_view(ws@) =~= words(s@).drop_first());
        BotCommand { cmd: first, args: ws, event: e }
    }

    /// Whether this is the command named `cmd`: a handler subscribed for
    /// `cmd` runs on it, and skips it otherwise.
    pub fn is_for(&self, cmd: &str) -> (b: bool)
        ensures
            b == (self.cmd@ == cmd@),
    {
        same_text(self.cmd.as_str(), cmd)
    }
}

/// The names registered as ordinary commands and as privileged commands.
pub struct BotCommandBuilder {
    super_command: Vec<String>,
    common_command: Vec<String>,
}

/// The distinct names in a list of names.
pub open spec fn name_set(v: Seq<String>) -> Set<Seq<char>> {
    Set::new(|n: Seq<char>| exists|i: int| 0 <= i < v.len() && v[i]@ == n)
}

impl BotCommandBuilder {
    /// The privileged command names.
    pub closed spec fn super_names(&self) -> Set<Seq<char>> {
        name_set(self.super_command@)
    }

    /// The ordinary command names.
    pub closed spec fn common_names(&self) -> Set<Seq<char>> {
        name_set(self.common_command@)
    }

    /// A registry with no names.
    pub fn new() -> (b: Self)
        ensures
            b.super_names() == Set::<Seq<char>>::empty(),
            b.common_names() == Set::<Seq<char>>::empty(),
    {
        let b = BotCommandBuilder { super_command: Vec::new(), common_command: Vec::new() };
        assert(b.super_names() =~= Set::<Seq<char>>::empty());
        assert(b.common_names() =~= Set::<Seq<char>>::empty());
        b
    }

    /// Registers `cmd` as an ordinary command.
    pub fn on_common_command(&mut self, cmd: &str)
        ensures
            final(self).common_names() == old(self).common_names().insert(cmd@),
            final(self).super_names() == old(self).super_names(),
    {
        add_name(&mut self.common_command, cmd);
    }

    /// Registers `cmd` as a privileged command.
    pub fn on_super_command(&mut self, cmd: &str)
        ensures
            final(self).super_names() == old(self).super_names().insert(cmd@),
            final(self).common_names() == old(self).common_names(),
    {
        add_name(&mut self.super_command, cmd);
    }

    /// Whether `cmd` is registered as a privileged command.
    pub fn is_super_command(&self, cmd: &str) -> (b: bool)
        ensures
            b == self.super_names().contains(cmd@),
    {
        has_name(&self.super_command, cmd)
    }

    /// Whether `cmd` is registered as an ordinary command.
    pub fn is_common_command(&self, cmd: &str) -> (b: bool)
        ensures
            b == self.common_names().contains(cmd@),
    {
        has_name(&self.common_command, cmd)
    }
}

/// Where a command goes once it is invoked.
#[derive(Debug, Clone, Copy, PartialEq, Eq)]
pub enum CommandRoute {
    /// To the handlers of an ordinary command.
    Common,
    /// To the handlers of a privileged command.
    Super,
    /// Nowhere: unknown, out of context, or not permitted.
    Refused,
}

impl BotCommand {
    /// Where this command goes: a privileged command runs in an allowed
    /// context for a super user (the sender's role in the group is given
    /// when it was looked up, see [`CommandExecConfig::member_card_needed`]);
    /// an ordinary command runs in an allowed context; anything else is
    /// refused.
    pub fn invoke_command(&self, b: &BotCommandBuilder, cfg: &CommandExecConfig, member_role: Option<
        &str,
    >) -> (r: CommandRoute)
        ensures
            r == (if !cfg.allow_exec_context@.contains(context_of(self.event)) {
                CommandRoute::Refused
            } else if b.super_names().contains(self.cmd@) {
                if cfg.super_by_config(self.event) || (cfg.is_admin_super_user
                    && self.event.group_id is Some && (member_role matches Some(role) && role@
                    == ADMIN_ROLE@)) {
                    CommandRoute::Super
                } else {
                    CommandRoute::Refused
                }
            } else if b.common_names().contains(self.cmd@) {
                CommandRoute::Common
            } else {
                CommandRoute::Refused
            }),
    {
        if !cfg.in_context(&self.event) {
            return CommandRoute::Refused;
        }
        if b.is_super_command(self.cmd.as_str()) {
            if cfg.in_super_user(&self.event, member_role) {
                CommandRoute::Super
            } else {
                CommandRoute::Refused
            }
        } else if b.is_common_command(self.cmd.as_str()) {
            CommandRoute::Common
        } else {
            CommandRoute::Refused
        }
    }
}

fn has_name(v: &Vec<String>, cmd: &str) -> (b: bool)
    ensures
        b == name_set(v@).contains(cmd@),
{
    let mut i: usize = 0;
    while i < v.len()
        invariant
            i <= v.len(),
            forall|j: int| 0 <= j < i ==> v@[j]@ != cmd@,
        decreases v.len() - i,
    {
        if same_text(v[i].as_str(), cmd) {
            return true;
        }
        i = i + 1;
    }
    false
}

fn add_name(v: &mut Vec<String>, cmd: &str)
    ensures
        name_set(final(v)@) == name_set(old(v)@).insert(cmd@),
{
    if !has_name(v, cmd) {
        let s = cmd.to_owned();
        v.push(s);
        assert forall|n: Seq<char>| name_set(v@).contains(n) == name_set(old(v)@).insert(
            cmd@,
        ).contains(n) by {
            if name_set(old(v)@).contains(n) {
                let j = choose|j: int| 0 <= j < old(v)@.len() && old(v)@[j]@ == n;
                assert(v@[j] == old(v)@[j]);
            }
            if n == cmd@ {
                assert(v@[old(v)@.len() as int]@ == n);
            }
            if name_set(v@).contains(n) && n != cmd@ {
                let j = choose|j: int| 0 <= j < v@.len() && v@[j]@ == n;
                assert(j < old(v)@.len());
                assert(old(v)@[j] == v@[j]);
            }
        }
        assert(name_set(v@) =~= name_set(old(v)@).insert(cmd@));
    } else {
        assert(name_set(v@) =~= name_set(old(v)@).insert(cmd@));
    }
}

} // verus!
