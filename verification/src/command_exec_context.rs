//! The first configuration of the command plugin: allowed groups and super
//! users as lists, turned into sets once loaded.
use vstd::prelude::*;
use std::collections::HashSet;
use crate::dev_utils::{id_set, init_config, ConfigError, ConfigSlot};

verus! {

broadcast use vstd::std_specs::hash::group_hash_axioms;

/// The configuration as it is stored.
#[derive(Debug, Clone, Default)]
pub struct CommandExecConfig {
    /// The groups, or private chats by user, where commands run.
    pub allow_exec_groups: Vec<i64>,
    /// The users allowed to run privileged commands.
    pub allow_super_user: Vec<i64>,
}

/// The configuration with its lists as sets.
#[derive(Debug)]
pub struct CommandExecContext {
    /// The groups, or private chats by user, where commands run.
    pub allow_exec_groups: HashSet<i64>,
    /// The users allowed to run privileged commands.
    pub allow_super_user: HashSet<i64>,
}

impl CommandExecContext {
    /// The lists of `cfg` as sets.
    pub fn from_config(cfg: &CommandExecConfig) -> (r: CommandExecContext)
        ensures
            r.allow_exec_groups@ == cfg.allow_exec_groups@.to_set(),
            r.allow_super_user@ == cfg.allow_super_user@.to_set(),
    {
        CommandExecContext {
            allow_exec_groups: id_set(&cfg.allow_exec_groups),
            allow_super_user: id_set(&cfg.allow_super_user),
        }
    }
}

impl CommandExecConfig {
    /// Turns a loaded configuration into its context and installs it; a second
    /// installation is refused.
    pub fn init(slot: &mut ConfigSlot<CommandExecContext>, config: &CommandExecConfig) -> (r: Result<
        (),
        ConfigError,
    >)
        ensures
            old(slot)@ is None ==> r is Ok && (final(slot)@ matches Some(c)
                && c.allow_exec_groups@ == config.allow_exec_groups@.to_set()
                && c.allow_super_user@ == config.allow_super_user@.to_set()),
            old(slot)@ is Some ==> r == Err::<(), ConfigError>(ConfigError::AlreadySet)
                && final(slot)@ == old(slot)@,
    {
        let ctx = CommandExecContext::from_config(config);
        init_config(ctx, slot)
    }

    /// The installed context, which must be there.
    pub fn get(slot: &ConfigSlot<CommandExecContext>) -> (r: &CommandExecContext)
        requires
            slot@ is Some,
        ensures
            slot@ == Some(*r),
    {
        slot.value()
    }
}

} // verus!
