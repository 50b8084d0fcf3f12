//! The emoji plugin's configuration.
use vstd::prelude::*;
use std::collections::HashSet;
use crate::dev_utils::{init_config, ConfigError, ConfigSlot};

verus! {

/// The emoji plugin's configuration.
#[derive(Debug, Default)]
pub struct EmojiAttackConfig {
    /// The groups where reactions are sent.
    pub allow_monkey_groups: HashSet<i64>,
    /// The emoji ids reacted with, in order.
    pub emoji: Vec<String>,
    /// The pause between two reactions, in milliseconds.
    pub wait_ms: Option<u64>,
}

impl EmojiAttackConfig {
    /// Installs a loaded configuration; a second installation is refused.
    pub fn init(slot: &mut ConfigSlot<EmojiAttackConfig>, config: EmojiAttackConfig) -> (r: Result<
        (),
        ConfigError,
    >)
        ensures
            old(slot)@ is None ==> r is Ok && final(slot)@ == Some(config),
            old(slot)@ is Some ==> r == Err::<(), ConfigError>(ConfigError::AlreadySet)
                && final(slot)@ == old(slot)@,
    {
        init_config(config, slot)
    }

    /// The installed configuration, which must be there.
    pub fn get(slot: &ConfigSlot<EmojiAttackConfig>) -> (r: &EmojiAttackConfig)
        requires
            slot@ is Some,
        ensures
            slot@ == Some(*r),
    {
        slot.value()
    }
}

} // verus!
