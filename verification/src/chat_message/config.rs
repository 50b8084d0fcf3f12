//! The chat plugin's configuration, and the switch that puts the cat to sleep.
use vstd::prelude::*;
use std::collections::HashSet;
use crate::dev_utils::{id_set, init_config, ConfigError, ConfigSlot};

verus! {

broadcast use vstd::std_specs::hash::group_hash_axioms;

/// The model settings of the chat plugin.
#[derive(Debug, Clone, Default)]
pub struct ChatModelCallConfig {
    /// The API key.
    pub key: String,
    /// The API base address.
    pub endpoint: String,
    /// The token limit of one completion.
    pub max_tokens: u16,
    /// The model used for role play.
    pub role_model: String,
    /// The role-play system prompt.
    pub role_prompt: String,
    /// How long, in seconds, a remembered message stays in the role-play window.
    pub role_context_expiration_time_second: u64,
    /// How many messages the role-play window holds.
    pub role_max_message: usize,
    /// The model used for `$smart`.
    pub smart_model: String,
    /// The prompt used for `$smart`.
    pub smart_prompt: String,
    /// The separator at which a long reply is cut into several messages.
    pub dot_wait_tag: String,
    /// The pause before each piece of a long reply, in milliseconds.
    pub dot_wait_time_ms: u64,
    /// When set, the pause before a piece is this many milliseconds per character of it.
    pub dot_wait_pre_char_ms: Option<u64>,
}

impl ChatModelCallConfig {
    /// A field-by-field copy.
    pub fn clone_config(&self) -> (r: Self)
        ensures
            r == *self,
    {
        ChatModelCallConfig {
            key: self.key.clone(),
            endpoint: self.endpoint.clone(),
            max_tokens: self.max_tokens,
            role_model: self.role_model.clone(),
            role_prompt: self.role_prompt.clone(),
            role_context_expiration_time_second: self.role_context_expiration_time_second,
            role_max_message: self.role_max_message,
            smart_model: self.smart_model.clone(),
            smart_prompt: self.smart_prompt.clone(),
            dot_wait_tag: self.dot_wait_tag.clone(),
            dot_wait_time_ms: self.dot_wait_time_ms,
            dot_wait_pre_char_ms: self.dot_wait_pre_char_ms,
        }
    }
}

/// The chat plugin's configuration as it is stored.
#[derive(Debug, Default)]
pub struct ChatConfig {
    /// The groups the bot answers in.
    pub allow_groups: Vec<i64>,
    /// The users allowed to run privileged commands.
    pub allow_super_user: Vec<i64>,
    /// The model settings.
    pub model: ChatModelCallConfig,
}

/// The chat plugin's configuration, with its lists turned into sets.
#[derive(Debug)]
pub struct ChatConfigContext {
    /// The groups the bot answers in.
    pub allow_groups: HashSet<i64>,
    /// The users allowed to run privileged commands.
    pub allow_super_user: HashSet<i64>,
    /// The model settings.
    pub model: ChatModelCallConfig,
}

impl ChatConfigContext {
    /// Builds the context from a loaded configuration and installs it; a
    /// second installation is refused.
    pub fn init(slot: &mut ConfigSlot<ChatConfigContext>, config: &ChatConfig) -> (r: Result<
        (),
        ConfigError,
    >)
        ensures
            old(slot)@ is None ==> r is Ok && (final(slot)@ matches Some(c) && c.describes(*config)),
            old(slot)@ is Some ==> r == Err::<(), ConfigError>(ConfigError::AlreadySet)
                && final(slot)@ == old(slot)@,
    {
        let ctx = ChatConfigContext::from_config(config);
        init_config(ctx, slot)
    }

    /// The installed context, which must be there.
    pub fn get(slot: &ConfigSlot<ChatConfigContext>) -> (r: &ChatConfigContext)
        requires
            slot@ is Some,
        ensures
            slot@ == Some(*r),
    {
        slot.value()
    }

    /// This context holds the lists of `value` as sets and its model settings.
    pub open spec fn describes(self, value: ChatConfig) -> bool {
        &&& self.allow_groups@ == value.allow_groups@.to_set()
        &&& self.allow_super_user@ == value.allow_super_user@.to_set()
        &&& self.model == value.model
    }

    /// The context of a loaded configuration: its lists as sets, its model
    /// settings as they are.
    pub fn from_config(value: &ChatConfig) -> (r: ChatConfigContext)
        ensures
            r.describes(*value),
    {
        ChatConfigContext {
            allow_groups: id_set(&value.allow_groups),
            allow_super_user: id_set(&value.allow_super_user),
            model: value.model.clone_config(),
        }
    }
}

/// Whether the cat answers at all; it starts awake.
pub struct SyncControl {
    live: bool,
}

impl View for SyncControl {
    type V = bool;

    closed spec fn view(&self) -> bool {
        self.live
    }
}

impl SyncControl {
    /// A switch that starts awake.
    pub fn new() -> (s: Self)
        ensures
            s@,
    {
        SyncControl { live: true }
    }

    /// Puts the cat to sleep (`false`) or wakes it (`true`).
    pub fn set_bot_run(&mut self, run: bool)
        ensures
            final(self)@ == run,
    {
        self.live = run;
    }

    /// Whether the cat is awake.
    pub fn running(&self) -> (b: bool)
        ensures
            b == self@,
    {
        self.live
    }
}

} // verus!
