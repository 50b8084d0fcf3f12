//! The moderation plugin's configuration, and the regular expressions its
//! banned-word list is made of.
use vstd::prelude::*;
use crate::dev_utils::{init_config, ConfigError, ConfigSlot};

verus! {

/// Whether `regex::Regex::new` accepts `pattern` (within its default size
/// limit).
pub uninterp spec fn regex_accepts(pattern: Seq<char>) -> bool;

/// Whether the regular expression `pattern` matches somewhere in `haystack`,
/// as `regex::Regex::is_match` reports it.
pub uninterp spec fn regex_finds(pattern: Seq<char>, haystack: Seq<char>) -> bool;

/// Calls `regex::Regex::new(pattern)` and reports whether it succeeded; that
/// outcome depends on the pattern alone, and is named [`regex_accepts`].
#[verifier::external_body]
fn regex_compiles(pattern: &str) -> (ok: bool)
    ensures
        ok == regex_accepts(pattern@),
{
    regex::Regex::new(pattern).is_ok()
}

/// Builds the regular expression `pattern` with `regex::Regex::new` and asks
/// `regex::Regex::is_match` whether it matches somewhere in `haystack`:
/// `None` when the pattern is refused ([`regex_accepts`]), else the answer,
/// named [`regex_finds`].
#[verifier::external_body]
fn regex_is_match(pattern: &str, haystack: &str) -> (r: Option<bool>)
    ensures
        r is Some == regex_accepts(pattern@),
        r matches Some(m) ==> m == regex_finds(pattern@, haystack@),
{
    match regex::Regex::new(pattern) {
        Ok(re) => Some(re.is_match(haystack)),
        Err(_) => None,
    }
}

/// Some pattern of `patterns` is a regular expression that matches in `text`.
pub open spec fn any_pattern_finds(patterns: Seq<String>, text: Seq<char>) -> bool {
    exists|i: int|
        0 <= i < patterns.len() && regex_accepts(#[trigger] patterns[i]@) && regex_finds(
            patterns[i]@,
            text,
        )
}

/// Whether some pattern of `patterns` is a regular expression that matches
/// in `text`.
pub fn any_match(patterns: &Vec<String>, text: &str) -> (b: bool)
    ensures
        b == any_pattern_finds(patterns@, text@),
{
    let mut found = false;
    let mut i: usize = 0;
    while i < patterns.len()
        invariant
            i <= patterns.len(),
            found == exists|j: int|
                0 <= j < i && regex_accepts(#[trigger] patterns@[j]@) && regex_finds(
                    patterns@[j]@,
                    text@,
                ),
        decreases patterns.len() - i,
    {
        let m = regex_is_match(patterns[i].as_str(), text);
        if let Some(true) = m {
            found = true;
        }
        i = i + 1;
    }
    found
}

/// The patterns of `patterns` that are regular expressions, in order: a
/// pattern that does not compile is skipped rather than rejecting the list.
pub open spec fn accepted_patterns(patterns: Seq<String>) -> Seq<String>
    decreases patterns.len(),
{
    if patterns.len() == 0 {
        Seq::empty()
    } else {
        let rest = accepted_patterns(patterns.drop_last());
        if regex_accepts(patterns.last()@) {
            rest.push(patterns.last())
        } else {
            rest
        }
    }
}

/// The settings of invitation screening.
#[derive(Debug, Clone, Copy, Default)]
pub struct InviteBanConfig {
    /// Screen the invitation when the inviter's account level is below this.
    pub min_level: Option<i32>,
    /// Screen the invitation when the inviter's level in the group is below this.
    pub min_activate: Option<i32>,
}

/// The longest mute the chat service allows, in seconds.
pub const MAX_SHUT_UP_SECONDS: u64 = 2332799;

/// The moderation plugin's configuration.
#[derive(Debug, Default)]
pub struct BanConfig {
    /// The groups moderated.
    pub enable_group: Vec<i64>,
    /// The banned-word patterns; see [`BanConfig::keep_valid_patterns`].
    pub chat_regex_list: Vec<String>,
    /// Mute a member once they have used banned words this many times.
    pub enable_chat_shut_up: Option<i32>,
    /// How long a mute lasts, in seconds.
    pub chat_shut_up_time: u64,
    /// Kick a member once they have used banned words this many times.
    pub enable_chat_kick: Option<i32>,
    /// Invitation screening, when enabled.
    pub enable_invite_ban: Option<InviteBanConfig>,
    /// Kick a member once this many of their invitations were screened out.
    pub enable_invite_kick: Option<i32>,
    /// Whether a kicked member may ask to join again.
    pub kick_can_request: Option<bool>,
}

impl BanConfig {
    /// Whether a kicked member may ask to join again; no by default.
    pub fn kick_can_request_or_default(&self) -> (b: bool)
        ensures
            b == (self.kick_can_request matches Some(x) && x),
    {
        match self.kick_can_request {
            Some(x) => x,
            None => false,
        }
    }

    /// How long a mute lasts, in seconds: the configured time, at most
    /// [`MAX_SHUT_UP_SECONDS`].
    pub fn chat_shut_up_duration(&self) -> (secs: u64)
        ensures
            secs == (if self.chat_shut_up_time <= MAX_SHUT_UP_SECONDS {
                self.chat_shut_up_time
            } else {
                MAX_SHUT_UP_SECONDS
            }),
    {
        if self.chat_shut_up_time <= MAX_SHUT_UP_SECONDS {
            self.chat_shut_up_time
        } else {
            MAX_SHUT_UP_SECONDS
        }
    }

    /// The patterns of a stored list that compile, in order; the others are
    /// skipped.
    pub fn keep_valid_patterns(patterns: &Vec<String>) -> (r: Vec<String>)
        ensures
            r@ == accepted_patterns(patterns@),
    {
        let mut r: Vec<String> = Vec::new();
        let mut i: usize = 0;
        while i < patterns.len()
            invariant
                i <= patterns.len(),
                r@ == accepted_patterns(patterns@.take(i as int)),
            decreases patterns.len() - i,
        {
            let ghost t = patterns@.take(i + 1);
            assert(t.drop_last() =~= patterns@.take(i as int));
            assert(t.last() == patterns@[i as int]);
            if regex_compiles(patterns[i].as_str()) {
                r.push(patterns[i].clone());
            }
            i = i + 1;
        }
        assert(patterns@.take(patterns.len() as int) =~= patterns@);
        r
    }

    /// Installs a loaded configuration; a second installation is refused.
    pub fn init(slot: &mut ConfigSlot<BanConfig>, config: BanConfig) -> (r: Result<(), ConfigError>)
        ensures
            old(slot)@ is None ==> r is Ok && final(slot)@ == Some(config),
            old(slot)@ is Some ==> r == Err::<(), ConfigError>(ConfigError::AlreadySet)
                && final(slot)@ == old(slot)@,
    {
        init_config(config, slot)
    }

    /// The installed configuration, which must be there.
    pub fn get(slot: &ConfigSlot<BanConfig>) -> (r: &BanConfig)
        requires
            slot@ is Some,
        ensures
            slot@ == Some(*r),
    {
        slot.value()
    }
}

} // verus!
