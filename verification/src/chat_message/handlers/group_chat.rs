//! Group chat: when the cat answers, and the window of remembered
//! conversation it answers from.
use vstd::prelude::*;
use std::collections::HashMap;
use std::collections::VecDeque;
use crate::chat_message::command_exec::app::BotCommand;
use crate::chat_message::config::{ChatConfigContext, ChatModelCallConfig, SyncControl};
use crate::chat_message::ml::{reply_or_error, reply_text, role_system_message, ChatMessage, MessageView};
use crate::event::MsgInfo;
use crate::text::{
    contains,
    contains_seq,
    is_white_space,
    lemma_words_non_empty,
    parse_i64,
    parse_i64_spec,
    starts_with,
    occurs_at,
    words,
};

verus! {

broadcast use vstd::std_specs::hash::group_hash_axioms;

/// Why a group message could not be handled.
#[derive(Debug, Clone, Copy, PartialEq, Eq)]
pub enum ChatError {
    /// The message carries no group id ("找不到群id").
    MissingGroupId,
}

/// What to do with a group message before anything else is known.
#[derive(Debug, Clone, Copy, PartialEq, Eq)]
pub enum GroupChatRoute {
    /// The group is not one the cat answers in.
    Ignore,
    /// The message's first mention is the cat: answer it (see [`at_me`]).
    AtMe,
    /// Look the cat's own member card up and route by its nickname (see
    /// [`route_by_name`]).
    NeedBotInfo,
}

/// The message's first `at` segment names the bot's own account.
pub open spec fn mentions_me(ev: MsgInfo) -> bool {
    &&& ev.at_qq@.len() > 0
    &&& ev.at_qq@[0] matches Some(q) && parse_i64_spec(q@) == Some(ev.self_id)
}

/// The first step for a group message: ignore groups the cat does not
/// answer in, answer a message whose first mention is the cat, and otherwise
/// go on to look at the text.
pub fn handle_group_chat(cfg: &ChatConfigContext, ev: &MsgInfo) -> (r: Result<
    GroupChatRoute,
    ChatError,
>)
    ensures
        match ev.group_id {
            None => r == Err::<GroupChatRoute, ChatError>(ChatError::MissingGroupId),
            Some(g) => if !cfg.allow_groups@.contains(g) {
                r == Ok::<GroupChatRoute, ChatError>(GroupChatRoute::Ignore)
            } else if mentions_me(*ev) {
                r == Ok::<GroupChatRoute, ChatError>(GroupChatRoute::AtMe)
            } else {
                r == Ok::<GroupChatRoute, ChatError>(GroupChatRoute::NeedBotInfo)
            },
        },
{
    let g = match ev.group_id {
        Some(g) => g,
        None => return Err(ChatError::MissingGroupId),
    };
    if !cfg.allow_groups.contains(&g) {
        return Ok(GroupChatRoute::Ignore);
    }
    if ev.at_qq.len() > 0 {
        if let Some(q) = &ev.at_qq[0] {
            if let Some(id) = parse_i64(q.as_str()) {
                if id == ev.self_id {
                    return Ok(GroupChatRoute::AtMe);
                }
            }
        }
    }
    Ok(GroupChatRoute::NeedBotInfo)
}

/// What to do with a group message once the cat's own nickname is known.
#[derive(Debug, Clone, Copy, PartialEq, Eq)]
pub enum TextRoute {
    /// The text holds the cat's nickname.
    CallMe,
    /// The text holds the word 猫娘 (see [`method_me`]).
    MethodMe,
    /// Nothing to answer.
    Ignore,
}

/// The word that makes the cat look up.
pub const CAT_WORD: &'static str = "猫娘";

/// The second step for a group message: a text holding the cat's nickname
/// (when it could be looked up) calls the cat; a text holding 猫娘 mentions
/// it.
pub fn route_by_name(ev: &MsgInfo, nickname: Option<&str>) -> (r: TextRoute)
    ensures
        r == (if nickname matches Some(n) && ev.text matches Some(t) && contains_seq(t@, n@) {
            TextRoute::CallMe
        } else if ev.text matches Some(t) && contains_seq(t@, CAT_WORD@) {
            TextRoute::MethodMe
        } else {
            TextRoute::Ignore
        }),
{
    if let Some(n) = nickname {
        if let Some(t) = &ev.text {
            if contains(t.as_str(), n) {
                return TextRoute::CallMe;
            }
        }
    }
    if let Some(t) = &ev.text {
        if contains(t.as_str(), CAT_WORD) {
            return TextRoute::MethodMe;
        }
    }
    TextRoute::Ignore
}

/// The answer when someone mentions 猫娘.
pub const METHOD_ME_REPLY: &'static str = "是不是有人叫我喵";

/// The reply to a text that mentions 猫娘: only while the cat is awake.
pub fn method_me(ctl: &SyncControl) -> (r: Option<String>)
    ensures
        ctl@ ==> (r matches Some(s) && s@ == METHOD_ME_REPLY@),
        !ctl@ ==> r is None,
{
    if !ctl.running() {
        return None;
    }
    Some(String::from_str(METHOD_ME_REPLY))
}

/// What to do with a message whose first mention is the cat.
#[derive(Debug)]
pub enum AtMeAction {
    /// The text is a command line: run it.
    Command(BotCommand),
    /// Ask the role-play model this question: record it with
    /// [`NyaCatMemory::load_mem`], send the conversation that returns to the
    /// model, then record and send the answer with
    /// [`NyaCatMemory::save_reply`].
    Ask(String),
    /// Answer with this text.
    Reply(String),
    /// Say nothing.
    Ignore,
}

/// The answer when the cat is mentioned without any text.
pub const IDLE_REPLY: &'static str = "叫我什么事喵？";

/// The command prefix.
pub const COMMAND_PREFIX: &'static str = "$";

/// A message that mentions the cat: a text starting with `$` is a command;
/// otherwise, while the cat is awake, a non-empty text is a question and no
/// text at all is answered with [`IDLE_REPLY`].
pub fn at_me(ev: &MsgInfo, ctl: &SyncControl) -> (r: AtMeAction)
    ensures
        match ev.text {
            Some(t) => if occurs_at(t@, COMMAND_PREFIX@, 0) {
                r matches AtMeAction::Command(c) && c.cmd@ == words(t@)[0]
                    && crate::text::strings_view(c.args@) == words(t@).drop_first()
                    && c.event.same_as(*ev)
            } else if !ctl@ {
                r is Ignore
            } else if t@.len() > 0 {
                r matches AtMeAction::Ask(q) && q@ == t@
            } else {
                r matches AtMeAction::Reply(s) && s@ == IDLE_REPLY@
            },
            None => if !ctl@ {
                r is Ignore
            } else {
                r matches AtMeAction::Reply(s) && s@ == IDLE_REPLY@
            },
        },
{
    if let Some(t) = &ev.text {
        if starts_with(t.as_str(), COMMAND_PREFIX) {
            proof {
                reveal_strlit("$");
                assert(t@.subrange(0, 1)[0] == t@[0]);
                assert(t@[0] == '$');
                assert(!is_white_space(t@[0]));
                lemma_words_non_empty(t@);
            }
            return AtMeAction::Command(BotCommand::from_str(t.as_str(), ev.clone_info()));
        }
    }
    if !ctl.running() {
        return AtMeAction::Ignore;
    }
    if let Some(t) = &ev.text {
        if t.as_str().unicode_len() > 0 {
            return AtMeAction::Ask(t.clone());
        }
    }
    AtMeAction::Reply(String::from_str(IDLE_REPLY))
}

/// One remembered message and the time, in seconds since the Unix epoch, it
/// was said.
pub type TimedMessage = (u64, ChatMessage);

/// The view of a remembered message.
pub type TimedView = (u64, MessageView);

/// The views of a list of remembered messages.
pub open spec fn timed_views(h: Seq<TimedMessage>) -> Seq<TimedView> {
    h.map_values(|e: TimedMessage| (e.0, e.1@))
}

/// The remembered messages of `user` in `m`, oldest first.
pub open spec fn history_of(m: Map<i64, Seq<TimedView>>, user: i64) -> Seq<TimedView> {
    if m.contains_key(user) {
        m[user]
    } else {
        Seq::empty()
    }
}

/// What stays of `h` at time `now`: old messages are dropped from the front
/// until the first kept one was said less than `exp` seconds ago and fewer
/// than `max` messages follow it.
pub open spec fn window(h: Seq<TimedView>, now: u64, max: usize, exp: u64) -> Seq<TimedView>
    decreases h.len(),
{
    if h.len() == 0 {
        h
    } else if h.len() - 1 < max && now - h[0].0 < exp {
        h
    } else {
        window(h.drop_first(), now, max, exp)
    }
}

/// The role-play window holds at most `max` messages, is what remains of
/// the history after dropping from the front, and begins with a message said
/// less than `exp` seconds before `now`; when the newest message is itself
/// younger than `exp` and `max` is not zero, the window ends with it.
pub proof fn law_window(h: Seq<TimedView>, now: u64, max: usize, exp: u64)
    ensures
        window(h, now, max, exp).len() <= max,
        exists|k: int| 0 <= k <= h.len() && window(h, now, max, exp) == h.subrange(k, h.len() as int),
        window(h, now, max, exp).len() > 0 ==> now - window(h, now, max, exp)[0].0 < exp,
        h.len() > 0 && max > 0 && now - h.last().0 < exp ==> window(h, now, max, exp).len() > 0
            && window(h, now, max, exp).last() == h.last(),
    decreases h.len(),
{
    if h.len() == 0 {
        assert(h.subrange(0, 0) =~= h);
    } else if h.len() - 1 < max && now - h[0].0 < exp {
        assert(h.subrange(0, h.len() as int) =~= h);
    } else {
        law_window(h.drop_first(), now, max, exp);
        let k = choose|k: int|
            0 <= k <= h.drop_first().len() && window(h.drop_first(), now, max, exp)
                == h.drop_first().subrange(k, h.drop_first().len() as int);
        assert(h.drop_first().subrange(k, h.drop_first().len() as int) =~= h.subrange(
            k + 1,
            h.len() as int,
        ));
        if h.len() > 0 && max > 0 && now - h.last().0 < exp {
            if h.len() == 1 {
                assert(h[0] == h.last());
            } else {
                assert(h.drop_first().last() == h.last());
            }
        }
    }
}

/// No message of `h` is dated after `now`.
pub open spec fn said_by(h: Seq<TimedView>, now: u64) -> bool {
    forall|i: int| 0 <= i < h.len() ==> (#[trigger] h[i]).0 <= now
}

/// The messages of a list of remembered messages.
pub open spec fn messages_of(h: Seq<TimedView>) -> Seq<MessageView> {
    h.map_values(|e: TimedView| e.1)
}

/// The views of a list of messages.
pub open spec fn message_views(v: Seq<ChatMessage>) -> Seq<MessageView> {
    v.map_values(|m: ChatMessage| m@)
}

/// The memory `m` after `user` asked `q` at time `now`: the question joins
/// the user's history, which is then trimmed to its window.
pub open spec fn after_question(
    m: Map<i64, Seq<TimedView>>,
    user: i64,
    q: Seq<char>,
    now: u64,
    max: usize,
    exp: u64,
) -> Map<i64, Seq<TimedView>> {
    m.insert(user, window(history_of(m, user).push((now, MessageView::User(q))), now, max, exp))
}

/// The memory `m` after the cat answered `a` to `user` at time `now`.
pub open spec fn after_answer(m: Map<i64, Seq<TimedView>>, user: i64, a: Seq<char>, now: u64) -> Map<
    i64,
    Seq<TimedView>,
> {
    m.insert(user, history_of(m, user).push((now, MessageView::Assistant(a))))
}

/// A question answered: the user's history becomes the window kept with the
/// question, followed by the answer; every other user's history stays as it
/// was.
pub proof fn law_question_then_answer(
    m: Map<i64, Seq<TimedView>>,
    user: i64,
    q: Seq<char>,
    now: u64,
    max: usize,
    exp: u64,
    a: Seq<char>,
    later: u64,
)
    ensures
        history_of(after_answer(after_question(m, user, q, now, max, exp), user, a, later), user)
            == window(history_of(m, user).push((now, MessageView::User(q))), now, max, exp).push(
            (later, MessageView::Assistant(a)),
        ),
        forall|u: i64|
            u != user ==> history_of(
                after_answer(after_question(m, user, q, now, max, exp), user, a, later),
                u,
            ) == #[trigger] history_of(m, u),
{
}

/// The remembered conversation of every user with the cat.
#[derive(Debug, Default)]
pub struct NyaCatMemory {
    user_memory: HashMap<i64, VecDeque<TimedMessage>>,
}

impl View for NyaCatMemory {
    type V = Map<i64, Seq<TimedView>>;

    closed spec fn view(&self) -> Map<i64, Seq<TimedView>> {
        Map::new(
            |k: i64| self.user_memory@.contains_key(k),
            |k: i64| timed_views(self.user_memory@[k]@),
        )
    }
}

impl NyaCatMemory {
    /// A memory that remembers nothing.
    pub fn new() -> (m: Self)
        ensures
            m@ == Map::<i64, Seq<TimedView>>::empty(),
    {
        let m = NyaCatMemory { user_memory: HashMap::new() };
        assert(m@ =~= Map::<i64, Seq<TimedView>>::empty());
        m
    }

    /// Forgets everything.
    pub fn clean(&mut self)
        ensures
            final(self)@ == Map::<i64, Seq<TimedView>>::empty(),
    {
        self.user_memory.clear();
        assert(self@ =~= Map::<i64, Seq<TimedView>>::empty());
    }

    /// Takes the history of `user` out of the table.
    fn take_history(&mut self, user_id: i64) -> (h: VecDeque<TimedMessage>)
        ensures
            timed_views(h@) == history_of(old(self)@, user_id),
            final(self)@ == old(self)@.remove(user_id),
    {
        let h = match self.user_memory.remove(&user_id) {
            Some(h) => h,
            None => VecDeque::new(),
        };
        assert(self@ =~= old(self)@.remove(user_id));
        h
    }

    /// Puts a history for `user` into the table.
    fn put_history(&mut self, user_id: i64, h: VecDeque<TimedMessage>)
        ensures
            final(self)@ == old(self)@.insert(user_id, timed_views(h@)),
    {
        let ghost hv = timed_views(h@);
        self.user_memory.insert(user_id, h);
        assert(self@ =~= old(self)@.insert(user_id, hv));
    }

    /// Whether no remembered message of `user` is dated after `now`, which
    /// [`NyaCatMemory::load_mem`] needs.
    pub fn said_by(&self, user_id: i64, now: u64) -> (b: bool)
        ensures
            b == said_by(history_of(self@, user_id), now),
    {
        match self.user_memory.get(&user_id) {
            None => true,
            Some(h) => {
                let ghost hv = timed_views(h@);
                assert(hv == history_of(self@, user_id));
                let mut i: usize = 0;
                while i < h.len()
                    invariant
                        i <= h@.len(),
                        hv == timed_views(h@),
                        hv == history_of(self@, user_id),
                        forall|j: int| 0 <= j < i ==> (#[trigger] hv[j]).0 <= now,
                    decreases h@.len() - i,
                {
                    if h[i].0 > now {
                        assert(hv[i as int].0 > now);
                        return false;
                    }
                    i = i + 1;
                }
                true
            },
        }
    }

    /// Records the question `new_msg` of `user` at time `now`, trims the
    /// user's history to the window the configuration allows, and returns
    /// the conversation to send: the role prompt, then the kept messages.
    pub fn load_mem(&mut self, user_id: i64, new_msg: &str, now: u64, cfg: &ChatModelCallConfig) -> (r:
        Vec<ChatMessage>)
        requires
            said_by(history_of(old(self)@, user_id), now),
        ensures
            ({
                let after = after_question(
                    old(self)@,
                    user_id,
                    new_msg@,
                    now,
                    cfg.role_max_message,
                    cfg.role_context_expiration_time_second,
                );
                &&& final(self)@ == after
                &&& message_views(r@) == seq![MessageView::System(cfg.role_prompt@)] + messages_of(
                    history_of(after, user_id),
                )
            }),
    {
        let mut arr = self.take_history(user_id);
        let ghost old_h = timed_views(arr@);
        arr.push_back((now, ChatMessage::User(new_msg.to_owned())));
        let max = cfg.role_max_message;
        let exp = cfg.role_context_expiration_time_second;
        let ghost h0 = timed_views(arr@);
        assert(h0 =~= old_h.push((now, MessageView::User(new_msg@))));
        assert(said_by(h0, now)) by {
            assert forall|i: int| 0 <= i < h0.len() implies (#[trigger] h0[i]).0 <= now by {
                if i < h0.len() - 1 {
                    assert(h0[i] == old_h[i]);
                }
            }
        }
        loop
            invariant
                window(timed_views(arr@), now, max, exp) == window(h0, now, max, exp),
                said_by(timed_views(arr@), now),
            ensures
                timed_views(arr@) == window(h0, now, max, exp),
            decreases arr@.len(),
        {
            let ghost before = timed_views(arr@);
            match arr.pop_front() {
                Some(e) => {
                    assert(timed_views(arr@) =~= before.drop_first());
                    assert(before[0] == (e.0, e.1@));
                    assert(e.0 <= now);
                    if arr.len() < max && now - e.0 < exp {
                        arr.push_front(e);
                        assert(timed_views(arr@) =~= before);
                        break;
                    }
                    assert forall|i: int| 0 <= i < timed_views(arr@).len() implies (
                    #[trigger] timed_views(arr@)[i]).0 <= now by {
                        assert(timed_views(arr@)[i] == before[i + 1]);
                    }
                },
                None => {
                    assert(timed_views(arr@) =~= before);
                    break;
                },
            }
        }
        let mut v: Vec<ChatMessage> = Vec::new();
        v.push(role_system_message(cfg));
        let mut i: usize = 0;
        while i < arr.len()
            invariant
                i <= arr@.len(),
                message_views(v@) == seq![MessageView::System(cfg.role_prompt@)] + messages_of(
                    timed_views(arr@.take(i as int)),
                ),
            decreases arr@.len() - i,
        {
            let m = arr[i].1.clone_message();
            let ghost before = v@;
            v.push(m);
            i = i + 1;
            assert(v@ =~= before.push(m));
            assert(message_views(v@) =~= message_views(before).push(m@));
            assert(arr@.take(i as int) =~= arr@.take(i - 1).push(arr@[i - 1]));
            assert(messages_of(timed_views(arr@.take(i as int))) =~= messages_of(
                timed_views(arr@.take(i - 1)),
            ).push(arr@[i - 1].1@));
        }
        assert(arr@.take(arr@.len() as int) =~= arr@);
        self.put_history(user_id, arr);
        v
    }

    /// Records the cat's answer `new_chat_msg` to `user` at time `now`.
    pub fn save_mem(&mut self, user_id: i64, new_chat_msg: &str, now: u64)
        ensures
            final(self)@ == after_answer(old(self)@, user_id, new_chat_msg@, now),
    {
        let mut arr = self.take_history(user_id);
        let ghost old_h = timed_views(arr@);
        arr.push_back((now, ChatMessage::Assistant(new_chat_msg.to_owned())));
        assert(timed_views(arr@) =~= old_h.push((now, MessageView::Assistant(new_chat_msg@))));
        self.put_history(user_id, arr);
    }

    /// Answers `user` with the result of the model call: its answer, or the
    /// failure message; the reply is recorded at time `now` and returned to
    /// be sent.
    pub fn save_reply(&mut self, user_id: i64, result: Result<String, String>, now: u64) -> (r:
        String)
        ensures
            r@ == reply_text(result),
            final(self)@ == after_answer(old(self)@, user_id, r@, now),
    {
        let out = reply_or_error(result);
        self.save_mem(user_id, out.as_str(), now);
        out
    }
}

} // verus!
