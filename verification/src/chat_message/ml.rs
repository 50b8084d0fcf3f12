//! What goes to the chat model and what comes back, as plain values.
use vstd::prelude::*;
use crate::chat_message::config::ChatModelCallConfig;

verus! {

/// One message of a conversation with the model.
#[derive(Debug, Clone, PartialEq, Eq)]
pub enum ChatMessage {
    /// Instructions to the model.
    System(String),
    /// What a user said.
    User(String),
    /// What the model answered.
    Assistant(String),
}

/// The view of a [`ChatMessage`]: its role and its text.
pub enum MessageView {
    /// Instructions to the model.
    System(Seq<char>),
    /// What a user said.
    User(Seq<char>),
    /// What the model answered.
    Assistant(Seq<char>),
}

impl View for ChatMessage {
    type V = MessageView;

    open spec fn view(&self) -> MessageView {
        match self {
            ChatMessage::System(s) => MessageView::System(s@),
            ChatMessage::User(s) => MessageView::User(s@),
            ChatMessage::Assistant(s) => MessageView::Assistant(s@),
        }
    }
}

impl ChatMessage {
    /// A copy of this message.
    pub fn clone_message(&self) -> (r: Self)
        ensures
            r == *self,
    {
        match self {
            ChatMessage::System(s) => ChatMessage::System(s.clone()),
            ChatMessage::User(s) => ChatMessage::User(s.clone()),
            ChatMessage::Assistant(s) => ChatMessage::Assistant(s.clone()),
        }
    }
}

/// The single user message sent to the smart model for the question `q`:
/// the configured smart prompt, a line break, then the question.
pub fn smart_request(cfg: &ChatModelCallConfig, q: &str) -> (r: String)
    ensures
        r@ == cfg.smart_prompt@ + "\n"@ + q@,
{
    let mut r = cfg.smart_prompt.clone();
    r.append("\n");
    r.append(q);
    r
}

/// The system message that opens every role-play conversation: the
/// configured role prompt.
pub fn role_system_message(cfg: &ChatModelCallConfig) -> (m: ChatMessage)
    ensures
        m@ == MessageView::System(cfg.role_prompt@),
{
    ChatMessage::System(cfg.role_prompt.clone())
}

/// The text of a completion: the content of its first choice, if that has one.
pub fn completion_text(choices: &Vec<Option<String>>) -> (r: Option<String>)
    ensures
        choices@.len() == 0 ==> r is None,
        choices@.len() > 0 ==> r == choices@[0],
{
    if choices.len() == 0 {
        None
    } else {
        match &choices[0] {
            Some(s) => Some(s.clone()),
            None => None,
        }
    }
}

/// The prefix of the reply sent when the model call failed.
pub const ERROR_REPLY_PREFIX: &'static str = "发生错误了喵：";

/// The text of the reply for a model call: its answer, or the failure
/// message after [`ERROR_REPLY_PREFIX`].
pub open spec fn reply_text(result: Result<String, String>) -> Seq<char> {
    match result {
        Ok(s) => s@,
        Err(e) => ERROR_REPLY_PREFIX@ + e@,
    }
}

/// The reply for a model call: its answer, or the failure message after
/// [`ERROR_REPLY_PREFIX`].
pub fn reply_or_error(result: Result<String, String>) -> (r: String)
    ensures
        r@ == reply_text(result),
{
    match result {
        Ok(s) => s,
        Err(e) => {
            let mut r = String::from_str(ERROR_REPLY_PREFIX);
            r.append(e.as_str());
            r
        },
    }
}

} // verus!
