//! What the plugins read of an incoming chat message, as plain values.
use vstd::prelude::*;

verus! {

/// The parts of a received message that the plugins' decisions read.
#[derive(Debug, Clone)]
pub struct MsgInfo {
    /// The group the message was sent in; `None` for a private message.
    pub group_id: Option<i64>,
    /// The sender.
    pub user_id: i64,
    /// The bot's own account.
    pub self_id: i64,
    /// The plain text of the message, when it has any.
    pub text: Option<String>,
    /// For each `at` segment, in order, its `qq` value when that is a string.
    pub at_qq: Vec<Option<String>>,
    /// For each `text` segment, in order, its `text` value when that is a string.
    pub text_segments: Vec<Option<String>>,
    /// For each `reply` segment, in order, the id of the message replied to
    /// when that is a string.
    pub reply_ids: Vec<Option<String>>,
}

} // verus!
verus! {

/// A copy of a list of optional strings.
pub fn clone_opt_strings(v: &Vec<Option<String>>) -> (r: Vec<Option<String>>)
    ensures
        r@ == v@,
{
    let mut r: Vec<Option<String>> = Vec::new();
    let mut i: usize = 0;
    while i < v.len()
        invariant
            i <= v.len(),
            r@ == v@.take(i as int),
        decreases v.len() - i,
    {
        let x = match &v[i] {
            Some(s) => Some(s.clone()),
            None => None,
        };
        r.push(x);
        i = i + 1;
        assert(r@ =~= v@.take(i as int));
    }
    assert(v@.take(v.len() as int) =~= v@);
    r
}

impl MsgInfo {
    /// `self` and `other` hold the same values.
    pub open spec fn same_as(self, other: MsgInfo) -> bool {
        &&& self.group_id == other.group_id
        &&& self.user_id == other.user_id
        &&& self.self_id == other.self_id
        &&& self.text == other.text
        &&& self.at_qq@ == other.at_qq@
        &&& self.text_segments@ == other.text_segments@
        &&& self.reply_ids@ == other.reply_ids@
    }

    /// Holding the same values is an equivalence that leaves no field out: every
    /// field of the two messages, the segments included, agrees.
    pub proof fn law_same_as_keeps_every_field(self, other: MsgInfo, third: MsgInfo)
        ensures
            self.same_as(other) ==> self.group_id == other.group_id && self.user_id
                == other.user_id && self.self_id == other.self_id && self.text == other.text
                && self.at_qq@ == other.at_qq@ && self.text_segments@ == other.text_segments@
                && self.reply_ids@ == other.reply_ids@,
            self.same_as(self),
            self.same_as(other) ==> other.same_as(self),
            self.same_as(other) && other.same_as(third) ==> self.same_as(third),
    {
    }

    /// A copy of this message.
    pub fn clone_info(&self) -> (r: Self)
        ensures
            r.same_as(*self),
    {
        MsgInfo {
            group_id: self.group_id,
            user_id: self.user_id,
            self_id: self.self_id,
            text: match &self.text {
                Some(t) => Some(t.clone()),
                None => None,
            },
            at_qq: clone_opt_strings(&self.at_qq),
            text_segments: clone_opt_strings(&self.text_segments),
            reply_ids: clone_opt_strings(&self.reply_ids),
        }
    }
}

} // verus!
