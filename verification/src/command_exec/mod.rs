//! The command plugin: who may run commands where, and which text segments
//! of a message are command lines.
pub mod config;

use vstd::prelude::*;
use crate::chat_message::command_exec::app::BotCommand;
use crate::event::MsgInfo;
use crate::text::{is_white_space, lemma_words_non_empty, occurs_at, starts_with, strings_view, words};

verus! {

/// The command lines among the text segments `texts`: those that start with
/// `$`, in order.
pub open spec fn command_lines(texts: Seq<Option<String>>) -> Seq<Seq<char>>
    decreases texts.len(),
{
    if texts.len() == 0 {
        Seq::empty()
    } else {
        let rest = command_lines(texts.drop_last());
        match texts.last() {
            Some(t) => if occurs_at(t@, "$"@, 0) {
                rest.push(t@)
            } else {
                rest
            },
            None => rest,
        }
    }
}

/// The commands of a message: each text segment that starts with `$`, in
/// order, split into its command name and arguments.
pub fn on_msg(e: &MsgInfo) -> (cmds: Vec<BotCommand>)
    ensures
        cmds@.len() == command_lines(e.text_segments@).len(),
        forall|i: int|
            0 <= i < cmds@.len() ==> {
                let line = command_lines(e.text_segments@)[i];
                &&& (#[trigger] cmds@[i]).cmd@ == words(line)[0]
                &&& strings_view(cmds@[i].args@) == words(line).drop_first()
                &&& cmds@[i].event.same_as(*e)
            },
{
    let mut cmds: Vec<BotCommand> = Vec::new();
    let mut i: usize = 0;
    while i < e.text_segments.len()
        invariant
            i <= e.text_segments@.len(),
            cmds@.len() == command_lines(e.text_segments@.take(i as int)).len(),
            forall|k: int|
                0 <= k < cmds@.len() ==> {
                    let line = command_lines(e.text_segments@.take(i as int))[k];
                    &&& (#[trigger] cmds@[k]).cmd@ == words(line)[0]
                    &&& strings_view(cmds@[k].args@) == words(line).drop_first()
                    &&& cmds@[k].event.same_as(*e)
                },
        decreases e.text_segments@.len() - i,
    {
        let ghost t = e.text_segments@.take(i + 1);
        assert(t.drop_last() =~= e.text_segments@.take(i as int));
        assert(t.last() == e.text_segments@[i as int]);
        if let Some(s) = &e.text_segments[i] {
            if starts_with(s.as_str(), "$") {
                proof {
                    reveal_strlit("$");
                    assert(s@.subrange(0, 1)[0] == s@[0]);
                    assert(!is_white_space(s@[0]));
                    lemma_words_non_empty(s@);
                }
                let c = BotCommand::from_str(s.as_str(), e.clone_info());
                cmds.push(c);
            }
        }
        i = i + 1;
    }
    assert(e.text_segments@.take(e.text_segments@.len() as int) =~= e.text_segments@);
    cmds
}

} // verus!
