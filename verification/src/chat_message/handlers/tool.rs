//! Sending a long answer as several chat messages, one piece at a time.
use vstd::prelude::*;
use crate::chat_message::config::ChatModelCallConfig;
use crate::text::{split_non_empty, split_non_empty_pieces, strings_view};

verus! {

/// The pause before sending `piece`, in milliseconds: the configured
/// per-character pause times the piece's length in characters when that is
/// set, the fixed pause otherwise.
pub open spec fn piece_delay(cfg: ChatModelCallConfig, piece: Seq<char>) -> int {
    match cfg.dot_wait_pre_char_ms {
        Some(c) => c * piece.len(),
        None => cfg.dot_wait_time_ms as int,
    }
}

/// The pieces a reply is sent as: its non-empty pieces between occurrences
/// of the configured separator.
pub open spec fn reply_pieces(cfg: ChatModelCallConfig, reply: Seq<char>) -> Seq<Seq<char>> {
    split_non_empty(reply, cfg.dot_wait_tag@)
}

/// How to send `reply` as instant messages: each of its pieces, in order,
/// with the pause to wait before sending it.
pub fn reply_as_im(cfg: &ChatModelCallConfig, reply: &str) -> (plan: Vec<(u64, String)>)
    requires
        forall|i: int|
            0 <= i < reply_pieces(*cfg, reply@).len() ==> piece_delay(
                *cfg,
                #[trigger] reply_pieces(*cfg, reply@)[i],
            ) <= u64::MAX,
    ensures
        plan@.len() == reply_pieces(*cfg, reply@).len(),
        forall|i: int|
            0 <= i < plan@.len() ==> (#[trigger] plan@[i]).1@ == reply_pieces(*cfg, reply@)[i]
                && plan@[i].0 == piece_delay(*cfg, reply_pieces(*cfg, reply@)[i]),
{
    let pieces = split_non_empty_pieces(reply, cfg.dot_wait_tag.as_str());
    let ghost ps = reply_pieces(*cfg, reply@);
    assert(strings_view(pieces@) == ps);
    let mut plan: Vec<(u64, String)> = Vec::new();
    let mut i: usize = 0;
    while i < pieces.len()
        invariant
            i <= pieces@.len(),
            strings_view(pieces@) == ps,
            ps == reply_pieces(*cfg, reply@),
            forall|k: int| 0 <= k < ps.len() ==> piece_delay(*cfg, #[trigger] ps[k]) <= u64::MAX,
            plan@.len() == i,
            forall|k: int|
                0 <= k < i ==> (#[trigger] plan@[k]).1@ == ps[k] && plan@[k].0 == piece_delay(
                    *cfg,
                    ps[k],
                ),
        decreases pieces@.len() - i,
    {
        let piece = pieces[i].clone();
        assert(piece@ == ps[i as int]);
        let delay: u64 = match cfg.dot_wait_pre_char_ms {
            Some(c) => {
                let n = piece.as_str().unicode_len();
                assert(piece_delay(*cfg, ps[i as int]) <= u64::MAX);
                if c == 0 {
                    assert(piece_delay(*cfg, ps[i as int]) == 0) by (nonlinear_arith)
                        requires
                            piece_delay(*cfg, ps[i as int]) == c * ps[i as int].len(),
                            c == 0,
                    ;
                    0
                } else {
                    assert(n <= u64::MAX) by (nonlinear_arith)
                        requires
                            c * n <= u64::MAX,
                            c >= 1,
                            n >= 0,
                    ;
                    assert(piece_delay(*cfg, ps[i as int]) == c * n);
                    c * (n as u64)
                }
            },
            None => cfg.dot_wait_time_ms,
        };
        assert(delay == piece_delay(*cfg, ps[i as int]));
        let ghost before = plan@;
        plan.push((delay, piece));
        assert(forall|k: int| 0 <= k < i ==> plan@[k] == before[k]);
        i = i + 1;
    }
    plan
}

} // verus!
