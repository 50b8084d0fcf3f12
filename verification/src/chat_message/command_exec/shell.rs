//! `$shell`: hands out shell numbers.
use vstd::prelude::*;
use crate::chat_message::config::SyncControl;
use crate::text::{decimal_text, push_decimal_u64};

verus! {

/// The first shell number handed out.
pub const FIRST_SHELL_ID: usize = 1156;

/// The number after `id`, wrapping to zero after the largest `usize`.
pub open spec fn next_id(id: usize) -> usize {
    if id == usize::MAX {
        0
    } else {
        (id + 1) as usize
    }
}

/// The number that stands next after `k` numbers were handed out from `id`.
pub open spec fn nth_id(id: usize, k: nat) -> usize
    decreases k,
{
    if k == 0 {
        id
    } else {
        next_id(nth_id(id, (k - 1) as nat))
    }
}

/// Handing out one more number adds one, modulo the `usize` range.
proof fn lemma_next_id_mod(n: usize, k: nat)
    requires
        nth_id(n, k) == (n + k) % (usize::MAX + 1),
    ensures
        nth_id(n, k + 1) == (n + k + 1) % (usize::MAX + 1),
{
    let m: int = usize::MAX + 1;
    let r: int = (n + k) % m;
    assert(nth_id(n, k + 1) == next_id(nth_id(n, k)));
    vstd::arithmetic::div_mod::lemma_add_mod_noop((n + k) as int, 1, m);
    vstd::arithmetic::div_mod::lemma_small_mod(1, m as nat);
    vstd::arithmetic::div_mod::lemma_mod_bound((n + k) as int, m);
    if r + 1 < m {
        vstd::arithmetic::div_mod::lemma_small_mod((r + 1) as nat, m as nat);
    } else {
        vstd::arithmetic::div_mod::lemma_mod_self_0(m);
    }
}

/// Two numbers `d` apart, with `0 < d` below the size of the `usize` range,
/// differ modulo that range.
proof fn lemma_apart_mod(a: int, d: int)
    requires
        0 <= a,
        0 < d <= usize::MAX,
    ensures
        a % (usize::MAX + 1) != (a + d) % (usize::MAX + 1),
{
    let m: int = usize::MAX + 1;
    let r: int = a % m;
    vstd::arithmetic::div_mod::lemma_mod_bound(a, m);
    vstd::arithmetic::div_mod::lemma_add_mod_noop(a, d, m);
    vstd::arithmetic::div_mod::lemma_small_mod(d as nat, m as nat);
    if r + d < m {
        vstd::arithmetic::div_mod::lemma_small_mod((r + d) as nat, m as nat);
    } else {
        vstd::arithmetic::div_mod::lemma_fundamental_div_mod_converse_mod(r + d, m, 1, r + d - m);
    }
}

/// Shell numbers are handed out in turn from where the numbering stands: after
/// `i` numbers were handed out from `n`, the next is `n + i`, wrapping to zero
/// past the largest `usize`; so the numbers of up to `usize::MAX + 1`
/// successive `$shell` commands are all different.
pub proof fn lemma_shell_numbers(n: usize, k: nat)
    ensures
        forall|i: nat| i <= k ==> #[trigger] nth_id(n, i) == (n + i) % (usize::MAX + 1),
        k <= usize::MAX + 1 ==> forall|i: nat, j: nat|
            i < j < k ==> #[trigger] nth_id(n, i) != #[trigger] nth_id(n, j),
    decreases k,
{
    if k == 0 {
        vstd::arithmetic::div_mod::lemma_small_mod(n as nat, (usize::MAX + 1) as nat);
        assert forall|i: nat| i <= k implies #[trigger] nth_id(n, i) == (n + i) % (usize::MAX
            + 1) by {}
    } else {
        lemma_shell_numbers(n, (k - 1) as nat);
        lemma_next_id_mod(n, (k - 1) as nat);
        assert forall|i: nat| i <= k implies #[trigger] nth_id(n, i) == (n + i) % (usize::MAX
            + 1) by {
            if i < k {
            }
        }
        if k <= usize::MAX + 1 {
            assert forall|i: nat, j: nat| i < j < k implies #[trigger] nth_id(n, i)
                != #[trigger] nth_id(n, j) by {
                lemma_apart_mod(n + i, j - i);
            }
        }
    }
}

/// The next shell number to hand out.
pub struct ShellIds {
    next: usize,
}

impl View for ShellIds {
    type V = usize;

    closed spec fn view(&self) -> usize {
        self.next
    }
}

impl ShellIds {
    /// Numbering that starts at [`FIRST_SHELL_ID`].
    pub fn new() -> (s: Self)
        ensures
            s@ == FIRST_SHELL_ID,
    {
        ShellIds { next: FIRST_SHELL_ID }
    }

    /// Hands out the next number; after the largest `usize` numbering wraps
    /// to zero.
    pub fn take(&mut self) -> (id: usize)
        ensures
            id == old(self)@,
            final(self)@ == next_id(old(self)@),
    {
        let id = self.next;
        self.next = self.next.wrapping_add(1);
        id
    }
}

/// The text of the answer to `$shell` before the shell's number.
pub const SHELL_CREATED: &'static str = "shell创建成功喵！编号 ";

/// The answer announcing the shell numbered `id`.
pub fn shell_created_reply(id: usize) -> (r: String)
    ensures
        r@ == SHELL_CREATED@ + decimal_text(id as int),
{
    let mut r = String::from_str(SHELL_CREATED);
    push_decimal_u64(&mut r, id as u64);
    r
}

/// `$shell`: while the cat is awake, hands out a shell number and announces it.
pub fn exec_shell_cmd(ctl: &SyncControl, ids: &mut ShellIds) -> (r: Option<String>)
    ensures
        ctl@ ==> (r matches Some(s) && s@ == SHELL_CREATED@ + decimal_text(old(ids)@ as int))
            && final(ids)@ == next_id(old(ids)@),
        !ctl@ ==> r is None && final(ids)@ == old(ids)@,
{
    if !ctl.running() {
        return None;
    }
    let id = ids.take();
    Some(shell_created_reply(id))
}

} // verus!
