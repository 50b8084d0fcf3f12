//! Emoji reactions on messages, and the `$monkey` command that chooses who
//! gets them.
use vstd::prelude::*;
use crate::chat_message::command_exec::app::{BotCommand, BotCommandBuilder};
use crate::emoji_attack::config::EmojiAttackConfig;
use crate::emoji_attack::data::{users_in, EmojiAttackData};
use crate::event::MsgInfo;
use crate::text::{parse_i64, parse_i64_spec, same_text};

verus! {

broadcast use vstd::std_specs::hash::group_hash_axioms;

/// The pause between reactions when none is configured, in milliseconds.
pub const DEFAULT_WAIT_MS: u64 = 300;

/// The reactions to send on a message.
#[derive(Debug, PartialEq, Eq)]
pub struct AttackPlan {
    /// The emoji ids, in order.
    pub emoji: Vec<String>,
    /// The pause after each reaction, in milliseconds.
    pub wait_ms: u64,
}

/// A copy of a list of strings.
fn clone_strings(v: &Vec<String>) -> (r: Vec<String>)
    ensures
        r@ == v@,
{
    let mut r: Vec<String> = Vec::new();
    let mut i: usize = 0;
    while i < v.len()
        invariant
            i <= v.len(),
            r@ == v@.take(i as int),
        decreases v.len() - i,
    {
        r.push(v[i].clone());
        i = i + 1;
        assert(r@ =~= v@.take(i as int));
    }
    assert(v@.take(v.len() as int) =~= v@);
    r
}

/// The pause after each reaction: the configured one, [`DEFAULT_WAIT_MS`]
/// when none is.
pub open spec fn wait_of(cfg: EmojiAttackConfig) -> u64 {
    match cfg.wait_ms {
        Some(w) => w,
        None => DEFAULT_WAIT_MS,
    }
}

/// Every configured emoji, in order, with the configured pause.
fn plan_of(cfg: &EmojiAttackConfig) -> (p: AttackPlan)
    ensures
        p.emoji@ == cfg.emoji@,
        p.wait_ms == wait_of(*cfg),
{
    let wait = match cfg.wait_ms {
        Some(w) => w,
        None => DEFAULT_WAIT_MS,
    };
    AttackPlan { emoji: clone_strings(&cfg.emoji), wait_ms: wait }
}

/// A message from `user_id` in `group_id`: when the group gets reactions and
/// the member is chosen, react with every configured emoji, pausing the
/// configured time (300 ms by default) after each.
pub fn handle_group_msg(cfg: &EmojiAttackConfig, data: &EmojiAttackData, group_id: i64, user_id: i64) -> (r:
    Option<AttackPlan>)
    ensures
        !(cfg.allow_monkey_groups@.contains(group_id) && users_in(data@, group_id).contains(
            user_id,
        )) ==> r is None,
        cfg.allow_monkey_groups@.contains(group_id) && users_in(data@, group_id).contains(user_id)
            ==> (r matches Some(p) && p.emoji@ == cfg.emoji@ && p.wait_ms == wait_of(*cfg)),
{
    if !cfg.allow_monkey_groups.contains(&group_id) {
        return None;
    }
    if !data.targets(group_id, user_id) {
        return None;
    }
    Some(plan_of(cfg))
}

/// The accounts named by the `at` segments `at_qq` that parse as numbers, in
/// order, without the bot's own.
pub open spec fn qq_targets(at_qq: Seq<Option<String>>, self_id: i64) -> Seq<i64>
    decreases at_qq.len(),
{
    if at_qq.len() == 0 {
        Seq::empty()
    } else {
        let rest = qq_targets(at_qq.drop_last(), self_id);
        match at_qq.last() {
            Some(q) => match parse_i64_spec(q@) {
                Some(v) => if v != self_id {
                    rest.push(v)
                } else {
                    rest
                },
                None => rest,
            },
            None => rest,
        }
    }
}

/// The arguments that parse as numbers, in order.
pub open spec fn arg_targets(args: Seq<String>) -> Seq<i64>
    decreases args.len(),
{
    if args.len() == 0 {
        Seq::empty()
    } else {
        let rest = arg_targets(args.drop_last());
        match parse_i64_spec(args.last()@) {
            Some(v) => rest.push(v),
            None => rest,
        }
    }
}

/// The members a `$monkey` command names: those mentioned, then the numbers
/// among its arguments after the first.
pub open spec fn command_targets(e: BotCommand) -> Seq<i64> {
    qq_targets(e.event.at_qq@, e.event.self_id) + if e.args@.len() > 1 {
        arg_targets(e.args@.skip(1))
    } else {
        Seq::empty()
    }
}

fn collect_qq_targets(at_qq: &Vec<Option<String>>, self_id: i64, out: &mut Vec<i64>)
    ensures
        final(out)@ == old(out)@ + qq_targets(at_qq@, self_id),
{
    let mut i: usize = 0;
    let ghost start = out@;
    assert(at_qq@.take(0) =~= Seq::<Option<String>>::empty());
    while i < at_qq.len()
        invariant
            i <= at_qq@.len(),
            out@ == start + qq_targets(at_qq@.take(i as int), self_id),
        decreases at_qq@.len() - i,
    {
        let ghost t = at_qq@.take(i + 1);
        assert(t.drop_last() =~= at_qq@.take(i as int));
        assert(t.last() == at_qq@[i as int]);
        let ghost before = out@;
        if let Some(q) = &at_qq[i] {
            if let Some(v) = parse_i64(q.as_str()) {
                if v != self_id {
                    out.push(v);
                    assert(out@ =~= start + qq_targets(at_qq@.take(i as int), self_id).push(v));
                }
            }
        }
        i = i + 1;
    }
    assert(at_qq@.take(at_qq@.len() as int) =~= at_qq@);
}

fn collect_arg_targets(args: &Vec<String>, from: usize, out: &mut Vec<i64>)
    requires
        from <= args@.len(),
    ensures
        final(out)@ == old(out)@ + arg_targets(args@.skip(from as int)),
{
    let mut i: usize = from;
    let ghost start = out@;
    let ghost a = args@.skip(from as int);
    assert(a.take(0) =~= Seq::<String>::empty());
    while i < args.len()
        invariant
            from <= i <= args@.len(),
            a == args@.skip(from as int),
            out@ == start + arg_targets(a.take(i - from)),
        decreases args@.len() - i,
    {
        let ghost t = a.take(i - from + 1);
        assert(t.drop_last() =~= a.take(i - from));
        assert(t.last() == args@[i as int]);
        if let Some(v) = parse_i64(args[i].as_str()) {
            out.push(v);
            assert(out@ =~= start + arg_targets(a.take(i - from)).push(v));
        }
        i = i + 1;
    }
    assert(a.take(args@.len() - from) =~= a);
}

/// The members a `$monkey` command names, in order.
pub fn targets_of(e: &BotCommand) -> (t: Vec<i64>)
    ensures
        t@ == command_targets(*e),
{
    let mut t: Vec<i64> = Vec::new();
    collect_qq_targets(&e.event.at_qq, e.event.self_id, &mut t);
    if e.args.len() > 1 {
        collect_arg_targets(&e.args, 1, &mut t);
    } else {
        assert(t@ =~= t@ + Seq::<i64>::empty());
    }
    assert(t@ =~= command_targets(*e));
    t
}

/// The answer when a `$monkey` command changed something.
pub const DONE_REPLY: &'static str = "操作成功喵！";

/// The answer when a `$monkey` command changed nothing.
pub const FAILED_REPLY: &'static str = "操作失败喵！";

/// The `$monkey` sub-commands.
pub const ADD: &'static str = "add";

/// Removes members.
pub const DEL: &'static str = "del";

/// Removes every member of the group.
pub const CLEAN: &'static str = "clean";

/// What a `$monkey` sub-command does to the chosen members of the group,
/// and whether it counts as done: `add` adds the named members (done when
/// one was new), `del` removes them (done when one was there), `clean`
/// removes everyone (always done); others change nothing and fail.
pub open spec fn auto_cmd_effect(cmd: Seq<char>, users: Set<i64>, targets: Seq<i64>) -> (Set<
    i64,
>, bool) {
    if cmd == ADD@ {
        (users + targets.to_set(), exists|i: int| 0 <= i < targets.len() && !users.contains(targets[i]))
    } else if cmd == DEL@ {
        (users - targets.to_set(), exists|i: int| 0 <= i < targets.len() && users.contains(targets[i]))
    } else if cmd == CLEAN@ {
        (Set::empty(), true)
    } else {
        (users, false)
    }
}

/// After `add`, every named member is chosen; after `del`, none is; `del`
/// undoes an `add` of members that were not chosen before; `clean` leaves
/// nobody.
pub proof fn law_add_del_clean(users: Set<i64>, targets: Seq<i64>)
    ensures
        forall|i: int|
            0 <= i < targets.len() ==> auto_cmd_effect(ADD@, users, targets).0.contains(
                #[trigger] targets[i],
            ),
        forall|i: int|
            0 <= i < targets.len() ==> !auto_cmd_effect(DEL@, users, targets).0.contains(
                #[trigger] targets[i],
            ),
        auto_cmd_effect(DEL@, auto_cmd_effect(ADD@, users, targets).0, targets).0 == users
            - targets.to_set(),
        auto_cmd_effect(CLEAN@, users, targets).0 == Set::<i64>::empty(),
{
    reveal_strlit("add");
    reveal_strlit("del");
    reveal_strlit("clean");
    assert(ADD@[0] != DEL@[0]);
    assert(ADD@[0] != CLEAN@[0]);
    assert(DEL@.len() != CLEAN@.len());
    assert forall|i: int| 0 <= i < targets.len() implies targets.to_set().contains(
        #[trigger] targets[i],
    ) by {
        assert(targets.contains(targets[i]));
    }
    assert((users + targets.to_set()) - targets.to_set() =~= users - targets.to_set());
}

/// `add` and `del` answer success exactly when they changed who is chosen:
/// `add` when some named member was not chosen before, `del` when some named
/// member was.
pub proof fn law_done_iff_changed(users: Set<i64>, targets: Seq<i64>)
    ensures
        auto_cmd_effect(ADD@, users, targets).1 <==> auto_cmd_effect(ADD@, users, targets).0
            != users,
        auto_cmd_effect(DEL@, users, targets).1 <==> auto_cmd_effect(DEL@, users, targets).0
            != users,
{
    reveal_strlit("add");
    reveal_strlit("del");
    assert(ADD@[0] != DEL@[0]);
    let added = users + targets.to_set();
    let removed = users - targets.to_set();
    if exists|i: int| 0 <= i < targets.len() && !users.contains(targets[i]) {
        let i = choose|i: int| 0 <= i < targets.len() && !users.contains(targets[i]);
        assert(targets.contains(targets[i]));
        assert(added.contains(targets[i]));
    } else {
        assert forall|x: i64| added.contains(x) implies users.contains(x) by {
            if targets.contains(x) {
                let i = choose|i: int| 0 <= i < targets.len() && targets[i] == x;
                assert(users.contains(targets[i]));
            }
        }
        assert(added =~= users);
    }
    if exists|i: int| 0 <= i < targets.len() && users.contains(targets[i]) {
        let i = choose|i: int| 0 <= i < targets.len() && users.contains(targets[i]);
        assert(targets.contains(targets[i]));
        assert(!removed.contains(targets[i]));
    } else {
        assert forall|x: i64| users.contains(x) implies removed.contains(x) by {
            if targets.contains(x) {
                let i = choose|i: int| 0 <= i < targets.len() && targets[i] == x;
                assert(!users.contains(targets[i]));
            }
        }
        assert(removed =~= users);
    }
}

/// What a `$monkey` sub-command does, and its answer, depend only on which
/// members it names, not on their order or repetition.
pub proof fn law_effect_ignores_order(cmd: Seq<char>, users: Set<i64>, t1: Seq<i64>, t2: Seq<i64>)
    requires
        t1.to_set() == t2.to_set(),
    ensures
        auto_cmd_effect(cmd, users, t1) == auto_cmd_effect(cmd, users, t2),
{
    assert forall|x: i64| t1.contains(x) <==> t2.contains(x) by {
        assert(t1.to_set().contains(x) == t1.contains(x));
        assert(t2.to_set().contains(x) == t2.contains(x));
    }
    let a1 = exists|i: int| 0 <= i < t1.len() && !users.contains(t1[i]);
    let a2 = exists|i: int| 0 <= i < t2.len() && !users.contains(t2[i]);
    if a1 {
        let i = choose|i: int| 0 <= i < t1.len() && !users.contains(t1[i]);
        assert(t1.contains(t1[i]));
        let j = choose|j: int| 0 <= j < t2.len() && t2[j] == t1[i];
        assert(0 <= j < t2.len() && !users.contains(t2[j]));
    }
    if a2 {
        let i = choose|i: int| 0 <= i < t2.len() && !users.contains(t2[i]);
        assert(t2.contains(t2[i]));
        let j = choose|j: int| 0 <= j < t1.len() && t1[j] == t2[i];
        assert(0 <= j < t1.len() && !users.contains(t1[j]));
    }
    let d1 = exists|i: int| 0 <= i < t1.len() && users.contains(t1[i]);
    let d2 = exists|i: int| 0 <= i < t2.len() && users.contains(t2[i]);
    if d1 {
        let i = choose|i: int| 0 <= i < t1.len() && users.contains(t1[i]);
        assert(t1.contains(t1[i]));
        let j = choose|j: int| 0 <= j < t2.len() && t2[j] == t1[i];
        assert(0 <= j < t2.len() && users.contains(t2[j]));
    }
    if d2 {
        let i = choose|i: int| 0 <= i < t2.len() && users.contains(t2[i]);
        assert(t2.contains(t2[i]));
        let j = choose|j: int| 0 <= j < t1.len() && t1[j] == t2[i];
        assert(0 <= j < t1.len() && users.contains(t1[j]));
    }
    assert(a1 == a2 && d1 == d2);
}

/// The account an `at` segment names, when its value reads as a number.
pub open spec fn mention_value(m: Option<String>) -> Option<i64> {
    match m {
        Some(q) => parse_i64_spec(q@),
        None => None,
    }
}

/// Every mentioned account that reads as a number and is not the bot's own
/// is a target, and every target is such an account.
pub proof fn law_mentions_are_targets(at_qq: Seq<Option<String>>, self_id: i64)
    ensures
        forall|k: int|
            0 <= k < at_qq.len() && (mention_value(#[trigger] at_qq[k]) matches Some(v) && v
                != self_id) ==> qq_targets(at_qq, self_id).contains(mention_value(at_qq[k])->0),
        forall|x: i64|
            #[trigger] qq_targets(at_qq, self_id).contains(x) ==> x != self_id && exists|k: int|
                0 <= k < at_qq.len() && mention_value(#[trigger] at_qq[k]) == Some(x),
    decreases at_qq.len(),
{
    if at_qq.len() > 0 {
        let init = at_qq.drop_last();
        lemma_mentions_step(at_qq, self_id);
        law_mentions_are_targets(init, self_id);
        let rest = qq_targets(init, self_id);
        let all = qq_targets(at_qq, self_id);
        assert forall|k: int|
            0 <= k < at_qq.len() && (mention_value(#[trigger] at_qq[k]) matches Some(v) && v
                != self_id) implies all.contains(mention_value(at_qq[k])->0) by {
            let v = mention_value(at_qq[k])->0;
            if k < at_qq.len() - 1 {
                assert(init[k] == at_qq[k]);
                assert(rest.contains(v));
                let j = choose|j: int| 0 <= j < rest.len() && rest[j] == v;
                assert(all[j] == v);
            } else {
                assert(all[all.len() - 1] == v);
            }
        }
        assert forall|x: i64| #[trigger] all.contains(x) implies x != self_id && exists|k: int|
            0 <= k < at_qq.len() && mention_value(#[trigger] at_qq[k]) == Some(x) by {
            let j = choose|j: int| 0 <= j < all.len() && all[j] == x;
            if j < rest.len() {
                assert(rest[j] == x);
                assert(rest.contains(x));
                let k = choose|k: int| 0 <= k < init.len() && mention_value(#[trigger] init[k]) == Some(x);
                assert(at_qq[k] == init[k]);
            } else {
                assert(at_qq[at_qq.len() - 1] == at_qq.last());
            }
        }
    }
}

/// One step of [`qq_targets`]: the last mention, when it names another
/// account, joins the targets of the others.
proof fn lemma_mentions_step(at_qq: Seq<Option<String>>, self_id: i64)
    requires
        at_qq.len() > 0,
    ensures
        qq_targets(at_qq, self_id) == (match mention_value(at_qq.last()) {
            Some(v) => if v != self_id {
                qq_targets(at_qq.drop_last(), self_id).push(v)
            } else {
                qq_targets(at_qq.drop_last(), self_id)
            },
            None => qq_targets(at_qq.drop_last(), self_id),
        }),
{
}

/// Every argument that reads as a number is a target, and every target is
/// such an argument.
pub proof fn law_numbers_are_targets(args: Seq<String>)
    ensures
        forall|k: int|
            0 <= k < args.len() && (parse_i64_spec(#[trigger] args[k]@) is Some) ==> arg_targets(
                args,
            ).contains(parse_i64_spec(args[k]@)->0),
        forall|x: i64|
            #[trigger] arg_targets(args).contains(x) ==> exists|k: int|
                0 <= k < args.len() && parse_i64_spec(#[trigger] args[k]@) == Some(x),
    decreases args.len(),
{
    if args.len() > 0 {
        let init = args.drop_last();
        law_numbers_are_targets(init);
        let rest = arg_targets(init);
        let all = arg_targets(args);
        assert forall|k: int|
            0 <= k < args.len() && (parse_i64_spec(#[trigger] args[k]@) is Some) implies all.contains(
            parse_i64_spec(args[k]@)->0) by {
            let v = parse_i64_spec(args[k]@)->0;
            if k < args.len() - 1 {
                assert(init[k] == args[k]);
                assert(rest.contains(v));
                let j = choose|j: int| 0 <= j < rest.len() && rest[j] == v;
                assert(all[j] == v);
            } else {
                assert(all[all.len() - 1] == v);
            }
        }
        assert forall|x: i64| #[trigger] all.contains(x) implies exists|k: int|
            0 <= k < args.len() && parse_i64_spec(#[trigger] args[k]@) == Some(x) by {
            let j = choose|j: int| 0 <= j < all.len() && all[j] == x;
            if j < rest.len() {
                assert(rest[j] == x);
                assert(rest.contains(x));
                let k = choose|k: int| 0 <= k < init.len() && parse_i64_spec(#[trigger] init[k]@) == Some(x);
                assert(args[k] == init[k]);
            } else {
                assert(args[args.len() - 1] == args.last());
            }
        }
    }
}

/// A command's targets and the message it replies to are those of the message
/// it came in: its mentions (without the bot), then the numbers among its
/// arguments after the first.
pub proof fn law_command_targets_follow_message(c: BotCommand, e: MsgInfo)
    requires
        c.event.same_as(e),
    ensures
        command_targets(c) == qq_targets(e.at_qq@, e.self_id) + (if c.args@.len() > 1 {
            arg_targets(c.args@.skip(1))
        } else {
            Seq::empty()
        }),
        replied_message(c.event) == replied_message(e),
{
}

/// Whether the `$monkey` sub-command `cmd` with the named members `targets`
/// writes the group's entry in the table: `clean` always does, `add` and
/// `del` when they name a member.
pub open spec fn writes_entry(cmd: Seq<char>, targets: Seq<i64>) -> bool {
    cmd == CLEAN@ || ((cmd == ADD@ || cmd == DEL@) && targets.len() > 0)
}

/// Applies the `$monkey` sub-command `cmd` to the chosen members of
/// `group_id` and answers whether it was done. The group's entry in the table
/// is written (and made when missing) only as [`writes_entry`] says.
pub fn handle_auto_cmd(e: &BotCommand, cmd: &str, group_id: i64, data: &mut EmojiAttackData) -> (r:
    String)
    ensures
        ({
            let (users, done) = auto_cmd_effect(
                cmd@,
                users_in(old(data)@, group_id),
                command_targets(*e),
            );
            &&& writes_entry(cmd@, command_targets(*e)) ==> final(data)@ == old(data)@.insert(
                group_id,
                users,
            )
            &&& !writes_entry(cmd@, command_targets(*e)) ==> final(data)@ == old(data)@
            &&& r@ == (if done {
                DONE_REPLY@
            } else {
                FAILED_REPLY@
            })
        }),
{
    let targets = targets_of(e);
    let ghost tv = command_targets(*e);
    let is_add = same_text(cmd, ADD);
    let is_del = same_text(cmd, DEL);
    let is_clean = same_text(cmd, CLEAN);
    if !is_add && !is_del && !is_clean {
        return String::from_str(FAILED_REPLY);
    }
    if !is_clean && targets.len() == 0 {
        return String::from_str(FAILED_REPLY);
    }
    let ghost users0 = users_in(data@, group_id);
    let mut users = data.take_group(group_id);
    let mut done = false;
    if !is_add && !is_del {
        users.clear();
        done = true;
    } else {
        let mut i: usize = 0;
        while i < targets.len()
            invariant
                i <= targets@.len(),
                targets@ == tv,
                is_add || is_del,
                is_add ==> users@ == users0 + tv.take(i as int).to_set(),
                is_add ==> done == exists|j: int| 0 <= j < i && !users0.contains(tv[j]),
                !is_add ==> users@ == users0 - tv.take(i as int).to_set(),
                !is_add ==> done == exists|j: int| 0 <= j < i && users0.contains(tv[j]),
            decreases targets@.len() - i,
        {
            let t = targets[i];
            let ghost prev = users@;
            proof {
                assert forall|x: i64| tv.take(i + 1).to_set().contains(x) == tv.take(
                    i as int,
                ).to_set().insert(t).contains(x) by {
                    if tv.take(i as int).contains(x) {
                        let k = tv.take(i as int).index_of(x);
                        assert(tv.take(i + 1)[k] == x);
                    }
                    if tv.take(i + 1).contains(x) && x != t {
                        let k = tv.take(i + 1).index_of(x);
                        assert(k < i);
                        assert(tv.take(i as int)[k] == x);
                    }
                    if x == t {
                        assert(tv.take(i + 1)[i as int] == t);
                    }
                }
                assert(tv.take(i + 1).to_set() =~= tv.take(i as int).to_set().insert(t));
            }
            proof {
                if tv.take(i as int).to_set().contains(t) {
                    let k = tv.take(i as int).index_of(t);
                    assert(tv[k] == t);
                }
            }
            if is_add {
                let fresh = users.insert(t);
                assert(users@ =~= users0 + tv.take(i + 1).to_set());
                done = done || fresh;
                assert(done == exists|j: int| 0 <= j < i + 1 && !users0.contains(tv[j])) by {
                    if !users0.contains(t) {
                        assert(0 <= i < i + 1 && !users0.contains(tv[i as int]));
                    }
                    if exists|j: int| 0 <= j < i + 1 && !users0.contains(tv[j]) {
                        let j = choose|j: int| 0 <= j < i + 1 && !users0.contains(tv[j]);
                        if j < i {
                        } else {
                            assert(tv[j] == t);
                        }
                    }
                }
            } else {
                let was = users.remove(&t);
                assert(users@ =~= users0 - tv.take(i + 1).to_set());
                done = done || was;
                assert(done == exists|j: int| 0 <= j < i + 1 && users0.contains(tv[j])) by {
                    if users0.contains(t) {
                        assert(0 <= i < i + 1 && users0.contains(tv[i as int]));
                    }
                    if exists|j: int| 0 <= j < i + 1 && users0.contains(tv[j]) {
                        let j = choose|j: int| 0 <= j < i + 1 && users0.contains(tv[j]);
                        if j < i {
                        } else {
                            assert(tv[j] == t);
                        }
                    }
                }
            }
            i = i + 1;
        }
        assert(tv.take(tv.len() as int) =~= tv);
    }
    data.put_group(group_id, users);
    if done {
        String::from_str(DONE_REPLY)
    } else {
        String::from_str(FAILED_REPLY)
    }
}

} // verus!
verus! {

/// Reacts to one message at once, with every configured emoji.
pub const ATK: &'static str = "atk";

/// Reacts to one message once, as the automatic reactions do.
pub const ONCE: &'static str = "once";

/// What a `$monkey` command asks for.
#[derive(Debug, PartialEq, Eq)]
pub enum MonkeyAction {
    /// Answer with this text.
    Reply(String),
    /// React to the message `message_id` as `plan` says.
    React { message_id: i64, plan: AttackPlan },
}

/// The message a command replies to: the id of its first `reply` segment,
/// when that reads as a number.
pub open spec fn replied_message(ev: MsgInfo) -> Option<i64> {
    if ev.reply_ids@.len() > 0 {
        match ev.reply_ids@[0] {
            Some(id) => parse_i64_spec(id@),
            None => None,
        }
    } else {
        None
    }
}

/// The message a command replies to; see [`replied_message`].
pub fn replied_message_of(ev: &MsgInfo) -> (m: Option<i64>)
    ensures
        m == replied_message(*ev),
{
    if ev.reply_ids.len() > 0 {
        match &ev.reply_ids[0] {
            Some(id) => parse_i64(id.as_str()),
            None => None,
        }
    } else {
        None
    }
}

/// A `$monkey` command: in a group, `add`, `del` and `clean` change who gets
/// reactions there (see [`writes_entry`]) and are answered; `atk` and `once`, sent as a reply,
/// react to the replied message with every configured emoji; anything else,
/// a private message, or `atk`/`once` without a reply, is ignored.
pub fn handle_cmd(e: &BotCommand, cfg: &EmojiAttackConfig, data: &mut EmojiAttackData) -> (r: Option<
    MonkeyAction,
>)
    ensures
        match e.event.group_id {
            None => r is None && final(data)@ == old(data)@,
            Some(g) => {
                let cmd = if e.args@.len() > 0 {
                    e.args@[0]@
                } else {
                    Seq::empty()
                };
                if cmd == ADD@ || cmd == DEL@ || cmd == CLEAN@ {
                    let (users, done) = auto_cmd_effect(
                        cmd,
                        users_in(old(data)@, g),
                        command_targets(*e),
                    );
                    &&& writes_entry(cmd, command_targets(*e)) ==> final(data)@ == old(data)@.insert(
                        g,
                        users,
                    )
                    &&& !writes_entry(cmd, command_targets(*e)) ==> final(data)@ == old(data)@
                    &&& r matches Some(MonkeyAction::Reply(s)) && s@ == (if done {
                        DONE_REPLY@
                    } else {
                        FAILED_REPLY@
                    })
                } else if (cmd == ATK@ || cmd == ONCE@) && replied_message(e.event) is Some {
                    &&& final(data)@ == old(data)@
                    &&& r matches Some(MonkeyAction::React { message_id, plan })
                    &&& replied_message(e.event) == Some(message_id)
                    &&& plan.emoji@ == cfg.emoji@
                    &&& plan.wait_ms == wait_of(*cfg)
                } else {
                    r is None && final(data)@ == old(data)@
                }
            },
        },
{
    let group_id = match e.event.group_id {
        Some(x) => x,
        None => return None,
    };
    let empty = String::new();
    let command: &str = if e.args.len() > 0 {
        e.args[0].as_str()
    } else {
        empty.as_str()
    };
    if same_text(command, ADD) || same_text(command, DEL) || same_text(command, CLEAN) {
        return Some(MonkeyAction::Reply(handle_auto_cmd(e, command, group_id, data)));
    }
    if same_text(command, ATK) || same_text(command, ONCE) {
        if let Some(m) = replied_message_of(&e.event) {
            return Some(MonkeyAction::React { message_id: m, plan: plan_of(cfg) });
        }
    }
    None
}

/// Registers `$monkey` as a privileged command.
pub fn register_cmd(b: &mut BotCommandBuilder)
    ensures
        final(b).super_names() == old(b).super_names().insert("$monkey"@),
        final(b).common_names() == old(b).common_names(),
{
    b.on_super_command("$monkey");
}

} // verus!
