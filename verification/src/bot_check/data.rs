//! The moderation plugin's counters: per group and member, how often they
//! used banned words and how often their invitations were screened out.
use vstd::prelude::*;
use std::collections::HashMap;

verus! {

broadcast use vstd::std_specs::hash::group_hash_axioms;

/// A table of counters: group, then member, then count.
pub type CountTable = HashMap<i64, HashMap<i64, i32>>;

/// The view of a table of counters.
pub open spec fn table_view(t: CountTable) -> Map<i64, Map<i64, i32>> {
    Map::new(|g: i64| t@.contains_key(g), |g: i64| t@[g]@)
}

/// The count of member `u` in group `g`; zero when there is none.
pub open spec fn count_in(m: Map<i64, Map<i64, i32>>, g: i64, u: i64) -> i32 {
    if m.contains_key(g) && m[g].contains_key(u) {
        m[g][u]
    } else {
        0
    }
}

/// The counters of group `g`; none when the group has no entry.
pub open spec fn group_in(m: Map<i64, Map<i64, i32>>, g: i64) -> Map<i64, i32> {
    if m.contains_key(g) {
        m[g]
    } else {
        Map::empty()
    }
}

/// The count of member `u` in group `g` of table `t`; zero when there is none.
pub fn count_of(t: &CountTable, g: i64, u: i64) -> (c: i32)
    ensures
        c == count_in(table_view(*t), g, u),
{
    match t.get(&g) {
        Some(inner) => match inner.get(&u) {
            Some(c) => *c,
            None => 0,
        },
        None => 0,
    }
}

/// Sets the count of member `u` in group `g`, creating the group's entry
/// when needed.
pub fn set_count(t: &mut CountTable, g: i64, u: i64, c: i32)
    ensures
        table_view(*final(t)) == table_view(*old(t)).insert(
            g,
            group_in(table_view(*old(t)), g).insert(u, c),
        ),
{
    let mut inner = match t.remove(&g) {
        Some(inner) => inner,
        None => HashMap::new(),
    };
    assert(inner@ == group_in(table_view(*old(t)), g));
    inner.insert(u, c);
    let ghost iv = inner@;
    t.insert(g, inner);
    assert(table_view(*t) =~= table_view(*old(t)).insert(g, iv));
}

/// Drops the count of member `u` in group `g`; the group's entry stays.
pub fn remove_count(t: &mut CountTable, g: i64, u: i64)
    ensures
        table_view(*final(t)) == table_view(*old(t)).insert(
            g,
            group_in(table_view(*old(t)), g).remove(u),
        ),
{
    let mut inner = match t.remove(&g) {
        Some(inner) => inner,
        None => HashMap::new(),
    };
    assert(inner@ == group_in(table_view(*old(t)), g));
    inner.remove(&u);
    let ghost iv = inner@;
    t.insert(g, inner);
    assert(table_view(*t) =~= table_view(*old(t)).insert(g, iv));
}

/// Setting a count is read back, and leaves every other count as it was.
pub proof fn law_set_then_count(m: Map<i64, Map<i64, i32>>, g: i64, u: i64, c: i32, g2: i64, u2: i64)
    ensures
        count_in(m.insert(g, group_in(m, g).insert(u, c)), g, u) == c,
        (g2 != g || u2 != u) ==> count_in(m.insert(g, group_in(m, g).insert(u, c)), g2, u2)
            == count_in(m, g2, u2),
{
}

/// Dropping a count reads back as zero, and leaves every other count as it
/// was.
pub proof fn law_remove_then_count(m: Map<i64, Map<i64, i32>>, g: i64, u: i64, g2: i64, u2: i64)
    ensures
        count_in(m.insert(g, group_in(m, g).remove(u)), g, u) == 0,
        (g2 != g || u2 != u) ==> count_in(m.insert(g, group_in(m, g).remove(u)), g2, u2)
            == count_in(m, g2, u2),
{
}

/// The moderation counters.
#[derive(Debug, Default)]
pub struct BanData {
    /// How often each member of each group used banned words.
    pub chat_action_times: CountTable,
    /// How often each member of each group had an invitation screened out.
    pub invite_action_times: CountTable,
}

impl BanData {
    /// Counters that are all zero.
    pub fn new() -> (d: Self)
        ensures
            table_view(d.chat_action_times) == Map::<i64, Map<i64, i32>>::empty(),
            table_view(d.invite_action_times) == Map::<i64, Map<i64, i32>>::empty(),
    {
        let d = BanData { chat_action_times: HashMap::new(), invite_action_times: HashMap::new() };
        assert(table_view(d.chat_action_times) =~= Map::<i64, Map<i64, i32>>::empty());
        assert(table_view(d.invite_action_times) =~= Map::<i64, Map<i64, i32>>::empty());
        d
    }
}

} // verus!
