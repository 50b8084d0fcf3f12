//! Which members of which groups get emoji reactions.
use vstd::prelude::*;
use std::collections::{HashMap, HashSet};

verus! {

broadcast use vstd::std_specs::hash::group_hash_axioms;

/// The members of `g` in `m` that get reactions; none when the group has no entry.
pub open spec fn users_in(m: Map<i64, Set<i64>>, g: i64) -> Set<i64> {
    if m.contains_key(g) {
        m[g]
    } else {
        Set::empty()
    }
}

/// The members who get emoji reactions, by group.
#[derive(Debug, Default)]
pub struct EmojiAttackData {
    /// For each group, the members who get reactions.
    pub group_users: HashMap<i64, HashSet<i64>>,
}

impl View for EmojiAttackData {
    type V = Map<i64, Set<i64>>;

    open spec fn view(&self) -> Map<i64, Set<i64>> {
        Map::new(|g: i64| self.group_users@.contains_key(g), |g: i64| self.group_users@[g]@)
    }
}

impl EmojiAttackData {
    /// Nobody gets reactions.
    pub fn new() -> (d: Self)
        ensures
            d@ == Map::<i64, Set<i64>>::empty(),
    {
        let d = EmojiAttackData { group_users: HashMap::new() };
        assert(d@ =~= Map::<i64, Set<i64>>::empty());
        d
    }

    /// Whether `user` of `group` gets reactions.
    pub fn targets(&self, group: i64, user: i64) -> (b: bool)
        ensures
            b == users_in(self@, group).contains(user),
    {
        match self.group_users.get(&group) {
            Some(s) => s.contains(&user),
            None => false,
        }
    }

    /// Takes the member set of `group` out of the table.
    pub fn take_group(&mut self, group: i64) -> (s: HashSet<i64>)
        ensures
            s@ == users_in(old(self)@, group),
            final(self)@ == old(self)@.remove(group),
    {
        let s = match self.group_users.remove(&group) {
            Some(s) => s,
            None => HashSet::new(),
        };
        assert(self@ =~= old(self)@.remove(group));
        s
    }

    /// Puts a member set for `group` into the table.
    pub fn put_group(&mut self, group: i64, s: HashSet<i64>)
        ensures
            final(self)@ == old(self)@.insert(group, s@),
    {
        let ghost sv = s@;
        self.group_users.insert(group, s);
        assert(self@ =~= old(self)@.insert(group, sv));
    }
}

} // verus!
