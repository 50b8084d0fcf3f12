//! Configuration slots: a value installed once and read from then on, and the
//! shared step that installs a freshly loaded configuration.
use vstd::prelude::*;
use std::collections::HashSet;

verus! {

broadcast use vstd::std_specs::hash::group_hash_axioms;

/// Why a configuration could not be installed.
#[derive(Debug, Clone, Copy, PartialEq, Eq)]
pub enum ConfigError {
    /// The slot already holds a configuration.
    AlreadySet,
}

/// A place for one value that is set at most once and read afterwards.
pub struct ConfigSlot<T> {
    value: Option<T>,
}

impl<T> View for ConfigSlot<T> {
    type V = Option<T>;

    closed spec fn view(&self) -> Option<T> {
        self.value
    }
}

impl<T> ConfigSlot<T> {
    /// An empty slot.
    pub fn new() -> (slot: Self)
        ensures
            slot@ is None,
    {
        ConfigSlot { value: None }
    }

    /// Whether the slot holds a value.
    pub fn is_set(&self) -> (b: bool)
        ensures
            b == self@ is Some,
    {
        self.value.is_some()
    }

    /// Stores `value` if the slot is empty; otherwise hands `value` back and
    /// leaves the slot as it was.
    pub fn set(&mut self, value: T) -> (r: Result<(), T>)
        ensures
            old(self)@ is None ==> r is Ok && final(self)@ == Some(value),
            old(self)@ is Some ==> r == Err::<(), T>(value) && final(self)@ == old(self)@,
    {
        if self.value.is_some() {
            Err(value)
        } else {
            self.value = Some(value);
            Ok(())
        }
    }

    /// The stored value, if any.
    pub fn get(&self) -> (r: Option<&T>)
        ensures
            match r {
                Some(v) => self@ == Some(*v),
                None => self@ is None,
            },
    {
        match &self.value {
            Some(v) => Some(v),
            None => None,
        }
    }

    /// The stored value, which must be there.
    pub fn value(&self) -> (r: &T)
        requires
            self@ is Some,
        ensures
            self@ == Some(*r),
    {
        self.value.as_ref().unwrap()
    }
}

/// Installs a freshly loaded configuration into its slot; a second
/// installation is refused and leaves the first in place.
pub fn init_config<T>(config: T, target: &mut ConfigSlot<T>) -> (r: Result<(), ConfigError>)
    ensures
        old(target)@ is None ==> r is Ok && final(target)@ == Some(config),
        old(target)@ is Some ==> r == Err::<(), ConfigError>(ConfigError::AlreadySet)
            && final(target)@ == old(target)@,
{
    match target.set(config) {
        Ok(()) => Ok(()),
        Err(_) => Err(ConfigError::AlreadySet),
    }
}

/// Whether `x` is one of the identifiers in `v`.
pub fn contains_id(v: &Vec<i64>, x: i64) -> (b: bool)
    ensures
        b == v@.contains(x),
{
    let mut i: usize = 0;
    while i < v.len()
        invariant
            i <= v.len(),
            forall|j: int| 0 <= j < i ==> v@[j] != x,
        decreases v.len() - i,
    {
        if v[i] == x {
            assert(v@[i as int] == x);
            return true;
        }
        i = i + 1;
    }
    false
}

/// The set of the identifiers in `v`.
pub fn id_set(v: &Vec<i64>) -> (s: HashSet<i64>)
    ensures
        s@ == v@.to_set(),
{
    let mut s: HashSet<i64> = HashSet::new();
    let mut i: usize = 0;
    while i < v.len()
        invariant
            i <= v.len(),
            s@ == v@.take(i as int).to_set(),
        decreases v.len() - i,
    {
        let x = v[i];
        s.insert(x);
        proof {
            let a = v@.take(i as int);
            let b = v@.take(i + 1);
            assert(b =~= a.push(x));
            assert forall|y: i64| b.to_set().contains(y) == a.to_set().insert(x).contains(y) by {
                if a.contains(y) {
                    let k = a.index_of(y);
                    assert(b[k] == y);
                }
                if b.contains(y) && y != x {
                    let k = b.index_of(y);
                    assert(k < i);
                    assert(a[k] == y);
                }
                if y == x {
                    assert(b[i as int] == x);
                }
            }
            assert(b.to_set() =~= a.to_set().insert(x));
        }
        i = i + 1;
    }
    assert(v@.take(v.len() as int) =~= v@);
    s
}

} // verus!
