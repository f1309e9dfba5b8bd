//! An ordered list of variable assignments, read as the map that results
//! from making them one after the other.

use vstd::prelude::*;
use vstd::string::*;
use crate::text::text_eq;

verus! {

/// Environment variables as a list of assignments; a later assignment of a
/// name replaces an earlier one.
#[derive(Debug, Clone)]
pub struct EnvMap {
    pub entries: Vec<(String, String)>,
}

/// The map that the assignments `s` produce when made in order.
pub open spec fn assigned(s: Seq<(String, String)>) -> Map<Seq<char>, Seq<char>>
    decreases s.len(),
{
    if s.len() == 0 {
        Map::empty()
    } else {
        assigned(s.drop_last()).insert(s.last().0@, s.last().1@)
    }
}

impl View for EnvMap {
    type V = Map<Seq<char>, Seq<char>>;

    open spec fn view(&self) -> Map<Seq<char>, Seq<char>> {
        assigned(self.entries@)
    }
}

impl EnvMap {
    /// A value with nothing set.
    pub fn new() -> (r: Self)
        ensures
            r@ == Map::<Seq<char>, Seq<char>>::empty(),
    {
        EnvMap { entries: Vec::new() }
    }

    /// Assigns `value` to `key`.
    pub fn insert(&mut self, key: String, value: String)
        ensures
            final(self)@ == old(self)@.insert(key@, value@),
    {
        let ghost before = self.entries@;
        self.entries.push((key, value));
        proof {
            assert(self.entries@.drop_last() =~= before);
        }
    }

    /// The value last assigned to `key`, if any.
    pub fn get(&self, key: &str) -> (r: Option<&String>)
        ensures
            r.is_some() == self@.contains_key(key@),
            r.is_some() ==> r.unwrap()@ == self@[key@],
    {
        let mut i: usize = self.entries.len();
        proof {
            assert(self.entries@.subrange(0, self.entries.len() as int) =~= self.entries@);
        }
        while i > 0
            invariant
                i <= self.entries.len(),
                self@.contains_key(key@) == assigned(self.entries@.subrange(0, i as int)).contains_key(
                    key@,
                ),
                self@.contains_key(key@) ==> self@[key@] == assigned(
                    self.entries@.subrange(0, i as int),
                )[key@],
            decreases i,
        {
            proof {
                assert(self.entries@.subrange(0, i as int).drop_last() =~= self.entries@.subrange(
                    0,
                    i - 1,
                ));
            }
            i -= 1;
            if text_eq(self.entries[i].0.as_str(), key) {
                return Some(&self.entries[i].1);
            }
        }
        None
    }

    /// Whether a value was assigned to `key`.
    pub fn contains_key(&self, key: &str) -> (r: bool)
        ensures
            r == self@.contains_key(key@),
    {
        self.get(key).is_some()
    }

    /// Makes the assignments of `other` after those of `self`.
    pub fn extend(&mut self, other: &EnvMap)
        ensures
            final(self)@ == old(self)@.union_prefer_right(other@),
    {
        let ghost base = self@;
        let mut i: usize = 0;
        proof {
            assert(base.union_prefer_right(assigned(other.entries@.subrange(0, 0))) =~= base);
        }
        while i < other.entries.len()
            invariant
                i <= other.entries.len(),
                self@ == base.union_prefer_right(assigned(other.entries@.subrange(0, i as int))),
            decreases other.entries.len() - i,
        {
            proof {
                assert(other.entries@.subrange(0, i + 1).drop_last() =~= other.entries@.subrange(
                    0,
                    i as int,
                ));
            }
            let ghost prev = assigned(other.entries@.subrange(0, i as int));
            self.insert(other.entries[i].0.clone(), other.entries[i].1.clone());
            proof {
                let k = other.entries@[i as int].0@;
                let v = other.entries@[i as int].1@;
                assert(base.union_prefer_right(prev).insert(k, v) =~= base.union_prefer_right(
                    prev.insert(k, v),
                ));
            }
            i += 1;
        }
        proof {
            assert(other.entries@.subrange(0, other.entries.len() as int) =~= other.entries@);
        }
    }
}

} // verus!
