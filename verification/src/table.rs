//! A small table from texts to values, kept in the order of its insertions.
//!
//! The session's tables are short and are keyed by texts: the listings of
//! subvolumes by the identity of their device, the key aliases by their
//! configured name. The table stands for a finite map; a later insertion
//! under a key that is already there replaces the earlier value.
use crate::text::str_eq;
use vstd::prelude::*;
use vstd::string::*;

verus! {

/// The table: its entries in the order of their insertion.
pub struct Table<V> {
    pub entries: Vec<(String, V)>,
}

/// The map that a sequence of insertions builds, the later ones winning.
pub open spec fn map_of<V: DeepView>(entries: Seq<(String, V)>) -> Map<Seq<char>, V::V>
    decreases entries.len(),
{
    if entries.len() == 0 {
        Map::empty()
    } else {
        map_of(entries.drop_last()).insert(entries.last().0@, entries.last().1.deep_view())
    }
}

impl<V: DeepView> View for Table<V> {
    type V = Map<Seq<char>, V::V>;

    open spec fn view(&self) -> Map<Seq<char>, V::V> {
        map_of(self.entries@)
    }
}

impl<V: DeepView> Table<V> {
    /// The table without any entry.
    pub fn new() -> (out: Self)
        ensures
            out@ == Map::<Seq<char>, V::V>::empty(),
    {
        Table { entries: Vec::new() }
    }

    /// The value under `key`, if the table has one.
    pub fn get(&self, key: &str) -> (out: Option<&V>)
        ensures
            match out {
                Some(value) => self@.contains_key(key@) && self@[key@] == value.deep_view(),
                None => !self@.contains_key(key@),
            },
    {
        let mut i: usize = self.entries.len();
        assert(self.entries@.take(i as int) =~= self.entries@);
        while i > 0
            invariant
                i <= self.entries.len(),
                self@.contains_key(key@) == map_of(self.entries@.take(i as int)).contains_key(key@),
                self@.contains_key(key@) ==> self@[key@] == map_of(self.entries@.take(i as int))[key@],
            decreases i,
        {
            assert(self.entries@.take(i as int).drop_last() =~= self.entries@.take(i - 1));
            i -= 1;
            if str_eq(self.entries[i].0.as_str(), key) {
                return Some(&self.entries[i].1);
            }
        }
        None
    }

    /// Whether the table has a value under `key`.
    pub fn contains_key(&self, key: &str) -> (b: bool)
        ensures
            b == self@.contains_key(key@),
    {
        self.get(key).is_some()
    }

    /// Puts `value` under `key`, in place of any value that was there.
    pub fn insert(&mut self, key: String, value: V)
        ensures
            final(self)@ == old(self)@.insert(key@, value.deep_view()),
    {
        self.entries.push((key, value));
        assert(self.entries@.drop_last() =~= old(self).entries@);
    }
}

} // verus!
