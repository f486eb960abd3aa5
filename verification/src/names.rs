//! Ordered collections of names: the identities that a session has mounted,
//! the datasets whose keys it has loaded.
use crate::text::str_eq;
use vstd::prelude::*;
use vstd::string::*;

verus! {

/// Names in the order in which they were recorded.
pub struct Names {
    pub list: Vec<String>,
}

/// The identities that a session has mounted. It grows by one identity with
/// every mount that succeeds; only the unmount of a dataset takes one out.
pub type MountedSet = Names;

impl View for Names {
    type V = Seq<Seq<char>>;

    open spec fn view(&self) -> Seq<Seq<char>> {
        self.list.deep_view()
    }
}

/// Whether a name is another than `name`.
pub open spec fn other_than(name: Seq<char>) -> spec_fn(Seq<char>) -> bool {
    |other: Seq<char>| other != name
}

/// The names of `s` other than `name`, in their order.
pub open spec fn without(s: Seq<Seq<char>>, name: Seq<char>) -> Seq<Seq<char>> {
    s.filter(other_than(name))
}

/// `without` takes out every occurrence of the name and nothing else.
pub proof fn lemma_without(s: Seq<Seq<char>>, name: Seq<char>, other: Seq<char>)
    ensures
        !without(s, name).contains(name),
        other != name ==> without(s, name).contains(other) == s.contains(other),
{
    let pred = other_than(name);
    if without(s, name).contains(name) {
        let i = choose|i: int| 0 <= i < without(s, name).len() && without(s, name)[i] == name;
        s.lemma_filter_pred(pred, i);
    }
    if other != name {
        if s.contains(other) {
            let i = choose|i: int| 0 <= i < s.len() && s[i] == other;
            s.lemma_filter_contains(pred, i);
        }
        if without(s, name).contains(other) {
            s.lemma_filter_contains_rev(pred, other);
        }
    }
}

impl Names {
    /// No name at all.
    pub fn new() -> (out: Self)
        ensures
            out@ == Seq::<Seq<char>>::empty(),
    {
        let out = Names { list: Vec::new() };
        out
    }

    /// How many names there are.
    pub fn len(&self) -> (n: usize)
        ensures
            n == self@.len(),
    {
        self.list.len()
    }

    /// The name at index `i`, if there are so many.
    pub fn get(&self, i: usize) -> (name: Option<&String>)
        ensures
            name is Some <==> i < self@.len(),
            name matches Some(text) ==> text@ == self@[i as int],
    {
        if i < self.list.len() {
            Some(&self.list[i])
        } else {
            None
        }
    }

    /// Whether `name` is among the names.
    pub fn contains(&self, name: &str) -> (b: bool)
        ensures
            b == self@.contains(name@),
    {
        let mut i: usize = 0;
        while i < self.list.len()
            invariant
                i <= self.list.len(),
                forall|k: int| 0 <= k < i ==> self@[k] != name@,
            decreases self.list.len() - i,
        {
            assert(self@[i as int] == self.list[i as int]@);
            if str_eq(self.list[i].as_str(), name) {
                return true;
            }
            i += 1;
        }
        false
    }

    /// Records `name` after the names that are there.
    pub fn push(&mut self, name: String)
        ensures
            final(self)@ == old(self)@.push(name@),
    {
        self.list.push(name);
    }

    /// Records `name` unless it is there already, and says whether it was new.
    pub fn insert(&mut self, name: String) -> (added: bool)
        ensures
            added == !old(self)@.contains(name@),
            added ==> final(self)@ == old(self)@.push(name@),
            !added ==> final(self)@ == old(self)@,
    {
        if self.contains(name.as_str()) {
            false
        } else {
            self.push(name);
            true
        }
    }

    /// Takes every occurrence of `name` out.
    pub fn remove(&mut self, name: &str)
        ensures
            final(self)@ == without(old(self)@, name@),
    {
        let mut kept: Vec<String> = Vec::new();
        let mut i: usize = 0;
        while i < self.list.len()
            invariant
                i <= self.list.len(),
                kept.deep_view() == without(self@.take(i as int), name@),
            decreases self.list.len() - i,
        {
            proof {
                let pred = other_than(name@);
                assert(self@.take(i + 1) =~= self@.take(i as int).push(self.list[i as int]@));
                self@.take(i as int).lemma_filter_push(self.list[i as int]@, pred);
            }
            if !str_eq(self.list[i].as_str(), name) {
                kept.push(self.list[i].clone());
            }
            i += 1;
        }
        assert(self@.take(i as int) =~= self@);
        self.list = kept;
    }
}

impl Clone for Names {
    fn clone(&self) -> (out: Self)
        ensures
            out@ == self@,
    {
        let mut list: Vec<String> = Vec::new();
        let mut i: usize = 0;
        while i < self.list.len()
            invariant
                i <= self.list.len(),
                list.deep_view() =~= self@.take(i as int),
            decreases self.list.len() - i,
        {
            let ghost before = list.deep_view();
            list.push(self.list[i].clone());
            assert(list.deep_view() =~= before.push(self.list[i as int]@));
            i += 1;
        }
        Names { list }
    }
}

} // verus!
