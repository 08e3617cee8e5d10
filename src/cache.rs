//! The resolution cache: display name to identifier, never invalidated.

use vstd::prelude::*;

verus! {

/// Mapping from display name to identifier. Entries are kept in insertion
/// order, with at most one entry per name.
pub struct ResolutionCache {
    entries: Vec<(String, String)>,
    contents: Ghost<Map<Seq<char>, Seq<char>>>,
}

impl View for ResolutionCache {
    type V = Map<Seq<char>, Seq<char>>;

    closed spec fn view(&self) -> Map<Seq<char>, Seq<char>> {
        self.contents@
    }
}

impl ResolutionCache {
    /// Names are unique among the entries, and the entries are exactly the
    /// mapping that the view gives.
    pub closed spec fn wf(&self) -> bool {
        &&& forall|i: int, j: int|
            0 <= i < j < self.entries@.len() ==> self.entries@[i].0@ != self.entries@[j].0@
        &&& forall|i: int|
            0 <= i < self.entries@.len() ==> {
                &&& #[trigger] self.contents@.contains_key(self.entries@[i].0@)
                &&& self.contents@[self.entries@[i].0@] == self.entries@[i].1@
            }
        &&& forall|k: Seq<char>|
            #[trigger] self.contents@.contains_key(k) ==> exists|i: int|
                0 <= i < self.entries@.len() && #[trigger] self.entries@[i].0@ == k
    }

    /// An empty cache.
    pub fn new() -> (r: Self)
        ensures
            r.wf(),
            r@ == Map::<Seq<char>, Seq<char>>::empty(),
    {
        ResolutionCache { entries: Vec::new(), contents: Ghost(Map::empty()) }
    }

    /// Number of cached names.
    pub fn len(&self) -> (r: usize)
        requires
            self.wf(),
        ensures
            r == self@.len(),
    {
        proof {
            self.lemma_len();
        }
        self.entries.len()
    }

    proof fn lemma_len(&self)
        requires
            self.wf(),
        ensures
            self@.len() == self.entries@.len(),
    {
        let keys = Set::new(|i: int| 0 <= i < self.entries@.len()).map(|i: int| self.entries@[i].0@);
        assert(self@.dom() =~= keys) by {
            assert forall|k: Seq<char>| self@.dom().contains(k) implies keys.contains(k) by {
                let i = choose|i: int| 0 <= i < self.entries@.len() && #[trigger] self.entries@[i].0@ == k;
                assert(Set::new(|i: int| 0 <= i < self.entries@.len()).contains(i));
            }
        }
        let idx = Set::new(|i: int| 0 <= i < self.entries@.len());
        assert(idx =~= vstd::set_lib::set_int_range(0, self.entries@.len() as int));
        vstd::set_lib::lemma_int_range(0, self.entries@.len() as int);
        assert forall|i: int, j: int| idx.contains(i) && idx.contains(j) && self.entries@[i].0@ == self.entries@[j].0@ implies i == j by {
            if i < j {
            } else if j < i {
            }
        }
        vstd::set_lib::lemma_map_size(idx, keys, |i: int| self.entries@[i].0@);
    }

    /// The identifier cached for `name`, if any; the cache is left as it was.
    pub fn lookup(&self, name: &String) -> (r: Option<String>)
        requires
            self.wf(),
        ensures
            match r {
                Some(id) => self@.contains_key(name@) && self@[name@] == id@,
                None => !self@.contains_key(name@),
            },
    {
        let mut i: usize = 0;
        while i < self.entries.len()
            invariant
                self.wf(),
                i <= self.entries@.len(),
                forall|j: int| 0 <= j < i ==> self.entries@[j].0@ != name@,
            decreases self.entries@.len() - i,
        {
            if self.entries[i].0 == *name {
                return Some(self.entries[i].1.clone());
            }
            i = i + 1;
        }
        None
    }

    /// Records `name -> id`; an earlier identifier for `name` is overwritten.
    pub fn insert(&mut self, name: String, id: String)
        requires
            old(self).wf(),
        ensures
            final(self).wf(),
            final(self)@ == old(self)@.insert(name@, id@),
    {
        let ghost new_contents = self.contents@.insert(name@, id@);
        let mut i: usize = 0;
        while i < self.entries.len()
            invariant
                self.wf(),
                *self == *old(self),
                new_contents == old(self)@.insert(name@, id@),
                i <= self.entries@.len(),
                forall|j: int| 0 <= j < i ==> self.entries@[j].0@ != name@,
            decreases self.entries@.len() - i,
        {
            if self.entries[i].0 == name {
                let ghost at = i as int;
                self.entries.set(i, (name, id));
                self.contents = Ghost(new_contents);
                assert forall|k: Seq<char>| #[trigger] self.contents@.contains_key(k) implies exists|j: int|
                    0 <= j < self.entries@.len() && #[trigger] self.entries@[j].0@ == k by {
                    if k == self.entries@[at].0@ {
                        assert(self.entries@[at].0@ == k);
                    } else {
                        let j = choose|j: int| 0 <= j < old(self).entries@.len() && #[trigger] old(self).entries@[j].0@ == k;
                        assert(self.entries@[j].0@ == k);
                    }
                }
                return;
            }
            i = i + 1;
        }
        self.entries.push((name, id));
        self.contents = Ghost(new_contents);
        assert forall|k: Seq<char>| #[trigger] self.contents@.contains_key(k) implies exists|i: int|
            0 <= i < self.entries@.len() && #[trigger] self.entries@[i].0@ == k by {
            if k == name@ {
                assert(self.entries@[self.entries@.len() - 1].0@ == k);
            } else {
                let i = choose|i: int| 0 <= i < old(self).entries@.len() && #[trigger] old(self).entries@[i].0@ == k;
                assert(self.entries@[i].0@ == k);
            }
        }
    }
}

} // verus!
