//! State that is kept on disk across restarts: who follows voice-chat
//! activity, and the rivals players with their ratings and owners.
use std::collections::HashSet;
use vstd::prelude::*;

verus! {

broadcast use vstd::std_specs::hash::group_hash_axioms;

/// State that persists across sessions.
pub struct PersistentState {
    pub vc_notify: VcNotify,
    pub rivals_ratings: RivalsRatings,
    pub rivals_ratings_owners: RivalsRatingsOwners,
}

/// Users who asked to hear of voice-chat activity.
pub struct VcNotify {
    pub followers: HashSet<u64>,
}

/// Each player's rating, in percent.
pub struct RivalsRatings(pub NameMap<usize>);

/// The user who registered each player.
pub struct RivalsRatingsOwners(pub NameMap<u64>);

/// A map keyed by name, each name at most once, in insertion order.
pub struct NameMap<V> {
    entries: Vec<(String, V)>,
}

/// Whether some entry of `s` has name `k`.
pub open spec fn has_name<V>(s: Seq<(String, V)>, k: Seq<char>) -> bool {
    exists|i: int| 0 <= i < s.len() && (#[trigger] s[i]).0@ == k
}

/// Whether no two entries of `s` share a name.
pub open spec fn names_unique<V>(s: Seq<(String, V)>) -> bool {
    forall|i: int, j: int| 0 <= i < s.len() && 0 <= j < s.len() && i != j ==> (#[trigger] s[i]).0@ != (#[trigger] s[j]).0@
}

impl<V> View for NameMap<V> {
    type V = Map<Seq<char>, V>;

    closed spec fn view(&self) -> Map<Seq<char>, V> {
        Map::new(
            |k: Seq<char>| has_name(self.entries@, k),
            |k: Seq<char>|
                self.entries@[choose|i: int|
                    0 <= i < self.entries@.len() && (#[trigger] self.entries@[i]).0@ == k].1,
        )
    }
}

impl<V: Copy> NameMap<V> {
    pub closed spec fn wf(&self) -> bool {
        names_unique(self.entries@)
    }

    /// The entry at `i` is the map's entry for its name.
    proof fn lemma_entry(&self, i: int)
        requires
            self.wf(),
            0 <= i < self.entries@.len(),
        ensures
            self@.contains_key(self.entries@[i].0@),
            self@[self.entries@[i].0@] == self.entries@[i].1,
    {
        let k = self.entries@[i].0@;
        assert(has_name(self.entries@, k));
        let j = choose|j: int| 0 <= j < self.entries@.len() && (#[trigger] self.entries@[j]).0@ == k;
        assert(j == i);
    }

    pub fn new() -> (r: Self)
        ensures
            r.wf(),
            r@ == Map::<Seq<char>, V>::empty(),
    {
        let r = NameMap { entries: Vec::new() };
        assert(r@ =~= Map::<Seq<char>, V>::empty());
        r
    }

    /// The index of the entry named `name`.
    fn find(&self, name: &str) -> (r: Option<usize>)
        requires
            self.wf(),
        ensures
            match r {
                Some(i) => i < self.entries@.len() && self.entries@[i as int].0@ == name@,
                None => !has_name(self.entries@, name@),
            },
    {
        let key = name.to_owned();
        let mut i: usize = 0;
        while i < self.entries.len()
            invariant
                i <= self.entries@.len(),
                key@ == name@,
                forall|j: int| 0 <= j < i ==> (#[trigger] self.entries@[j]).0@ != name@,
            decreases self.entries@.len() - i,
        {
            if self.entries[i].0 == key {
                return Some(i);
            }
            i = i + 1;
        }
        None
    }

    /// The value for `name`, if any.
    pub fn get(&self, name: &str) -> (r: Option<V>)
        requires
            self.wf(),
        ensures
            match r {
                Some(v) => self@.contains_key(name@) && self@[name@] == v,
                None => !self@.contains_key(name@),
            },
    {
        match self.find(name) {
            Some(i) => {
                proof {
                    self.lemma_entry(i as int);
                }
                Some(self.entries[i].1)
            },
            None => None,
        }
    }

    /// Whether `name` has a value.
    pub fn contains_key(&self, name: &str) -> (r: bool)
        requires
            self.wf(),
        ensures
            r == self@.contains_key(name@),
    {
        self.find(name).is_some()
    }

    /// Whether the map is empty.
    pub fn is_empty(&self) -> (r: bool)
        requires
            self.wf(),
        ensures
            r == (self@ == Map::<Seq<char>, V>::empty()),
    {
        if self.entries.len() == 0 {
            assert(self@ =~= Map::<Seq<char>, V>::empty());
            true
        } else {
            proof {
                self.lemma_entry(0);
                assert(self@.contains_key(self.entries@[0].0@));
                assert(self@ != Map::<Seq<char>, V>::empty());
            }
            false
        }
    }

    /// Sets the value of `name` to `value`.
    pub fn insert(&mut self, name: String, value: V)
        requires
            old(self).wf(),
        ensures
            final(self).wf(),
            final(self)@ == old(self)@.insert(name@, value),
    {
        let ghost k = name@;
        match self.find(name.as_str()) {
            Some(i) => {
                self.entries.set(i, (name, value));
                proof {
                    assert forall|j: int| 0 <= j < self.entries@.len() implies (#[trigger] self.entries@[j]).0@
                        == old(self).entries@[j].0@ by {}
                    assert forall|x: Seq<char>| has_name(self.entries@, x) <==> has_name(
                        old(self).entries@,
                        x,
                    ) by {
                        if has_name(self.entries@, x) {
                            let j = choose|j: int| 0 <= j < self.entries@.len() && (#[trigger] self.entries@[j]).0@ == x;
                            assert(old(self).entries@[j].0@ == x);
                        }
                        if has_name(old(self).entries@, x) {
                            let j = choose|j: int| 0 <= j < old(self).entries@.len() && (#[trigger] old(self).entries@[j]).0@ == x;
                            assert(self.entries@[j].0@ == x);
                        }
                    }
                    assert forall|x: Seq<char>| #[trigger] self@.contains_key(x) implies self@[x] == old(self)@.insert(k, value)[x] by {
                        let j = choose|j: int| 0 <= j < self.entries@.len() && (#[trigger] self.entries@[j]).0@ == x;
                        self.lemma_entry(j);
                        if x != k {
                            old(self).lemma_entry(j);
                        }
                    }
                    assert(self@ =~= old(self)@.insert(k, value));
                }
            },
            None => {
                self.entries.push((name, value));
                proof {
                    let n = old(self).entries@.len() as int;
                    assert forall|x: Seq<char>| has_name(self.entries@, x) <==> (has_name(
                        old(self).entries@,
                        x,
                    ) || x == k) by {
                        if has_name(self.entries@, x) && x != k {
                            let j = choose|j: int| 0 <= j < self.entries@.len() && (#[trigger] self.entries@[j]).0@ == x;
                            assert(old(self).entries@[j].0@ == x);
                        }
                        if has_name(old(self).entries@, x) {
                            let j = choose|j: int| 0 <= j < old(self).entries@.len() && (#[trigger] old(self).entries@[j]).0@ == x;
                            assert(self.entries@[j].0@ == x);
                        }
                        if x == k {
                            assert(self.entries@[n].0@ == x);
                        }
                    }
                    assert forall|x: Seq<char>| #[trigger] self@.contains_key(x) implies self@[x] == old(self)@.insert(k, value)[x] by {
                        let j = choose|j: int| 0 <= j < self.entries@.len() && (#[trigger] self.entries@[j]).0@ == x;
                        self.lemma_entry(j);
                        if x != k {
                            old(self).lemma_entry(j);
                        }
                    }
                    assert(self@ =~= old(self)@.insert(k, value));
                }
            },
        }
    }

    /// Removes the value of `name`, if any.
    pub fn remove(&mut self, name: &str)
        requires
            old(self).wf(),
        ensures
            final(self).wf(),
            final(self)@ == old(self)@.remove(name@),
    {
        match self.find(name) {
            Some(i) => {
                self.entries.remove(i);
                proof {
                    let o = old(self).entries@;
                    let s = self.entries@;
                    assert forall|j: int| 0 <= j < s.len() implies #[trigger] s[j] == if j < i {
                        o[j]
                    } else {
                        o[j + 1]
                    } by {}
                    assert forall|x: Seq<char>| has_name(s, x) <==> (has_name(o, x) && x != name@) by {
                        if has_name(s, x) {
                            let j = choose|j: int| 0 <= j < s.len() && (#[trigger] s[j]).0@ == x;
                            if j < i {
                                assert(o[j].0@ == x);
                            } else {
                                assert(o[j + 1].0@ == x);
                            }
                        }
                        if has_name(o, x) && x != name@ {
                            let j = choose|j: int| 0 <= j < o.len() && (#[trigger] o[j]).0@ == x;
                            if j < i {
                                assert(s[j].0@ == x);
                            } else {
                                assert(j != i);
                                assert(s[j - 1].0@ == x);
                            }
                        }
                    }
                    assert forall|x: Seq<char>| #[trigger] self@.contains_key(x) implies self@[x] == old(self)@[x] by {
                        let j = choose|j: int| 0 <= j < s.len() && (#[trigger] s[j]).0@ == x;
                        self.lemma_entry(j);
                        if j < i {
                            old(self).lemma_entry(j);
                        } else {
                            old(self).lemma_entry(j + 1);
                        }
                    }
                    assert(self@ =~= old(self)@.remove(name@));
                }
            },
            None => {
                assert(self@ =~= old(self)@.remove(name@));
            },
        }
    }

    /// The entries, each name with its value, in insertion order.
    pub fn entries(&self) -> (r: &Vec<(String, V)>)
        requires
            self.wf(),
        ensures
            names_unique(r@),
            forall|i: int|
                0 <= i < r@.len() ==> self@.contains_key((#[trigger] r@[i]).0@) && self@[r@[i].0@]
                    == r@[i].1,
            forall|k: Seq<char>| #[trigger] self@.contains_key(k) ==> has_name(r@, k),
    {
        proof {
            assert forall|i: int| 0 <= i < self.entries@.len() implies self@.contains_key(
                (#[trigger] self.entries@[i]).0@,
            ) && self@[self.entries@[i].0@] == self.entries@[i].1 by {
                self.lemma_entry(i);
            }
        }
        &self.entries
    }
}

impl VcNotify {
    /// Whether user `id` follows voice-chat activity.
    pub fn is_following(&self, id: u64) -> (r: bool)
        ensures
            r == self.followers@.contains(id),
    {
        self.followers.contains(&id)
    }

    /// Adds user `id` to the followers.
    pub fn follow(&mut self, id: u64)
        ensures
            final(self).followers@ == old(self).followers@.insert(id),
    {
        self.followers.insert(id);
    }

    /// Removes user `id` from the followers.
    pub fn unfollow(&mut self, id: u64)
        ensures
            final(self).followers@ == old(self).followers@.remove(id),
    {
        self.followers.remove(&id);
    }
}

impl PersistentState {
    /// A state with no followers and no players.
    pub fn new() -> (r: Self)
        ensures
            r.wf(),
            r.vc_notify.followers@ == Set::<u64>::empty(),
            r.rivals_ratings.0@ == Map::<Seq<char>, usize>::empty(),
            r.rivals_ratings_owners.0@ == Map::<Seq<char>, u64>::empty(),
    {
        PersistentState {
            vc_notify: VcNotify { followers: HashSet::new() },
            rivals_ratings: RivalsRatings(NameMap::new()),
            rivals_ratings_owners: RivalsRatingsOwners(NameMap::new()),
        }
    }

    pub open spec fn wf(&self) -> bool {
        self.rivals_ratings.0.wf() && self.rivals_ratings_owners.0.wf()
    }
}

} // verus!
