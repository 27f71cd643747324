//! A string-keyed registry with a `Map` view.
//!
//! Both shared tables of the process manager — session handle to process
//! record, and session handle to external conversation identifier — are
//! instances of this small association table.  Keys are unique by
//! construction, which is what makes "at most one process record per
//! session" an invariant rather than a hope.

use vstd::prelude::*;

verus! {

/// The map described by an association list, later entries winning.
pub open spec fn map_of<T>(s: Seq<(Seq<char>, T)>) -> Map<Seq<char>, T>
    decreases s.len(),
{
    if s.len() == 0 {
        Map::empty()
    } else {
        map_of(s.drop_last()).insert(s.last().0, s.last().1)
    }
}

/// Key/value views of an association list's entries.
pub open spec fn entry_views<V: View>(s: Seq<(String, V)>) -> Seq<(Seq<char>, V::V)> {
    s.map_values(|e: (String, V)| (e.0@, e.1@))
}

/// No two entries share a key.
pub open spec fn distinct_keys<T>(s: Seq<(Seq<char>, T)>) -> bool {
    forall|i: int, j: int| 0 <= i < j < s.len() ==> s[i].0 != s[j].0
}

proof fn lemma_map_of_contains<T>(s: Seq<(Seq<char>, T)>, k: Seq<char>)
    ensures
        map_of(s).contains_key(k) <==> exists|i: int| 0 <= i < s.len() && s[i].0 == k,
    decreases s.len(),
{
    if s.len() > 0 {
        lemma_map_of_contains(s.drop_last(), k);
        if map_of(s).contains_key(k) {
            if s.last().0 == k {
                assert(s[s.len() - 1].0 == k);
            } else {
                let i = choose|i: int| 0 <= i < s.drop_last().len() && s.drop_last()[i].0 == k;
                assert(s[i].0 == k);
            }
        }
        if exists|i: int| 0 <= i < s.len() && s[i].0 == k {
            let i = choose|i: int| 0 <= i < s.len() && s[i].0 == k;
            if i < s.len() - 1 {
                assert(s.drop_last()[i].0 == k);
            }
        }
    }
}

proof fn lemma_map_of_get<T>(s: Seq<(Seq<char>, T)>, i: int)
    requires
        distinct_keys(s),
        0 <= i < s.len(),
    ensures
        map_of(s).contains_key(s[i].0),
        map_of(s)[s[i].0] == s[i].1,
    decreases s.len(),
{
    if i == s.len() - 1 {
        assert(map_of(s) == map_of(s.drop_last()).insert(s.last().0, s.last().1));
    } else {
        assert(distinct_keys(s.drop_last()));
        assert(s.drop_last()[i] == s[i]);
        lemma_map_of_get(s.drop_last(), i);
        assert(s[i].0 != s.last().0);
    }
}

proof fn lemma_map_of_remove<T>(s: Seq<(Seq<char>, T)>, i: int)
    requires
        distinct_keys(s),
        0 <= i < s.len(),
    ensures
        map_of(s.remove(i)) == map_of(s).remove(s[i].0),
    decreases s.len(),
{
    if i == s.len() - 1 {
        assert(s.remove(i) =~= s.drop_last());
        lemma_map_of_contains(s.drop_last(), s[i].0);
        assert(forall|j: int| 0 <= j < s.drop_last().len() ==> s.drop_last()[j].0 != s[i].0);
        assert(!map_of(s.drop_last()).contains_key(s[i].0));
        assert(map_of(s.drop_last()) =~= map_of(s).remove(s[i].0));
    } else {
        let t = s.drop_last();
        assert(distinct_keys(t));
        lemma_map_of_remove(t, i);
        assert(s.remove(i).drop_last() =~= t.remove(i));
        assert(s.remove(i).last() == s.last());
        assert(map_of(s.remove(i)) == map_of(t.remove(i)).insert(s.last().0, s.last().1));
        assert(s[i].0 != s.last().0);
        assert(map_of(t).remove(s[i].0).insert(s.last().0, s.last().1) =~= map_of(t).insert(
            s.last().0,
            s.last().1,
        ).remove(s[i].0));
    }
}

/// A mutex-guarded shared table in spirit: the callers hold it behind their
/// own lock, and every operation is one whole-map step.
pub struct Registry<V> {
    entries: Vec<(String, V)>,
}

impl<V: View> View for Registry<V> {
    type V = Map<Seq<char>, V::V>;

    closed spec fn view(&self) -> Map<Seq<char>, V::V> {
        map_of(entry_views(self.entries@))
    }
}

impl<V: View> Registry<V> {
    /// Unique keys; every operation preserves this.
    pub closed spec fn wf(&self) -> bool {
        distinct_keys(entry_views(self.entries@))
    }

    /// The entry views, exposed for stating that no key repeats.
    pub closed spec fn entry_seq(&self) -> Seq<(Seq<char>, V::V)> {
        entry_views(self.entries@)
    }

    pub fn new() -> (r: Self)
        ensures
            r.wf(),
            r@ == Map::<Seq<char>, V::V>::empty(),
    {
        let r = Registry { entries: Vec::new() };
        proof {
            assert(entry_views(r.entries@) =~= Seq::<(Seq<char>, V::V)>::empty());
        }
        r
    }

    fn find(&self, k: &str) -> (r: Option<usize>)
        ensures
            match r {
                Some(i) => i < self.entries@.len() && self.entries@[i as int].0@ == k@,
                None => forall|j: int| 0 <= j < self.entries@.len() ==> self.entries@[j].0@ != k@,
            },
    {
        let mut i: usize = 0;
        while i < self.entries.len()
            invariant
                0 <= i <= self.entries@.len(),
                forall|j: int| 0 <= j < i ==> self.entries@[j].0@ != k@,
            decreases self.entries@.len() - i,
        {
            if crate::text::str_eq(self.entries[i].0.as_str(), k) {
                return Some(i);
            }
            i = i + 1;
        }
        None
    }

    /// Look a key up.
    pub fn get(&self, k: &str) -> (r: Option<&V>)
        requires
            self.wf(),
        ensures
            match r {
                Some(p) => self@.contains_key(k@) && p@ == self@[k@],
                None => !self@.contains_key(k@),
            },
    {
        match self.find(k) {
            Some(i) => {
                proof {
                    assert(entry_views(self.entries@)[i as int] == (self.entries@[i as int].0@,
                        self.entries@[i as int].1@));
                    lemma_map_of_get(entry_views(self.entries@), i as int);
                }
                Some(&self.entries[i].1)
            },
            None => {
                proof {
                    lemma_map_of_contains(entry_views(self.entries@), k@);
                    assert(forall|j: int| 0 <= j < entry_views(self.entries@).len()
                        ==> entry_views(self.entries@)[j].0 != k@);
                }
                None
            },
        }
    }

    /// Whether a key is present.
    pub fn contains(&self, k: &str) -> (r: bool)
        requires
            self.wf(),
        ensures
            r == self@.contains_key(k@),
    {
        match self.get(k) {
            Some(_) => true,
            None => false,
        }
    }

    /// Bind `k` to `v`, replacing any previous binding.
    pub fn insert(&mut self, k: String, v: V)
        requires
            old(self).wf(),
        ensures
            final(self).wf(),
            final(self)@ == old(self)@.insert(k@, v@),
    {
        let idx = self.find(k.as_str());
        match idx {
            Some(i) => {
                let ghost s0 = entry_views(self.entries@);
                proof {
                    assert(s0[i as int].0 == k@);
                    lemma_map_of_remove(s0, i as int);
                }
                let _ = self.entries.remove(i);
                proof {
                    assert(entry_views(self.entries@) =~= s0.remove(i as int));
                }
                let ghost s1 = entry_views(self.entries@);
                self.entries.push((k, v));
                proof {
                    assert(entry_views(self.entries@) =~= s1.push((k@, v@)));
                    assert(entry_views(self.entries@).drop_last() =~= s1);
                    assert(final(self)@ == map_of(s1).insert(k@, v@));
                    assert(map_of(s0).remove(k@).insert(k@, v@) =~= map_of(s0).insert(k@, v@));
                }
            },
            None => {
                let ghost s0 = entry_views(self.entries@);
                self.entries.push((k, v));
                proof {
                    assert(entry_views(self.entries@) =~= s0.push((k@, v@)));
                    assert(entry_views(self.entries@).drop_last() =~= s0);
                    assert(forall|j: int| 0 <= j < s0.len() ==> s0[j].0 != k@);
                }
            },
        }
    }

    /// Take a key's binding out; absence is not an error.
    pub fn remove(&mut self, k: &str) -> (r: Option<V>)
        requires
            old(self).wf(),
        ensures
            final(self).wf(),
            final(self)@ == old(self)@.remove(k@),
            match r {
                Some(v) => old(self)@.contains_key(k@) && v@ == old(self)@[k@],
                None => !old(self)@.contains_key(k@),
            },
    {
        let idx = self.find(k);
        match idx {
            Some(i) => {
                let ghost s0 = entry_views(self.entries@);
                proof {
                    assert(s0[i as int].0 == k@);
                    lemma_map_of_get(s0, i as int);
                    lemma_map_of_remove(s0, i as int);
                }
                let e = self.entries.remove(i);
                proof {
                    assert(entry_views(self.entries@) =~= s0.remove(i as int));
                }
                Some(e.1)
            },
            None => {
                proof {
                    lemma_map_of_contains(entry_views(self.entries@), k@);
                    assert(forall|j: int| 0 <= j < entry_views(self.entries@).len()
                        ==> entry_views(self.entries@)[j].0 != k@);
                    assert(old(self)@.remove(k@) =~= old(self)@);
                }
                None
            },
        }
    }

    /// A well-formed registry never holds two entries for one key: with the
    /// process table this says a session handle has at most one process
    /// record at any observation point, however many respawns preceded it.
    pub proof fn lemma_at_most_one_entry(&self, i: int, j: int)
        requires
            self.wf(),
            0 <= i < j < self.entry_seq().len(),
        ensures
            self.entry_seq()[i].0 != self.entry_seq()[j].0,
    {
    }

    /// All keys currently bound, in table order.
    pub fn keys(&self) -> (r: Vec<String>)
        requires
            self.wf(),
        ensures
            forall|k: Seq<char>| #[trigger] self@.contains_key(k) <==> r.deep_view().contains(k),
            forall|i: int, j: int| 0 <= i < j < r.deep_view().len() ==> r.deep_view()[i]
                != r.deep_view()[j],
    {
        let mut r: Vec<String> = Vec::new();
        let mut i: usize = 0;
        while i < self.entries.len()
            invariant
                0 <= i <= self.entries@.len(),
                r@.len() == i,
                forall|j: int| 0 <= j < i ==> r@[j]@ == self.entries@[j].0@,
            decreases self.entries@.len() - i,
        {
            r.push(self.entries[i].0.clone());
            i = i + 1;
        }
        proof {
            let s = entry_views(self.entries@);
            assert(forall|j: int| 0 <= j < r@.len() ==> r.deep_view()[j] == r@[j]@);
            assert(forall|j: int| 0 <= j < r@.len() ==> s[j].0 == self.entries@[j].0@);
            assert forall|i: int, j: int| 0 <= i < j < r.deep_view().len() implies r.deep_view()[i]
                != r.deep_view()[j] by {
                assert(r.deep_view()[i] == r@[i]@);
                assert(r.deep_view()[j] == r@[j]@);
                assert(s[i].0 == self.entries@[i].0@);
                assert(s[j].0 == self.entries@[j].0@);
                assert(s[i].0 != s[j].0);
            }
            assert forall|k: Seq<char>| #[trigger] self@.contains_key(k) implies r.deep_view()
                .contains(k) by {
                lemma_map_of_contains(s, k);
                let j = choose|j: int| 0 <= j < s.len() && s[j].0 == k;
                assert(r.deep_view()[j] == k);
            }
            assert forall|k: Seq<char>| r.deep_view().contains(k) implies self@.contains_key(
                k,
            ) by {
                let j = choose|j: int| 0 <= j < r.deep_view().len() && r.deep_view()[j] == k;
                assert(s[j].0 == k);
                lemma_map_of_contains(s, k);
            }
        }
        r
    }
}

} // verus!
