use vstd::prelude::*;

verus! {

/// The map described by an association list: later entries override earlier
/// ones with the same name, as repeated insertion into a map would.
spec fn entries_map<R: View>(s: Seq<(String, R)>) -> Map<Seq<char>, R::V>
    decreases s.len(),
{
    if s.len() == 0 {
        Map::empty()
    } else {
        entries_map(s.drop_last()).insert(s.last().0@, s.last().1@)
    }
}

spec fn seq_names_unique<R>(s: Seq<(String, R)>) -> bool {
    forall|i: int, j: int| 0 <= i < j < s.len() ==> s[i].0@ != s[j].0@
}

/// A registry of named resources: an association list with unique names,
/// viewed as a map from name to resource view.
pub struct Registry<R> {
    entries: Vec<(String, R)>,
}

impl<R: View> View for Registry<R> {
    type V = Map<Seq<char>, R::V>;

    closed spec fn view(&self) -> Map<Seq<char>, R::V> {
        entries_map(self.entries@)
    }
}

proof fn lemma_map_contains_index<R: View>(s: Seq<(String, R)>, i: int)
    requires
        0 <= i < s.len(),
    ensures
        entries_map(s).contains_key(s[i].0@),
    decreases s.len(),
{
    if i < s.len() - 1 {
        lemma_map_contains_index(s.drop_last(), i);
    }
}

proof fn lemma_map_contains_exists<R: View>(s: Seq<(String, R)>, k: Seq<char>)
    requires
        entries_map(s).contains_key(k),
    ensures
        exists|i: int| 0 <= i < s.len() && s[i].0@ == k,
    decreases s.len(),
{
    if s.len() > 0 {
        if s.last().0@ == k {
            assert(s[s.len() - 1].0@ == k);
        } else {
            lemma_map_contains_exists(s.drop_last(), k);
            let i = choose|i: int| 0 <= i < s.drop_last().len() && s.drop_last()[i].0@ == k;
            assert(s[i].0@ == k);
        }
    }
}

proof fn lemma_map_absent<R: View>(s: Seq<(String, R)>, k: Seq<char>)
    requires
        forall|i: int| 0 <= i < s.len() ==> s[i].0@ != k,
    ensures
        !entries_map(s).contains_key(k),
    decreases s.len(),
{
    if s.len() > 0 {
        assert(s[s.len() - 1].0@ != k);
        lemma_map_absent(s.drop_last(), k);
    }
}

proof fn lemma_map_index<R: View>(s: Seq<(String, R)>, i: int)
    requires
        seq_names_unique(s),
        0 <= i < s.len(),
    ensures
        entries_map(s).contains_key(s[i].0@),
        entries_map(s)[s[i].0@] == s[i].1@,
    decreases s.len(),
{
    if i < s.len() - 1 {
        assert(seq_names_unique(s.drop_last()));
        lemma_map_index(s.drop_last(), i);
        assert(s[s.len() - 1].0@ != s[i].0@);
    }
}

proof fn lemma_map_update<R: View>(s: Seq<(String, R)>, i: int, e: (String, R))
    requires
        seq_names_unique(s),
        0 <= i < s.len(),
        e.0@ == s[i].0@,
    ensures
        entries_map(s.update(i, e)) == entries_map(s).insert(e.0@, e.1@),
    decreases s.len(),
{
    let t = s.update(i, e);
    if i == s.len() - 1 {
        assert(t.drop_last() =~= s.drop_last());
        assert(entries_map(t) =~= entries_map(s).insert(e.0@, e.1@));
    } else {
        assert(t.drop_last() =~= s.drop_last().update(i, e));
        assert(seq_names_unique(s.drop_last()));
        lemma_map_update(s.drop_last(), i, e);
        assert(s[s.len() - 1].0@ != e.0@);
        assert(t.last() == s.last());
        assert(entries_map(t) =~= entries_map(s).insert(e.0@, e.1@));
    }
}

proof fn lemma_map_remove_at<R: View>(s: Seq<(String, R)>, i: int)
    requires
        seq_names_unique(s),
        0 <= i < s.len(),
    ensures
        entries_map(s.remove(i)) == entries_map(s).remove(s[i].0@),
    decreases s.len(),
{
    let t = s.remove(i);
    if i == s.len() - 1 {
        assert(t =~= s.drop_last());
        assert(forall|j: int| 0 <= j < s.drop_last().len() ==> s.drop_last()[j].0@ != s[i].0@);
        lemma_map_absent(s.drop_last(), s[i].0@);
        assert(entries_map(t) =~= entries_map(s).remove(s[i].0@));
    } else {
        assert(t.drop_last() =~= s.drop_last().remove(i));
        assert(seq_names_unique(s.drop_last()));
        lemma_map_remove_at(s.drop_last(), i);
        assert(s[s.len() - 1].0@ != s[i].0@);
        assert(t.last() == s.last());
        assert(entries_map(t) =~= entries_map(s).remove(s[i].0@));
    }
}

impl<R: View> Registry<R> {
    /// Names are pairwise distinct; every mutating operation preserves this.
    pub closed spec fn names_unique(self) -> bool {
        seq_names_unique(self.entries@)
    }

    /// An empty registry.
    pub fn new() -> (r: Registry<R>)
        ensures
            r@ == Map::<Seq<char>, R::V>::empty(),
            r.names_unique(),
    {
        Registry { entries: Vec::new() }
    }

    fn find_index(&self, name: &String) -> (r: Option<usize>)
        ensures
            match r {
                Some(i) => i < self.entries@.len() && self.entries@[i as int].0@ == name@,
                None => forall|i: int|
                    0 <= i < self.entries@.len() ==> self.entries@[i].0@ != name@,
            },
    {
        let mut i: usize = 0;
        while i < self.entries.len()
            invariant
                i <= self.entries@.len(),
                forall|j: int| 0 <= j < i ==> self.entries@[j].0@ != name@,
            decreases self.entries@.len() - i,
        {
            if self.entries[i].0 == *name {
                return Some(i);
            }
            i = i + 1;
        }
        None
    }

    /// Insert a resource under a name, overwriting a previous entry with the
    /// same name.
    pub fn insert(&mut self, name: String, resource: R)
        requires
            old(self).names_unique(),
        ensures
            final(self).names_unique(),
            final(self)@ == old(self)@.insert(name@, resource@),
    {
        let ghost s = self.entries@;
        match self.find_index(&name) {
            Some(i) => {
                self.entries[i] = (name, resource);
                proof {
                    lemma_map_update(s, i as int, self.entries@[i as int]);
                    assert(seq_names_unique(self.entries@));
                }
            },
            None => {
                self.entries.push((name, resource));
                proof {
                    assert(self.entries@.drop_last() =~= s);
                    assert(seq_names_unique(self.entries@));
                }
            },
        }
    }

    /// Remove the entry under a name, returning its resource.
    pub fn remove(&mut self, name: &str) -> (r: Option<R>)
        requires
            old(self).names_unique(),
        ensures
            final(self).names_unique(),
            final(self)@ == old(self)@.remove(name@),
            match r {
                Some(res) => old(self)@.contains_key(name@) && res@ == old(self)@[name@],
                None => !old(self)@.contains_key(name@),
            },
    {
        let name_owned = name.to_owned();
        let ghost s = self.entries@;
        match self.find_index(&name_owned) {
            Some(i) => {
                proof {
                    lemma_map_index(s, i as int);
                    lemma_map_remove_at(s, i as int);
                }
                let (_, res) = self.entries.remove(i);
                proof {
                    assert(seq_names_unique(self.entries@));
                }
                Some(res)
            },
            None => {
                proof {
                    lemma_map_absent(s, name@);
                    assert(self@.remove(name@) =~= self@);
                }
                None
            },
        }
    }

    /// Look up the resource under a name.
    pub fn get(&self, name: &str) -> (r: Option<&R>)
        requires
            self.names_unique(),
        ensures
            match r {
                Some(res) => self@.contains_key(name@) && res@ == self@[name@],
                None => !self@.contains_key(name@),
            },
    {
        let name_owned = name.to_owned();
        match self.find_index(&name_owned) {
            Some(i) => {
                proof {
                    lemma_map_index(self.entries@, i as int);
                }
                Some(&self.entries[i].1)
            },
            None => {
                proof {
                    lemma_map_absent(self.entries@, name@);
                }
                None
            },
        }
    }

    /// Every registered name, each exactly the name of some entry of the map,
    /// and each at most once when the names are unique.
    pub fn names(&self) -> (r: Vec<String>)
        ensures
            forall|i: int| 0 <= i < r@.len() ==> self@.contains_key(#[trigger] r@[i]@),
            forall|k: Seq<char>|
                self@.contains_key(k) ==> exists|i: int| 0 <= i < r@.len() && r@[i]@ == k,
            self.names_unique() ==> forall|i: int, j: int|
                0 <= i < j < r@.len() ==> r@[i]@ != r@[j]@,
    {
        let mut r: Vec<String> = Vec::new();
        let mut i: usize = 0;
        while i < self.entries.len()
            invariant
                i <= self.entries@.len(),
                r@.len() == i,
                forall|j: int| 0 <= j < i ==> r@[j]@ == self.entries@[j].0@,
            decreases self.entries@.len() - i,
        {
            r.push(self.entries[i].0.clone());
            i = i + 1;
        }
        proof {
            assert forall|j: int| 0 <= j < r@.len() implies self@.contains_key(#[trigger] r@[j]@) by {
                lemma_map_contains_index(self.entries@, j);
            }
            assert forall|k: Seq<char>| self@.contains_key(k) implies exists|j: int|
                0 <= j < r@.len() && r@[j]@ == k by {
                lemma_map_contains_exists(self.entries@, k);
                let j = choose|j: int| 0 <= j < self.entries@.len() && self.entries@[j].0@ == k;
                assert(r@[j]@ == k);
            }
        }
        r
    }
}

} // verus!
